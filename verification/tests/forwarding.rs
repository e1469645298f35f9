use media_proxy::handler::BodyPlan;
use media_proxy::handler::RequestPlan;
use media_proxy::handler::StreamAction;
use media_proxy::handler::StreamEvent;
use media_proxy::handler::UpstreamOutcome;
use media_proxy::handler::failure_response;
use media_proxy::handler::plan_request;
use media_proxy::handler::relay_step;
use media_proxy::handler::relayed_response;
use media_proxy::handler::respond;
use media_proxy::headers::HeaderField;

fn h(name: &str, value: &str) -> HeaderField {
    HeaderField { name: name.as_bytes().to_vec(), value: value.as_bytes().to_vec() }
}

fn pairs(hs: &[HeaderField]) -> Vec<(String, String)> {
    hs.iter()
        .map(|f| {
            (
                String::from_utf8(f.name.clone()).unwrap(),
                String::from_utf8(f.value.clone()).unwrap(),
            )
        })
        .collect()
}

fn has_header(hs: &[HeaderField], name: &str, value: &str) -> bool {
    pairs(hs).iter().any(|(n, v)| n == name && v == value)
}

#[test]
fn missing_url_is_rejected_without_forwarding() {
    let inbound = vec![h("range", "bytes=0-99"), h("authorization", "SECRET-REDACTED")];
    match plan_request(None, &inbound) {
        RequestPlan::Reject(head) => {
            assert!(!(200 <= head.status && head.status < 300));
            assert_eq!(head.status, 500);
            assert!(matches!(head.body, BodyPlan::Empty));
        }
        RequestPlan::Forward { .. } => panic!("a request without a url must never be forwarded"),
    }
}

#[test]
fn present_url_forwards_only_safelisted_headers() {
    let inbound = vec![
        h("Range", "bytes=0-99"),
        h("Authorization", "SECRET-REDACTED"),
        h("User-Agent", "player/1.0"),
        h("Cookie", "session=abc"),
        h("Accept", "video/mp4"),
        h("X-Custom", "nope"),
    ];
    match plan_request(Some("http://example.test/clip.mp4".to_string()), &inbound) {
        RequestPlan::Forward { url, headers } => {
            assert_eq!(url, "http://example.test/clip.mp4");
            assert_eq!(
                pairs(&headers),
                vec![
                    ("Range".to_string(), "bytes=0-99".to_string()),
                    ("User-Agent".to_string(), "player/1.0".to_string()),
                    ("Accept".to_string(), "video/mp4".to_string()),
                ]
            );
        }
        RequestPlan::Reject(_) => panic!("a request with a url must be forwarded"),
    }
}

#[test]
fn range_header_forwarded_unmodified_whatever_its_case() {
    let inbound = vec![h("RaNgE", "bytes=500-999")];
    match plan_request(Some("http://example.test/a".to_string()), &inbound) {
        RequestPlan::Forward { headers, .. } => {
            assert_eq!(pairs(&headers), vec![("RaNgE".to_string(), "bytes=500-999".to_string())]);
        }
        RequestPlan::Reject(_) => panic!("must forward"),
    }
}

#[test]
fn unsafelisted_request_headers_never_leave() {
    let inbound = vec![
        h("authorization", "SECRET-REDACTED"),
        h("cookie", "sid=1"),
        h("x-forwarded-for", "10.0.0.1"),
        h("referer", "http://app.local/"),
    ];
    match plan_request(Some("http://example.test/a".to_string()), &inbound) {
        RequestPlan::Forward { headers, .. } => assert!(headers.is_empty()),
        RequestPlan::Reject(_) => panic!("must forward"),
    }
}

#[test]
fn near_miss_names_are_not_safelisted() {
    let inbound = vec![h("rang", "x"), h("rangee", "x"), h("accept-language", "en")];
    match plan_request(Some("http://example.test/a".to_string()), &inbound) {
        RequestPlan::Forward { headers, .. } => assert!(headers.is_empty()),
        RequestPlan::Reject(_) => panic!("must forward"),
    }
}

#[test]
fn upstream_status_is_mirrored_verbatim() {
    for status in [200u16, 206, 301, 404, 503] {
        let r = respond(UpstreamOutcome::Connected { status, headers: Vec::new() });
        assert_eq!(r.status, status);
        assert!(matches!(r.body, BodyPlan::StreamUpstream));
    }
}

#[test]
fn cors_header_present_on_every_response() {
    let relayed = respond(UpstreamOutcome::Connected {
        status: 200,
        headers: vec![h("Content-Type", "video/mp4")],
    });
    assert!(has_header(&relayed.headers, "access-control-allow-origin", "*"));

    let failed = respond(UpstreamOutcome::Failed);
    assert!(has_header(&failed.headers, "access-control-allow-origin", "*"));

    let rejected = match plan_request(None, &Vec::new()) {
        RequestPlan::Reject(head) => head,
        RequestPlan::Forward { .. } => panic!("must reject"),
    };
    assert!(has_header(&rejected.headers, "access-control-allow-origin", "*"));
}

#[test]
fn unreachable_upstream_gives_exactly_500_with_empty_body() {
    let r = respond(UpstreamOutcome::Failed);
    assert_eq!(r.status, 500);
    assert!(matches!(r.body, BodyPlan::Empty));
    assert_eq!(
        pairs(&r.headers),
        vec![("access-control-allow-origin".to_string(), "*".to_string())]
    );
}

#[test]
fn range_response_pair_relayed_unmodified() {
    let upstream = vec![
        h("Content-Range", "bytes 0-99/1000"),
        h("Accept-Ranges", "bytes"),
        h("Set-Cookie", "sid=1"),
        h("X-Upstream", "secret"),
    ];
    let r = respond(UpstreamOutcome::Connected { status: 206, headers: upstream });
    assert_eq!(
        pairs(&r.headers),
        vec![
            ("Content-Range".to_string(), "bytes 0-99/1000".to_string()),
            ("Accept-Ranges".to_string(), "bytes".to_string()),
            ("access-control-allow-origin".to_string(), "*".to_string()),
        ]
    );
}

#[test]
fn safelisted_response_headers_kept_in_order() {
    let upstream = vec![
        h("content-type", "audio/flac"),
        h("content-length", "123456"),
        h("content-range", "bytes 0-123455/123456"),
        h("accept-ranges", "bytes"),
    ];
    let r = relayed_response(206, &upstream);
    assert_eq!(r.status, 206);
    assert_eq!(
        pairs(&r.headers),
        vec![
            ("content-type".to_string(), "audio/flac".to_string()),
            ("content-length".to_string(), "123456".to_string()),
            ("content-range".to_string(), "bytes 0-123455/123456".to_string()),
            ("accept-ranges".to_string(), "bytes".to_string()),
            ("access-control-allow-origin".to_string(), "*".to_string()),
        ]
    );
}

#[test]
fn failure_head_is_500_empty_with_cors_alone() {
    let r = failure_response();
    assert_eq!(r.status, 500);
    assert!(matches!(r.body, BodyPlan::Empty));
    assert_eq!(
        pairs(&r.headers),
        vec![("access-control-allow-origin".to_string(), "*".to_string())]
    );
}

#[test]
fn relay_passes_each_chunk_through_unchanged() {
    let chunk = vec![1u8, 2, 3, 250, 255];
    match relay_step(StreamEvent::Chunk(chunk.clone())) {
        StreamAction::Relay(bytes) => assert_eq!(bytes, chunk),
        _ => panic!("a chunk must be relayed"),
    }
}

#[test]
fn relay_finishes_on_end_and_aborts_on_transport_error() {
    assert!(matches!(relay_step(StreamEvent::End), StreamAction::Finish));
    assert!(matches!(relay_step(StreamEvent::TransportError), StreamAction::Abort));
}
