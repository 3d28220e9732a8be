use nox::proxy::{
    get_proxy_url, init_proxy_port, looks_like_manifest, proxy_handler, resolve_url, resolve_with,
    rewrite_manifest, rewrite_uri_attribute, FetchOutcome, ProxyPort, ProxyReply,
    BASE_PROXY_PORT,
};

fn chars(s: &str) -> Vec<char> {
    s.chars().collect()
}

fn text(v: Vec<char>) -> String {
    v.into_iter().collect()
}

#[test]
fn port_is_unset_until_assigned_and_never_reassigned() {
    let mut port = ProxyPort::unset();
    assert_eq!(port.get(), None);
    assert_eq!(port.as_number(), 0);
    assert!(!port.assign(0));
    assert_eq!(port.get(), None);
    assert!(port.assign(9880));
    assert_eq!(port.get(), Some(9880));
    assert!(!port.assign(9881));
    assert_eq!(port.get(), Some(9880));
    assert_eq!(port.as_number(), 9880);
}

#[test]
fn first_port_that_binds_is_taken() {
    let mut port = ProxyPort::unset();
    let tried = std::cell::RefCell::new(Vec::new());
    let found = init_proxy_port(&mut port, |p| {
        tried.borrow_mut().push(p);
        p >= 9880
    });
    assert_eq!(found, Some(9880));
    assert_eq!(port.get(), Some(9880));
    assert_eq!(*tried.borrow(), vec![9878, 9879, 9880]);
}

#[test]
fn no_port_binds() {
    let mut port = ProxyPort::unset();
    let tried = std::cell::RefCell::new(Vec::new());
    let found = init_proxy_port(&mut port, |p| {
        tried.borrow_mut().push(p);
        false
    });
    assert_eq!(found, None);
    assert_eq!(port.get(), None);
    assert_eq!(tried.borrow().len(), 10);
    assert_eq!(tried.borrow()[0], BASE_PROXY_PORT);
    assert_eq!(tried.borrow()[9], BASE_PROXY_PORT + 9);
}

#[test]
fn port_that_is_set_is_not_searched_again() {
    let mut port = ProxyPort::unset();
    assert!(port.assign(9879));
    let found = init_proxy_port(&mut port, |_| panic!("no port is tried"));
    assert_eq!(found, Some(9879));
}

#[test]
fn proxied_address_is_percent_encoded() {
    let mut port = ProxyPort::unset();
    port.assign(9878);
    assert_eq!(
        get_proxy_url(&port, "https://cdn.example.com/a b/index.m3u8?x=1&y=é"),
        "http://localhost:9878/proxy?url=https%3A%2F%2Fcdn.example.com%2Fa%20b%2Findex.m3u8%3Fx%3D1%26y%3D%C3%A9"
    );
    assert_eq!(
        get_proxy_url(&ProxyPort::unset(), "abc-_.~XYZ019"),
        "http://localhost:0/proxy?url=abc-_.~XYZ019"
    );
}

#[test]
fn absolute_reference_stays() {
    assert_eq!(
        resolve_url("https://cdn.example.com/a/index.m3u8", "https://other.example.com/x.ts"),
        "https://other.example.com/x.ts"
    );
    assert_eq!(
        resolve_url("https://cdn.example.com/a/index.m3u8", "http://other.example.com/x.ts"),
        "http://other.example.com/x.ts"
    );
}

#[test]
fn relative_reference_is_joined() {
    assert_eq!(
        resolve_url("https://cdn.example.com/a/b/index.m3u8", "seg1.ts"),
        "https://cdn.example.com/a/b/seg1.ts"
    );
    assert_eq!(
        resolve_url("https://cdn.example.com/a/b/index.m3u8?token=1", "../c/seg1.ts"),
        "https://cdn.example.com/a/c/seg1.ts"
    );
    assert_eq!(
        resolve_url("https://cdn.example.com/a/b/index.m3u8", "/root.ts"),
        "https://cdn.example.com/root.ts"
    );
}

#[test]
fn reference_to_a_base_that_is_no_url_falls_back_to_its_directory() {
    assert_eq!(resolve_url("some/dir/index.m3u8", "seg1.ts"), "some/dir/seg1.ts");
    assert_eq!(resolve_url("index.m3u8", "seg1.ts"), "index.m3u8/seg1.ts");
    assert_eq!(
        text(resolve_with(&chars("a/b/c"), &chars("x"), &Some("joined".to_string()))),
        "joined"
    );
    assert_eq!(text(resolve_with(&chars("a/b/c"), &chars("x"), &None)), "a/b/x");
    assert_eq!(
        text(resolve_with(&chars("a/b/c"), &chars("https://h/x"), &Some("joined".to_string()))),
        "https://h/x"
    );
}

#[test]
fn uri_attribute_is_rewritten() {
    assert_eq!(
        rewrite_uri_attribute(
            "https://cdn.example.com/a/index.m3u8",
            "#EXT-X-KEY:METHOD=AES-128,URI=\"key.bin\",IV=0x1",
            9878
        ),
        "#EXT-X-KEY:METHOD=AES-128,URI=\"http://localhost:9878/proxy?url=https%3A%2F%2Fcdn.example.com%2Fa%2Fkey.bin\",IV=0x1"
    );
    assert_eq!(
        rewrite_uri_attribute("https://cdn.example.com/a/index.m3u8", "#EXT-X-MAP:URI='init.mp4'", 9879),
        "#EXT-X-MAP:URI=\"http://localhost:9879/proxy?url=https%3A%2F%2Fcdn.example.com%2Fa%2Finit.mp4\""
    );
}

#[test]
fn line_without_a_closed_uri_attribute_stays() {
    assert_eq!(
        rewrite_uri_attribute("https://cdn.example.com/a/index.m3u8", "#EXT-X-MAP:URI=\"init.mp4", 9878),
        "#EXT-X-MAP:URI=\"init.mp4"
    );
    assert_eq!(
        rewrite_uri_attribute("https://cdn.example.com/a/index.m3u8", "#EXT-X-MAP:URI=init.mp4", 9878),
        "#EXT-X-MAP:URI=init.mp4"
    );
    assert_eq!(
        rewrite_uri_attribute("https://cdn.example.com/a/index.m3u8", "#EXT-X-MAP:URI=\"a,URI='b'", 9878),
        "#EXT-X-MAP:URI=\"a,URI=\"http://localhost:9878/proxy?url=https%3A%2F%2Fcdn.example.com%2Fa%2Fb\""
    );
}

#[test]
fn manifest_is_rewritten_line_by_line() {
    let manifest = "#EXTM3U\r\n#EXT-X-VERSION:3\n\n#EXT-X-KEY:METHOD=AES-128,URI=\"key.bin\"\n#EXTINF:2.0,\n  seg0.ts  \nhttps://other.example.com/seg1.ts\n# comment\n";
    let expected = "#EXTM3U\n#EXT-X-VERSION:3\n\n#EXT-X-KEY:METHOD=AES-128,URI=\"http://localhost:9878/proxy?url=https%3A%2F%2Fcdn.example.com%2Fa%2Fkey.bin\"\n#EXTINF:2.0,\nhttp://localhost:9878/proxy?url=https%3A%2F%2Fcdn.example.com%2Fa%2Fseg0.ts\nhttp://localhost:9878/proxy?url=https%3A%2F%2Fother.example.com%2Fseg1.ts\n# comment";
    assert_eq!(
        rewrite_manifest("https://cdn.example.com/a/index.m3u8", manifest, 9878),
        expected
    );
}

#[test]
fn empty_manifest_stays_empty() {
    assert_eq!(rewrite_manifest("https://cdn.example.com/a/index.m3u8", "", 9878), "");
    assert_eq!(rewrite_manifest("https://cdn.example.com/a/index.m3u8", "\n", 9878), "");
    assert_eq!(rewrite_manifest("https://cdn.example.com/a/index.m3u8", "\n\n", 9878), "\n");
    assert_eq!(rewrite_manifest("https://cdn.example.com/a/index.m3u8", "#EXTM3U\r", 9878), "#EXTM3U\r");
}

#[test]
fn manifest_is_known_by_content_type_or_address() {
    assert!(looks_like_manifest("application/vnd.apple.mpegurl", "https://h/x"));
    assert!(looks_like_manifest("audio/x-mpegurl", "https://h/x"));
    assert!(looks_like_manifest("text/plain", "https://h/index.m3u8?t=1"));
    assert!(!looks_like_manifest("video/mp2t", "https://h/seg.ts"));
}

#[test]
fn failed_fetch_is_a_gateway_error() {
    assert_eq!(
        proxy_handler(9878, "https://h/x", FetchOutcome::RequestFailed("timed out".to_string())),
        ProxyReply { status: 502, content_type: None, body: b"Request failed: timed out".to_vec() }
    );
    assert_eq!(
        proxy_handler(9878, "https://h/x", FetchOutcome::BodyFailed("reset".to_string())),
        ProxyReply { status: 502, content_type: None, body: b"Failed to read body: reset".to_vec() }
    );
}

#[test]
fn segment_is_handed_on_byte_for_byte() {
    let body = vec![0u8, 159, 146, 150, 255];
    assert_eq!(
        proxy_handler(
            9878,
            "https://h/seg.ts",
            FetchOutcome::Fetched { content_type: Some("video/mp2t".to_string()), body: body.clone() }
        ),
        ProxyReply { status: 200, content_type: Some("video/mp2t".to_string()), body: body.clone() }
    );
    assert_eq!(
        proxy_handler(9878, "https://h/seg.ts", FetchOutcome::Fetched { content_type: None, body: body.clone() }),
        ProxyReply { status: 200, content_type: Some("application/octet-stream".to_string()), body }
    );
}

#[test]
fn fetched_manifest_is_rewritten() {
    let reply = proxy_handler(
        9878,
        "https://cdn.example.com/a/index.m3u8",
        FetchOutcome::Fetched { content_type: None, body: b"#EXTM3U\nseg0.ts\n".to_vec() },
    );
    assert_eq!(reply.status, 200);
    assert_eq!(reply.content_type, Some("application/vnd.apple.mpegurl".to_string()));
    assert_eq!(
        String::from_utf8(reply.body).unwrap(),
        "#EXTM3U\nhttp://localhost:9878/proxy?url=https%3A%2F%2Fcdn.example.com%2Fa%2Fseg0.ts"
    );
}

#[test]
fn manifest_that_is_no_utf8_is_read_with_replacement_characters() {
    let reply = proxy_handler(
        9878,
        "https://cdn.example.com/a/index.m3u8",
        FetchOutcome::Fetched { content_type: None, body: vec![b'#', 0xff, b'\n'] },
    );
    assert_eq!(String::from_utf8(reply.body).unwrap(), "#\u{fffd}");
}
