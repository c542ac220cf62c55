use cloudflare_deprecation_reverse_proxy::proxy::{
    HeaderRejected, ProxyServer, RequestContext, PROXY_HOST,
};
use pingora_http::{RequestHeader, ResponseHeader};

const MARK: &str = "https://github.com/thewisenerd/cloudflare_deprecation_reverse_proxy";

fn server() -> ProxyServer {
    ProxyServer::new(PROXY_HOST.to_string())
}

fn pending_ctx(server: &ProxyServer) -> RequestContext {
    let mut ctx = server.new_ctx();
    server.request_filter("/client/v4/zones/Z/dns_records", &mut ctx);
    ctx
}

fn values(header: &ResponseHeader, name: &str) -> Vec<Vec<u8>> {
    header.headers.get_all(name).iter().map(|v| v.as_bytes().to_vec()).collect()
}

fn wire(header: &ResponseHeader) -> Vec<u8> {
    let mut out = Vec::new();
    header.header_to_h1_wire(&mut out);
    out
}

#[test]
fn the_upstream_host_is_the_api() {
    assert_eq!(PROXY_HOST, "api.cloudflare.com");
    assert_eq!(server().upstream_host, "api.cloudflare.com");
}

#[test]
fn host_is_set_on_upstream_requests() {
    let mut req = RequestHeader::build("GET", b"/client/v4/zones", None).unwrap();
    assert!(server().upstream_request_filter(&mut req).is_ok());
    let got: Vec<_> = req.headers.get_all("host").iter().collect();
    assert_eq!(got.len(), 1);
    assert_eq!(got[0].as_bytes(), b"api.cloudflare.com");
    assert_eq!(req.headers.len(), 1);
}

#[test]
fn host_replaces_what_the_client_sent() {
    let mut req = RequestHeader::build("GET", b"/", None).unwrap();
    req.append_header("HOST", "localhost:6191").unwrap();
    req.append_header("host", "other").unwrap();
    req.append_header("Accept", "*/*").unwrap();
    assert!(server().upstream_request_filter(&mut req).is_ok());
    let got: Vec<_> = req.headers.get_all("host").iter().collect();
    assert_eq!(got.len(), 1);
    assert_eq!(got[0].as_bytes(), b"api.cloudflare.com");
    assert_eq!(req.headers.get("accept").unwrap().as_bytes(), b"*/*");
    assert_eq!(req.headers.keys_len(), 2);
}

#[test]
fn a_host_with_a_control_character_is_rejected() {
    for host in ["bad\nhost", "bad\rhost", "\u{7f}", "a\u{0}b"] {
        let mut req = RequestHeader::build("GET", b"/", None).unwrap();
        req.insert_header("Host", "client.example").unwrap();
        let r = ProxyServer::new(host.to_string()).upstream_request_filter(&mut req);
        assert!(matches!(r, Err(HeaderRejected::Invalid(_))), "host {:?}", host);
        assert_eq!(req.headers.get("host").unwrap().as_bytes(), b"client.example");
        assert_eq!(req.headers.len(), 1);
    }
}

#[test]
fn a_host_with_tab_or_high_bytes_is_accepted() {
    for host in ["a\tb", "h\u{f6}st.example", ""] {
        let mut req = RequestHeader::build("GET", b"/", None).unwrap();
        let r = ProxyServer::new(host.to_string()).upstream_request_filter(&mut req);
        assert!(r.is_ok(), "host {:?}", host);
        assert_eq!(req.headers.get("host").unwrap().as_bytes(), host.as_bytes());
    }
}

#[test]
fn a_full_request_header_is_refused_untouched() {
    let mut req = RequestHeader::build("GET", b"/", None).unwrap();
    for i in 0..6554 {
        req.insert_header(format!("x-h{}", i), "v").unwrap();
    }
    let r = server().upstream_request_filter(&mut req);
    assert!(matches!(r, Err(HeaderRejected::Full)));
    assert_eq!(req.headers.keys_len(), 6554);
    assert!(req.headers.get("host").is_none());
}

#[test]
fn a_request_header_with_room_for_one_takes_host() {
    let mut req = RequestHeader::build("GET", b"/", None).unwrap();
    for i in 0..6553 {
        req.insert_header(format!("x-h{}", i), "v").unwrap();
    }
    assert!(server().upstream_request_filter(&mut req).is_ok());
    assert_eq!(req.headers.keys_len(), 6554);
    assert_eq!(req.headers.get("host").unwrap().as_bytes(), b"api.cloudflare.com");
}

#[test]
fn without_mutation_only_the_mark_is_added() {
    let s = server();
    let ctx = s.new_ctx();
    let mut resp = ResponseHeader::build(200, None).unwrap();
    resp.append_header("Content-Type", "application/json").unwrap();
    resp.append_header("Content-Length", "42").unwrap();
    resp.append_header("Set-Cookie", "a=1").unwrap();
    resp.append_header("Set-Cookie", "b=2").unwrap();
    assert!(s.response_filter(&mut resp, &ctx).is_ok());
    assert_eq!(
        wire(&resp),
        b"Content-Type: application/json\r\nContent-Length: 42\r\nSet-Cookie: a=1\r\n\
Set-Cookie: b=2\r\nx-server-source: https://github.com/thewisenerd/cloudflare_deprecation_reverse_proxy\r\n"
            .to_vec()
    );
}

#[test]
fn with_mutation_the_length_gives_way_to_chunked_framing() {
    let s = server();
    let ctx = pending_ctx(&s);
    let mut resp = ResponseHeader::build(200, None).unwrap();
    resp.append_header("Content-Type", "application/json").unwrap();
    resp.append_header("Content-Length", "42").unwrap();
    assert!(s.response_filter(&mut resp, &ctx).is_ok());
    assert!(resp.headers.get("content-length").is_none());
    assert_eq!(values(&resp, "transfer-encoding"), vec![b"chunked".to_vec()]);
    assert_eq!(values(&resp, "x-server-source"), vec![MARK.as_bytes().to_vec()]);
    assert_eq!(values(&resp, "content-type"), vec![b"application/json".to_vec()]);
    assert_eq!(resp.headers.len(), 3);
}

#[test]
fn the_length_is_removed_whatever_its_case_and_count() {
    let s = server();
    let ctx = pending_ctx(&s);
    let mut resp = ResponseHeader::build(200, None).unwrap();
    resp.append_header("content-length", "1").unwrap();
    resp.append_header("CONTENT-LENGTH", "2").unwrap();
    resp.append_header("Transfer-Encoding", "gzip").unwrap();
    resp.append_header("TRANSFER-ENCODING", "identity").unwrap();
    resp.append_header("X-Server-Source", "upstream").unwrap();
    assert!(s.response_filter(&mut resp, &ctx).is_ok());
    assert!(resp.headers.get("content-length").is_none());
    assert_eq!(values(&resp, "transfer-encoding"), vec![b"chunked".to_vec()]);
    assert_eq!(values(&resp, "x-server-source"), vec![MARK.as_bytes().to_vec()]);
    assert_eq!(resp.headers.len(), 2);
}

#[test]
fn the_status_line_is_left_alone() {
    let s = server();
    for ctx in [s.new_ctx(), pending_ctx(&s)] {
        for status in [200u16, 204, 301, 404, 502] {
            let mut resp = ResponseHeader::build(status, None).unwrap();
            resp.set_version(pingora_http::Version::HTTP_2);
            resp.set_reason_phrase(Some("As You Like It")).unwrap();
            resp.append_header("Content-Type", "text/plain").unwrap();
            resp.append_header("Content-Length", "42").unwrap();
            assert!(s.response_filter(&mut resp, &ctx).is_ok());
            assert_eq!(resp.status.as_u16(), status);
            assert_eq!(resp.version, pingora_http::Version::HTTP_2);
            assert_eq!(resp.get_reason_phrase(), Some("As You Like It"));
            assert_eq!(values(&resp, "content-type"), vec![b"text/plain".to_vec()]);
        }
    }
}

#[test]
fn the_request_line_is_left_alone() {
    let mut req = RequestHeader::build("PATCH", b"/client/v4/zones/Z/dns_records?page=2", None)
        .unwrap();
    req.set_version(pingora_http::Version::HTTP_2);
    req.set_send_end_stream(false);
    req.append_header("Accept", "*/*").unwrap();
    assert!(server().upstream_request_filter(&mut req).is_ok());
    assert_eq!(req.method.as_str(), "PATCH");
    assert_eq!(req.uri.to_string(), "/client/v4/zones/Z/dns_records?page=2");
    assert_eq!(req.raw_path(), &b"/client/v4/zones/Z/dns_records?page=2"[..]);
    assert_eq!(req.version, pingora_http::Version::HTTP_2);
    assert_eq!(req.send_end_stream(), Some(false));
    assert_eq!(req.headers.get("accept").unwrap().as_bytes(), b"*/*");
}

#[test]
fn a_response_without_length_still_gets_chunked_framing() {
    let s = server();
    let ctx = pending_ctx(&s);
    let mut resp = ResponseHeader::build(404, None).unwrap();
    assert!(s.response_filter(&mut resp, &ctx).is_ok());
    assert_eq!(values(&resp, "transfer-encoding"), vec![b"chunked".to_vec()]);
    assert_eq!(resp.headers.len(), 2);
}

#[test]
fn a_full_response_header_is_refused_untouched() {
    let s = server();
    let mut resp = ResponseHeader::build(200, None).unwrap();
    for i in 0..6554 {
        resp.insert_header(format!("x-h{}", i), "v").unwrap();
    }
    let before = wire(&resp);
    assert!(matches!(s.response_filter(&mut resp, &s.new_ctx()), Err(HeaderRejected::Full)));
    assert_eq!(wire(&resp), before);
    assert!(matches!(s.response_filter(&mut resp, &pending_ctx(&s)), Err(HeaderRejected::Full)));
    assert_eq!(wire(&resp), before);
}

#[test]
fn room_is_counted_by_what_the_rewrite_may_add() {
    let s = server();
    let mut resp = ResponseHeader::build(200, None).unwrap();
    for i in 0..6553 {
        resp.insert_header(format!("x-h{}", i), "v").unwrap();
    }
    let before = wire(&resp);
    assert!(matches!(s.response_filter(&mut resp, &pending_ctx(&s)), Err(HeaderRejected::Full)));
    assert_eq!(wire(&resp), before);
    assert!(s.response_filter(&mut resp, &s.new_ctx()).is_ok());
    assert_eq!(resp.headers.keys_len(), 6554);
    assert_eq!(values(&resp, "x-server-source"), vec![MARK.as_bytes().to_vec()]);

    let mut resp = ResponseHeader::build(200, None).unwrap();
    for i in 0..6552 {
        resp.insert_header(format!("x-h{}", i), "v").unwrap();
    }
    assert!(s.response_filter(&mut resp, &pending_ctx(&s)).is_ok());
    assert_eq!(resp.headers.keys_len(), 6554);
    assert_eq!(values(&resp, "transfer-encoding"), vec![b"chunked".to_vec()]);
}
