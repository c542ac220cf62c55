use cloudflare_deprecation_reverse_proxy::deprecation::{Deprecation, Deprecation20241130};
use cloudflare_deprecation_reverse_proxy::mutation::{mutate, mutate2024_11_30, patch_zone_id};
use serde_json::Value;

fn parse(text: &str) -> Value {
    serde_json::from_str(text).unwrap()
}

fn zone(id: &str) -> Deprecation {
    Deprecation::D2024_11_30(Deprecation20241130 { zone_id: id.to_string() })
}

#[test]
fn records_gain_the_zone_id() {
    let body = br#"{"result":[{"id":"a"},{"id":"b"}]}"#;
    let out = mutate2024_11_30(body, "Z").ok().unwrap();
    let got: Value = serde_json::from_slice(&out).unwrap();
    assert_eq!(got, parse(r#"{"result":[{"id":"a","zone_id":"Z"},{"id":"b","zone_id":"Z"}]}"#));
    assert_eq!(out, br#"{"result":[{"id":"a","zone_id":"Z"},{"id":"b","zone_id":"Z"}]}"#.to_vec());
}

#[test]
fn an_existing_zone_id_is_overwritten() {
    let mut doc = parse(r#"{"result":[{"zone_id":"old","name":"x"}]}"#);
    patch_zone_id(&mut doc, "new");
    assert_eq!(doc, parse(r#"{"result":[{"zone_id":"new","name":"x"}]}"#));
}

#[test]
fn a_body_that_is_not_json_is_an_error() {
    assert!(mutate2024_11_30(b"<html>502</html>", "Z").is_err());
    assert!(mutate2024_11_30(b"", "Z").is_err());
    assert!(mutate2024_11_30(br#"{"result":[{"id":"a"}"#, "Z").is_err());
    assert!(mutate2024_11_30(br#"{"result":[]} trailing"#, "Z").is_err());
}

#[test]
fn a_document_without_result_is_left_alone() {
    let body = br#"{"errors":[],"success":true}"#;
    let out = mutate2024_11_30(body, "Z").ok().unwrap();
    assert_eq!(out, body.to_vec());
}

#[test]
fn a_body_that_lists_no_records_is_returned_byte_for_byte() {
    for body in [
        &br#"{ "success" : true }"#[..],
        br#"{"z":1,"a":2}"#,
        br#"{ "result" : "none" }"#,
        b"[1, 2,\n 3]",
        b"  null",
        b"1.50",
    ] {
        assert_eq!(mutate2024_11_30(body, "Z").ok().unwrap(), body.to_vec());
        assert_eq!(mutate(body, &[zone("a"), zone("b")]).ok().unwrap(), body.to_vec());
    }
}

#[test]
fn patch_zone_id_tells_whether_records_are_listed() {
    for (text, listed) in [
        (r#"{"result":[]}"#, true),
        (r#"{"result":[1]}"#, true),
        (r#"{"result":[{}],"x":1}"#, true),
        (r#"{"result":{}}"#, false),
        (r#"{"results":[]}"#, false),
        (r#"{"Result":[]}"#, false),
        (r#"[{"result":[]}]"#, false),
        (r#"{}"#, false),
        (r#""result""#, false),
    ] {
        let mut doc = parse(text);
        assert_eq!(patch_zone_id(&mut doc, "Z"), listed, "{}", text);
    }
}

#[test]
fn a_body_with_records_is_written_anew() {
    let out = mutate2024_11_30(b" { \"result\" : [ ] , \"a\" : 1 } ", "Z").ok().unwrap();
    assert_eq!(out, br#"{"a":1,"result":[]}"#.to_vec());
}

#[test]
fn a_result_that_is_no_array_is_left_alone() {
    for text in [
        r#"{"result":{"id":"a"}}"#,
        r#"{"result":null}"#,
        r#"{"result":"x"}"#,
        r#"{"result":7}"#,
        r#"[{"result":[{}]}]"#,
        r#""result""#,
        r#"null"#,
    ] {
        let mut doc = parse(text);
        patch_zone_id(&mut doc, "Z");
        assert_eq!(doc, parse(text));
    }
}

#[test]
fn an_empty_result_is_left_alone() {
    let mut doc = parse(r#"{"result":[]}"#);
    patch_zone_id(&mut doc, "Z");
    assert_eq!(doc, parse(r#"{"result":[]}"#));
}

#[test]
fn a_null_record_becomes_an_object() {
    let mut doc = parse(r#"{"result":[null]}"#);
    patch_zone_id(&mut doc, "Z");
    assert_eq!(doc, parse(r#"{"result":[{"zone_id":"Z"}]}"#));
}

#[test]
fn records_that_are_no_objects_are_left_alone() {
    let mut doc = parse(r#"{"result":[1,"two",[3],true,{"id":"a"}]}"#);
    patch_zone_id(&mut doc, "Z");
    assert_eq!(doc, parse(r#"{"result":[1,"two",[3],true,{"id":"a","zone_id":"Z"}]}"#));
}

#[test]
fn only_the_top_level_result_is_patched() {
    let mut doc = parse(r#"{"result":[{"result":[{"id":"in"}]}],"other":{"result":[{}]}}"#);
    patch_zone_id(&mut doc, "Z");
    assert_eq!(
        doc,
        parse(r#"{"result":[{"result":[{"id":"in"}],"zone_id":"Z"}],"other":{"result":[{}]}}"#)
    );
}

#[test]
fn no_deprecation_copies_the_body() {
    let body = b"not even json";
    assert_eq!(mutate(body, &[]).ok().unwrap(), body.to_vec());
}

#[test]
fn deprecations_apply_in_order() {
    let body = br#"{"result":[{"id":"a"}]}"#;
    let out = mutate(body, &[zone("first"), zone("second")]).ok().unwrap();
    assert_eq!(out, br#"{"result":[{"id":"a","zone_id":"second"}]}"#.to_vec());
    let out = mutate(body, &[zone("second"), zone("first")]).ok().unwrap();
    assert_eq!(out, br#"{"result":[{"id":"a","zone_id":"first"}]}"#.to_vec());
}

#[test]
fn mutate_fails_on_a_malformed_body() {
    assert!(mutate(b"{", &[zone("Z")]).is_err());
}

#[test]
fn the_zone_id_is_written_as_json_text() {
    let out = mutate2024_11_30(br#"{"result":[{}]}"#, "a\"b\\c").ok().unwrap();
    assert_eq!(out, br#"{"result":[{"zone_id":"a\"b\\c"}]}"#.to_vec());
}

#[test]
fn numbers_pass_as_they_are() {
    let body = br#"{"result":[{"ttl":1,"w":-2,"x":1.5,"y":1e300,"z":18446744073709551615}]}"#;
    let out = mutate2024_11_30(body, "Z").ok().unwrap();
    assert_eq!(
        out,
        br#"{"result":[{"ttl":1,"w":-2,"x":1.5,"y":1e+300,"z":18446744073709551615,"zone_id":"Z"}]}"#
            .to_vec()
    );
}
