use package_report::decode::{decode, DecodeError};

const HAPPY: &str = "{\"retcode\":0,\"message\":\"OK\",\"data\":{\"game_packages\":[\
 {\"game\":{\"id\":\"g1\",\"biz\":\"hk4e\"},\
 \"main\":{\"major\":{\"version\":\"5.0\",\
 \"game_pkgs\":[{\"url\":\"http://x/a\",\"md5\":\"aa\",\
 \"size\":\"1073741824\",\"decompressed_size\":\"2147483648\"}],\
 \"audio_pkgs\":[{\"language\":\"en-us\",\"url\":\"http://x/b\",\"md5\":\"bb\",\
 \"size\":\"536870912\",\"decompressed_size\":\"536870912\"}]},\
 \"patches\":[],\"res_list_url\":\"http://r\"},\
 \"pre_download\":{\"major\":null,\"patches\":[\
 {\"version\":\"4.9.0\",\"game_pkgs\":[],\"audio_pkgs\":[],\"res_list_url\":null}]}}\
 ]}}";

#[test]
fn decode_happy_path_builds_document() {
    let doc = decode(HAPPY).expect("well-formed response must decode");
    assert_eq!(doc.entries.len(), 1);
    let e = &doc.entries[0];
    assert_eq!(e.id, "g1");
    assert_eq!(e.biz, "hk4e");
    let major = e.main.major.as_ref().expect("main major present");
    assert_eq!(major.version, "5.0");
    assert_eq!(major.game_pkgs.len(), 1);
    assert_eq!(major.game_pkgs[0].url, "http://x/a");
    assert_eq!(major.game_pkgs[0].checksum, "aa");
    assert_eq!(major.game_pkgs[0].size, "1073741824");
    assert_eq!(major.game_pkgs[0].decompressed_size, "2147483648");
    assert_eq!(major.audio_pkgs.len(), 1);
    assert_eq!(major.audio_pkgs[0].language, "en-us");
    assert_eq!(e.main.res_list_url.as_deref(), Some("http://r"));
    assert!(e.main.patches.is_empty());
    let pre = e.pre_download.as_ref().expect("pre_download present");
    assert!(pre.major.is_none());
    assert_eq!(pre.patches.len(), 1);
    assert_eq!(pre.patches[0].version, "4.9.0");
    assert!(pre.patches[0].res_list_url.is_none());
}

#[test]
fn decode_ignores_unknown_fields_and_whitespace() {
    let raw = "{ \"retcode\" : 0 , \"extra\": {\"deep\": [1, -2.5e3, true, null, \"s\"]},\n\
       \"message\" : \"fine\" ,\n\
       \"data\" : { \"game_packages\" : [ ] , \"note\": 7 } }";
    let doc = decode(raw).expect("unknown members are skipped");
    assert!(doc.entries.is_empty());
}

#[test]
fn decode_nonzero_status_returns_api_error_verbatim() {
    let raw = "{\"retcode\":-1,\"message\":\"boom\",\"data\":null}";
    match decode(raw) {
        Err(DecodeError::ApiError(m)) => assert_eq!(m, "boom"),
        _ => panic!("expected ApiError"),
    }
}

#[test]
fn decode_nonzero_status_wins_over_schema_mismatch() {
    // data is well-formed JSON that does not match the schema; the status
    // code still decides
    let raw = "{\"retcode\":7,\"message\":\"maintenance\",\"data\":{\"game_packages\":3}}";
    match decode(raw) {
        Err(DecodeError::ApiError(m)) => assert_eq!(m, "maintenance"),
        _ => panic!("expected ApiError"),
    }
}

#[test]
fn decode_invalid_json_returns_malformed() {
    match decode("not json") {
        Err(DecodeError::MalformedResponse(d)) => {
            assert_eq!(d, "could not decode the response as package data\nResponse: not json");
        },
        _ => panic!("expected MalformedResponse"),
    }
}

#[test]
fn decode_empty_input_returns_malformed() {
    assert!(matches!(decode(""), Err(DecodeError::MalformedResponse(_))));
}

#[test]
fn decode_trailing_garbage_returns_malformed() {
    let raw = "{\"retcode\":-1,\"message\":\"m\",\"data\":null} x";
    assert!(matches!(decode(raw), Err(DecodeError::MalformedResponse(_))));
}

#[test]
fn decode_missing_required_field_returns_malformed() {
    assert!(matches!(decode("{\"retcode\":0,\"message\":\"m\"}"), Err(
        DecodeError::MalformedResponse(_)
    )));
    let no_entries = "{\"retcode\":0,\"message\":\"m\",\"data\":{}}";
    assert!(matches!(decode(no_entries), Err(DecodeError::MalformedResponse(_))));
}

#[test]
fn decode_duplicate_field_returns_malformed() {
    let raw = "{\"retcode\":0,\"retcode\":1,\"message\":\"m\",\"data\":{\"game_packages\":[]}}";
    assert!(matches!(decode(raw), Err(DecodeError::MalformedResponse(_))));
}

#[test]
fn decode_fractional_status_code_returns_malformed() {
    let raw = "{\"retcode\":0.0,\"message\":\"m\",\"data\":{\"game_packages\":[]}}";
    assert!(matches!(decode(raw), Err(DecodeError::MalformedResponse(_))));
}

#[test]
fn decode_string_escapes_in_message() {
    let raw = "{\"retcode\":-1,\"message\":\"line\\nquote\\\" u\\u0041 pair\\uD83D\\uDE00\",\"data\":null}";
    match decode(raw) {
        Err(DecodeError::ApiError(m)) => {
            assert_eq!(m, "line\nquote\" uA pair\u{1F600}");
        },
        _ => panic!("expected ApiError"),
    }
}

#[test]
fn decode_missing_optional_fields_decode_to_absent() {
    let raw = "{\"retcode\":0,\"message\":\"OK\",\"data\":{\"game_packages\":[\
     {\"game\":{\"id\":\"g\",\"biz\":\"b\"},\
     \"main\":{\"patches\":[]}}\
     ]}}";
    let doc = decode(raw).expect("optional fields may be missing");
    let e = &doc.entries[0];
    assert!(e.main.major.is_none());
    assert!(e.main.res_list_url.is_none());
    assert!(e.pre_download.is_none());
}

#[test]
fn decode_lone_surrogate_escape_returns_malformed() {
    let raw = "{\"retcode\":-1,\"message\":\"bad \\uD800 one\",\"data\":null}";
    assert!(matches!(decode(raw), Err(DecodeError::MalformedResponse(_))));
}
