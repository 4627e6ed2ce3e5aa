use zpool_status_exporter::auth::{
    parse_authorization_value, AuthResult, AuthRules, DebugUserString, DebugUserStringRef,
    InvalidHeaderError,
};

fn rules() -> AuthRules {
    AuthRules::from_entries(vec!["user1:word1".to_string(), "user2:phrase2".to_string()])
        .expect("entries")
}

#[test]
fn no_entries_no_rules() {
    assert!(AuthRules::from_entries(Vec::new()).is_none());
    assert_eq!(rules().count(), 2);
}

#[test]
fn missing_header() {
    assert_eq!(rules().query_authorization(None), Ok(AuthResult::MissingAuthHeader));
}

#[test]
fn accepted_credentials() {
    assert_eq!(
        rules().query_authorization(Some("Basic dXNlcjE6d29yZDE=")),
        Ok(AuthResult::Accept)
    );
}

#[test]
fn denied_credentials() {
    assert_eq!(
        rules().query_authorization(Some("Basic dXNlcjI6cGhyYXNlMQ==")),
        Ok(AuthResult::Deny(DebugUserString::Unchanged {
            value: "user2:phrase1".to_string()
        }))
    );
}

#[test]
fn malformed_headers() {
    assert_eq!(
        rules().query_authorization(Some("Bearer abc")),
        Err(InvalidHeaderError::MissingBasic)
    );
    assert_eq!(
        rules().query_authorization(Some("Basic !!!")),
        Err(InvalidHeaderError::Base64)
    );
    assert_eq!(
        rules().query_authorization(Some("Basic /w==")),
        Err(InvalidHeaderError::Utf8)
    );
}

#[test]
fn decodes_credentials() {
    assert_eq!(
        parse_authorization_value("Basic dXNlcjE6d29yZDE="),
        Ok("user1:word1".to_string())
    );
}

#[test]
fn long_user_strings_are_cut() {
    let short = "a".repeat(80);
    assert_eq!(
        DebugUserString::from_string(short.clone()),
        DebugUserString::Unchanged { value: short }
    );
    let long = "b".repeat(100);
    let cut = DebugUserString::from_string(long);
    assert_eq!(
        cut,
        DebugUserString::Truncated {
            value: "b".repeat(80),
            orig_len: 100
        }
    );
    assert_eq!(cut.to_text(), format!("{:?}... (len 100)", "b".repeat(80)));
}

#[test]
fn cut_keeps_whole_characters() {
    // 79 ASCII bytes, then a two-byte character across the 80-byte limit
    let text = format!("{}é{}", "c".repeat(79), "d".repeat(10));
    let cut = DebugUserStringRef::from_str_ref(&text);
    assert_eq!(
        cut,
        DebugUserStringRef::Truncated {
            value: &text[..79],
            orig_len: 91
        }
    );
}

#[test]
fn short_text_is_quoted() {
    let s = DebugUserString::from_string("x\"y".to_string());
    assert_eq!(s.to_text(), "\"x\\\"y\"");
}
