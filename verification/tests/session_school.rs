use safety_edu::errors::{check_status, ApiError};
use safety_edu::model::{split_hms, School};
use safety_edu::school::{resolve_school, search_schools};
use safety_edu::session::login_outcome;
use safety_edu::text::{contains_substring, truncated};

fn school(id: &str, name: &str) -> School {
    School { id: String::from(id), name: String::from(name) }
}

#[test]
fn non_200_status_is_transport_error() {
    assert!(check_status(200).is_ok());
    for status in [0u16, 301, 403, 404, 500, 502] {
        match check_status(status) {
            Err(ApiError::Transport { status: st }) => assert_eq!(st, status),
            _ => panic!("expected a transport error"),
        }
    }
}

#[test]
fn login_http_failure_alone_fails() {
    let headers = vec![String::from("token=xyz; Path=/")];
    // application code says success, yet the HTTP status does not
    let r = login_outcome(500, &headers, Some(1), &String::from(""));
    match r {
        Err(ApiError::Auth { status, msg }) => {
            assert_eq!(status, 500);
            assert_eq!(msg, "");
        }
        _ => panic!("expected an authentication error"),
    }
}

#[test]
fn login_application_failure_alone_fails() {
    let headers = vec![String::from("token=xyz; Path=/")];
    let r = login_outcome(200, &headers, Some(0), &String::from("wrong password"));
    match r {
        Err(ApiError::Auth { status, msg }) => {
            assert_eq!(status, 200);
            assert_eq!(msg, "wrong password");
        }
        _ => panic!("expected an authentication error"),
    }
    let r = login_outcome(200, &headers, None, &String::from("no code"));
    assert!(r.is_err());
}

#[test]
fn login_success_composes_cookie_credential() {
    let headers = vec![
        String::from("JSESSIONID=abc123; Path=/; HttpOnly"),
        String::from("route=node7; Secure"),
        String::from("plain=1"),
    ];
    let session = login_outcome(200, &headers, Some(1), &String::from("ok")).unwrap();
    assert_eq!(session.credential, "JSESSIONID=abc123;route=node7;plain=1");
}

#[test]
fn login_with_no_cookies_gives_empty_credential() {
    let session = login_outcome(200, &Vec::new(), Some(1), &String::from("")).unwrap();
    assert_eq!(session.credential, "");
}

#[test]
fn search_returns_every_substring_match() {
    let list = vec![
        school("a", "Foo University"),
        school("b", "Bar College"),
        school("c", "Great Foothill School"),
        school("d", "foo lowercase"),
    ];
    let hits = search_schools(&list, "Foo");
    assert_eq!(hits.len(), 2);
    assert_eq!(hits[0].id, "a");
    assert_eq!(hits[1].id, "c");
    // the reported count is the length of the returned list
    assert_eq!(hits.iter().count(), hits.len());
}

#[test]
fn search_with_no_match_is_empty() {
    let list = vec![school("a", "Foo University")];
    assert_eq!(search_schools(&list, "Quux").len(), 0);
}

#[test]
fn substring_matching_edges() {
    assert!(contains_substring("abc", ""));
    assert!(contains_substring("abc", "abc"));
    assert!(contains_substring("abc", "bc"));
    assert!(!contains_substring("abc", "abcd"));
    assert!(!contains_substring("", "a"));
    assert!(contains_substring("", ""));
}

#[test]
fn resolve_school_exact_id() {
    let list = vec![school("i7k", "One"), school("x2z", "Two")];
    let found = resolve_school(&list, &String::from("x2z")).unwrap();
    assert_eq!(found.name, "Two");
    match resolve_school(&list, &String::from("nope")) {
        Err(ApiError::Lookup { key }) => assert_eq!(key, "nope"),
        _ => panic!("expected a lookup error"),
    }
}

#[test]
fn resolve_school_is_not_substring_matching() {
    let list = vec![school("i7kbaw", "One")];
    assert!(resolve_school(&list, &String::from("i7k")).is_err());
}

#[test]
fn split_hms_exact_values() {
    assert_eq!(split_hms(0), (0, 0, 0));
    assert_eq!(split_hms(59), (0, 0, 59));
    assert_eq!(split_hms(3661), (1, 1, 1));
    assert_eq!(split_hms(86399), (23, 59, 59));
}

#[test]
fn truncated_keeps_first_32_characters() {
    let long = String::from("0123456789012345678901234567890123456789");
    assert_eq!(truncated(&long, 32), "01234567890123456789012345678901");
    let short = String::from("short");
    assert_eq!(truncated(&short, 32), "short");
}

#[test]
fn config_defaults() {
    assert_eq!(safety_edu::config::default_hours(), 6);
    assert_eq!(safety_edu::config::default_score(), 100);
    assert_eq!(safety_edu::config::assessment_course_id(), "qkcfawcsxyrom0zrwghhwq");
    assert_eq!(safety_edu::config::default_school_id(), "i7kbawgs4kfesy5it2xp0w");
}
