use std::collections::HashMap;

use rtb_server::{
    category_reply, dispatch, first_param, get_segments, handle, lookup_key, route, Handler,
    Reply, Route, Step, StoreError,
};

fn immediate(method: &str, path: &str, query: Option<&str>) -> Reply {
    match handle(dispatch(method, path, query)) {
        Step::Reply(r) => r,
        Step::Lookup(k) => panic!("unexpected lookup of {:?}", k),
    }
}

fn key_of(method: &str, path: &str, query: Option<&str>) -> String {
    match handle(dispatch(method, path, query)) {
        Step::Lookup(k) => k,
        Step::Reply(r) => panic!("unexpected reply {:?}", r),
    }
}

fn store_get(store: &Option<HashMap<String, String>>, key: &str) -> Result<String, StoreError> {
    match store {
        None => Err(StoreError::Unavailable),
        Some(m) => m.get(key).cloned().ok_or(StoreError::NotFound),
    }
}

fn serve(store: &Option<HashMap<String, String>>, method: &str, path: &str, query: Option<&str>) -> Reply {
    match handle(dispatch(method, path, query)) {
        Step::Reply(r) => r,
        Step::Lookup(k) => category_reply(store_get(store, &k)),
    }
}

fn sample_store() -> Option<HashMap<String, String>> {
    let mut m = HashMap::new();
    m.insert("abc".to_string(), "sports,news".to_string());
    m.insert("xyz".to_string(), "travel".to_string());
    m.insert("a b".to_string(), "spaced".to_string());
    Some(m)
}

#[test]
fn routes_are_matched_exactly() {
    assert_eq!(route("GET", "/ready"), Route::Ready);
    assert_eq!(route("GET", "/category"), Route::Category);
    assert_eq!(route("POST", "/ready"), Route::NotFound);
    assert_eq!(route("get", "/ready"), Route::NotFound);
    assert_eq!(route("GET", "/ready/"), Route::NotFound);
    assert_eq!(route("GET", "/"), Route::NotFound);
    assert_eq!(route("GET", ""), Route::NotFound);
}

#[test]
fn ready_answers_one_whatever_the_query() {
    for query in [None, Some(""), Some("url=abc"), Some("x=1&y")] {
        let r = immediate("GET", "/ready", query);
        assert_eq!(r.status, 200);
        assert_eq!(r.body, "1\n");
    }
}

#[test]
fn ready_does_not_touch_an_unreachable_store() {
    let r = serve(&None, "GET", "/ready", None);
    assert_eq!(r.status, 200);
    assert_eq!(r.body, "1\n");
}

#[test]
fn unmatched_requests_get_404() {
    let cases = [
        ("POST", "/ready"),
        ("PUT", "/category"),
        ("DELETE", "/category"),
        ("GET", "/other"),
        ("GET", "/category/"),
        ("HEAD", "/nothing"),
    ];
    for (method, path) in cases {
        let r = immediate(method, path, Some("url=abc"));
        assert_eq!(r.status, 404);
        assert_eq!(r.body, "\n");
    }
}

#[test]
fn category_without_query_is_missing_parameter() {
    assert!(matches!(dispatch("GET", "/category", None), Handler::MissingParam));
    let r = immediate("GET", "/category", None);
    assert_eq!(r.status, 200);
    assert_eq!(r.body, "\n");
}

#[test]
fn category_without_url_parameter_is_missing_parameter() {
    for query in ["", "foo=bar", "urls=abc", "&&", "URL=abc"] {
        assert!(matches!(dispatch("GET", "/category", Some(query)), Handler::MissingParam));
        let r = immediate("GET", "/category", Some(query));
        assert_eq!(r.status, 200);
        assert_eq!(r.body, "\n");
    }
}

#[test]
fn category_found_answers_value_and_newline() {
    let store = sample_store();
    let r = serve(&store, "GET", "/category", Some("url=abc"));
    assert_eq!(r.status, 200);
    assert_eq!(r.body, "sports,news\n");
}

#[test]
fn category_absent_and_unreachable_look_the_same() {
    let absent = serve(&sample_store(), "GET", "/category", Some("url=missing"));
    let unreachable = serve(&None, "GET", "/category", Some("url=abc"));
    assert_eq!(absent.status, 200);
    assert_eq!(absent.body, "\n");
    assert_eq!(unreachable.status, absent.status);
    assert_eq!(unreachable.body, absent.body);
}

#[test]
fn repeated_request_gets_identical_reply() {
    let store = sample_store();
    let first = serve(&store, "GET", "/category", Some("url=xyz"));
    for _ in 0..5 {
        let again = serve(&store, "GET", "/category", Some("url=xyz"));
        assert_eq!(again.status, first.status);
        assert_eq!(again.body, first.body);
    }
    assert_eq!(first.body, "travel\n");
}

#[test]
fn query_key_skips_other_parameters() {
    assert_eq!(key_of("GET", "/category", Some("foo=bar&url=abc")), "abc");
}

#[test]
fn query_key_first_occurrence_wins() {
    assert_eq!(key_of("GET", "/category", Some("url=abc&url=xyz")), "abc");
}

#[test]
fn query_key_is_decoded() {
    assert_eq!(lookup_key("url=a%20b"), Some("a b".to_string()));
    assert_eq!(lookup_key("url=a+b"), Some("a b".to_string()));
    assert_eq!(lookup_key("url=http%3A%2F%2Fexample.com%2Fx"), Some("http://example.com/x".to_string()));
    let r = serve(&sample_store(), "GET", "/category", Some("url=a+b"));
    assert_eq!(r.body, "spaced\n");
}

#[test]
fn query_key_edge_cases() {
    assert_eq!(lookup_key(""), None);
    assert_eq!(lookup_key("url"), Some(String::new()));
    assert_eq!(lookup_key("url="), Some(String::new()));
    assert_eq!(lookup_key("url=a=b"), Some("a=b".to_string()));
    assert_eq!(lookup_key("&&url=k&"), Some("k".to_string()));
}

#[test]
fn distinct_keys_get_their_own_values() {
    let store = sample_store();
    let queries = ["url=abc", "url=xyz", "url=a%20b", "url=none"];
    let expected = ["sports,news\n", "travel\n", "spaced\n", "\n"];
    let keys: Vec<String> = queries.iter().map(|q| key_of("GET", "/category", Some(q))).collect();
    let replies: Vec<Reply> = keys.iter().map(|k| category_reply(store_get(&store, k))).collect();
    for (r, e) in replies.iter().zip(expected.iter()) {
        assert_eq!(r.status, 200);
        assert_eq!(r.body, *e);
    }
}

#[test]
fn first_param_takes_first_match() {
    let pairs = vec![
        ("foo".to_string(), "bar".to_string()),
        ("url".to_string(), "abc".to_string()),
        ("url".to_string(), "xyz".to_string()),
    ];
    assert_eq!(first_param(&pairs, "url"), Some("abc".to_string()));
    assert_eq!(first_param(&pairs, "foo"), Some("bar".to_string()));
    assert_eq!(first_param(&pairs, "bar"), None);
    assert_eq!(first_param(&Vec::new(), "url"), None);
}

#[test]
fn segments_of_each_lookup_outcome() {
    assert_eq!(get_segments(Ok("v".to_string())), "v\n");
    assert_eq!(get_segments(Ok(String::new())), "\n");
    assert_eq!(get_segments(Err(StoreError::NotFound)), "\n");
    assert_eq!(get_segments(Err(StoreError::Unavailable)), "\n");
}

#[test]
fn category_reply_status_is_always_200() {
    for lookup in [Ok("x".to_string()), Err(StoreError::NotFound), Err(StoreError::Unavailable)] {
        assert_eq!(category_reply(lookup).status, 200);
    }
}
