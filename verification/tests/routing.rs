use madoka::config::{Config, Header, Host};
use madoka::response::{internal_server_error, not_found, Response};
use madoka::router::{complete, is_get, router, simple_file_send, Route};

fn header(name: &str, value: &str) -> Header {
    Header { name: name.to_string(), value: value.to_string() }
}

fn two_sites() -> Config {
    Config {
        port: 3001,
        root: ".".to_string(),
        hosts: vec![
            Host {
                host_name: "a.local".to_string(),
                root: "/site-a".to_string(),
                extra_headers: vec![],
            },
            Host {
                host_name: "b.local".to_string(),
                root: "/site-b".to_string(),
                extra_headers: vec![header("x-debug", "1")],
            },
        ],
    }
}

fn assert_not_found(r: &Response) {
    assert_eq!(r.status, 404);
    assert!(r.headers.is_empty());
    assert_eq!(r.body, b"Not Found".to_vec());
}

#[test]
fn root_of_second_site_is_served_with_its_header() {
    let config = two_sites();
    let route = router(&config, "GET", Some("b.local"), "/");
    assert_eq!(route, Route::Serve { host: 1, path: "/site-b/index.html".to_string() });
    let body = b"<h1>site b</h1>".to_vec();
    let r = complete(&config, &route, Some(body.clone()));
    assert_eq!(r.status, 200);
    assert_eq!(r.body, body);
    assert_eq!(
        r.headers,
        vec![
            header("content-type", "text/html"),
            header("content-length", "15"),
            header("x-debug", "1"),
        ]
    );
}

#[test]
fn missing_file_is_answered_with_not_found() {
    let config = two_sites();
    let route = router(&config, "GET", Some("a.local"), "/missing.txt");
    assert_eq!(route, Route::Serve { host: 0, path: "/site-a/missing.txt".to_string() });
    let r = complete(&config, &route, None);
    assert_not_found(&r);
}

#[test]
fn post_is_answered_with_not_found() {
    let config = two_sites();
    for path in ["/", "/index.html", "/missing.txt", "/a/b/c"] {
        let route = router(&config, "POST", Some("a.local"), path);
        assert_eq!(route, Route::NotFound);
        let r = complete(&config, &route, None);
        assert_not_found(&r);
        assert_ne!(r.status, 500);
    }
}

#[test]
fn only_upper_case_get_is_served() {
    assert!(is_get("GET"));
    assert!(!is_get("get"));
    assert!(!is_get("GETS"));
    assert!(!is_get(""));
    assert!(!is_get("HEAD"));
    let config = two_sites();
    assert_eq!(router(&config, "get", Some("a.local"), "/x"), Route::NotFound);
}

#[test]
fn unknown_host_is_answered_with_not_found_for_any_path() {
    let config = two_sites();
    for path in ["/", "/index.html", "/missing.txt", "/site-a/x"] {
        let route = router(&config, "GET", Some("c.local"), path);
        assert_eq!(route, Route::NotFound);
        assert_not_found(&complete(&config, &route, Some(b"x".to_vec())));
    }
}

#[test]
fn absent_or_malformed_host_header_is_not_found() {
    let config = two_sites();
    assert_eq!(router(&config, "GET", None, "/"), Route::NotFound);
    assert_eq!(router(&config, "GET", Some(""), "/"), Route::NotFound);
    assert_eq!(router(&config, "GET", Some("a local"), "/"), Route::NotFound);
    assert_eq!(router(&config, "GET", Some("/a.local"), "/"), Route::NotFound);
}

#[test]
fn port_in_host_header_is_left_out_of_the_comparison() {
    let config = two_sites();
    let route = router(&config, "GET", Some("b.local:8080"), "/style.css");
    assert_eq!(route, Route::Serve { host: 1, path: "/site-b/style.css".to_string() });
}

#[test]
fn host_name_is_compared_as_received() {
    let config = two_sites();
    assert_eq!(router(&config, "GET", Some("A.local"), "/"), Route::NotFound);
    assert_eq!(router(&config, "GET", Some("a.local."), "/"), Route::NotFound);
}

#[test]
fn extra_headers_keep_their_order_and_their_host() {
    let config = Config {
        port: 3001,
        root: ".".to_string(),
        hosts: vec![
            Host {
                host_name: "madoka.local".to_string(),
                root: ".".to_string(),
                extra_headers: vec![header("madoka-debug", "1")],
            },
            Host {
                host_name: "blog.madoka.local".to_string(),
                root: "./blog.madoka.local".to_string(),
                extra_headers: vec![
                    header("origin-trial", "aaaaaaa"),
                    header("origin-trial", "bbbbbbb"),
                ],
            },
        ],
    };
    let route = router(&config, "GET", Some("blog.madoka.local"), "/post.txt");
    assert_eq!(
        route,
        Route::Serve { host: 1, path: "./blog.madoka.local/post.txt".to_string() }
    );
    let r = complete(&config, &route, Some(b"hello".to_vec()));
    assert_eq!(
        r.headers,
        vec![
            header("content-type", "text/plain"),
            header("content-length", "5"),
            header("origin-trial", "aaaaaaa"),
            header("origin-trial", "bbbbbbb"),
        ]
    );
    let route = router(&config, "GET", Some("madoka.local"), "/post.txt");
    let r = complete(&config, &route, Some(b"hello".to_vec()));
    assert_eq!(
        r.headers,
        vec![
            header("content-type", "text/plain"),
            header("content-length", "5"),
            header("madoka-debug", "1"),
        ]
    );
    let r = complete(&config, &route, None);
    assert!(r.headers.is_empty());
}

#[test]
fn first_of_two_hosts_with_one_name_is_taken() {
    let config = Config {
        port: 80,
        root: ".".to_string(),
        hosts: vec![
            Host { host_name: "x".to_string(), root: "/one".to_string(), extra_headers: vec![] },
            Host { host_name: "x".to_string(), root: "/two".to_string(), extra_headers: vec![] },
        ],
    };
    assert_eq!(
        router(&config, "GET", Some("x"), "/f"),
        Route::Serve { host: 0, path: "/one/f".to_string() }
    );
}

#[test]
fn same_request_gets_same_route_and_response() {
    let config = two_sites();
    let first = router(&config, "GET", Some("b.local"), "/a/b.json");
    let second = router(&config, "GET", Some("b.local"), "/a/b.json");
    assert_eq!(first, second);
    let r1 = complete(&config, &first, Some(b"{}".to_vec()));
    let r2 = complete(&config, &second, Some(b"{}".to_vec()));
    assert_eq!(r1, r2);
    assert_eq!(r1.headers[0], header("content-type", "application/json"));
}

#[test]
fn route_to_a_host_that_is_not_there_is_an_internal_error() {
    let config = two_sites();
    let route = Route::Serve { host: 2, path: "/site-c/index.html".to_string() };
    let r = complete(&config, &route, Some(b"x".to_vec()));
    assert_eq!(r, internal_server_error());
    assert_eq!(r.status, 500);
    assert_eq!(r.body, b"Internal Server Error".to_vec());
    assert!(r.headers.is_empty());
}

#[test]
fn file_is_sent_with_type_length_and_given_headers() {
    let extra = vec![header("cache-control", "no-store")];
    let r = simple_file_send("/srv/logo.png", Some(vec![1, 2, 3]), &extra);
    assert_eq!(r.status, 200);
    assert_eq!(r.body, vec![1, 2, 3]);
    assert_eq!(
        r.headers,
        vec![
            header("content-type", "image/png"),
            header("content-length", "3"),
            header("cache-control", "no-store"),
        ]
    );
    let r = simple_file_send("/srv/logo.png", None, &extra);
    assert_eq!(r, not_found());
}

#[test]
fn empty_file_has_length_zero() {
    let r = simple_file_send("/srv/empty", Some(vec![]), &vec![]);
    assert_eq!(r.status, 200);
    assert!(r.body.is_empty());
    assert_eq!(
        r.headers,
        vec![
            header("content-type", "application/octet-stream"),
            header("content-length", "0"),
        ]
    );
}

#[test]
fn rejected_header_turns_a_served_file_into_an_internal_error() {
    let extra = vec![header("bad name", "1")];
    let r = simple_file_send("/srv/index.html", Some(b"<p>hi</p>".to_vec()), &extra);
    assert_eq!(r.status, 500);
    assert_eq!(r.body, b"Internal Server Error".to_vec());
    assert!(r.headers.is_empty());
    let extra = vec![header("x-ok", "1"), header("x-note", "a\u{1}b")];
    let r = simple_file_send("/srv/index.html", Some(b"<p>hi</p>".to_vec()), &extra);
    assert_eq!(r, internal_server_error());
    let r = simple_file_send("/srv/index.html", None, &extra);
    assert_eq!(r, not_found());
}

#[test]
fn host_with_a_rejected_header_answers_with_internal_error() {
    let config = Config {
        port: 3001,
        root: ".".to_string(),
        hosts: vec![
            Host {
                host_name: "a.local".to_string(),
                root: "/site-a".to_string(),
                extra_headers: vec![header("x debug", "1")],
            },
            Host {
                host_name: "b.local".to_string(),
                root: "/site-b".to_string(),
                extra_headers: vec![header("x-debug", "1")],
            },
        ],
    };
    let route = router(&config, "GET", Some("a.local"), "/a.txt");
    let r = complete(&config, &route, Some(b"abc".to_vec()));
    assert_eq!(r, internal_server_error());
    assert_not_found(&complete(&config, &route, None));
    let route = router(&config, "GET", Some("b.local"), "/a.txt");
    assert_eq!(complete(&config, &route, Some(b"abc".to_vec())).status, 200);
}

#[test]
fn path_with_a_parent_segment_is_answered_with_not_found() {
    let config = two_sites();
    for path in ["/../etc/passwd", "/a/../../b", "/..", "/docs/..", "/a/../b.txt"] {
        let route = router(&config, "GET", Some("a.local"), path);
        assert_eq!(route, Route::NotFound);
        assert_not_found(&complete(&config, &route, None));
    }
    assert_eq!(
        router(&config, "GET", Some("a.local"), "/a..b/c...txt"),
        Route::Serve { host: 0, path: "/site-a/a..b/c...txt".to_string() }
    );
    assert_eq!(
        router(&config, "GET", Some("a.local"), "/.well-known/x"),
        Route::Serve { host: 0, path: "/site-a/.well-known/x".to_string() }
    );
}
