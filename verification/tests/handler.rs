use media_gateway::config::{Config, ConfigError, EnvVars};
use media_gateway::handler::{
    handle_lookup, handle_request, key_of_path, Failure, Header, Lookup, Method, Reply, Request,
    Step, StoredObject,
};

type Store = Vec<(&'static str, StoredObject<Vec<u8>>)>;

/// What a client gets: the status, the headers and the body.
#[derive(Debug, PartialEq)]
struct Answer {
    status: u16,
    headers: Vec<(String, String)>,
    body: Vec<u8>,
    lookups: Vec<(String, String)>,
}

impl Answer {
    fn header(&self, name: &str) -> Option<&str> {
        self.headers.iter().find(|(n, _)| n == name).map(|(_, v)| v.as_str())
    }
}

fn gateway_config(block_no_referer: bool) -> Config {
    Config {
        allowed_origins: vec!["https://example.com".to_string()],
        block_no_referer,
        cache_control: Config::DEFAULT_CACHE_CONTROL.to_string(),
        r2_binding: Config::DEFAULT_R2_BINDING.to_string(),
    }
}

fn request(method: Method, path: &str, referer: Option<&str>, origin: Option<&str>) -> Request {
    Request {
        method,
        path: path.to_string(),
        referer: referer.map(|s| s.to_string()),
        origin: origin.map(|s| s.to_string()),
    }
}

fn png(bytes: &[u8]) -> StoredObject<Vec<u8>> {
    StoredObject {
        body: Some(bytes.to_vec()),
        content_type: Some("image/png".to_string()),
        etag: "\"abc123\"".to_string(),
    }
}

fn store_with_foo() -> Store {
    vec![("foo.png", png(&[0x89, b'P', b'N', b'G']))]
}

fn pairs(headers: &[Header]) -> Vec<(String, String)> {
    headers.iter().map(|h| (h.name.clone(), h.value.clone())).collect()
}

/// Runs the pipeline against a store held in memory, as a gateway would
/// against a real one.
fn serve(req: &Request, store: &Store, config: &Config) -> Answer {
    let mut lookups = Vec::new();
    let reply = match handle_request(req, config) {
        Step::Fail(failure) => Reply::Failure(failure),
        Step::Fetch { binding, key } => {
            let lookup = match store.iter().find(|(k, _)| *k == key) {
                Some((_, object)) => Lookup::Found(object.clone()),
                None => Lookup::Absent,
            };
            lookups.push((binding, key));
            handle_lookup(req, lookup, config)
        }
    };
    let status = reply.status();
    match reply {
        Reply::Failure(failure) => Answer {
            status,
            headers: Vec::new(),
            body: failure.message().as_bytes().to_vec(),
            lookups,
        },
        Reply::Object { body, headers } => {
            Answer { status, headers: pairs(&headers), body, lookups }
        }
    }
}

#[test]
fn a_held_object_is_served_to_a_valid_referer() {
    let req = request(Method::Get, "/foo.png", Some("https://example.com/page"), None);
    let answer = serve(&req, &store_with_foo(), &gateway_config(true));
    assert_eq!(answer.status, 200);
    assert_eq!(answer.body, vec![0x89, b'P', b'N', b'G']);
    assert_eq!(answer.header("Content-Type"), Some("image/png"));
    assert_eq!(answer.header("Cache-Control"), Some("public, max-age=31536000, immutable"));
    assert_eq!(answer.header("ETag"), Some("\"abc123\""));
    assert_eq!(answer.lookups, vec![("MEDIA_BUCKET".to_string(), "foo.png".to_string())]);
    assert_eq!(
        answer.headers,
        vec![
            ("Content-Type".to_string(), "image/png".to_string()),
            ("Cache-Control".to_string(), "public, max-age=31536000, immutable".to_string()),
            ("ETag".to_string(), "\"abc123\"".to_string()),
        ]
    );
}

#[test]
fn a_missing_referer_is_forbidden_without_asking_the_store() {
    let req = request(Method::Get, "/foo.png", None, None);
    let answer = serve(&req, &store_with_foo(), &gateway_config(true));
    assert_eq!(answer.status, 403);
    assert_eq!(answer.body, b"Forbidden: Missing Referer".to_vec());
    assert!(answer.lookups.is_empty());
    assert!(answer.headers.is_empty());
}

#[test]
fn a_missing_referer_that_is_let_through_finds_no_absent_object() {
    let req = request(Method::Get, "/foo.png", None, None);
    let answer = serve(&req, &Vec::new(), &gateway_config(false));
    assert_eq!(answer.status, 404);
    assert_eq!(answer.body, b"Not Found".to_vec());
    assert_eq!(answer.lookups, vec![("MEDIA_BUCKET".to_string(), "foo.png".to_string())]);
}

#[test]
fn a_missing_referer_that_is_let_through_gets_a_held_object() {
    let req = request(Method::Get, "/foo.png", None, None);
    let answer = serve(&req, &store_with_foo(), &gateway_config(false));
    assert_eq!(answer.status, 200);
    assert_eq!(answer.body, vec![0x89, b'P', b'N', b'G']);
}

#[test]
fn post_is_not_allowed_whatever_else_holds() {
    for referer in [None, Some("https://example.com/page"), Some("https://evil.com")] {
        for origin in [None, Some("https://example.com"), Some("https://evil.com")] {
            for store in [Vec::new(), store_with_foo()] {
                for block in [true, false] {
                    let req = request(Method::Post, "/foo.png", referer, origin);
                    let answer = serve(&req, &store, &gateway_config(block));
                    assert_eq!(answer.status, 405);
                    assert_eq!(answer.body, b"Method Not Allowed".to_vec());
                    assert!(answer.lookups.is_empty());
                }
            }
        }
    }
}

#[test]
fn only_get_is_allowed() {
    for method in [
        Method::Head,
        Method::Post,
        Method::Put,
        Method::Patch,
        Method::Delete,
        Method::Options,
        Method::Connect,
        Method::Trace,
        Method::Other,
    ] {
        let req = request(method, "/foo.png", Some("https://example.com/page"), None);
        let answer = serve(&req, &store_with_foo(), &gateway_config(true));
        assert_eq!(answer.status, 405, "{:?}", method);
        assert!(answer.lookups.is_empty());
    }
}

#[test]
fn the_root_path_is_not_found() {
    let req = request(Method::Get, "/", Some("https://example.com/page"), None);
    let answer = serve(&req, &store_with_foo(), &gateway_config(true));
    assert_eq!(answer.status, 404);
    assert_eq!(answer.body, b"Not Found".to_vec());
    assert!(answer.lookups.is_empty());
}

#[test]
fn an_allowed_origin_is_echoed() {
    let req = request(
        Method::Get,
        "/foo.png",
        Some("https://example.com/page"),
        Some("https://example.com"),
    );
    let answer = serve(&req, &store_with_foo(), &gateway_config(true));
    assert_eq!(answer.status, 200);
    assert_eq!(answer.header("Access-Control-Allow-Origin"), Some("https://example.com"));
    assert_eq!(answer.header("Access-Control-Allow-Methods"), Some("GET"));
    assert_eq!(
        answer.headers,
        vec![
            ("Content-Type".to_string(), "image/png".to_string()),
            ("Cache-Control".to_string(), "public, max-age=31536000, immutable".to_string()),
            ("ETag".to_string(), "\"abc123\"".to_string()),
            ("Access-Control-Allow-Origin".to_string(), "https://example.com".to_string()),
            ("Access-Control-Allow-Methods".to_string(), "GET".to_string()),
        ]
    );
}

#[test]
fn another_origin_gets_the_object_without_being_admitted() {
    let req = request(
        Method::Get,
        "/foo.png",
        Some("https://example.com/page"),
        Some("https://evil.com"),
    );
    let answer = serve(&req, &store_with_foo(), &gateway_config(true));
    assert_eq!(answer.status, 200);
    assert_eq!(answer.body, vec![0x89, b'P', b'N', b'G']);
    assert_eq!(answer.header("Access-Control-Allow-Origin"), None);
    assert_eq!(answer.header("Access-Control-Allow-Methods"), None);
    assert!(answer.headers.iter().all(|(name, _)| !name.starts_with("Access-Control")));
}

#[test]
fn an_origin_with_a_path_is_not_admitted() {
    let req = request(
        Method::Get,
        "/foo.png",
        Some("https://example.com/page"),
        Some("https://example.com/"),
    );
    let answer = serve(&req, &store_with_foo(), &gateway_config(true));
    assert_eq!(answer.status, 200);
    assert_eq!(answer.header("Access-Control-Allow-Origin"), None);
}

#[test]
fn an_invalid_referer_is_forbidden_even_when_missing_ones_pass() {
    for block in [true, false] {
        let req = request(
            Method::Get,
            "/foo.png",
            Some("https://example.com.evil.com/page"),
            Some("https://example.com"),
        );
        let answer = serve(&req, &store_with_foo(), &gateway_config(block));
        assert_eq!(answer.status, 403);
        assert_eq!(answer.body, b"Forbidden: Invalid Referer".to_vec());
        assert!(answer.lookups.is_empty());
    }
}

#[test]
fn an_object_without_a_body_is_not_found() {
    let req = request(Method::Get, "/foo.png", Some("https://example.com"), None);
    let hollow = StoredObject::<Vec<u8>> {
        body: None,
        content_type: Some("image/png".to_string()),
        etag: "\"abc123\"".to_string(),
    };
    let reply = handle_lookup(&req, Lookup::Found(hollow), &gateway_config(true));
    assert_eq!(reply.status(), 404);
    assert!(matches!(reply, Reply::Failure(Failure::NotFound)));
}

#[test]
fn a_failed_lookup_is_an_internal_failure() {
    let req = request(Method::Get, "/foo.png", Some("https://example.com"), None);
    let reply = handle_lookup(&req, Lookup::<Vec<u8>>::Failed, &gateway_config(true));
    assert_eq!(reply.status(), 500);
    match reply {
        Reply::Failure(failure) => {
            assert_eq!(failure, Failure::Internal);
            assert_eq!(failure.message(), "Internal Server Error");
        }
        Reply::Object { .. } => panic!("an object was served"),
    }
}

#[test]
fn an_object_without_type_or_tag_has_only_the_cache_header() {
    let req = request(Method::Get, "/raw", Some("https://example.com"), None);
    let plain = StoredObject { body: Some(vec![1u8, 2, 3]), content_type: None, etag: String::new() };
    let mut config = gateway_config(true);
    config.cache_control = "no-store".to_string();
    match handle_lookup(&req, Lookup::Found(plain), &config) {
        Reply::Object { body, headers } => {
            assert_eq!(body, vec![1u8, 2, 3]);
            assert_eq!(pairs(&headers), vec![("Cache-Control".to_string(), "no-store".to_string())]);
        }
        Reply::Failure(failure) => panic!("{:?}", failure),
    }
}

#[test]
fn the_body_is_handed_on_untouched() {
    let req = request(Method::Get, "/big", Some("https://example.com"), None);
    let object = StoredObject {
        body: Some("a handle on a stream"),
        content_type: None,
        etag: String::new(),
    };
    match handle_lookup(&req, Lookup::Found(object), &gateway_config(true)) {
        Reply::Object { body, .. } => assert_eq!(body, "a handle on a stream"),
        Reply::Failure(failure) => panic!("{:?}", failure),
    }
}

#[test]
fn the_store_is_asked_under_the_configured_binding() {
    let mut config = gateway_config(true);
    config.r2_binding = "ASSETS".to_string();
    let req = request(Method::Get, "/a/b/c.png", Some("https://example.com/"), None);
    match handle_request(&req, &config) {
        Step::Fetch { binding, key } => {
            assert_eq!(binding, "ASSETS");
            assert_eq!(key, "a/b/c.png");
        }
        Step::Fail(failure) => panic!("{:?}", failure),
    }
}

#[test]
fn the_key_is_the_path_without_one_leading_slash() {
    assert_eq!(key_of_path("/foo.png"), "foo.png");
    assert_eq!(key_of_path("/a/b/c.png"), "a/b/c.png");
    assert_eq!(key_of_path("/"), "");
    assert_eq!(key_of_path(""), "");
    assert_eq!(key_of_path("//foo.png"), "/foo.png");
    assert_eq!(key_of_path("/foo/"), "foo/");
    assert_eq!(key_of_path("foo.png"), "foo.png");
    assert_eq!(key_of_path("/%2Ffoo%20bar.png"), "%2Ffoo%20bar.png");
    assert_eq!(key_of_path("/../secret"), "../secret");
    assert_eq!(key_of_path("/b\u{fc}cher/\u{e9}.png"), "b\u{fc}cher/\u{e9}.png");
    assert_eq!(key_of_path("\u{ff0f}foo"), "\u{ff0f}foo");
}

#[test]
fn an_empty_path_is_not_found() {
    let req = request(Method::Get, "", Some("https://example.com"), None);
    assert!(matches!(
        handle_request(&req, &gateway_config(true)),
        Step::Fail(Failure::NotFound)
    ));
}

#[test]
fn the_method_is_checked_before_the_referer_and_the_referer_before_the_path() {
    let config = gateway_config(true);
    let req = request(Method::Put, "/", None, None);
    assert!(matches!(handle_request(&req, &config), Step::Fail(Failure::MethodNotAllowed)));
    let req = request(Method::Get, "/", None, None);
    assert!(matches!(handle_request(&req, &config), Step::Fail(Failure::MissingReferer)));
    let req = request(Method::Get, "/", Some("https://evil.com"), None);
    assert!(matches!(handle_request(&req, &config), Step::Fail(Failure::InvalidReferer)));
    let req = request(Method::Get, "/", Some("https://example.com"), None);
    assert!(matches!(handle_request(&req, &config), Step::Fail(Failure::NotFound)));
}

#[test]
fn failures_have_fixed_statuses_and_messages() {
    let expected = [
        (Failure::MethodNotAllowed, 405, "Method Not Allowed"),
        (Failure::MissingReferer, 403, "Forbidden: Missing Referer"),
        (Failure::InvalidReferer, 403, "Forbidden: Invalid Referer"),
        (Failure::NotFound, 404, "Not Found"),
        (Failure::Internal, 500, "Internal Server Error"),
    ];
    for (failure, status, message) in expected {
        assert_eq!(failure.status(), status);
        assert_eq!(failure.message(), message);
        assert_eq!(Reply::<Vec<u8>>::Failure(failure).status(), status);
    }
}

#[test]
fn without_a_configuration_every_request_fails_the_same_way() {
    for origins in [None, Some(""), Some(" , ")] {
        let env = EnvVars {
            allowed_origins: origins.map(|s| s.to_string()),
            block_no_referer: None,
            cache_control: None,
            r2_bucket_binding: None,
        };
        let failure = Failure::unconfigured(Config::from_env(&env).unwrap_err());
        assert_eq!(failure, Failure::Internal);
        assert_eq!(failure.status(), 500);
        assert_eq!(failure.message(), "Internal Server Error");
    }
    assert_eq!(Failure::unconfigured(ConfigError::MissingOrigins), Failure::Internal);
    assert_eq!(Failure::unconfigured(ConfigError::NoOrigins), Failure::Internal);
}

#[test]
fn a_configuration_from_the_environment_serves_requests() {
    let env = EnvVars {
        allowed_origins: Some("https://cms.example.com, https://example.com".to_string()),
        block_no_referer: Some("False".to_string()),
        cache_control: Some("public, max-age=60".to_string()),
        r2_bucket_binding: None,
    };
    let config = Config::from_env(&env).unwrap();
    let store = store_with_foo();

    let req = request(Method::Get, "/foo.png", None, Some("https://cms.example.com"));
    let answer = serve(&req, &store, &config);
    assert_eq!(answer.status, 200);
    assert_eq!(answer.header("Cache-Control"), Some("public, max-age=60"));
    assert_eq!(answer.header("Access-Control-Allow-Origin"), Some("https://cms.example.com"));

    let req = request(Method::Get, "/foo.png", Some("https://example.com.evil.com/"), None);
    assert_eq!(serve(&req, &store, &config).status, 403);
}

#[test]
fn steps_and_replies_compare_by_what_they_hold() {
    let config = gateway_config(true);
    let req = request(Method::Get, "/foo.png", Some("https://example.com/"), None);
    assert_eq!(
        handle_request(&req, &config),
        Step::Fetch { binding: "MEDIA_BUCKET".to_string(), key: "foo.png".to_string() }
    );
    let bare = StoredObject { body: Some(7u8), content_type: None, etag: String::new() };
    assert_eq!(
        handle_lookup(&req, Lookup::Found(bare), &config),
        Reply::Object {
            body: 7u8,
            headers: vec![Header {
                name: "Cache-Control".to_string(),
                value: "public, max-age=31536000, immutable".to_string(),
            }],
        }
    );
    assert_eq!(
        handle_lookup(&req, Lookup::<u8>::Absent, &config),
        Reply::Failure(Failure::NotFound)
    );
}
