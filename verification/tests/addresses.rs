use reqwest_json_service::build_path;
use reqwest_json_service::exec_request;
use reqwest_json_service::parse_url;
use reqwest_json_service::ConfigError;
use reqwest_json_service::ParseFailure;
use reqwest_json_service::Request;
use reqwest_json_service::ReqwestJsonService;
use reqwest_json_service::ServiceError;

fn get(path: &str) -> Request {
    Request::Get { path: path.to_owned() }
}

fn config_failure(text: &str) -> ParseFailure {
    match ReqwestJsonService::with_url(text) {
        Ok(svc) => panic!("[{}] was taken for the absolute URL [{}]", text, svc.base_address()),
        Err(ConfigError::UrlParseFailed(failure)) => failure,
        Err(other) => panic!("unexpected configuration error [{:?}]", other),
    }
}

#[test]
fn empty_base_address_is_relative_without_base() {
    assert_eq!(ParseFailure::RelativeUrlWithoutBase, config_failure(""));
}

#[test]
fn relative_base_address_is_relative_without_base() {
    assert_eq!(ParseFailure::RelativeUrlWithoutBase, config_failure("../main.css"));
    assert_eq!(ParseFailure::RelativeUrlWithoutBase, config_failure("/api/v1"));
    assert_eq!(ParseFailure::RelativeUrlWithoutBase, config_failure("www.foo.net"));
    assert_eq!(ParseFailure::RelativeUrlWithoutBase, config_failure("   "));
}

#[test]
fn base_address_without_a_colon_never_works() {
    for text in ["", "a", "api/example", "//host/path", "?q=1", "#frag", "héllo wörld"] {
        assert!(!text.contains(':'));
        assert_eq!(ParseFailure::RelativeUrlWithoutBase, config_failure(text));
    }
}

#[test]
fn construction_fails_the_same_way_every_time() {
    let first = ReqwestJsonService::with_url("").err();
    let second = ReqwestJsonService::with_url("").err();
    assert_eq!(first, second);
    assert_eq!(Some(ConfigError::UrlParseFailed(ParseFailure::RelativeUrlWithoutBase)), first);
}

#[test]
fn malformed_absolute_base_address_names_its_fault() {
    assert_eq!(ParseFailure::InvalidIpv6Address, config_failure("http://[:::1]"));
    assert_eq!(ParseFailure::InvalidPort, config_failure("https://example.com:99999/"));
    assert_eq!(ParseFailure::EmptyHost, config_failure("http://"));
    assert_eq!(ParseFailure::InvalidIpv4Address, config_failure("http://1.2.3.4.5.6.7.8.9999999999/"));
    assert_eq!(ParseFailure::IdnaError, config_failure("http://exa mple.com/"));
    assert_eq!(ParseFailure::InvalidDomainCharacter, config_failure("foo://exa mple.com/"));
}

#[test]
fn base_address_is_kept_in_serialized_form() {
    let svc = ReqwestJsonService::with_url("HTTP://Example.COM").unwrap();
    assert_eq!("http://example.com/", svc.base_address());

    let svc = ReqwestJsonService::with_url("http://api.example.test/").unwrap();
    assert_eq!("http://api.example.test/", svc.base_address());

    let svc = ReqwestJsonService::with_url("  https://example.net/a/../b  ").unwrap();
    assert_eq!("https://example.net/b", svc.base_address());
}

#[test]
fn parse_url_reads_what_with_url_reads() {
    let url = parse_url("http://www.foo.net/return_error_for_404").unwrap();
    assert_eq!("http://www.foo.net/return_error_for_404", url.as_str());
    assert_eq!(
        Err(ConfigError::UrlParseFailed(ParseFailure::RelativeUrlWithoutBase)),
        parse_url("").map(|url| url.to_string())
    );
}

#[test]
fn empty_path_resolves_to_the_base_address() {
    let svc = ReqwestJsonService::with_url("http://api.example.test/").unwrap();
    let target = svc.resolve(get("")).unwrap();
    assert_eq!("http://api.example.test/", target.as_str());

    let svc = ReqwestJsonService::with_url("http://www.foo.net/return_error_for_404").unwrap();
    let target = svc.resolve(get("")).unwrap();
    assert_eq!("http://www.foo.net/return_error_for_404", target.as_str());
}

#[test]
fn relative_path_replaces_the_last_segment() {
    let svc = ReqwestJsonService::with_url("https://example.net/a/b.html").unwrap();
    assert_eq!("https://example.net/a/c.png", svc.resolve(get("c.png")).unwrap().as_str());

    let svc = ReqwestJsonService::with_url("https://example.net/a/b/").unwrap();
    assert_eq!("https://example.net/a/b/c.png", svc.resolve(get("c.png")).unwrap().as_str());
    assert_eq!("https://example.net/v1/meta", svc.resolve(get("/v1/meta")).unwrap().as_str());
}

#[test]
fn query_string_is_joined_onto_the_base_address() {
    let svc = ReqwestJsonService::with_url("http://api.example.test/items").unwrap();
    assert_eq!(
        "http://api.example.test/items?page=2",
        svc.resolve(get("?page=2")).unwrap().as_str()
    );
}

#[test]
fn resolving_leaves_the_base_address_as_it_was() {
    let svc = ReqwestJsonService::with_url("https://example.net/a/b/").unwrap();
    let first = svc.resolve(get("c.png")).unwrap();
    let second = svc.resolve(get("c.png")).unwrap();
    assert_eq!(first, second);
    assert_eq!("https://example.net/a/b/", svc.base_address());
}

#[test]
fn path_that_does_not_join_is_append_path_failed() {
    let svc = ReqwestJsonService::with_url("mailto:someone@example.com").unwrap();
    match svc.resolve(get("inbox")) {
        Err(ServiceError::AppendPathFailed(failure)) => {
            assert_eq!(ParseFailure::RelativeUrlWithCannotBeABaseBase, failure)
        }
        other => panic!("expected AppendPathFailed but was [{:?}]", other),
    }

    let svc = ReqwestJsonService::with_url("http://api.example.test/").unwrap();
    match svc.resolve(get("http://[:::1]/")) {
        Err(ServiceError::AppendPathFailed(failure)) => {
            assert_eq!(ParseFailure::InvalidIpv6Address, failure)
        }
        other => panic!("expected AppendPathFailed but was [{:?}]", other),
    }
}

#[test]
fn build_path_joins_onto_any_url() {
    let base = parse_url("https://alice.com/a").unwrap();
    assert_eq!("https://eve.com/b", build_path(&base, "//eve.com/b").unwrap().as_str());
    assert_eq!("http://eve.com/b", build_path(&base, "http://eve.com/b").unwrap().as_str());
    assert_eq!(
        Err(ServiceError::AppendPathFailed(ParseFailure::InvalidPort)),
        build_path(&base, "//eve.com:x/").map(|url| url.to_string())
    );
}

struct ById(u32);

impl From<ById> for Request {
    fn from(src: ById) -> Request {
        Request::Get { path: format!("items/{}", src.0) }
    }
}

#[test]
fn exec_request_resolves_the_converted_request() {
    let svc = ReqwestJsonService::with_url("http://api.example.test/v2/").unwrap();
    let target = exec_request(&svc, ById(17)).unwrap();
    assert_eq!("http://api.example.test/v2/items/17", target.as_str());
    assert_eq!(svc.resolve(get("items/17")).unwrap(), target);
}

#[test]
fn exec_request_takes_a_request_as_it_is() {
    let svc = ReqwestJsonService::with_url("mailto:someone@example.com").unwrap();
    match exec_request(&svc, get("x")) {
        Err(ServiceError::AppendPathFailed(ParseFailure::RelativeUrlWithCannotBeABaseBase)) => {}
        other => panic!("expected AppendPathFailed but was [{:?}]", other),
    }
}

#[test]
fn debug_text_shows_the_base_address_in_braces() {
    let svc = ReqwestJsonService::with_url("http://www.foo.net/return_error_for_404").unwrap();
    assert_eq!(
        "ReqwestJsonService { url: http://www.foo.net/return_error_for_404 }",
        svc.debug_text()
    );

    let svc = ReqwestJsonService::with_url("HTTP://Example.COM").unwrap();
    assert_eq!("ReqwestJsonService { url: http://example.com/ }", svc.debug_text());
}
