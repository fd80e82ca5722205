use clashrsctl::config::{
    load_body_for, ClashConfigLoad, ClashConfigPatch, ConfigLogLevel, ConfigMode, LoadError,
    PatchError,
};
use clashrsctl::proxy::{
    ClashProxyChange, ClashProxyDelay, ClashProxyInfo, ProxyDelay, ProxyError, ProxyInfo,
    ResponseError,
};
use clashrsctl::record::DecodeError;
use clashrsctl::text::{decimal_string, str_equal};
use clashrsctl::{authorization, prepare, request_url, ClashRequest, ClashRequestBuilder};

fn check<R: ClashRequest>(request: &R, method: &str, path: &str, query: &str, body: &str) {
    assert_eq!(request.get_method(), method);
    assert_eq!(request.get_path(), path);
    assert_eq!(request.get_query_parameter(), query);
    assert_eq!(request.get_body().as_deref(), Some(body));
}

#[test]
fn what_is_left_open_falls_back_to_the_local_controller() {
    let request = ClashRequestBuilder::new().version();
    assert_eq!(request.get_dest(), "127.0.0.1");
    assert_eq!(request.get_port(), 9090);
    assert_eq!(request.get_secret(), None);
    assert_eq!(request_url(&request), "http://127.0.0.1:9090/version?");
    assert_eq!(authorization(&request), None);
}

#[test]
fn the_builder_keeps_what_it_is_told() {
    let request = ClashRequestBuilder::new().ip("example.org").port(80).secret("test").rule();
    assert_eq!(request.get_dest(), "example.org");
    assert_eq!(request.get_port(), 80);
    assert_eq!(request.get_secret().as_deref(), Some("test"));
    assert_eq!(request_url(&request), "http://example.org:80/rules?");
    assert_eq!(authorization(&request).as_deref(), Some("Bearer test"));

    let later = ClashRequestBuilder::new().port(1).port(65535).ip("a").ip("b").traffic();
    assert_eq!(request_url(&later), "http://b:65535/traffic?");
}

#[test]
fn a_request_is_prepared_for_the_wire() {
    let request =
        ClashRequestBuilder::new().secret("s3cret").proxies().get("GLOBAL").change("DIRECT");
    let call = prepare(&request).unwrap();
    assert_eq!(call.method, "PUT");
    assert_eq!(call.url, "http://127.0.0.1:9090/proxies/GLOBAL?");
    assert_eq!(call.authorization.as_deref(), Some("Bearer s3cret"));
    assert_eq!(call.body, "{ \"name\": \"DIRECT\"}");

    let plain = prepare(&ClashRequestBuilder::new().connections()).unwrap();
    assert_eq!(plain.method, "GET");
    assert_eq!(plain.url, "http://127.0.0.1:9090/connections?");
    assert_eq!(plain.authorization, None);
    assert_eq!(plain.body, "");
}

#[test]
fn each_request_has_its_method_and_path() {
    let b = || ClashRequestBuilder::new();
    check(&b().version(), "GET", "version", "", "");
    check(&b().rule(), "GET", "rules", "", "");
    check(&b().traffic(), "GET", "traffic", "", "");
    check(&b().connections(), "GET", "connections", "", "");
    check(&b().connections().close(), "DELETE", "conntections", "", "");
    check(&b().connections().close_id("abc-1"), "DELETE", "connections/abc-1", "", "");
    check(&b().proxies(), "GET", "proxies", "", "");
    check(&b().proxies().get("GLOBAL"), "GET", "proxies/GLOBAL", "", "");
    check(&b().config().get(), "GET", "configs", "", "");
    check(&b().config().patch(), "PATCH", "configs", "", "{}");
}

#[test]
fn the_log_request_names_its_level() {
    let b = || ClashRequestBuilder::new().logs();
    check(&b(), "GET", "logs", "type=", "");
    check(&b().level(ConfigLogLevel::Info), "GET", "logs", "type=info", "");
    check(&b().level(ConfigLogLevel::Error), "GET", "logs", "type=error", "");
    check(&b().level(ConfigLogLevel::Debug), "GET", "logs", "type=debug", "");
    check(&b().level(ConfigLogLevel::Warning), "GET", "logs", "type=waring", "");
    assert_eq!(
        request_url(&b().level(ConfigLogLevel::Debug)),
        "http://127.0.0.1:9090/logs?type=debug"
    );
}

#[test]
fn the_delay_request_encodes_its_url() {
    let request: ClashProxyDelay = ClashRequestBuilder::new()
        .secret("test")
        .proxies()
        .get("DIRECT")
        .delay("http://baidu.com", 500);
    check(
        &request,
        "GET",
        "proxies/DIRECT/delay",
        "timeout=500&url=http%3A%2F%2Fbaidu.com",
        "",
    );
    let odd = ClashRequestBuilder::new()
        .proxies()
        .get("p")
        .delay("a-b_c.d~e f/\u{e9}?%\u{1f47e}", 4294967295);
    assert_eq!(
        odd.get_query_parameter(),
        "timeout=4294967295&url=a-b_c.d~e%20f%2F%C3%A9%3F%25%F0%9F%91%BE"
    );
    let plain = ClashRequestBuilder::new().proxies().get("p").delay("AZaz09", 0);
    assert_eq!(plain.get_query_parameter(), "timeout=0&url=AZaz09");
    let empty = ClashRequestBuilder::new().proxies().get("p").delay("", 1);
    assert_eq!(empty.get_query_parameter(), "timeout=1&url=");
}

#[test]
fn the_change_request_names_the_new_proxy() {
    let request: ClashProxyChange =
        ClashRequestBuilder::new().secret("test").proxies().get("GLOBAL").change("DIRECT");
    check(&request, "PUT", "proxies/GLOBAL", "", "{ \"name\": \"DIRECT\"}");
}

#[test]
fn the_patch_request_carries_the_settings_that_were_set() {
    let request: ClashConfigPatch = ClashRequestBuilder::new()
        .ip("127.0.0.1")
        .config()
        .patch()
        .port(9999)
        .redir_port(8888)
        .socks_port(7777)
        .allow_lan(true)
        .ipv6(false)
        .tproxy_port(6666)
        .mode(ConfigMode::Global)
        .log_level(ConfigLogLevel::Debug);
    check(
        &request,
        "PATCH",
        "configs",
        "",
        "{\"port\":9999,\"socks-port\":7777,\"redir-port\":8888,\"allow-lan\":true,\
         \"mode\":\"global\",\"log-level\":\"debug\",\"tproxy-port\":6666,\"ipv6\":false}",
    );
    let one = ClashRequestBuilder::new().config().patch().mode(ConfigMode::Direct);
    assert_eq!(one.get_body().as_deref(), Some("{\"mode\":\"direct\"}"));
    let two = ClashRequestBuilder::new()
        .config()
        .patch()
        .log_level(ConfigLogLevel::Warning)
        .port(0)
        .mode(ConfigMode::Rule);
    assert_eq!(
        two.get_body().as_deref(),
        Some("{\"port\":0,\"mode\":\"rule\",\"log-level\":\"warning\"}")
    );
    let again = ClashRequestBuilder::new().config().patch().port(1).port(2).allow_lan(false);
    assert_eq!(again.get_body().as_deref(), Some("{\"port\":2,\"allow-lan\":false}"));
}

#[test]
fn the_patch_request_writes_the_address_as_a_json_string() {
    let plain = ClashRequestBuilder::new().config().patch().bind_address("*");
    assert_eq!(plain.get_body().as_deref(), Some("{\"bind-address\":\"*\"}"));
    let odd = ClashRequestBuilder::new()
        .config()
        .patch()
        .tproxy_port(1)
        .bind_address("a\"b\\c\n\u{1}\u{e9}")
        .ipv6(true);
    assert_eq!(
        odd.get_body().as_deref(),
        Some("{\"tproxy-port\":1,\"bind-address\":\"a\\\"b\\\\c\\n\\u0001\u{e9}\",\"ipv6\":true}")
    );
}

#[test]
fn the_load_request_names_an_absolute_path() {
    let request: ClashConfigLoad = ClashRequestBuilder::new()
        .ip("127.0.0.1")
        .port(9090)
        .config()
        .load("/etc/clash/../clash.yaml");
    assert_eq!(request.get_method(), "PUT");
    assert_eq!(request.get_path(), "configs");
    assert_eq!(request.get_query_parameter(), "force=false");
    assert_eq!(request.get_body().as_deref(), Some("{\"path\":\"/etc/clash.yaml\"}"));
    let forced = request.force();
    assert_eq!(forced.get_query_parameter(), "force=true");
    assert_eq!(request_url(&forced), "http://127.0.0.1:9090/configs?force=true");

    let relative = ClashRequestBuilder::new().config().load("./clash-profile.reload").force();
    let body = relative.get_body().unwrap();
    assert!(body.starts_with("{\"path\":\"/"), "{}", body);
    assert!(body.ends_with("/clash-profile.reload\"}"), "{}", body);
    assert!(!body.contains("/./"), "{}", body);

    assert_eq!(load_body_for("/x y"), "{\"path\":\"/x y\"}");
}

#[test]
fn only_no_content_is_success_for_a_load_or_a_patch() {
    assert_eq!(ClashConfigLoad::outcome(204), Ok(()));
    assert_eq!(ClashConfigPatch::outcome(204), Ok(()));
    for status in [0u16, 200, 203, 205, 400, 404, 500, 65535] {
        assert_eq!(ClashConfigLoad::outcome(status), Err(LoadError));
        assert_eq!(ClashConfigPatch::outcome(status), Err(PatchError));
    }
    assert_eq!(LoadError.message(), "Load configuration failed");
    assert_eq!(PatchError.message(), "Configuration patch error");
}

#[test]
fn a_change_of_proxy_is_judged_by_its_status() {
    assert_eq!(ClashProxyChange::outcome(204), Ok(()));
    assert_eq!(ClashProxyChange::outcome(400), Err(ProxyError::FormatError));
    assert_eq!(ClashProxyChange::outcome(404), Err(ProxyError::ProxyNotExisted));
    assert_eq!(ClashProxyChange::outcome(200), Err(ProxyError::UnknownError(200)));
    assert_eq!(ClashProxyChange::outcome(408), Err(ProxyError::UnknownError(408)));
    assert_eq!(ClashProxyChange::outcome(500), Err(ProxyError::UnknownError(500)));
}

#[test]
fn a_delay_is_read_after_a_status_of_success() {
    let body = "{\"delay\":42}";
    assert_eq!(ClashProxyDelay::outcome(200, body), Ok(ProxyDelay { delay: 42 }));
    assert_eq!(ClashProxyDelay::outcome(299, body), Ok(ProxyDelay { delay: 42 }));
    assert_eq!(
        ClashProxyDelay::outcome(200, "{}"),
        Err(ResponseError::Unreadable(DecodeError::Schema))
    );
    assert_eq!(
        ClashProxyDelay::outcome(204, ""),
        Err(ResponseError::Unreadable(DecodeError::Syntax))
    );
    let refused = |e| Err(ResponseError::Refused(e));
    assert_eq!(ClashProxyDelay::outcome(400, body), refused(ProxyError::FormatError));
    assert_eq!(ClashProxyDelay::outcome(408, body), refused(ProxyError::TimeOut));
    assert_eq!(ClashProxyDelay::outcome(404, body), refused(ProxyError::ProxyNotExisted));
    assert_eq!(ClashProxyDelay::outcome(300, body), refused(ProxyError::UnknownError(300)));
    assert_eq!(ClashProxyDelay::outcome(199, body), refused(ProxyError::UnknownError(199)));
    assert_eq!(ClashProxyDelay::outcome(503, body), refused(ProxyError::UnknownError(503)));
}

#[test]
fn a_proxy_is_read_after_a_status_of_success() {
    assert_eq!(
        ClashProxyInfo::outcome(200, "{\"type\":\"Direct\"}"),
        Ok(ProxyInfo { all: None, now: None, kind: Some("Direct".to_string()) })
    );
    assert_eq!(
        ClashProxyInfo::outcome(200, "nothing"),
        Err(ResponseError::Unreadable(DecodeError::Syntax))
    );
    for status in [404u16, 400, 500, 100, 300] {
        assert_eq!(
            ClashProxyInfo::outcome(status, "{\"type\":\"Direct\"}"),
            Err(ResponseError::Refused(ProxyError::ProxyNotExisted))
        );
    }
}

#[test]
fn proxy_errors_in_words() {
    assert_eq!(ProxyError::ProxyNotExisted.message(), "Proxy not existed");
    assert_eq!(ProxyError::FormatError.message(), "Request format error");
    assert_eq!(ProxyError::TimeOut.message(), "Delay timeout");
    assert_eq!(ProxyError::UnknownError(503).message(), "Unknown error: 503");
    assert_eq!(ProxyError::UnknownError(0).message(), "Unknown error: 0");
}

#[test]
fn numbers_in_decimal() {
    assert_eq!(decimal_string(0), "0");
    assert_eq!(decimal_string(7), "7");
    assert_eq!(decimal_string(10), "10");
    assert_eq!(decimal_string(9090), "9090");
    assert_eq!(decimal_string(1234567890), "1234567890");
    assert_eq!(decimal_string(u64::MAX), "18446744073709551615");
}

#[test]
fn strings_are_compared_by_their_text() {
    assert!(str_equal("", ""));
    assert!(str_equal("info", "info"));
    assert!(!str_equal("info", "infO"));
    assert!(!str_equal("info", "inf"));
    assert!(!str_equal("", "x"));
    assert!(str_equal("\u{e9}\u{1f47e}", "\u{e9}\u{1f47e}"));
    assert!(!str_equal("\u{e9}", "\u{e8}"));
}
