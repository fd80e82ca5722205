use clashrsctl::config::{Config, ConfigLogLevel, ConfigMode};
use clashrsctl::connection::ConnectionVec;
use clashrsctl::proxy::{ProxyDelay, ProxyInfo};
use clashrsctl::record::{decode, decode_text, DecodeError};
use clashrsctl::rule::{Rule, RuleList};
use clashrsctl::stream::log::Log;
use clashrsctl::stream::traffic::Traffic;
use clashrsctl::version::Version;

#[test]
fn traffic_is_read_off_an_object() {
    assert_eq!(decode::<Traffic>(b"{\"up\":10,\"down\":5}"), Ok(Traffic { up: 10, down: 5 }));
    assert_eq!(
        decode::<Traffic>(b" { \"down\" : 0 , \"extra\" : [1, {\"up\": 3}], \"up\" : 7 } "),
        Ok(Traffic { up: 7, down: 0 })
    );
    assert_eq!(
        decode_text::<Traffic>("{\"up\":18446744073709551615,\"down\":1}"),
        Ok(Traffic { up: usize::MAX, down: 1 })
    );
}

#[test]
fn traffic_takes_non_negative_integers_only() {
    assert_eq!(decode::<Traffic>(b"{\"up\":-1,\"down\":5}"), Err(DecodeError::Schema));
    assert_eq!(decode::<Traffic>(b"{\"up\":1.5,\"down\":5}"), Err(DecodeError::Schema));
    assert_eq!(decode::<Traffic>(b"{\"up\":1.0,\"down\":5}"), Err(DecodeError::Schema));
    assert_eq!(decode::<Traffic>(b"{\"up\":\"1\",\"down\":5}"), Err(DecodeError::Schema));
    assert_eq!(decode::<Traffic>(b"{\"up\":null,\"down\":5}"), Err(DecodeError::Schema));
    assert_eq!(
        decode::<Traffic>(b"{\"up\":18446744073709551616,\"down\":5}"),
        Err(DecodeError::Schema)
    );
}

#[test]
fn traffic_needs_both_counters_in_an_object() {
    assert_eq!(decode::<Traffic>(b"{\"up\":1}"), Err(DecodeError::Schema));
    assert_eq!(decode::<Traffic>(b"{\"down\":1}"), Err(DecodeError::Schema));
    assert_eq!(decode::<Traffic>(b"{}"), Err(DecodeError::Schema));
    assert_eq!(decode::<Traffic>(b"[10,5]"), Err(DecodeError::Schema));
    assert_eq!(decode::<Traffic>(b"10"), Err(DecodeError::Schema));
    assert_eq!(decode::<Traffic>(b"null"), Err(DecodeError::Schema));
    assert_eq!(decode::<Traffic>(b"{\"UP\":1,\"down\":1}"), Err(DecodeError::Schema));
}

#[test]
fn bytes_that_are_no_text_are_an_encoding_error() {
    assert_eq!(decode::<Traffic>(&[0xff]), Err(DecodeError::Encoding));
    assert_eq!(decode::<Traffic>(&[0xc3]), Err(DecodeError::Encoding));
    assert_eq!(decode::<Traffic>(&[0xed, 0xa0, 0x80]), Err(DecodeError::Encoding));
    assert_eq!(
        decode::<Traffic>(b"{\"up\":1,\"down\":1}\xff"),
        Err(DecodeError::Encoding)
    );
    assert_eq!(
        decode::<Log>("{\"type\":\"info\",\"payload\":\"\u{00e9}\u{4e2d}\u{1f47e}\"}".as_bytes()),
        Ok(Log { level: ConfigLogLevel::Info, payload: "\u{00e9}\u{4e2d}\u{1f47e}".to_string() })
    );
}

#[test]
fn text_that_is_no_document_is_a_syntax_error() {
    assert_eq!(decode::<Traffic>(b"not-json"), Err(DecodeError::Syntax));
    assert_eq!(decode::<Traffic>(b""), Err(DecodeError::Syntax));
    assert_eq!(decode::<Traffic>(b"{\"up\":1,\"down\":1"), Err(DecodeError::Syntax));
    assert_eq!(
        decode::<Traffic>(b"{\"up\":1,\"down\":1}{\"up\":2,\"down\":2}"),
        Err(DecodeError::Syntax)
    );
    assert_eq!(decode::<Traffic>(b"{\"up\":1,\"down\":1} x"), Err(DecodeError::Syntax));
    assert_eq!(decode::<Traffic>(b"{\"up\":1,\"down\":1}\n"), Ok(Traffic { up: 1, down: 1 }));
}

#[test]
fn log_levels_have_four_names() {
    assert_eq!(ConfigLogLevel::parse("info"), Some(ConfigLogLevel::Info));
    assert_eq!(ConfigLogLevel::parse("warning"), Some(ConfigLogLevel::Warning));
    assert_eq!(ConfigLogLevel::parse("error"), Some(ConfigLogLevel::Error));
    assert_eq!(ConfigLogLevel::parse("debug"), Some(ConfigLogLevel::Debug));
    assert_eq!(ConfigLogLevel::parse("Info"), None);
    assert_eq!(ConfigLogLevel::parse("warn"), None);
    assert_eq!(ConfigLogLevel::parse(""), None);
    assert_eq!(ConfigLogLevel::parse("infos"), None);
}

#[test]
fn log_is_read_off_an_object() {
    for (name, level) in [
        ("info", ConfigLogLevel::Info),
        ("warning", ConfigLogLevel::Warning),
        ("error", ConfigLogLevel::Error),
        ("debug", ConfigLogLevel::Debug),
    ] {
        let text = format!("{{\"type\":\"{}\",\"payload\":\"a \\\"b\\\"\\n\"}}", name);
        assert_eq!(
            decode::<Log>(text.as_bytes()),
            Ok(Log { level, payload: "a \"b\"\n".to_string() })
        );
    }
    assert_eq!(
        decode::<Log>(b"{\"type\":\"trace\",\"payload\":\"x\"}"),
        Err(DecodeError::Schema)
    );
    assert_eq!(decode::<Log>(b"{\"type\":\"info\"}"), Err(DecodeError::Schema));
    assert_eq!(decode::<Log>(b"{\"type\":\"info\",\"payload\":3}"), Err(DecodeError::Schema));
    assert_eq!(decode::<Log>(b"{\"type\":1,\"payload\":\"x\"}"), Err(DecodeError::Schema));
    assert_eq!(decode::<Log>(b"{\"payload\":\"x\"}"), Err(DecodeError::Schema));
}

#[test]
fn version_is_read_off_an_object() {
    assert_eq!(
        Version::try_from("{\"premium\":true,\"version\":\"v1.18.0\"}".to_string()),
        Ok(Version { version: "v1.18.0".to_string() })
    );
    assert_eq!(Version::try_from("{\"version\":1}".to_string()), Err(DecodeError::Schema));
    assert_eq!(Version::try_from("\"v1\"".to_string()), Err(DecodeError::Schema));
    assert_eq!(Version::try_from("{".to_string()), Err(DecodeError::Syntax));
}

#[test]
fn delay_is_read_off_an_object() {
    assert_eq!(ProxyDelay::try_from("{\"delay\":312}".to_string()), Ok(ProxyDelay { delay: 312 }));
    assert_eq!(
        ProxyDelay::try_from("{\"delay\":18446744073709551615}".to_string()),
        Ok(ProxyDelay { delay: u64::MAX })
    );
    assert_eq!(ProxyDelay::try_from("{\"delay\":-3}".to_string()), Err(DecodeError::Schema));
    assert_eq!(ProxyDelay::try_from("{\"message\":\"x\"}".to_string()), Err(DecodeError::Schema));
}

#[test]
fn rules_are_read_in_their_order() {
    let text = "{\"rules\":[\
        {\"type\":\"DOMAIN-SUFFIX\",\"payload\":\"example.com\",\"proxy\":\"DIRECT\"},\
        {\"type\":\"MATCH\",\"payload\":\"\",\"proxy\":\"GLOBAL\",\"size\":3}]}";
    let list = RuleList::try_from(text.to_string()).unwrap();
    assert_eq!(list.len(), 2);
    let first = Rule {
        kind: "DOMAIN-SUFFIX".to_string(),
        payload: "example.com".to_string(),
        proxy: "DIRECT".to_string(),
    };
    let second =
        Rule { kind: "MATCH".to_string(), payload: "".to_string(), proxy: "GLOBAL".to_string() };
    assert_eq!(list.get(0), Some(&first));
    assert_eq!(list.get(1), Some(&second));
    assert_eq!(list.get(2), None);
    let seen: Vec<&Rule> = list.iter().collect();
    assert_eq!(seen, vec![&first, &second]);

    assert_eq!(RuleList::try_from("{\"rules\":[]}".to_string()).unwrap().len(), 0);
}

#[test]
fn rules_are_all_or_nothing() {
    let broken = "{\"rules\":[\
        {\"type\":\"MATCH\",\"payload\":\"\",\"proxy\":\"GLOBAL\"},\
        {\"type\":\"MATCH\",\"payload\":\"\"}]}";
    assert_eq!(RuleList::try_from(broken.to_string()).err(), Some(DecodeError::Schema));
    assert_eq!(RuleList::try_from("{\"rules\":{}}".to_string()).err(), Some(DecodeError::Schema));
    assert_eq!(RuleList::try_from("{}".to_string()).err(), Some(DecodeError::Schema));
    assert_eq!(RuleList::try_from("[]".to_string()).err(), Some(DecodeError::Schema));
    assert_eq!(RuleList::try_from("{\"rules\":[".to_string()).err(), Some(DecodeError::Syntax));
}

#[test]
fn proxy_info_may_leave_out_anything() {
    assert_eq!(
        ProxyInfo::try_from("{}".to_string()),
        Ok(ProxyInfo { all: None, now: None, kind: None })
    );
    assert_eq!(
        ProxyInfo::try_from(
            "{\"all\":[\"DIRECT\",\"REJECT\"],\"now\":\"DIRECT\",\
             \"type\":\"Selector\",\"udp\":true}"
                .to_string()
        ),
        Ok(ProxyInfo {
            all: Some(vec!["DIRECT".to_string(), "REJECT".to_string()]),
            now: Some("DIRECT".to_string()),
            kind: Some("Selector".to_string()),
        })
    );
    assert_eq!(
        ProxyInfo::try_from("{\"all\":null,\"now\":null,\"type\":\"Direct\"}".to_string()),
        Ok(ProxyInfo { all: None, now: None, kind: Some("Direct".to_string()) })
    );
    assert_eq!(
        ProxyInfo::try_from("{\"all\":[]}".to_string()),
        Ok(ProxyInfo { all: Some(vec![]), now: None, kind: None })
    );
    assert_eq!(ProxyInfo::try_from("{\"all\":[1]}".to_string()), Err(DecodeError::Schema));
    assert_eq!(ProxyInfo::try_from("{\"all\":\"x\"}".to_string()), Err(DecodeError::Schema));
    assert_eq!(ProxyInfo::try_from("{\"now\":1}".to_string()), Err(DecodeError::Schema));
    assert_eq!(ProxyInfo::try_from("{\"type\":[]}".to_string()), Err(DecodeError::Schema));
    assert_eq!(ProxyInfo::try_from("[]".to_string()), Err(DecodeError::Schema));
    assert_eq!(ProxyInfo::try_from("null".to_string()), Err(DecodeError::Schema));
}

#[test]
fn config_is_read_off_an_object() {
    let text = "{\"port\":7890,\"socks-port\":7891,\"redir-port\":0,\"tproxy-port\":65535,\
        \"mixed-port\":1,\"allow-lan\":true,\"bind-address\":\"*\",\"mode\":\"rule\",\
        \"log-level\":\"warning\",\"ipv6\":false}";
    assert_eq!(
        Config::try_from(text.to_string()),
        Ok(Config {
            port: Some(7890),
            socks_port: Some(7891),
            redir_port: Some(0),
            allow_lan: Some(true),
            mode: Some(ConfigMode::Rule),
            log_level: Some(ConfigLogLevel::Warning),
            tproxy_port: Some(65535),
            bind_address: Some("*".to_string()),
            ipv6: Some(false),
        })
    );
    assert_eq!(Config::try_from("{}".to_string()), Ok(Config::new()));
    assert_eq!(
        Config::try_from("{\"port\":null,\"mode\":\"direct\"}".to_string()),
        Ok(Config::new().mode(ConfigMode::Direct))
    );
    assert_eq!(
        Config::try_from("{\"mode\":\"global\",\"log-level\":\"debug\"}".to_string()),
        Ok(Config::new().mode(ConfigMode::Global).log_level(ConfigLogLevel::Debug))
    );
}

#[test]
fn config_refuses_settings_of_another_type() {
    for text in [
        "{\"port\":65536}",
        "{\"port\":-1}",
        "{\"port\":\"80\"}",
        "{\"socks-port\":1.5}",
        "{\"redir-port\":true}",
        "{\"tproxy-port\":[]}",
        "{\"allow-lan\":1}",
        "{\"ipv6\":\"true\"}",
        "{\"mode\":\"Rule\"}",
        "{\"mode\":3}",
        "{\"log-level\":\"silent\"}",
        "{\"bind-address\":7}",
        "[]",
        "7",
    ] {
        assert_eq!(Config::try_from(text.to_string()), Err(DecodeError::Schema), "{}", text);
    }
    assert_eq!(Config::try_from("{\"port\":}".to_string()), Err(DecodeError::Syntax));
}

#[test]
fn connections_are_read_with_all_they_hold() {
    let text = "{\"downloadTotal\":2048,\"uploadTotal\":1024,\"connections\":[{\
        \"id\":\"c1\",\"chains\":[\"DIRECT\",\"GLOBAL\"],\"rule\":\"Match\",\"rulePayload\":\"\",\
        \"upload\":12,\"download\":34,\"start\":\"2023-01-01T00:00:00Z\",\"metadata\":{\
        \"network\":\"tcp\",\"type\":\"HTTP\",\"sourceIP\":\"127.0.0.1\",\
        \"destinationIP\":\"1.1.1.1\",\"sourcePort\":\"5000\",\"destinationPort\":\"443\",\
        \"host\":\"example.com\",\"dnsMode\":\"normal\",\"processPath\":\"/bin/curl\"}}]}";
    let all = ConnectionVec::try_from(text.to_string()).unwrap();
    assert_eq!(all.download_total, 2048);
    assert_eq!(all.upload_total, 1024);
    assert_eq!(all.connections.len(), 1);
    let c = &all.connections[0];
    assert_eq!(c.id, "c1");
    assert_eq!(c.chains, vec!["DIRECT".to_string(), "GLOBAL".to_string()]);
    assert_eq!(c.rule, "Match");
    assert_eq!(c.rule_payload, "");
    assert_eq!(c.upload, 12);
    assert_eq!(c.download, 34);
    assert_eq!(c.start(), "2023-01-01T00:00:00Z");
    assert_eq!(c.metadata.network, "tcp");
    assert_eq!(c.metadata.kind, "HTTP");
    assert_eq!(c.metadata.source_ip, "127.0.0.1");
    assert_eq!(c.metadata.destination_ip, "1.1.1.1");
    assert_eq!(c.metadata.source_port, "5000");
    assert_eq!(c.metadata.destination_port, "443");
    assert_eq!(c.metadata.host, "example.com");
    assert_eq!(c.metadata.dns_mode, "normal");
    assert_eq!(c.metadata.process_path, "/bin/curl");

    let none = "{\"downloadTotal\":0,\"uploadTotal\":0,\"connections\":[]}";
    assert_eq!(ConnectionVec::try_from(none.to_string()).unwrap().connections.len(), 0);
}

#[test]
fn connections_are_all_or_nothing() {
    let no_metadata = "{\"downloadTotal\":0,\"uploadTotal\":0,\"connections\":[{\
        \"id\":\"c1\",\"chains\":[],\"rule\":\"Match\",\"rulePayload\":\"\",\
        \"upload\":12,\"download\":34,\"start\":\"now\"}]}";
    assert_eq!(ConnectionVec::try_from(no_metadata.to_string()).err(), Some(DecodeError::Schema));
    let bad_chain = "{\"downloadTotal\":0,\"uploadTotal\":0,\"connections\":[{\
        \"id\":\"c1\",\"chains\":[1],\"rule\":\"Match\",\"rulePayload\":\"\",\
        \"upload\":12,\"download\":34,\"start\":\"now\",\"metadata\":{\
        \"network\":\"tcp\",\"type\":\"HTTP\",\"sourceIP\":\"127.0.0.1\",\
        \"destinationIP\":\"1.1.1.1\",\"sourcePort\":\"5000\",\"destinationPort\":\"443\",\
        \"host\":\"example.com\",\"dnsMode\":\"normal\",\"processPath\":\"/bin/curl\"}}]}";
    assert_eq!(ConnectionVec::try_from(bad_chain.to_string()).err(), Some(DecodeError::Schema));
    assert_eq!(
        ConnectionVec::try_from("{\"uploadTotal\":0,\"connections\":[]}".to_string()).err(),
        Some(DecodeError::Schema)
    );
}
