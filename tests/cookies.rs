use account_switch::cookies::{cookie_pattern, cookie_replacement, update_yaml_cookie_values};
use account_switch::shop::{cookie_pairs, cookies_from_entries, cookies_from_headers, RiotCookies};

const SETTINGS: &str = "riot-login:
    persist:
        region: \"EUW\"
        session:
            cookies:
                -   domain: \"auth.riotgames.com\"
                    hostOnly: true
                    httpOnly: true
                    name: \"ssid\"
                    path: \"/\"
                    persistent: true
                    secureOnly: true
                    value: \"old-ssid\"
                -   domain: \"auth.riotgames.com\"
                    hostOnly: true
                    name: \"clid\"
                    path: \"/\"
                    value: \"ec1\"
rso-authenticator:
    tdid:
        domain: \"riotgames.com\"
        hostOnly: false
        value: \"old-tdid\"
";

fn no_cookies() -> RiotCookies {
    RiotCookies { asid: None, ccid: None, clid: None, sub: None, csid: None, ssid: None, tdid: None }
}

#[test]
fn new_session_cookie_values_are_written() {
    let cookies = RiotCookies {
        ssid: Some("new-ssid".to_string()),
        clid: Some("eu1".to_string()),
        ..no_cookies()
    };
    let out = update_yaml_cookie_values(SETTINGS, &cookies);
    assert!(out.contains("value: \"new-ssid\""));
    assert!(!out.contains("old-ssid"));
    assert!(out.contains("value: \"eu1\""));
    assert!(!out.contains("\"ec1\""));
    assert!(out.contains("value: \"old-tdid\""));
    assert_eq!(out.len(), SETTINGS.len());
}

#[test]
fn device_id_is_written() {
    let cookies = RiotCookies { tdid: Some("fresh".to_string()), ..no_cookies() };
    let out = update_yaml_cookie_values(SETTINGS, &cookies);
    assert_eq!(out, SETTINGS.replace("old-tdid", "fresh"));
}

#[test]
fn nothing_to_write_leaves_text_unchanged() {
    assert_eq!(update_yaml_cookie_values(SETTINGS, &no_cookies()), SETTINGS);
    let absent = RiotCookies { asid: Some("x".to_string()), ..no_cookies() };
    assert_eq!(update_yaml_cookie_values(SETTINGS, &absent), SETTINGS);
}

#[test]
fn dollar_signs_are_written_literally() {
    let cookies = RiotCookies { ssid: Some("a$1b$$".to_string()), ..no_cookies() };
    let out = update_yaml_cookie_values(SETTINGS, &cookies);
    assert!(out.contains("value: \"a$1b$$\""));
    assert_eq!(cookie_replacement("a$b"), "${1}\"a$$b\"");
}

#[test]
fn cookie_pattern_wraps_escaped_name() {
    let p = cookie_pattern("ssid");
    assert!(p.starts_with("(?m)(name:"));
    assert!(p.contains("ssid"));
    assert!(p.ends_with("\"[^\"]*\""));
}

fn entry(name: Option<&str>, value: Option<&str>) -> (Option<String>, Option<String>) {
    (name.map(|s| s.to_string()), value.map(|s| s.to_string()))
}

#[test]
fn session_cookies_collected_from_entries() {
    let entries = vec![
        entry(Some("ssid"), Some("s1")),
        entry(Some("clid"), Some("eu1")),
        entry(Some("other"), Some("x")),
        entry(None, Some("y")),
        entry(Some("sub"), None),
        entry(Some("ssid"), Some("s2")),
    ];
    let c = cookies_from_entries(&entries, Some("dev".to_string())).unwrap();
    assert_eq!(c.ssid.as_deref(), Some("s2"));
    assert_eq!(c.clid.as_deref(), Some("eu1"));
    assert_eq!(c.sub, None);
    assert_eq!(c.asid, None);
    assert_eq!(c.tdid.as_deref(), Some("dev"));
}

#[test]
fn no_ssid_means_no_session() {
    let entries = vec![entry(Some("clid"), Some("eu1")), entry(Some("ssid"), None)];
    assert!(cookies_from_entries(&entries, Some("dev".to_string())).is_none());
    assert!(cookies_from_entries(&vec![], None).is_none());
}

#[test]
fn cookie_header_split_into_pairs() {
    let pairs = cookie_pairs("ssid=abc; clid=eu1; flag; tok=a=b");
    assert_eq!(
        pairs,
        vec![
            (Some("ssid".to_string()), Some("abc".to_string())),
            (Some("clid".to_string()), Some("eu1".to_string())),
            (None, None),
            (Some("tok".to_string()), Some("a=b".to_string())),
        ]
    );
    assert_eq!(cookie_pairs(""), vec![(None, None)]);
    assert_eq!(cookie_pairs("a=1;b=2"), vec![(Some("a".to_string()), Some("1;b=2".to_string()))]);
}

#[test]
fn cookies_read_from_headers() {
    let c = cookies_from_headers(Some("asid=A; ssid=S; sub=U; csid=C; ccid=K; clid=L; tdid=no"), Some("x=1; tdid=T"));
    assert_eq!(c.asid.as_deref(), Some("A"));
    assert_eq!(c.ssid.as_deref(), Some("S"));
    assert_eq!(c.sub.as_deref(), Some("U"));
    assert_eq!(c.csid.as_deref(), Some("C"));
    assert_eq!(c.ccid.as_deref(), Some("K"));
    assert_eq!(c.clid.as_deref(), Some("L"));
    assert_eq!(c.tdid.as_deref(), Some("T"));
    let none = cookies_from_headers(None, None);
    assert_eq!(none.ssid, None);
    assert_eq!(none.tdid, None);
}
