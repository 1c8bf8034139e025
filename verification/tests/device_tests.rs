use normalizer::device::{ClientHints, DeviceContext, ParsedDevice, RawUserAgentInfo};

fn ua_headers_with(extra_name: &str, extra_value: &str) -> Vec<(String, String)> {
    vec![
        (
            "user-agent".to_string(),
            r#""Mozilla/5.0 (Linux; Android 11; foo g31(w)) AppleWebKit/537.36 (KHTML, like Gecko) Chrome/109.0.0.0 Mobile Safari/537.36""#.to_string(),
        ),
        (extra_name.to_string(), extra_value.to_string()),
    ]
}

fn parsed_foo() -> ParsedDevice {
    ParsedDevice {
        family: "foo g31(w)".to_string(),
        model: Some("foo g31(w)".to_string()),
        brand: None,
    }
}

#[test]
fn test_fallback_to_ua_if_no_client_hints() {
    let headers = ua_headers_with("invalid header", "moto g31(w)");
    let info = RawUserAgentInfo::from_headers(&headers);
    let known = vec!["foo g31(w)".to_string()];
    let device = DeviceContext::from_hints_or_ua(&info, &Some(parsed_foo()), &known);
    assert_eq!(device.unwrap().family.unwrap(), "foo g31(w)");
}

#[test]
fn test_use_client_hints_for_device() {
    let headers = ua_headers_with("SEC-CH-UA-MODEL", "moto g31(w)");
    let info = RawUserAgentInfo::from_headers(&headers);
    let known = vec!["foo g31(w)".to_string()];
    let device = DeviceContext::from_hints_or_ua(&info, &Some(parsed_foo()), &known);
    assert_eq!(device.unwrap().model.unwrap(), "moto g31(w)");
}

#[test]
fn test_strip_whitespace_and_quotes() {
    let headers = vec![("SEC-CH-UA-MODEL".to_string(), "   \"moto g31(w)\"".to_string())];
    let info = RawUserAgentInfo::from_headers(&headers);
    let device = DeviceContext::from_hints_or_ua(&info, &None, &Vec::new());
    assert_eq!(device.unwrap().model.unwrap(), "moto g31(w)");
}

#[test]
fn test_ignore_empty_device() {
    let headers = vec![("SEC-CH-UA-MODEL".to_string(), "".to_string())];
    let client_hints = RawUserAgentInfo::from_headers(&headers).client_hints;
    let from_hints = DeviceContext::parse_client_hints(&client_hints);
    assert!(from_hints.is_none());
}

#[test]
fn test_empty_hint_falls_through_to_user_agent() {
    let headers = ua_headers_with("SEC-CH-UA-MODEL", "  \"\" ");
    let info = RawUserAgentInfo::from_headers(&headers);
    let known = vec!["foo g31(w)".to_string()];
    let device = DeviceContext::from_hints_or_ua(&info, &Some(parsed_foo()), &known);
    assert_eq!(device.unwrap().family.unwrap(), "foo g31(w)");
}

#[test]
fn test_unknown_family_yields_nothing() {
    let headers = ua_headers_with("invalid header", "x");
    let info = RawUserAgentInfo::from_headers(&headers);
    let known = vec!["iPhone".to_string(), "Samsung Galaxy".to_string()];
    let device = DeviceContext::from_hints_or_ua(&info, &Some(parsed_foo()), &known);
    assert!(device.is_none());
}

#[test]
fn test_hint_precedence_is_not_a_merge() {
    let headers = ua_headers_with("sec-ch-ua-model", "moto g31(w)");
    let info = RawUserAgentInfo::from_headers(&headers);
    let known = vec!["foo g31(w)".to_string()];
    let device = DeviceContext::from_hints_or_ua(&info, &Some(parsed_foo()), &known).unwrap();
    assert_eq!(device.model.unwrap(), "moto g31(w)");
    assert!(device.family.is_none());
    assert!(device.brand.is_none());
}

#[test]
fn test_header_names_match_case_insensitively() {
    let headers = vec![("Sec-CH-ua-MoDeL".to_string(), "pixel 8".to_string())];
    let info = RawUserAgentInfo::from_headers(&headers);
    assert_eq!(info.client_hints.sec_ch_ua_model.unwrap(), "pixel 8");
    assert!(info.user_agent.is_none());
}

#[test]
fn test_later_header_wins() {
    let headers = vec![
        ("sec-ch-ua-model".to_string(), "first".to_string()),
        ("SEC-CH-UA-MODEL".to_string(), "second".to_string()),
    ];
    let info = RawUserAgentInfo::from_headers(&headers);
    assert_eq!(info.client_hints.sec_ch_ua_model.unwrap(), "second");
}

#[test]
fn test_only_surrounding_quotes_are_stripped() {
    let hints = ClientHints {
        sec_ch_ua_platform: None,
        sec_ch_ua_platform_version: None,
        sec_ch_ua: None,
        sec_ch_ua_model: Some(" \"moto\" \"g31\" ".to_string()),
    };
    let device = DeviceContext::parse_client_hints(&hints).unwrap();
    assert_eq!(device.model.unwrap(), "moto\" \"g31");
}

#[test]
fn test_interior_quote_without_surrounding_quotes_is_kept() {
    let hints = ClientHints {
        sec_ch_ua_platform: None,
        sec_ch_ua_platform_version: None,
        sec_ch_ua: None,
        sec_ch_ua_model: Some("a\"b".to_string()),
    };
    let device = DeviceContext::parse_client_hints(&hints).unwrap();
    assert_eq!(device.model.unwrap(), "a\"b");
}

#[test]
fn test_unicode_whitespace_is_trimmed_from_hint() {
    let hints = ClientHints {
        sec_ch_ua_platform: None,
        sec_ch_ua_platform_version: None,
        sec_ch_ua: None,
        sec_ch_ua_model: Some("\u{a0}\"pixel 8\"\u{2002}".to_string()),
    };
    let device = DeviceContext::parse_client_hints(&hints).unwrap();
    assert_eq!(device.model.unwrap(), "pixel 8");
}

#[test]
fn test_default_key() {
    assert_eq!(DeviceContext::default_key(), "device");
}
