use account_switch::cache::remaining_secs;
use account_switch::shop::{daily_offers, extract_access_token, shard_from_clid, user_agent_for};

#[test]
fn mod_test_extract_token_from_fragment() {
    let url = "https://playvalorant.com/opt_in#access_token=abc123&token_type=Bearer&expires_in=3600";
    assert_eq!(extract_access_token(url), Some("abc123".to_string()));
}

#[test]
fn mod_test_extract_token_last_param() {
    let url = "https://playvalorant.com/opt_in#token_type=Bearer&access_token=xyz789";
    assert_eq!(extract_access_token(url), Some("xyz789".to_string()));
}

#[test]
fn mod_test_extract_token_only_param() {
    assert_eq!(extract_access_token("https://example.com#access_token=only"), Some("only".to_string()));
}

#[test]
fn mod_test_extract_token_missing() {
    assert_eq!(extract_access_token("https://example.com?something=else"), None);
}

#[test]
fn mod_test_extract_token_empty_string() {
    assert_eq!(extract_access_token(""), None);
}

#[test]
fn storefront_test_extract_token_from_fragment() {
    let url = "https://playvalorant.com/opt_in#access_token=abc123&token_type=Bearer&expires_in=3600";
    assert_eq!(extract_access_token(url), Some("abc123".to_string()));
}

#[test]
fn storefront_test_extract_token_last_param() {
    let url = "https://playvalorant.com/opt_in#token_type=Bearer&access_token=xyz789";
    assert_eq!(extract_access_token(url), Some("xyz789".to_string()));
}

#[test]
fn storefront_test_extract_token_only_param() {
    assert_eq!(extract_access_token("https://example.com#access_token=only"), Some("only".to_string()));
}

#[test]
fn storefront_test_extract_token_missing() {
    assert_eq!(extract_access_token("https://example.com?something=else"), None);
}

#[test]
fn storefront_test_extract_token_empty_string() {
    assert_eq!(extract_access_token(""), None);
}

#[test]
fn extract_token_empty_value_is_none() {
    assert_eq!(extract_access_token("https://example.com#access_token=&token_type=Bearer"), None);
    assert_eq!(extract_access_token("https://example.com#access_token="), None);
}

#[test]
fn extract_token_takes_first_occurrence() {
    assert_eq!(
        extract_access_token("a#access_token=first&access_token=second"),
        Some("first".to_string())
    );
}

#[test]
fn test_user_agent_format() {
    let build = "70.0.0.4888690.4873386";
    let ua = user_agent_for(build);
    assert!(ua.starts_with("RiotClient/"));
    assert!(ua.contains("rso-auth"));
    assert!(ua.contains(build));
    assert_eq!(ua, "RiotClient/70.0.0.4888690.4873386 rso-auth (Windows;10;;Professional, x64)");
}

#[test]
fn shard_drops_trailing_digits() {
    assert_eq!(shard_from_clid("eu1"), "eu");
    assert_eq!(shard_from_clid("na"), "na");
    assert_eq!(shard_from_clid("ap12"), "ap");
    assert_eq!(shard_from_clid("123"), "");
    assert_eq!(shard_from_clid("e1u2"), "e1u");
}

#[test]
fn daily_offers_priced_from_store_offers() {
    let uuids = vec!["skin-a".to_string(), "skin-b".to_string(), "skin-c".to_string()];
    let offers = vec![("skin-b".to_string(), 2175u64), ("skin-a".to_string(), 1775u64)];
    let daily = daily_offers(&uuids, &offers);
    assert_eq!(daily.len(), 3);
    assert_eq!(daily[0].skin_uuid, "skin-a");
    assert_eq!(daily[0].vp_cost, 1775);
    assert_eq!(daily[1].vp_cost, 2175);
    assert_eq!(daily[2].vp_cost, 0);
}

#[test]
fn later_store_offer_wins_and_none_costs_zero() {
    let uuids = vec!["skin-a".to_string()];
    let offers = vec![("skin-a".to_string(), 1u64), ("skin-a".to_string(), 2u64)];
    assert_eq!(daily_offers(&uuids, &offers)[0].vp_cost, 2);
    assert_eq!(daily_offers(&uuids, &vec![])[0].vp_cost, 0);
}

#[test]
fn cache_remaining_seconds() {
    assert_eq!(remaining_secs(100, 40), Some(60));
    assert_eq!(remaining_secs(100, 100), None);
    assert_eq!(remaining_secs(100, 140), None);
    assert_eq!(remaining_secs(i64::MAX, i64::MIN), Some(u64::MAX));
}
