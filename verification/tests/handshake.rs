use gateway::handlers::api::is_merchant_channel_eligible_handler;
use gateway::handlers::messenger::messenger_verify_subscription_handler;
use gateway::models::messenger_webhook::{
    MessengerVerifysubscription, MessengerVerifysubscriptionParam,
};

fn query(mode: Option<&str>, token: Option<&str>, challenge: Option<&str>) -> MessengerVerifysubscription {
    MessengerVerifysubscription {
        hub_mode: mode.map(|s| s.to_string()),
        hub_verify_token: token.map(|s| s.to_string()),
        hub_challenge: challenge.map(|s| s.to_string()),
    }
}

#[test]
fn handshake_with_the_secret_returns_the_challenge() {
    let q = query(Some("subscribe"), Some("SECRET"), Some("12345"));
    assert_eq!(messenger_verify_subscription_handler(q, "SECRET"), "12345");
}

#[test]
fn handshake_with_another_token_fails() {
    let q = query(Some("subscribe"), Some("WRONG"), Some("12345"));
    assert_eq!(messenger_verify_subscription_handler(q, "SECRET"), "Veirification failed");
}

#[test]
fn handshake_in_another_mode_fails() {
    let q = query(Some("unsubscribe"), Some("SECRET"), Some("12345"));
    assert_eq!(messenger_verify_subscription_handler(q, "SECRET"), "Veirification failed");
    let q = query(Some("Subscribe"), Some("SECRET"), Some("12345"));
    assert_eq!(messenger_verify_subscription_handler(q, "SECRET"), "Veirification failed");
}

#[test]
fn handshake_without_a_token_says_so() {
    let q = query(Some("subscribe"), None, Some("12345"));
    assert_eq!(messenger_verify_subscription_handler(q, "SECRET"), "No verify token");
    let q = query(None, None, None);
    assert_eq!(messenger_verify_subscription_handler(q, "SECRET"), "No verify token");
}

#[test]
fn handshake_without_a_mode_says_so() {
    let q = query(None, Some("SECRET"), Some("12345"));
    assert_eq!(messenger_verify_subscription_handler(q, "SECRET"), "No hub mode");
    let q = query(None, Some("SECRET"), None);
    assert_eq!(messenger_verify_subscription_handler(q, "SECRET"), "No hub mode");
}

#[test]
fn handshake_without_a_challenge_says_so() {
    let q = query(Some("subscribe"), Some("SECRET"), None);
    assert_eq!(messenger_verify_subscription_handler(q, "SECRET"), "No hub challenge");
}

#[test]
fn handshake_returns_an_empty_challenge() {
    let q = query(Some("subscribe"), Some(""), Some(""));
    assert_eq!(messenger_verify_subscription_handler(q, ""), "");
}

#[test]
fn eligibility_answer_names_the_tenant() {
    let res = is_merchant_channel_eligible_handler(Some("page-1".to_string()), true);
    assert_eq!(res.ref_id, "page-1");
    assert!(res.eligible);
    let res = is_merchant_channel_eligible_handler(Some("page-2".to_string()), false);
    assert_eq!(res.ref_id, "page-2");
    assert!(!res.eligible);
}

#[test]
fn eligibility_answer_without_a_tenant() {
    let res = is_merchant_channel_eligible_handler(None, true);
    assert_eq!(res.ref_id, "n/a");
    assert!(!res.eligible);
}

#[test]
fn handshake_takes_the_earlier_form_of_the_query() {
    let param = MessengerVerifysubscriptionParam {
        hub_mode: Some("subscribe".to_string()),
        hub_verify_token: Some("SECRET".to_string()),
        hub_challenge: Some("12345".to_string()),
    };
    let query = MessengerVerifysubscription::from(param);
    assert_eq!(query.hub_mode.as_deref(), Some("subscribe"));
    assert_eq!(query.hub_verify_token.as_deref(), Some("SECRET"));
    assert_eq!(query.hub_challenge.as_deref(), Some("12345"));
    assert_eq!(messenger_verify_subscription_handler(query, "SECRET"), "12345");
    let param =
        MessengerVerifysubscriptionParam { hub_mode: None, hub_verify_token: None, hub_challenge: None };
    assert_eq!(
        messenger_verify_subscription_handler(param.into(), "SECRET"),
        "No verify token"
    );
}
