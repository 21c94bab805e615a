use gateway::domain::error::DomainError;
use gateway::errors::{AppError, BadRequest, NotFound};
use gateway::models::application::{Application, ApplicationResponse};
use gateway::models::health_check::{HealtCheckResponse, HealthCheck};
use gateway::models::merchant_channel::{
    MerchantChannel, MerchantChannelResponse, MerchantChannelWithTokenResponse,
};
use gateway::models::merchant_config::{
    MerchantConfig, MerchantConfigResponse, MerchantConfigWithTokenResponse,
};
use gateway::models::messenger_webhook::{Message, MessagePostback, Postback, QuickReplyPayload};

#[test]
fn application_keeps_its_fields() {
    let app = Application::new("a1".to_string(), "shop".to_string(), "orders".to_string(), true);
    assert_eq!(app.app_id, "a1");
    assert_eq!(app.app_name, "shop");
    assert_eq!(app.topic, "orders");
    assert!(app.enabled);
    let res = ApplicationResponse::from(app);
    assert_eq!(res.app_id, "a1");
    assert_eq!(res.app_name, "shop");
    assert_eq!(res.topic, "orders");
    assert!(res.enabled);
}

#[test]
fn health_check_keeps_its_fields() {
    let check = HealthCheck::new("2024-01-01 00:00:00".to_string(), "PONG".to_string());
    assert_eq!(check.date_now, "2024-01-01 00:00:00");
    assert_eq!(check.ping, "PONG");
    let res = HealtCheckResponse::from(check);
    assert_eq!(res.date_now, "2024-01-01 00:00:00");
    assert_eq!(res.ping, "PONG");
}

#[test]
fn merchant_channel_answers_hide_or_show_the_token() {
    let channel = |token: &str| {
        MerchantChannel::new(
            7,
            "page-1".to_string(),
            "Shop".to_string(),
            "messenger".to_string(),
            token.to_string(),
        )
    };
    let c = channel("secret");
    assert_eq!(c.id, 7);
    assert_eq!(c.ref_id, "page-1");
    assert_eq!(c.name, "Shop");
    assert_eq!(c.ref_type, "messenger");
    assert_eq!(c.token, "secret");
    let res = MerchantChannelResponse::from(c);
    assert_eq!((res.id, res.ref_id.as_str(), res.name.as_str(), res.ref_type.as_str()), (
        7,
        "page-1",
        "Shop",
        "messenger"
    ));
    let res = MerchantChannelWithTokenResponse::from(channel("secret"));
    assert_eq!(res.id, 7);
    assert_eq!(res.ref_id, "page-1");
    assert_eq!(res.name, "Shop");
    assert_eq!(res.ref_type, "messenger");
    assert_eq!(res.token, "secret");
}

#[test]
fn merchant_config_answers_hide_or_show_the_token() {
    let config = || MerchantConfig::new(3, 4, "T".to_string(), false, "secret".to_string());
    let c = config();
    assert_eq!((c.channel_id, c.app_id, c.topic.as_str(), c.enabled, c.token.as_str()), (
        3,
        4,
        "T",
        false,
        "secret"
    ));
    let res = MerchantConfigResponse::from(config());
    assert_eq!((res.channel_id, res.app_id, res.topic.as_str(), res.enabled), (3, 4, "T", false));
    let res = MerchantConfigWithTokenResponse::from(config());
    assert_eq!(
        (res.channel_id, res.app_id, res.topic.as_str(), res.enabled, res.token.as_str()),
        (3, 4, "T", false, "secret")
    );
}

#[test]
fn payloads_are_handed_out() {
    let reply = QuickReplyPayload { payload: "YES".to_string() };
    assert_eq!(reply.get_payload(), "YES");
    let postback = Postback { payload: "START".to_string() };
    assert_eq!(postback.get_payload(), "START");
    let postback = MessagePostback { payload: "MENU".to_string() };
    assert_eq!(postback.get_payload(), "MENU");
}

#[test]
fn message_text_defaults_to_empty() {
    let message = Message { text: None, quick_reply: None };
    assert_eq!(message.get_text(), "");
    assert!(message.get_quick_reply().is_none());
    let message = Message {
        text: Some("hello".to_string()),
        quick_reply: Some(QuickReplyPayload { payload: "YES".to_string() }),
    };
    assert_eq!(message.get_text(), "hello");
    assert_eq!(message.get_quick_reply().expect("a quick reply").payload, "YES");
}

#[test]
fn app_errors_have_their_codes() {
    assert_eq!(AppError::bad_request().get_codes(), (400, 40002));
    assert_eq!(AppError::not_found().get_codes(), (404, 40003));
    assert_eq!(AppError::InternalServerError("db down".to_string()).get_codes(), (500, 5001));
    assert_eq!(AppError::RunSyncTask("cancelled".to_string()).get_codes(), (500, 5005));
}

#[test]
fn app_errors_have_their_messages() {
    assert_eq!(AppError::bad_request().message(), "Bad Request");
    assert_eq!(AppError::not_found().message(), "Not found");
    assert_eq!(AppError::InternalServerError("db down".to_string()).message(), "db down");
    assert_eq!(AppError::RunSyncTask("cancelled".to_string()).message(), "cancelled");
    assert_eq!(BadRequest {}.message(), "Bad Request");
    assert_eq!(NotFound {}.message(), "Not found");
}

#[test]
fn app_errors_come_from_their_causes() {
    assert!(matches!(AppError::from(NotFound {}), AppError::NotFound(_)));
    assert!(matches!(AppError::from(BadRequest {}), AppError::BadRequest(_)));
}

#[test]
fn domain_errors_have_their_messages() {
    assert_eq!(DomainError::NotFound("no such page".to_string()).message(), "no such page");
    assert_eq!(DomainError::BadRequest("no id".to_string()).message(), "no id");
    assert_eq!(DomainError::InternalServerError("db down".to_string()).message(), "db down");
}
