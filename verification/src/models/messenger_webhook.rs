use serde_json::Number;
use vstd::prelude::*;
use vstd::std_specs::convert::FromSpecImpl;

verus! {

/// `serde_json::Number`: a JSON number of the payload, carried through as
/// the platform sent it. Nothing is read from it here.
#[verifier::external_type_specification]
#[verifier::external_body]
pub struct ExNumber(Number);

/// The query of the subscription handshake.
#[derive(Clone, Debug)]
pub struct MessengerVerifysubscription {
    pub hub_mode: Option<String>,
    pub hub_verify_token: Option<String>,
    pub hub_challenge: Option<String>,
}

/// The query of the subscription handshake as the first endpoint of the
/// gateway took it.
#[derive(Debug)]
pub struct MessengerVerifysubscriptionParam {
    pub hub_mode: Option<String>,
    pub hub_verify_token: Option<String>,
    pub hub_challenge: Option<String>,
}

impl From<MessengerVerifysubscriptionParam> for MessengerVerifysubscription {
    fn from(param: MessengerVerifysubscriptionParam) -> (query: Self) {
        Self {
            hub_mode: param.hub_mode,
            hub_verify_token: param.hub_verify_token,
            hub_challenge: param.hub_challenge,
        }
    }
}

impl FromSpecImpl<MessengerVerifysubscriptionParam> for MessengerVerifysubscription {
    open spec fn obeys_from_spec() -> bool {
        true
    }

    open spec fn from_spec(param: MessengerVerifysubscriptionParam) -> Self {
        MessengerVerifysubscription {
            hub_mode: param.hub_mode,
            hub_verify_token: param.hub_verify_token,
            hub_challenge: param.hub_challenge,
        }
    }
}

#[derive(Debug, Clone, Default)]
pub struct Sender {
    pub id: String,
}

#[derive(Debug, Clone, Default)]
pub struct Receipient {
    pub id: String,
}

#[derive(Debug, Clone, Default)]
pub struct QuickReplyPayload {
    pub payload: String,
}

impl QuickReplyPayload {
    pub fn get_payload(&self) -> (payload: &String)
        ensures
            *payload == self.payload,
    {
        &self.payload
    }
}

#[derive(Debug, Clone, Default)]
pub struct Message {
    pub text: Option<String>,
    pub quick_reply: Option<QuickReplyPayload>,
}

impl Message {
    /// The text of the message, empty where it has none.
    pub open spec fn text_or_empty(&self) -> Seq<char> {
        match self.text {
            Some(text) => text@,
            None => Seq::empty(),
        }
    }

    pub fn get_text(&self) -> (text: String)
        ensures
            text@ == self.text_or_empty(),
    {
        match &self.text {
            Some(text) => text.clone(),
            None => String::new(),
        }
    }

    pub fn get_quick_reply(&self) -> (reply: Option<QuickReplyPayload>)
        ensures
            reply == self.quick_reply,
    {
        match &self.quick_reply {
            Some(reply) => Some(QuickReplyPayload { payload: reply.payload.clone() }),
            None => None,
        }
    }
}

#[derive(Debug, Clone, Default)]
pub struct Postback {
    pub payload: String,
}

impl Postback {
    pub fn get_payload(&self) -> (payload: &String)
        ensures
            *payload == self.payload,
    {
        &self.payload
    }
}

#[derive(Clone, Debug)]
pub struct MessagePostback {
    pub payload: String,
}

impl MessagePostback {
    pub fn get_payload(&self) -> (payload: &String)
        ensures
            *payload == self.payload,
    {
        &self.payload
    }
}

#[derive(Debug)]
pub struct DeliveryInfo {
    pub mids: Vec<String>,
    pub watermark: Number,
}

#[derive(Debug)]
pub struct ReadInfo {
    pub watermark: Number,
}

#[derive(Clone, Debug)]
pub struct AccountLinkingInfo {
    pub status: String,
    pub authorization_code: String,
}

/// One messaging event of an entry. Which of the optional parts is present
/// tells its kind: postback, message, delivery or read receipt, account
/// linking, reaction.
#[derive(Debug)]
pub struct Messaging {
    pub sender: Sender,
    pub postback: Option<MessagePostback>,
    pub message: Option<Message>,
    pub delivery: Option<DeliveryInfo>,
    pub read: Option<ReadInfo>,
    pub account_linking: Option<AccountLinkingInfo>,
    pub recipient: Receipient,
    pub reaction: Option<String>,
    pub timestamp: Number,
}

/// One entry of a delivery: the events of one tenant, whose identifier is `id`.
#[derive(Debug)]
pub struct WebhookEntry {
    pub id: String,
    pub time: Number,
    pub messaging: Option<Vec<Messaging>>,
    pub changes: Option<Vec<ChangesEvent>>,
}

#[derive(Debug)]
pub struct ChangesEvent {
    pub field: String,
    pub value: Option<ChangeEventValue>,
}

#[derive(Debug)]
pub struct ChangeEventValue {
    pub page_id: String,
    pub invoice_id: Option<String>,
    pub media_id: Option<String>,
    pub buyer_id: Option<String>,
    pub timestamp: Number,
    pub event: Option<String>,
    pub payment: Option<PaymentInfo>,
}

#[derive(Clone, Debug)]
pub struct PaymentAmount {
    pub amount: String,
    pub currency: String,
}

#[derive(Debug)]
pub struct PaymentInfo {
    pub payment_amount: String,
    pub payment_method: String,
    pub creation_time: Number,
    pub buyer_id: String,
    pub order_id: Option<String>,
    pub payment_id: String,
    pub metadata: Option<PaymentMetadata>,
}

#[derive(Debug)]
pub struct PaymentMetadata {
    pub image_url: Option<String>,
    pub bank_transfer_id: Option<String>,
    pub media_id: Option<String>,
    pub amount_validated: Option<PaymentAmount>,
    pub transaction_time: Option<Number>,
    pub validation_info: Option<BankSlipValidationInfo>,
    pub validation_status: Option<String>,
    pub receiver_name: Option<String>,
    pub receiver_bank_account_id: Option<String>,
    pub receiver_bank_code: Option<String>,
    pub sender_name: Option<String>,
    pub sender_bank_account_id: Option<String>,
    pub sender_bank_code: Option<String>,
    pub hpp_payment_link: Option<HppMetadata>,
}

#[derive(Clone, Debug)]
pub struct HppMetadata {
    pub psp_txn_id: String,
    pub payment_status: String,
    pub payment_provider: String,
    pub updated_time: String,
}

#[derive(Clone, Debug)]
pub struct BankSlipValidationInfo {
    pub payment_amount: PaymentAmount,
    pub payment_time: String,
    pub is_seller_onboarded: bool,
    pub matches_seller_account: bool,
    pub is_duplicate: bool,
}

/// An entry as it is republished: with the identifier of the request that
/// brought it.
#[derive(Debug)]
pub struct WrappedMessage {
    pub trace_id: String,
    pub page_entry: WebhookEntry,
}

/// One delivery of the platform: the kind of object it speaks of, and one
/// entry for each tenant that has news.
#[derive(Debug)]
pub struct MessengerWebhook {
    pub object: String,
    pub entry: Vec<WebhookEntry>,
}

} // verus!
