use crate::models::messenger_webhook::MessengerVerifysubscription;
use vstd::prelude::*;

verus! {

/// The mode in which the platform asks for a subscription.
pub open spec fn subscribe_mode() -> Seq<char> {
    "subscribe"@
}

/// What the subscription handshake answers to a query, where `secret` is
/// the verify token that the gateway was configured with: a word on the
/// first part that the query lacks; the challenge, where the mode is to
/// subscribe and the token is the secret; a refusal otherwise.
pub open spec fn handshake_answer(
    mode: Option<Seq<char>>,
    token: Option<Seq<char>>,
    challenge: Option<Seq<char>>,
    secret: Seq<char>,
) -> Seq<char> {
    if token is None {
        "No verify token"@
    } else if mode is None {
        "No hub mode"@
    } else if challenge is None {
        "No hub challenge"@
    } else if mode->0 == subscribe_mode() && token->0 == secret {
        challenge->0
    } else {
        "Veirification failed"@
    }
}

/// The text of an optional string.
pub open spec fn text_of(part: Option<String>) -> Option<Seq<char>> {
    match part {
        Some(text) => Some(text@),
        None => None,
    }
}

/// Answers the subscription handshake of the platform.
pub fn messenger_verify_subscription_handler(
    query: MessengerVerifysubscription,
    verify_token: &str,
) -> (answer: String)
    ensures
        answer@ == handshake_answer(
            text_of(query.hub_mode),
            text_of(query.hub_verify_token),
            text_of(query.hub_challenge),
            verify_token@,
        ),
{
    let token = match query.hub_verify_token {
        Some(token) => token,
        None => {
            return "No verify token".to_owned();
        },
    };
    let mode = match query.hub_mode {
        Some(mode) => mode,
        None => {
            return "No hub mode".to_owned();
        },
    };
    let challenge = match query.hub_challenge {
        Some(challenge) => challenge,
        None => {
            return "No hub challenge".to_owned();
        },
    };
    if mode == "subscribe".to_owned() && token == verify_token.to_owned() {
        challenge
    } else {
        "Veirification failed".to_owned()
    }
}

} // verus!
