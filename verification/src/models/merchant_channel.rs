use vstd::prelude::*;
use vstd::std_specs::convert::FromSpecImpl;

verus! {

/// A tenant of the registry: one page or account of the messaging platform.
pub struct MerchantChannel {
    pub id: i32,
    pub ref_id: String,
    pub name: String,
    pub ref_type: String,
    pub token: String,
}

impl MerchantChannel {
    pub fn new(id: i32, ref_id: String, name: String, ref_type: String, token: String) -> (channel:
        Self)
        ensures
            channel.id == id,
            channel.ref_id == ref_id,
            channel.name == name,
            channel.ref_type == ref_type,
            channel.token == token,
    {
        Self { id, ref_id, name, ref_type, token }
    }
}

/// A tenant as the listing endpoints show it: without its token.
#[derive(Debug)]
pub struct MerchantChannelResponse {
    pub id: i32,
    pub ref_id: String,
    pub name: String,
    pub ref_type: String,
}

/// A tenant with its token.
#[derive(Debug)]
pub struct MerchantChannelWithTokenResponse {
    pub id: i32,
    pub ref_id: String,
    pub name: String,
    pub ref_type: String,
    pub token: String,
}

/// The answer of the eligibility endpoint.
#[derive(Debug)]
pub struct MerchantChannelEligbleResponse {
    pub ref_id: String,
    pub eligible: bool,
}

impl From<MerchantChannel> for MerchantChannelResponse {
    fn from(c: MerchantChannel) -> (res: Self) {
        Self { id: c.id, ref_id: c.ref_id, name: c.name, ref_type: c.ref_type }
    }
}

impl FromSpecImpl<MerchantChannel> for MerchantChannelResponse {
    open spec fn obeys_from_spec() -> bool {
        true
    }

    open spec fn from_spec(c: MerchantChannel) -> Self {
        MerchantChannelResponse { id: c.id, ref_id: c.ref_id, name: c.name, ref_type: c.ref_type }
    }
}

impl From<MerchantChannel> for MerchantChannelWithTokenResponse {
    fn from(c: MerchantChannel) -> (res: Self) {
        Self { id: c.id, ref_id: c.ref_id, name: c.name, ref_type: c.ref_type, token: c.token }
    }
}

impl FromSpecImpl<MerchantChannel> for MerchantChannelWithTokenResponse {
    open spec fn obeys_from_spec() -> bool {
        true
    }

    open spec fn from_spec(c: MerchantChannel) -> Self {
        MerchantChannelWithTokenResponse {
            id: c.id,
            ref_id: c.ref_id,
            name: c.name,
            ref_type: c.ref_type,
            token: c.token,
        }
    }
}

} // verus!
