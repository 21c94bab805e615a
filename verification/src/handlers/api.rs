use crate::models::merchant_channel::MerchantChannelEligbleResponse;
use vstd::prelude::*;

verus! {

/// The name under which a query without an identifier is answered.
pub open spec fn unnamed() -> Seq<char> {
    "n/a"@
}

/// The answer of the eligibility endpoint. `id` is the tenant that was
/// asked for, and `eligible` what the authorization of that tenant gave. A
/// query without an identifier names nobody, and nobody is not eligible.
pub fn is_merchant_channel_eligible_handler(id: Option<String>, eligible: bool) -> (res:
    MerchantChannelEligbleResponse)
    ensures
        match id {
            Some(id) => res.ref_id == id && res.eligible == eligible,
            None => res.ref_id@ == unnamed() && !res.eligible,
        },
{
    match id {
        Some(id) => MerchantChannelEligbleResponse { ref_id: id, eligible },
        None => MerchantChannelEligbleResponse { ref_id: "n/a".to_owned(), eligible: false },
    }
}

} // verus!
