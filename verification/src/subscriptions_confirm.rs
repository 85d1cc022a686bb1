//! The confirm workflow: redeem a confirmation token and mark its
//! subscriber as confirmed.

use vstd::prelude::*;

use crate::response::HttpStatus;
use crate::store::{token_lookup, with_confirmed, SubscriptionStore};

verus! {

/// The query parameters of a confirmation request.
pub struct Parameters {
    pub subscription_token: String,
}

/// One confirm call: looks the token up and, when it is known, marks its
/// subscriber as confirmed. An unknown token is "not found" and mutates
/// nothing; a transient store failure is a server error and mutates
/// nothing; otherwise the one matching row becomes `Confirmed` — and
/// nothing else changes, so a second call with the same token succeeds
/// the same way.
pub fn confirm(store: &mut SubscriptionStore, params: &Parameters) -> (r: HttpStatus)
    requires
        old(store).wf(),
    ensures
        final(store).wf(),
        final(store).faults() == old(store).faults(),
        old(store).faults().redeem ==> r == HttpStatus::InternalServerError && final(store)@
            == old(store)@,
        !old(store).faults().redeem && token_lookup(
            old(store)@,
            params.subscription_token@,
        ) is None ==> r == HttpStatus::NotFound && final(store)@ == old(store)@,
        !old(store).faults().redeem && token_lookup(
            old(store)@,
            params.subscription_token@,
        ) is Some && old(store).faults().confirm ==> r == HttpStatus::InternalServerError
            && final(store)@ == old(store)@,
        !old(store).faults().redeem && !old(store).faults().confirm ==> (token_lookup(
            old(store)@,
            params.subscription_token@,
        ) matches Some(id) ==> r == HttpStatus::Success && final(store)@ == with_confirmed(
            old(store)@,
            id,
        )),
    {
    let id = match store.get_subscriber_id_from_token(params.subscription_token.as_str()) {
        Ok(id) => id,
        Err(_) => {
            return HttpStatus::InternalServerError;
        },
    };
    match id {
        None => HttpStatus::NotFound,
        Some(subscriber_id) => {
            match store.confirm_subscriber(subscriber_id) {
                Ok(_) => HttpStatus::Success,
                Err(_) => HttpStatus::InternalServerError,
            }
        },
    }
}

} // verus!
