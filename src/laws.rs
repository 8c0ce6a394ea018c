use vstd::prelude::*;

use crate::contract::PauletteContract;
use crate::state::{
    buy_step, initialize_step, new_office_step, pay_tax_step, revoke_step, LedgerView,
};
use crate::types::{
    Address, Auth, Error, Identifier, TimeStamp, RENEWAL_PERIOD,
};

verus! {

/// In a well-formed ledger no office is at the same time for sale and
/// bought. Every operation keeps the ledger well formed.
pub proof fn law_office_never_both(c: &PauletteContract, id: u128)
    requires
        c.wf(),
    ensures
        !(c@.for_sale.contains_key(id) && c@.bought.contains_key(id)),
{
    c.lemma_wf_exclusive();
}

/// Each transition of the ledger, where it succeeds, leaves no office both
/// for sale and bought.
pub proof fn law_steps_keep_offices_exclusive(
    v: LedgerView,
    admin: Identifier,
    token_id: Address,
    tax: u128,
    auth: Auth,
    id: u128,
    auction: Address,
    price: u128,
    min_price: u128,
    slope: u128,
    buyer: Identifier,
    now: TimeStamp,
    accepted: bool,
    transferred: bool,
)
    requires
        v.exclusive(),
    ensures
        initialize_step(v, admin, token_id, tax) is Ok ==> initialize_step(
            v,
            admin,
            token_id,
            tax,
        )->Ok_0.exclusive(),
        new_office_step(v, auth, id, auction, price, min_price, slope) is Ok ==> new_office_step(
            v,
            auth,
            id,
            auction,
            price,
            min_price,
            slope,
        )->Ok_0.0.exclusive(),
        buy_step(v, id, buyer, now, accepted) is Ok ==> buy_step(
            v,
            id,
            buyer,
            now,
            accepted,
        )->Ok_0.exclusive(),
        pay_tax_step(v, id, transferred) is Ok ==> pay_tax_step(
            v,
            id,
            transferred,
        )->Ok_0.exclusive(),
        revoke_step(v, auth, id, auction, price, min_price, slope, now) is Ok ==> revoke_step(
            v,
            auth,
            id,
            auction,
            price,
            min_price,
            slope,
            now,
        )->Ok_0.0.exclusive(),
{
}

/// `initialize` succeeds on a fresh ledger, and any second call fails with
/// `AlreadyInitialized`.
pub proof fn law_initialize_once(
    v: LedgerView,
    admin: Identifier,
    token_id: Address,
    tax: u128,
    admin2: Identifier,
    token_id2: Address,
    tax2: u128,
)
    requires
        v.config is None,
    ensures
        initialize_step(v, admin, token_id, tax) is Ok,
        initialize_step(initialize_step(v, admin, token_id, tax)->Ok_0, admin2, token_id2, tax2)
            == Err::<LedgerView, Error>(Error::AlreadyInitialized),
{
}

/// With a valid administrator proof, `new_office` puts a fresh office up for
/// sale; a repeat for the same office, again with a valid proof, fails with
/// `DuplicateId`.
pub proof fn law_new_office_then_duplicate(
    v: LedgerView,
    auth: Auth,
    id: u128,
    auction: Address,
    price: u128,
    min_price: u128,
    slope: u128,
    auth2: Auth,
    auction2: Address,
    price2: u128,
    min_price2: u128,
    slope2: u128,
)
    requires
        v.valid_admin_auth(auth),
        auth.nonce < u64::MAX,
        !v.has_office(id),
    ensures
        new_office_step(v, auth, id, auction, price, min_price, slope) matches Ok((v2, _)) && {
            &&& v2.for_sale.contains_key(id)
            &&& v2.for_sale[id] == auction
            &&& !v2.bought.contains_key(id)
            &&& v2.valid_admin_auth(auth2) ==> new_office_step(
                v2,
                auth2,
                id,
                auction2,
                price2,
                min_price2,
                slope2,
            ) == Err::<(LedgerView, crate::types::AuctionInit), Error>(Error::DuplicateId)
        },
{
}

/// An accepted bid on an office for sale makes it bought by the buyer until
/// one renewal period after the time of the call; a rejected bid fails with
/// `BidRejected`.
pub proof fn law_buy(v: LedgerView, id: u128, buyer: Identifier, now: TimeStamp)
    requires
        v.for_sale.contains_key(id),
        now.0 + RENEWAL_PERIOD <= u64::MAX,
    ensures
        buy_step(v, id, buyer, now, true) matches Ok(v2) && {
            &&& !v2.for_sale.contains_key(id)
            &&& v2.bought.contains_key(id)
            &&& v2.bought[id].user == buyer
            &&& v2.bought[id].expires.0 == now.0 + 604800
        },
        buy_step(v, id, buyer, now, false) == Err::<LedgerView, Error>(Error::BidRejected),
{
}

/// A tax payment on a bought office extends its expiry by exactly one
/// renewal period, whether or not that expiry has already passed: the
/// transition does not depend on the time.
pub proof fn law_pay_tax_extends(v: LedgerView, id: u128)
    requires
        v.bought.contains_key(id),
        v.bought[id].expires.0 + RENEWAL_PERIOD <= u64::MAX,
    ensures
        pay_tax_step(v, id, true) matches Ok(v2) && {
            &&& v2.bought.contains_key(id)
            &&& v2.bought[id].user == v.bought[id].user
            &&& v2.bought[id].expires.0 == v.bought[id].expires.0 + 604800
        },
{
}

/// With a valid administrator proof, `revoke` fails with `NotExpired` while
/// the time of the call is not past the office's expiry; once it is, the
/// office is no longer bought and is for sale at the new auction.
pub proof fn law_revoke(
    v: LedgerView,
    auth: Auth,
    id: u128,
    auction: Address,
    price: u128,
    min_price: u128,
    slope: u128,
    now: TimeStamp,
)
    requires
        v.valid_admin_auth(auth),
        auth.nonce < u64::MAX,
        v.bought.contains_key(id),
    ensures
        now.0 <= v.bought[id].expires.0 ==> revoke_step(
            v,
            auth,
            id,
            auction,
            price,
            min_price,
            slope,
            now,
        ) == Err::<(LedgerView, crate::types::AuctionInit), Error>(Error::NotExpired),
        now.0 > v.bought[id].expires.0 ==> (revoke_step(
            v,
            auth,
            id,
            auction,
            price,
            min_price,
            slope,
            now,
        ) matches Ok((v2, _)) && {
            &&& !v2.bought.contains_key(id)
            &&& v2.for_sale.contains_key(id)
            &&& v2.for_sale[id] == auction
        }),
{
}

/// A signed administrator proof is accepted once: after `new_office` or
/// `revoke` succeeded with it, a second `new_office` or `revoke` with the
/// same proof fails with `IncorrectNonce`.
pub proof fn law_replay_rejected(
    v: LedgerView,
    auth: Auth,
    id: u128,
    auction: Address,
    price: u128,
    min_price: u128,
    slope: u128,
    now: TimeStamp,
    id2: u128,
    auction2: Address,
    price2: u128,
    min_price2: u128,
    slope2: u128,
    now2: TimeStamp,
)
    requires
        auth.sig is Signed,
        auth.nonce < u64::MAX,
    ensures
        new_office_step(v, auth, id, auction, price, min_price, slope) matches Ok((v2, _)) ==> {
            &&& new_office_step(v2, auth, id2, auction2, price2, min_price2, slope2) == Err::<
                (LedgerView, crate::types::AuctionInit),
                Error,
            >(Error::IncorrectNonce)
            &&& revoke_step(v2, auth, id2, auction2, price2, min_price2, slope2, now2) == Err::<
                (LedgerView, crate::types::AuctionInit),
                Error,
            >(Error::IncorrectNonce)
        },
        revoke_step(v, auth, id, auction, price, min_price, slope, now) matches Ok((v2, _)) ==> {
            &&& new_office_step(v2, auth, id2, auction2, price2, min_price2, slope2) == Err::<
                (LedgerView, crate::types::AuctionInit),
                Error,
            >(Error::IncorrectNonce)
            &&& revoke_step(v2, auth, id2, auction2, price2, min_price2, slope2, now2) == Err::<
                (LedgerView, crate::types::AuctionInit),
                Error,
            >(Error::IncorrectNonce)
        },
{
}

} // verus!
