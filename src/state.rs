use vstd::prelude::*;

use crate::types::{
    Address, AuctionInit, Auth, Config, Error, Identifier, Office, Signature, TimeStamp,
    RENEWAL_PERIOD,
};

verus! {

/// The ledger as a whole: its configuration, the nonce of every principal,
/// and the record of every office, by office id.
pub ghost struct LedgerView {
    pub config: Option<Config>,
    pub nonces: Map<Identifier, u64>,
    pub for_sale: Map<u128, Address>,
    pub bought: Map<u128, Office>,
}

impl LedgerView {
    /// No office is both for sale and bought.
    pub open spec fn exclusive(self) -> bool {
        forall|id: u128| !(#[trigger] self.for_sale.contains_key(id) && self.bought.contains_key(id))
    }

    /// The ledger before `initialize`: no configuration, no record, every
    /// nonce at 0.
    pub open spec fn empty() -> LedgerView {
        LedgerView {
            config: None,
            nonces: Map::total(|id: Identifier| 0u64),
            for_sale: Map::empty(),
            bought: Map::empty(),
        }
    }

    pub open spec fn has_office(self, id: u128) -> bool {
        self.for_sale.contains_key(id) || self.bought.contains_key(id)
    }

    /// Whether `auth` is a valid administrator proof for this ledger, with
    /// the nonce it must carry.
    pub open spec fn valid_admin_auth(self, auth: Auth) -> bool {
        &&& self.config is Some
        &&& auth.sig.signer() == self.config->Some_0.admin
        &&& match auth.sig {
            Signature::Invoker(_) => auth.nonce == 0,
            Signature::Signed(id) => auth.nonce == self.nonces[id],
        }
    }
}

/// The administrator check followed by the nonce check: the nonces after a
/// successful check, or the first failure.
pub open spec fn check_admin_auth(v: LedgerView, auth: Auth) -> Result<Map<Identifier, u64>, Error> {
    match v.config {
        None => Err(Error::NotInitialized),
        Some(c) => if auth.sig.signer() != c.admin {
            Err(Error::Unauthorized)
        } else {
            match auth.sig {
                Signature::Invoker(_) => if auth.nonce != 0 {
                    Err(Error::InvokerNonceMismatch)
                } else {
                    Ok(v.nonces)
                },
                Signature::Signed(id) => if auth.nonce != v.nonces[id] {
                    Err(Error::IncorrectNonce)
                } else {
                    Ok(v.nonces.insert(id, (auth.nonce + 1) as u64))
                },
            }
        },
    }
}

/// The auction that an office put up for sale asks the host to create.
pub open spec fn auction_init(
    c: Config,
    auction: Address,
    price: u128,
    min_price: u128,
    slope: u128,
) -> AuctionInit {
    AuctionInit { auction, seller: c.admin, token_id: c.token_id, price, min_price, slope }
}

pub open spec fn initialize_step(v: LedgerView, admin: Identifier, token_id: Address, tax: u128) -> Result<
    LedgerView,
    Error,
> {
    if v.config is Some {
        Err(Error::AlreadyInitialized)
    } else {
        Ok(LedgerView { config: Some(Config { admin, token_id, tax }), ..v })
    }
}

pub open spec fn new_office_step(
    v: LedgerView,
    auth: Auth,
    id: u128,
    auction: Address,
    price: u128,
    min_price: u128,
    slope: u128,
) -> Result<(LedgerView, AuctionInit), Error> {
    match check_admin_auth(v, auth) {
        Err(e) => Err(e),
        Ok(nonces) => if v.has_office(id) {
            Err(Error::DuplicateId)
        } else {
            Ok(
                (
                    LedgerView { nonces, for_sale: v.for_sale.insert(id, auction), ..v },
                    auction_init(v.config->Some_0, auction, price, min_price, slope),
                ),
            )
        },
    }
}

pub open spec fn buy_step(
    v: LedgerView,
    id: u128,
    buyer: Identifier,
    now: TimeStamp,
    accepted: bool,
) -> Result<LedgerView, Error> {
    if !v.for_sale.contains_key(id) {
        Err(Error::NotForSale)
    } else if !accepted {
        Err(Error::BidRejected)
    } else {
        Ok(
            LedgerView {
                for_sale: v.for_sale.remove(id),
                bought: v.bought.insert(
                    id,
                    Office { user: buyer, expires: TimeStamp((now.0 + RENEWAL_PERIOD) as u64) },
                ),
                ..v
            },
        )
    }
}

pub open spec fn pay_tax_step(v: LedgerView, id: u128, transferred: bool) -> Result<LedgerView, Error> {
    if !transferred {
        Err(Error::TransferFailed)
    } else if !v.bought.contains_key(id) {
        Err(Error::NotFound)
    } else {
        let office = v.bought[id];
        Ok(
            LedgerView {
                bought: v.bought.insert(
                    id,
                    Office {
                        user: office.user,
                        expires: TimeStamp((office.expires.0 + RENEWAL_PERIOD) as u64),
                    },
                ),
                ..v
            },
        )
    }
}

pub open spec fn revoke_step(
    v: LedgerView,
    auth: Auth,
    id: u128,
    auction: Address,
    price: u128,
    min_price: u128,
    slope: u128,
    now: TimeStamp,
) -> Result<(LedgerView, AuctionInit), Error> {
    match check_admin_auth(v, auth) {
        Err(e) => Err(e),
        Ok(nonces) => if !v.bought.contains_key(id) {
            Err(Error::NotFound)
        } else if !(now.0 > v.bought[id].expires.0) {
            Err(Error::NotExpired)
        } else {
            Ok(
                (
                    LedgerView {
                        nonces,
                        bought: v.bought.remove(id),
                        for_sale: v.for_sale.insert(id, auction),
                        ..v
                    },
                    auction_init(v.config->Some_0, auction, price, min_price, slope),
                ),
            )
        },
    }
}

} // verus!
