use vstd::prelude::*;

use std::collections::HashMap;

use crate::nonces::NonceBook;
use crate::state::{
    buy_step, check_admin_auth, initialize_step, new_office_step, pay_tax_step,
    revoke_step, LedgerView,
};
use crate::types::{
    Address, AuctionInit, Auth, Bid, Config, Error, Identifier, Office, Signature, TaxTransfer,
    TimeStamp, RENEWAL_PERIOD,
};

verus! {

broadcast use vstd::std_specs::hash::group_hash_axioms;

/// The office ledger.
///
/// Every operation either commits in full or returns an error and leaves the
/// ledger as it was. Where an operation needs the host (an auction to create,
/// a bid to place, a tax to collect), the ledger hands out what to do and, for
/// a bid or a tax, takes the outcome as an argument of the operation that
/// commits. When an operation hands back an auction to create and the host
/// fails to create it, the host's transaction discards the operation.
pub struct PauletteContract {
    config: Option<Config>,
    nonces: NonceBook,
    for_sale: HashMap<u128, Address>,
    bought: HashMap<u128, Office>,
}

impl View for PauletteContract {
    type V = LedgerView;

    closed spec fn view(&self) -> LedgerView {
        LedgerView {
            config: self.config,
            nonces: self.nonces@,
            for_sale: self.for_sale@,
            bought: self.bought@,
        }
    }
}

impl PauletteContract {
    pub closed spec fn wf(&self) -> bool {
        &&& self.nonces.wf()
        &&& self@.exclusive()
    }

    /// What well-formedness says of the ledger's records.
    pub proof fn lemma_wf_exclusive(&self)
        requires
            self.wf(),
        ensures
            self@.exclusive(),
    {
    }

    /// A ledger with no administrator and no office.
    pub fn new() -> (r: PauletteContract)
        ensures
            r.wf(),
            r@ == LedgerView::empty(),
    {
        let r = PauletteContract {
            config: None,
            nonces: NonceBook::new(),
            for_sale: HashMap::new(),
            bought: HashMap::new(),
        };
        proof {
            assert(r.for_sale@ =~= Map::empty());
            assert(r.bought@ =~= Map::empty());
        }
        r
    }

    /// Sets the administrator, the token taxes are paid in and the tax
    /// per renewal; only once.
    pub fn initialize(&mut self, admin: Identifier, token_id: Address, tax: u128) -> (r: Result<
        (),
        Error,
    >)
        requires
            old(self).wf(),
        ensures
            final(self).wf(),
            r is Err <==> old(self)@.config is Some,
            r is Err ==> r == Err::<(), Error>(Error::AlreadyInitialized),
            match initialize_step(old(self)@, admin, token_id, tax) {
                Ok(v) => r is Ok && final(self)@ == v,
                Err(e) => r == Err::<(), Error>(e) && final(self)@ == old(self)@,
            },
    {
        if self.config.is_some() {
            return Err(Error::AlreadyInitialized);
        }
        self.config = Some(Config { admin, token_id, tax });
        Ok(())
    }

    /// The administrator's nonce: the one the next signed administrator call
    /// must carry. 0 before `initialize`.
    pub fn nonce(&self) -> (r: u64)
        requires
            self.wf(),
        ensures
            r == match self@.config {
                Some(c) => self@.nonces[c.admin],
                None => 0,
            },
    {
        match &self.config {
            Some(c) => self.nonces.get(&c.admin),
            None => 0,
        }
    }

    /// The configuration set by `initialize`.
    pub fn config(&self) -> (r: Option<Config>)
        ensures
            r == self@.config,
    {
        self.config
    }

    /// The auction of an office that is for sale.
    pub fn for_sale(&self, id: u128) -> (r: Option<Address>)
        ensures
            r == if self@.for_sale.contains_key(id) {
                Some(self@.for_sale[id])
            } else {
                None::<Address>
            },
    {
        match self.for_sale.get(&id) {
            Some(a) => Some(*a),
            None => None,
        }
    }

    /// The record of an office that has been bought.
    pub fn bought(&self, id: u128) -> (r: Option<Office>)
        ensures
            r == if self@.bought.contains_key(id) {
                Some(self@.bought[id])
            } else {
                None::<Office>
            },
    {
        match self.bought.get(&id) {
            Some(o) => Some(*o),
            None => None,
        }
    }

    /// Checks an administrator proof and its nonce, in that order, without
    /// consuming the nonce.
    fn check_admin(&self, auth: &Auth) -> (r: Result<Config, Error>)
        requires
            self.wf(),
        ensures
            match check_admin_auth(self@, *auth) {
                Ok(_) => r == Ok::<Config, Error>(self@.config->Some_0),
                Err(e) => r == Err::<Config, Error>(e),
            },
    {
        let c = match self.config {
            Some(c) => c,
            None => return Err(Error::NotInitialized),
        };
        if !auth.sig.identifier().same_as(&c.admin) {
            return Err(Error::Unauthorized);
        }
        match &auth.sig {
            Signature::Invoker(_) => {
                if auth.nonce != 0 {
                    return Err(Error::InvokerNonceMismatch);
                }
            },
            Signature::Signed(id) => {
                if auth.nonce != self.nonces.get(id) {
                    return Err(Error::IncorrectNonce);
                }
            },
        }
        Ok(c)
    }

    /// Consumes the nonce of a proof that `check_admin` accepted.
    fn consume_nonce(&mut self, auth: &Auth)
        requires
            old(self).wf(),
            auth.nonce < u64::MAX,
            check_admin_auth(old(self)@, *auth) is Ok,
        ensures
            final(self).wf(),
            final(self)@ == (LedgerView {
                nonces: check_admin_auth(old(self)@, *auth)->Ok_0,
                ..old(self)@
            }),
    {
        match &auth.sig {
            Signature::Invoker(_) => {},
            Signature::Signed(id) => {
                self.nonces.set(id, auth.nonce + 1);
            },
        }
    }
}

impl PauletteContract {
    /// Puts a new office up for sale at `auction` (administrator only).
    /// On success the host must create the auction that is handed back.
    pub fn new_office(
        &mut self,
        admin: &Auth,
        id: u128,
        auction: Address,
        price: u128,
        min_price: u128,
        slope: u128,
    ) -> (r: Result<AuctionInit, Error>)
        requires
            old(self).wf(),
            admin.nonce < u64::MAX,
        ensures
            final(self).wf(),
            match new_office_step(old(self)@, *admin, id, auction, price, min_price, slope) {
                Ok((v, init)) => r == Ok::<AuctionInit, Error>(init) && final(self)@ == v,
                Err(e) => r == Err::<AuctionInit, Error>(e) && final(self)@ == old(self)@,
            },
    {
        let c = match self.check_admin(admin) {
            Ok(c) => c,
            Err(e) => return Err(e),
        };
        if self.for_sale.contains_key(&id) || self.bought.contains_key(&id) {
            return Err(Error::DuplicateId);
        }
        self.consume_nonce(admin);
        self.for_sale.insert(id, auction);
        Ok(AuctionInit { auction, seller: c.admin, token_id: c.token_id, price, min_price, slope })
    }

    /// The bid the host must place to buy an office that is for sale.
    pub fn bid(&self, id: u128, buyer: Identifier) -> (r: Result<Bid, Error>)
        ensures
            r == if self@.for_sale.contains_key(id) {
                Ok::<Bid, Error>(Bid { auction: self@.for_sale[id], buyer })
            } else {
                Err::<Bid, Error>(Error::NotForSale)
            },
    {
        match self.for_sale.get(&id) {
            Some(a) => Ok(Bid { auction: *a, buyer }),
            None => Err(Error::NotForSale),
        }
    }

    /// The auction to ask for the current price of an office that is for
    /// sale.
    pub fn price_source(&self, id: u128) -> (r: Result<Address, Error>)
        ensures
            r == if self@.for_sale.contains_key(id) {
                Ok::<Address, Error>(self@.for_sale[id])
            } else {
                Err::<Address, Error>(Error::NotForSale)
            },
    {
        match self.for_sale.get(&id) {
            Some(a) => Ok(*a),
            None => Err(Error::NotForSale),
        }
    }

    /// Completes a purchase once the host has placed the bid of `bid`:
    /// `accepted` is the auction's answer, `now` the time of the call.
    pub fn buy(&mut self, id: u128, buyer: Identifier, now: TimeStamp, accepted: bool) -> (r: Result<
        (),
        Error,
    >)
        requires
            old(self).wf(),
            now.0 + RENEWAL_PERIOD <= u64::MAX,
        ensures
            final(self).wf(),
            match buy_step(old(self)@, id, buyer, now, accepted) {
                Ok(v) => r is Ok && final(self)@ == v,
                Err(e) => r == Err::<(), Error>(e) && final(self)@ == old(self)@,
            },
    {
        if !self.for_sale.contains_key(&id) {
            return Err(Error::NotForSale);
        }
        if !accepted {
            return Err(Error::BidRejected);
        }
        self.for_sale.remove(&id);
        self.bought.insert(id, Office { user: buyer, expires: now.add(TimeStamp(RENEWAL_PERIOD)) });
        Ok(())
    }

    /// The transfer the host must make for `payer` to pay the tax of one
    /// renewal.
    pub fn tax_transfer(&self, payer: Identifier) -> (r: Result<TaxTransfer, Error>)
        ensures
            r == match self@.config {
                Some(c) => Ok::<TaxTransfer, Error>(
                    TaxTransfer { token_id: c.token_id, from: payer, to: c.admin, amount: c.tax },
                ),
                None => Err::<TaxTransfer, Error>(Error::NotInitialized),
            },
    {
        match self.config {
            Some(c) => Ok(
                TaxTransfer { token_id: c.token_id, from: payer, to: c.admin, amount: c.tax },
            ),
            None => Err(Error::NotInitialized),
        }
    }

    /// Completes a tax payment once the host has made the transfer of
    /// `tax_transfer`: `transferred` says whether the token accepted it.
    pub fn pay_tax(&mut self, id: u128, transferred: bool) -> (r: Result<(), Error>)
        requires
            old(self).wf(),
            old(self)@.bought.contains_key(id) ==> old(self)@.bought[id].expires.0 + RENEWAL_PERIOD
                <= u64::MAX,
        ensures
            final(self).wf(),
            match pay_tax_step(old(self)@, id, transferred) {
                Ok(v) => r is Ok && final(self)@ == v,
                Err(e) => r == Err::<(), Error>(e) && final(self)@ == old(self)@,
            },
    {
        if !transferred {
            return Err(Error::TransferFailed);
        }
        let office = match self.bought.get(&id) {
            Some(o) => *o,
            None => return Err(Error::NotFound),
        };
        let renewed = Office { user: office.user, expires: office.expires.add(TimeStamp(RENEWAL_PERIOD)) };
        self.bought.insert(id, renewed);
        Ok(())
    }

    /// Takes back an expired office and puts it up for sale again at
    /// `auction` (administrator only). `now` is the time of the call. On
    /// success the host must create the auction that is handed back.
    pub fn revoke(
        &mut self,
        admin: &Auth,
        id: u128,
        auction: Address,
        price: u128,
        min_price: u128,
        slope: u128,
        now: TimeStamp,
    ) -> (r: Result<AuctionInit, Error>)
        requires
            old(self).wf(),
            admin.nonce < u64::MAX,
        ensures
            final(self).wf(),
            match revoke_step(old(self)@, *admin, id, auction, price, min_price, slope, now) {
                Ok((v, init)) => r == Ok::<AuctionInit, Error>(init) && final(self)@ == v,
                Err(e) => r == Err::<AuctionInit, Error>(e) && final(self)@ == old(self)@,
            },
    {
        let c = match self.check_admin(admin) {
            Ok(c) => c,
            Err(e) => return Err(e),
        };
        let office = match self.bought.get(&id) {
            Some(o) => *o,
            None => return Err(Error::NotFound),
        };
        if office.expires.0 >= now.0 {
            return Err(Error::NotExpired);
        }
        self.consume_nonce(admin);
        self.bought.remove(&id);
        self.for_sale.insert(id, auction);
        Ok(AuctionInit { auction, seller: c.admin, token_id: c.token_id, price, min_price, slope })
    }
}

} // verus!
