//! Whole sequences of calls against a ledger, with plain doubles standing
//! in for the token contract and the Dutch auctions.

use paulette::{
    Address, AuctionInit, Auth, Error, Identifier, PauletteContract, Signature, TimeStamp,
};
use rand::{thread_rng, RngCore};

fn generate_contract_id() -> [u8; 32] {
    let mut id: [u8; 32] = Default::default();
    thread_rng().fill_bytes(&mut id);
    id
}

fn generate_office_id() -> u128 {
    let mut id: [u8; 16] = Default::default();
    thread_rng().fill_bytes(&mut id);
    u128::from_le_bytes(id)
}

fn generate_account() -> Identifier {
    Identifier::Account(generate_contract_id())
}

/// A token with balances and allowances.
struct TokenDouble {
    balances: Vec<(Identifier, u128)>,
    allowances: Vec<(Identifier, Identifier, u128)>,
}

impl TokenDouble {
    fn new() -> Self {
        TokenDouble { balances: Vec::new(), allowances: Vec::new() }
    }

    fn balance(&self, id: &Identifier) -> u128 {
        self.balances.iter().find(|(k, _)| k == id).map(|(_, v)| *v).unwrap_or(0)
    }

    fn set_balance(&mut self, id: &Identifier, amount: u128) {
        self.balances.retain(|(k, _)| k != id);
        self.balances.push((*id, amount));
    }

    fn mint(&mut self, to: &Identifier, amount: u128) {
        let b = self.balance(to);
        self.set_balance(to, b + amount);
    }

    fn allowance(&self, from: &Identifier, spender: &Identifier) -> u128 {
        self.allowances
            .iter()
            .find(|(f, s, _)| f == from && s == spender)
            .map(|(_, _, v)| *v)
            .unwrap_or(0)
    }

    fn approve(&mut self, from: &Identifier, spender: &Identifier, amount: u128) {
        self.allowances.retain(|(f, s, _)| !(f == from && s == spender));
        self.allowances.push((*from, *spender, amount));
    }

    fn xfer_from(&mut self, spender: &Identifier, from: &Identifier, to: &Identifier, amount: u128) -> bool {
        let allowed = self.allowance(from, spender);
        let held = self.balance(from);
        if allowed < amount || held < amount {
            return false;
        }
        self.approve(from, spender, allowed - amount);
        self.set_balance(from, held - amount);
        let b = self.balance(to);
        self.set_balance(to, b + amount);
        true
    }
}

/// A Dutch auction: the price drops by one every `slope` seconds, down to
/// `min_price`.
struct AuctionDouble {
    init: AuctionInit,
    started: u64,
}

impl AuctionDouble {
    fn price(&self, now: u64) -> u128 {
        let drop = ((now - self.started) as u128) / self.init.slope;
        if self.init.price > self.init.min_price + drop {
            self.init.price - drop
        } else {
            self.init.min_price
        }
    }
}

/// The ledger together with its host: clock, token and auctions.
struct World {
    ledger: PauletteContract,
    self_id: Identifier,
    token: TokenDouble,
    auctions: Vec<AuctionDouble>,
    now: u64,
}

impl World {
    fn new(admin: &Identifier, token_id: [u8; 32], tax: u128) -> Self {
        let mut ledger = PauletteContract::new();
        ledger.initialize(*admin, Address(token_id), tax).unwrap();
        World {
            ledger,
            self_id: Identifier::Contract(Address(generate_contract_id())),
            token: TokenDouble::new(),
            auctions: Vec::new(),
            now: 0,
        }
    }

    fn auction(&self, a: &Address) -> &AuctionDouble {
        self.auctions.iter().find(|x| x.init.auction == *a).unwrap()
    }

    fn new_office(&mut self, admin: Identifier, id: u128, auction: [u8; 32], price: u128, min_price: u128, slope: u128) -> Result<(), Error> {
        let auth = Auth { sig: Signature::Invoker(admin), nonce: 0 };
        let init = self.ledger.new_office(&auth, id, Address(auction), price, min_price, slope)?;
        self.auctions.push(AuctionDouble { init, started: self.now });
        Ok(())
    }

    fn get_price(&self, id: u128) -> Result<u128, Error> {
        let a = self.ledger.price_source(id)?;
        Ok(self.auction(&a).price(self.now))
    }

    fn buy(&mut self, id: u128, buyer: Identifier) -> Result<(), Error> {
        let bid = self.ledger.bid(id, buyer)?;
        let auction = self.auction(&bid.auction);
        let price = auction.price(self.now);
        let seller = auction.init.seller;
        let spender = Identifier::Contract(bid.auction);
        let accepted = self.token.xfer_from(&spender, &bid.buyer, &seller, price);
        self.ledger.buy(id, buyer, TimeStamp(self.now), accepted)
    }

    fn pay_tax(&mut self, id: u128, payer: Identifier) -> Result<(), Error> {
        let t = self.ledger.tax_transfer(payer)?;
        let spender = self.self_id;
        let transferred = self.token.xfer_from(&spender, &t.from, &t.to, t.amount);
        self.ledger.pay_tax(id, transferred)
    }

    fn revoke(&mut self, admin: Identifier, id: u128, auction: [u8; 32], price: u128, min_price: u128, slope: u128) -> Result<(), Error> {
        let auth = Auth { sig: Signature::Invoker(admin), nonce: 0 };
        let init = self.ledger.revoke(&auth, id, Address(auction), price, min_price, slope, TimeStamp(self.now))?;
        self.auctions.push(AuctionDouble { init, started: self.now });
        Ok(())
    }
}

/// Up to the purchase: an office put up for sale by `user1` and bought by
/// `user2` at the decayed price.
fn bought_office(user1: &Identifier, user2: &Identifier) -> (World, u128, [u8; 32]) {
    let mut w = World::new(user1, generate_contract_id(), 20);
    w.token.mint(user1, 1000);
    w.token.mint(user2, 1000);
    w.now = 1666359075;
    let auction_id = generate_contract_id();
    let office_id = generate_office_id();
    w.new_office(*user1, office_id, auction_id, 5, 1, 900).unwrap();

    w.now = 1666360875;
    assert_eq!(w.get_price(office_id).unwrap(), 3);
    let price = w.get_price(office_id).unwrap();
    w.token.approve(user2, &Identifier::Contract(Address(auction_id)), price);
    w.buy(office_id, *user2).unwrap();
    assert_eq!(w.token.balance(user1), 1003);
    (w, office_id, auction_id)
}

#[test]
fn test_sequence() {
    let user1 = generate_account();
    let user2 = generate_account();
    let (mut w, office_id, _) = bought_office(&user1, &user2);
    let office = w.ledger.bought(office_id).unwrap();
    assert!(office.user.same_as(&user2));
    assert_eq!(office.expires, TimeStamp(1666360875 + 604800));

    w.now = 1666965674;
    let paulette_id = w.self_id;
    w.token.approve(&user2, &paulette_id, 20);
    w.pay_tax(office_id, user2).unwrap();
    assert_eq!(w.token.balance(&user1), 1023);
    assert_eq!(w.ledger.bought(office_id).unwrap().expires, TimeStamp(1666360875 + 2 * 604800));

    w.now = 1667570476;
    let auction_1_id = generate_contract_id();
    w.revoke(user1, office_id, auction_1_id, 50, 5, 1800).unwrap();
    assert_eq!(w.get_price(office_id).unwrap(), 50);
    assert!(w.ledger.bought(office_id).is_none());
    assert_eq!(w.ledger.for_sale(office_id), Some(Address(auction_1_id)));
}

#[test]
#[should_panic]
fn test_invalid_revoke() {
    let user1 = generate_account();
    let user2 = generate_account();
    let (mut w, office_id, auction_id) = bought_office(&user1, &user2);

    w.now = 1666965674;
    // the office has not expired yet
    w.revoke(user1, office_id, auction_id, 1, 1, 1).unwrap();
}

#[test]
#[should_panic]
fn test_invalid_admin() {
    let user1 = generate_account();
    let user2 = generate_account();
    let mut w = World::new(&user1, generate_contract_id(), 20);
    w.token.mint(&user1, 1000);
    w.token.mint(&user2, 1000);
    w.now = 1666359075;
    let auction_id = generate_contract_id();
    let office_id = generate_office_id();
    // user2 is not the administrator
    w.new_office(user2, office_id, auction_id, 5, 1, 900).unwrap();
}

#[test]
fn revoke_before_expiry_is_not_expired() {
    let user1 = generate_account();
    let user2 = generate_account();
    let (mut w, office_id, auction_id) = bought_office(&user1, &user2);
    let expires = w.ledger.bought(office_id).unwrap().expires.0;
    w.now = expires;
    assert_eq!(w.revoke(user1, office_id, auction_id, 1, 1, 1), Err(Error::NotExpired));
    assert!(w.ledger.bought(office_id).is_some());
    w.now = expires + 1;
    assert_eq!(w.revoke(user1, office_id, generate_contract_id(), 1, 1, 1), Ok(()));
}

#[test]
fn new_office_by_other_is_unauthorized() {
    let user1 = generate_account();
    let user2 = generate_account();
    let mut w = World::new(&user1, generate_contract_id(), 20);
    let office_id = generate_office_id();
    assert_eq!(w.new_office(user2, office_id, generate_contract_id(), 5, 1, 900), Err(Error::Unauthorized));
    assert!(w.ledger.for_sale(office_id).is_none());
}

#[test]
fn buy_without_allowance_is_rejected() {
    let user1 = generate_account();
    let user2 = generate_account();
    let mut w = World::new(&user1, generate_contract_id(), 20);
    w.token.mint(&user2, 1000);
    let auction_id = generate_contract_id();
    let office_id = generate_office_id();
    w.new_office(user1, office_id, auction_id, 5, 1, 900).unwrap();
    assert_eq!(w.buy(office_id, user2), Err(Error::BidRejected));
    assert_eq!(w.ledger.for_sale(office_id), Some(Address(auction_id)));
    assert!(w.ledger.bought(office_id).is_none());
    assert_eq!(w.token.balance(&user2), 1000);
}

#[test]
fn pay_tax_without_allowance_fails() {
    let user1 = generate_account();
    let user2 = generate_account();
    let (mut w, office_id, _) = bought_office(&user1, &user2);
    let before = w.ledger.bought(office_id).unwrap();
    assert_eq!(w.pay_tax(office_id, user2), Err(Error::TransferFailed));
    assert_eq!(w.ledger.bought(office_id), Some(before));
}
