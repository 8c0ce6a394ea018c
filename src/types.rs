use vstd::prelude::*;

verus! {

/// A 32-byte contract identifier (an auction or a token contract).
#[derive(Clone, Copy, PartialEq, Eq, Debug)]
pub struct Address(pub [u8; 32]);

/// Byte-wise comparison of two 32-byte values.
pub fn same_bytes(a: &[u8; 32], b: &[u8; 32]) -> (r: bool)
    ensures
        r == (*a == *b),
{
    let mut i: usize = 0;
    while i < 32
        invariant
            0 <= i <= 32,
            forall|j: int| 0 <= j < i ==> a@[j] == b@[j],
        decreases 32 - i,
    {
        if a[i] != b[i] {
            return false;
        }
        i = i + 1;
    }
    proof {
        assert(a@ =~= b@);
        vstd::array::axiom_array_ext_equal(*a, *b);
    }
    true
}

/// A principal: an account, a contract or a bare ed25519 key.
#[derive(Clone, Copy, PartialEq, Eq, Debug)]
pub enum Identifier {
    Contract(Address),
    Ed25519([u8; 32]),
    Account([u8; 32]),
}

impl Identifier {
    /// Whether two identifiers name the same principal.
    pub fn same_as(&self, other: &Identifier) -> (r: bool)
        ensures
            r == (*self == *other),
    {
        match (self, other) {
            (Identifier::Contract(a), Identifier::Contract(b)) => {
                let r = same_bytes(&a.0, &b.0);
                proof {
                    if r {
                        assert(*a == *b);
                    }
                }
                r
            },
            (Identifier::Ed25519(a), Identifier::Ed25519(b)) => same_bytes(a, b),
            (Identifier::Account(a), Identifier::Account(b)) => same_bytes(a, b),
            _ => false,
        }
    }
}

/// Seconds since the epoch, as the ledger reports them.
#[derive(Clone, Copy, PartialEq, Eq, Structural, PartialOrd, Ord, Debug)]
pub struct TimeStamp(pub u64);

impl TimeStamp {
    /// The sum of two timestamps (a point in time plus a duration).
    pub fn add(self, other: TimeStamp) -> (r: TimeStamp)
        requires
            self.0 + other.0 <= u64::MAX,
        ensures
            r.0 == self.0 + other.0,
    {
        TimeStamp(self.0 + other.0)
    }
}

/// How long a purchase or a tax payment keeps an office: one week.
pub const RENEWAL_PERIOD: u64 = 604800;

/// The proof that comes with an administrator's call, with the signer as the
/// host resolved it.
#[derive(Clone, Copy, PartialEq, Eq, Debug)]
pub enum Signature {
    /// The caller acts on its own behalf, as this principal.
    Invoker(Identifier),
    /// The call carries a signature by this principal.
    Signed(Identifier),
}

impl Signature {
    pub open spec fn signer(self) -> Identifier {
        match self {
            Signature::Invoker(id) => id,
            Signature::Signed(id) => id,
        }
    }

    /// The principal the proof stands for.
    pub fn identifier(&self) -> (r: Identifier)
        ensures
            r == self.signer(),
    {
        match self {
            Signature::Invoker(id) => *id,
            Signature::Signed(id) => *id,
        }
    }
}

/// An administrator's signature together with the nonce it was made for.
#[derive(Clone, Copy, PartialEq, Eq, Debug)]
pub struct Auth {
    pub sig: Signature,
    pub nonce: u64,
}

/// The record of an office that has been bought.
#[derive(Clone, Copy, PartialEq, Eq, Debug)]
pub struct Office {
    pub user: Identifier,
    pub expires: TimeStamp,
}

/// What `initialize` fixes for the lifetime of the ledger.
#[derive(Clone, Copy, PartialEq, Eq, Debug)]
pub struct Config {
    pub admin: Identifier,
    pub token_id: Address,
    pub tax: u128,
}

/// Why an operation was rejected. A rejected operation changes nothing.
#[derive(Clone, Copy, PartialEq, Eq, Structural, Debug)]
pub enum Error {
    AlreadyInitialized,
    /// The ledger has no administrator yet.
    NotInitialized,
    Unauthorized,
    IncorrectNonce,
    InvokerNonceMismatch,
    DuplicateId,
    NotForSale,
    NotFound,
    BidRejected,
    NotExpired,
    TransferFailed,
}

/// A Dutch auction that the host must create for an office: sold by the
/// administrator, paid in the configured token.
#[derive(Clone, Copy, PartialEq, Eq, Debug)]
pub struct AuctionInit {
    pub auction: Address,
    pub seller: Identifier,
    pub token_id: Address,
    pub price: u128,
    pub min_price: u128,
    pub slope: u128,
}

/// A bid that the host must place at an office's auction.
#[derive(Clone, Copy, PartialEq, Eq, Debug)]
pub struct Bid {
    pub auction: Address,
    pub buyer: Identifier,
}

/// A tax payment that the host must move from the payer into the
/// administrator's vault.
#[derive(Clone, Copy, PartialEq, Eq, Debug)]
pub struct TaxTransfer {
    pub token_id: Address,
    pub from: Identifier,
    pub to: Identifier,
    pub amount: u128,
}

} // verus!
