use vstd::prelude::*;

verus! {

/// A 32-byte ledger address.
#[derive(Clone, Copy, Debug, PartialEq, Eq)]
pub struct Pubkey {
    pub bytes: [u8; 32],
}

impl View for Pubkey {
    type V = Seq<u8>;

    open spec fn view(&self) -> Seq<u8> {
        self.bytes@
    }
}

impl Pubkey {
    pub fn new(bytes: [u8; 32]) -> (r: Pubkey)
        ensures
            r@ == bytes@,
    {
        Pubkey { bytes }
    }

    /// Whether two addresses are the same address.
    pub fn same(&self, other: &Pubkey) -> (r: bool)
        ensures
            r == (self@ == other@),
    {
        let mut i: usize = 0;
        while i < 32
            invariant
                i <= 32,
                self@.len() == 32,
                other@.len() == 32,
                forall|j: int| 0 <= j < i ==> self@[j] == other@[j],
            decreases 32 - i,
        {
            if self.bytes[i] != other.bytes[i] {
                return false;
            }
            i = i + 1;
        }
        assert(self@ =~= other@);
        true
    }
}

/// One seller's offer: the persistent auction record.
#[derive(Clone, Copy, Debug, PartialEq, Eq)]
pub struct Auction {
    pub seller: Pubkey,
    pub sell_mint: Pubkey,
    pub buy_mint: Pubkey,
    pub sell_amount: u64,
    pub start_price: u64,
    pub end_price: u64,
    pub start_time: u64,
    pub end_time: u64,
    /// The nonce that completes the derivation of the record's address.
    pub bump: u8,
}

impl Auction {
    /// What creation establishes and every later step relies on.
    pub open spec fn valid(&self) -> bool {
        &&& self.sell_mint@ != self.buy_mint@
        &&& self.start_price >= self.end_price
        &&& self.start_time < self.end_time
        &&& self.sell_amount > 0
    }

    /// The record's address is derived from this pair: it is its key.
    pub open spec fn keyed_by(&self, seller: Seq<u8>, sell_mint: Seq<u8>) -> bool {
        self.seller@ == seller && self.sell_mint@ == sell_mint
    }
}

/// What the instructions read of a mint.
#[derive(Clone, Copy, Debug, PartialEq, Eq)]
pub struct MintInfo {
    pub key: Pubkey,
    pub decimals: u8,
}

/// What the instructions read of a token account.
#[derive(Clone, Copy, Debug, PartialEq, Eq)]
pub struct TokenAccountInfo {
    pub key: Pubkey,
    pub mint: Pubkey,
    pub owner: Pubkey,
}

/// A movement that the custody service performs for an instruction.
#[derive(Clone, Copy, Debug, PartialEq, Eq)]
pub enum Effect {
    /// Move `amount` of `mint` from `from` to `to`, authorised by
    /// `authority`; where `signed_by_record` holds, the authority is the
    /// auction record's derived address and the program signs for it.
    Transfer {
        from: Pubkey,
        to: Pubkey,
        mint: Pubkey,
        authority: Pubkey,
        amount: u64,
        decimals: u8,
        signed_by_record: bool,
    },
    /// Close the empty `account`, its deposit going to `destination`; the
    /// auction record's derived address signs as `authority`.
    CloseAccount { account: Pubkey, destination: Pubkey, authority: Pubkey },
}

/// No two entries share a (seller, sell mint) pair.
pub open spec fn keys_unique(s: Seq<Auction>) -> bool {
    forall|i: int, j: int|
        0 <= i < s.len() && 0 <= j < s.len() && i != j ==> !s[j].keyed_by(
            s[i].seller@,
            s[i].sell_mint@,
        )
}

/// Some entry is keyed by the pair.
pub open spec fn holds_key(s: Seq<Auction>, seller: Seq<u8>, sell_mint: Seq<u8>) -> bool {
    exists|i: int| 0 <= i < s.len() && s[i].keyed_by(seller, sell_mint)
}

/// Keys are unique and every record is valid.
pub open spec fn book_ok(live: Seq<Auction>) -> bool {
    &&& keys_unique(live)
    &&& forall|k: int| 0 <= k < live.len() ==> live[k].valid()
}

/// The live auction records, each at the address derived from its seller and
/// sell mint.
pub struct Book {
    pub live: Vec<Auction>,
}

impl Book {
    pub open spec fn wf(&self) -> bool {
        book_ok(self.live@)
    }

    pub fn new() -> (r: Book)
        ensures
            r.wf(),
            r.live@.len() == 0,
    {
        Book { live: Vec::new() }
    }

    /// A book holding the one record `a`, where `a` is valid.
    pub fn single(a: Auction) -> (r: Option<Book>)
        ensures
            match r {
                Some(b) => b.wf() && b.live@ == seq![a],
                None => !a.valid(),
            },
    {
        if a.sell_mint.same(&a.buy_mint) || a.start_price < a.end_price || a.start_time >= a.end_time
            || a.sell_amount == 0 {
            return None;
        }
        let mut live: Vec<Auction> = Vec::new();
        live.push(a);
        proof {
            assert(live@ =~= seq![a]);
        }
        Some(Book { live })
    }

    /// The position of the record keyed by the pair, if there is one.
    pub fn find(&self, seller: &Pubkey, sell_mint: &Pubkey) -> (r: Option<usize>)
        ensures
            match r {
                Some(i) => i < self.live@.len() && self.live@[i as int].keyed_by(
                    seller@,
                    sell_mint@,
                ),
                None => !holds_key(self.live@, seller@, sell_mint@),
            },
    {
        let mut i: usize = 0;
        while i < self.live.len()
            invariant
                i <= self.live@.len(),
                forall|j: int| 0 <= j < i ==> !self.live@[j].keyed_by(seller@, sell_mint@),
            decreases self.live@.len() - i,
        {
            let a = &self.live[i];
            if a.seller.same(seller) && a.sell_mint.same(sell_mint) {
                return Some(i);
            }
            i = i + 1;
        }
        None
    }

    /// The live record keyed by the pair.
    pub fn get(&self, seller: &Pubkey, sell_mint: &Pubkey) -> (r: Option<Auction>)
        ensures
            match r {
                Some(a) => a.keyed_by(seller@, sell_mint@) && self.live@.contains(a),
                None => !holds_key(self.live@, seller@, sell_mint@),
            },
    {
        match self.find(seller, sell_mint) {
            Some(i) => Some(self.live[i]),
            None => None,
        }
    }

    /// The number of live auctions.
    pub fn len(&self) -> (r: usize)
        ensures
            r == self.live@.len(),
    {
        self.live.len()
    }
}

} // verus!
