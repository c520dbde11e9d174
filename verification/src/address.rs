//! 32-byte account addresses and hashes.
use vstd::prelude::*;
use std::str::FromStr;
use solana_sdk::pubkey::Pubkey;

verus! {

/// A 32-byte value: an account address (public key) or a block hash.
#[derive(Debug, Clone, Copy)]
pub struct Address {
    /// The raw bytes.
    pub bytes: [u8; 32],
}

impl View for Address {
    type V = Seq<u8>;

    open spec fn view(&self) -> Seq<u8> {
        self.bytes@
    }
}

/// The all-zero address, which marks an account a stream event did not fill in.
pub open spec fn zero_address() -> Seq<u8> {
    Seq::new(32, |i: int| 0u8)
}

impl Address {
    /// The address with the given bytes.
    pub fn new(bytes: [u8; 32]) -> (a: Address)
        ensures
            a@ == bytes@,
    {
        Address { bytes }
    }

    /// The all-zero address (what `Pubkey::default()` is).
    pub fn zero() -> (a: Address)
        ensures
            a@ == zero_address(),
    {
        let a = Address { bytes: [0u8; 32] };
        assert(a@ =~= zero_address());
        a
    }

    /// Whether `self` and `other` hold the same bytes.
    pub fn same(&self, other: &Address) -> (r: bool)
        ensures
            r == (self@ == other@),
    {
        let mut i: usize = 0;
        while i < 32
            invariant
                i <= 32,
                self@.len() == 32,
                other@.len() == 32,
                forall|j: int| 0 <= j < i ==> self@[j] == other@[j],
            decreases 32 - i,
        {
            if self.bytes[i] != other.bytes[i] {
                return false;
            }
            i = i + 1;
        }
        assert(self@ =~= other@);
        true
    }

    /// Whether every byte is zero.
    pub fn is_zero(&self) -> (r: bool)
        ensures
            r == (self@ == zero_address()),
    {
        let mut i: usize = 0;
        while i < 32
            invariant
                i <= 32,
                self@.len() == 32,
                forall|j: int| 0 <= j < i ==> self@[j] == 0u8,
            decreases 32 - i,
        {
            if self.bytes[i] != 0 {
                assert(self@[i as int] != zero_address()[i as int]);
                return false;
            }
            i = i + 1;
        }
        assert(self@ =~= zero_address());
        true
    }
}

/// What `Pubkey::from_str` gives for `text`: the 32 bytes a base58 address decodes to, or
/// nothing.
pub uninterp spec fn spec_parse_pubkey(text: Seq<char>) -> Option<Seq<u8>>;

/// Calls `Pubkey::from_str` of solana-pubkey (base58 decoding of at most 44 characters to 32
/// bytes). Claimed: the result is the named function of the text. Not stated: which texts
/// decode, and to what.
#[verifier::external_body]
pub(crate) fn parse_address(text: &str) -> (r: Option<Address>)
    ensures
        match r {
            Some(a) => spec_parse_pubkey(text@) == Some(a@),
            None => spec_parse_pubkey(text@) is None,
        },
{
    Pubkey::from_str(text).ok().map(|p| Address { bytes: p.to_bytes() })
}

} // verus!
