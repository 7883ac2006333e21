//! Account addresses: 32 raw bytes, compared byte by byte.

use vstd::prelude::*;

verus! {

/// The address of an account: 32 raw bytes.
#[derive(Clone, Copy, Debug)]
pub struct Address {
    pub bytes: [u8; 32],
}

impl View for Address {
    type V = Seq<u8>;

    open spec fn view(&self) -> Seq<u8> {
        self.bytes@
    }
}

impl Address {
    /// The address made of the given bytes.
    pub fn new(bytes: [u8; 32]) -> (a: Address)
        ensures
            a@ == bytes@,
            a.bytes == bytes,
    {
        Address { bytes }
    }

    /// The all-zero address, which stands for "no account".
    pub fn zero() -> (a: Address)
        ensures
            a@ == Seq::new(32, |i: int| 0u8),
            a.is_zero(),
    {
        let a = Address { bytes: [0u8; 32] };
        assert(a@ =~= Seq::new(32, |i: int| 0u8));
        a
    }

    /// Whether every byte is zero.
    pub open spec fn is_zero(&self) -> bool {
        forall|i: int| 0 <= i < 32 ==> self@[i] == 0u8
    }

    /// Whether two addresses hold the same bytes.
    pub fn same(&self, other: &Address) -> (r: bool)
        ensures
            r == (self@ == other@),
            r == (*self == *other),
    {
        let mut i: usize = 0;
        while i < 32
            invariant
                0 <= i <= 32,
                forall|j: int| 0 <= j < i ==> self.bytes@[j] == other.bytes@[j],
            decreases 32 - i,
        {
            if self.bytes[i] != other.bytes[i] {
                return false;
            }
            i += 1;
        }
        assert(self@ =~= other@);
        assert(self.bytes == other.bytes);
        true
    }
}

/// The suffix that the base-58 form of a registered mint ends with: `SPMP`.
pub const MEME_MINT_SUFFIX: [u8; 4] = [83, 80, 77, 80];

/// The token program's address.
pub const TOKEN_PROGRAM_ID: [u8; 32] = [
    6, 221, 246, 225, 215, 101, 161, 147, 217, 203, 225, 70, 206, 235, 121, 172,
    28, 180, 133, 237, 95, 91, 55, 145, 58, 140, 245, 133, 126, 255, 0, 169,
];

/// The associated-token-account program's address.
pub const ASSOCIATED_TOKEN_PROGRAM_ID: [u8; 32] = [
    140, 151, 37, 143, 78, 36, 137, 241, 187, 61, 16, 41, 20, 142, 13, 131,
    11, 90, 19, 153, 218, 255, 16, 132, 4, 142, 123, 216, 219, 233, 248, 89,
];

/// The base-58 text of 32 address bytes, as bytes of ASCII.
pub uninterp spec fn base58_text(bytes: Seq<u8>) -> Seq<u8>;

/// The address that a program derives from seeds, with the bump seed that
/// was found for it; `None` where the seeds are not admissible or no bump
/// seed gives an address.
pub uninterp spec fn program_address(seeds: Seq<Seq<u8>>, program_id: Seq<u8>) -> Option<
    (Seq<u8>, u8),
>;

/// Formats the address with `to_string` of `solana_program::pubkey::Pubkey`
/// and hands out the text's bytes. Trusted: that the text depends on the 32
/// bytes alone.
#[verifier::external_body]
fn base58_encode(address: &Address) -> (text: Vec<u8>)
    ensures
        text@ == base58_text(address@),
{
    solana_program::pubkey::Pubkey::new_from_array(address.bytes).to_string().into_bytes()
}

/// Calls `try_find_program_address` of `solana_program::pubkey::Pubkey`.
/// Trusted: that the answer depends on the seeds and the program's address
/// alone.
#[verifier::external_body]
pub(crate) fn try_find_program_address(seeds: &Vec<Vec<u8>>, program_id: &Address) -> (r: Option<(Address, u8)>)
    ensures
        match r {
            Some((address, bump)) => program_address(seeds.deep_view(), program_id@) == Some(
                (address@, bump),
            ),
            None => program_address(seeds.deep_view(), program_id@) is None,
        },
{
    let parts: Vec<&[u8]> = seeds.iter().map(|seed| seed.as_slice()).collect();
    let id = solana_program::pubkey::Pubkey::new_from_array(program_id.bytes);
    solana_program::pubkey::Pubkey::try_find_program_address(&parts, &id).map(
        |(address, bump)| (Address { bytes: address.to_bytes() }, bump),
    )
}

/// Whether `text` ends with `suffix`.
pub open spec fn ends_with_spec(text: Seq<u8>, suffix: Seq<u8>) -> bool {
    suffix.len() <= text.len() && text.subrange(text.len() - suffix.len(), text.len() as int)
        == suffix
}

/// Tells whether `text` ends with `suffix`.
pub fn ends_with(text: &[u8], suffix: &[u8]) -> (r: bool)
    ensures
        r == ends_with_spec(text@, suffix@),
{
    if suffix.len() > text.len() {
        return false;
    }
    let length: usize = text.len();
    let start: usize = length - suffix.len();
    let ghost tail = text@.subrange(start as int, text@.len() as int);
    let mut i: usize = 0;
    while i < suffix.len()
        invariant
            0 <= i <= suffix@.len(),
            start + suffix@.len() == text@.len(),
            length == text@.len(),
            tail == text@.subrange(start as int, text@.len() as int),
            forall|j: int| 0 <= j < i ==> tail[j] == suffix@[j],
        decreases suffix@.len() - i,
    {
        if text[start + i] != suffix[i] {
            assert(tail[i as int] != suffix@[i as int]);
            return false;
        }
        i += 1;
    }
    assert(tail =~= suffix@);
    true
}

/// The bytes of a seed list.
pub open spec fn seed_bytes(owner: Address, middle: Seq<u8>, mint: Address) -> Seq<Seq<u8>> {
    seq![owner@, middle, mint@]
}

impl Address {
    /// Whether the address, written in base 58, ends with the suffix of
    /// registered mints.
    pub open spec fn has_mint_suffix_spec(&self) -> bool {
        ends_with_spec(base58_text(self@), MEME_MINT_SUFFIX@)
    }

    /// Tells whether the address, written in base 58, ends with the suffix
    /// of registered mints.
    pub fn has_mint_suffix(&self) -> (ok: bool)
        ensures
            ok == self.has_mint_suffix_spec(),
    {
        let text = base58_encode(self);
        ends_with(text.as_slice(), MEME_MINT_SUFFIX.as_slice())
    }

    /// Tells whether every byte is zero.
    pub fn is_zero_address(&self) -> (r: bool)
        ensures
            r == self.is_zero(),
    {
        let mut i: usize = 0;
        while i < 32
            invariant
                0 <= i <= 32,
                self@.len() == 32,
                forall|j: int| 0 <= j < i ==> self@[j] == 0u8,
            decreases 32 - i,
        {
            if self.bytes[i] != 0 {
                return false;
            }
            i += 1;
        }
        true
    }

    /// The bytes as a vector.
    pub fn to_vec(&self) -> (v: Vec<u8>)
        ensures
            v@ == self@,
    {
        let mut v: Vec<u8> = Vec::new();
        let mut i: usize = 0;
        while i < 32
            invariant
                0 <= i <= 32,
                self@.len() == 32,
                v@ == self@.subrange(0, i as int),
            decreases 32 - i,
        {
            v.push(self.bytes[i]);
            assert(v@ =~= self@.subrange(0, i + 1));
            i += 1;
        }
        assert(self@.subrange(0, 32) =~= self@);
        v
    }
}

/// The bytes of the associated token account of `owner` for `mint`: the
/// address that the associated-token-account program derives from the
/// owner, the token program and the mint, if there is one.
pub open spec fn ata_bytes(owner: Address, mint: Address) -> Option<Seq<u8>> {
    derived_bytes(seed_bytes(owner, TOKEN_PROGRAM_ID@, mint), ASSOCIATED_TOKEN_PROGRAM_ID@)
}

/// The bytes of the address that a program derives from seeds, if there is
/// one.
pub open spec fn derived_bytes(seeds: Seq<Seq<u8>>, program_id: Seq<u8>) -> Option<Seq<u8>> {
    match program_address(seeds, program_id) {
        Some((bytes, _)) => Some(bytes),
        None => None,
    }
}

/// The associated token account of `owner` for `mint`. `None` where no such
/// address exists.
pub fn get_ata(owner: &Address, mint: &Address) -> (r: Option<Address>)
    ensures
        match r {
            Some(address) => ata_bytes(*owner, *mint) == Some(address@),
            None => ata_bytes(*owner, *mint) is None,
        },
{
    let mut seeds: Vec<Vec<u8>> = Vec::new();
    seeds.push(owner.to_vec());
    seeds.push(Address::new(TOKEN_PROGRAM_ID).to_vec());
    seeds.push(mint.to_vec());
    assert(seeds.deep_view() =~~= seed_bytes(*owner, TOKEN_PROGRAM_ID@, *mint));
    let program = Address::new(ASSOCIATED_TOKEN_PROGRAM_ID);
    match try_find_program_address(&seeds, &program) {
        Some((address, _)) => Some(address),
        None => None,
    }
}

} // verus!
