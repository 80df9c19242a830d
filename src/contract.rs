use std::str::FromStr;
use starknet_core::types::Felt;
use vstd::prelude::*;

verus! {

broadcast use vstd::string::group_string_axioms;

/// What `Felt::from_str` followed by `Felt::to_bytes_be` yields for a text:
/// `None` where the text is no field element, else its 32 big-endian bytes.
pub uninterp spec fn felt_from_str(s: Seq<char>) -> Option<Seq<u8>>;

/// What `format!("{:#x}", ..)` prints for the field element with these
/// big-endian bytes.
pub uninterp spec fn felt_hex(b: Seq<u8>) -> Seq<char>;

/// Whether a text begins with `0x`, the mark of a hexadecimal address.
pub open spec fn has_hex_prefix(s: Seq<char>) -> bool {
    s.len() >= 2 && s[0] == '0' && s[1] == 'x'
}

/// Relies on starknet's `Felt::from_str` and `Felt::to_bytes_be`: on text
/// that begins with `0x`, `from_str` reads hexadecimal digits and refuses
/// any other text without panicking; the outcome depends on the text alone.
/// Decimal text is left out: an overlong number can overflow an addition
/// in its decimal reader.
#[verifier::external_body]
fn parse_felt(s: &str) -> (r: Option<[u8; 32]>)
    requires
        has_hex_prefix(s@),
    ensures
        match felt_from_str(s@) {
            Some(b) => r is Some && r->Some_0@ == b,
            None => r is None,
        },
{
    Felt::from_str(s).ok().map(|f| f.to_bytes_be())
}

/// Whether `s` begins with `0x`.
fn starts_with_hex_prefix(s: &str) -> (r: bool)
    ensures
        r == has_hex_prefix(s@),
{
    let mut chars = s.chars();
    let first = chars.next();
    let second = chars.next();
    match (first, second) {
        (Some(a), Some(b)) => a == '0' && b == 'x',
        _ => false,
    }
}

/// Relies on the `LowerHex` impl of starknet's `Felt` (alternate form, with
/// `0x`): the text depends on the bytes alone.
#[verifier::external_body]
fn felt_hex_string(b: &[u8; 32]) -> (r: String)
    ensures
        r@ == felt_hex(b@),
{
    format!("{:#x}", Felt::from_bytes_be(b))
}

/// Why an address could not be read.
#[derive(Debug, Clone, Copy, PartialEq, Eq, Structural)]
pub enum ParseError {
    /// The text is not a field element.
    InvalidFelt,
    /// A wire address is neither empty nor 32 bytes long.
    InvalidLength,
}

/// All-zero bytes: the wildcard filter.
pub open spec fn is_zero(b: Seq<u8>) -> bool {
    forall|i: int| 0 <= i < b.len() ==> b[i] == 0u8
}

/// Whether a subscriber with filter `filter` receives an update for `contract`.
pub open spec fn admits(filter: Seq<u8>, contract: Seq<u8>) -> bool {
    is_zero(filter) || filter == contract
}

/// A contract identifier: a 32-byte big-endian unsigned integer. The value
/// zero is the wildcard filter.
#[derive(Debug, Clone, Copy)]
pub struct ContractId {
    pub bytes: [u8; 32],
}

impl View for ContractId {
    type V = Seq<u8>;

    open spec fn view(&self) -> Seq<u8> {
        self.bytes@
    }
}

impl ContractId {
    /// The wildcard identifier.
    pub fn zero() -> (r: ContractId)
        ensures
            r@.len() == 32,
            is_zero(r@),
    {
        ContractId { bytes: [0u8; 32] }
    }

    /// The identifier with these big-endian bytes.
    pub fn from_bytes_be(bytes: [u8; 32]) -> (r: ContractId)
        ensures
            r@ == bytes@,
    {
        ContractId { bytes }
    }

    /// The 32 big-endian bytes.
    pub fn to_bytes_be(&self) -> (r: [u8; 32])
        ensures
            r@ == self@,
    {
        self.bytes
    }

    /// The identifier as it travels on the wire: exactly 32 big-endian bytes.
    pub fn to_wire(&self) -> (r: Vec<u8>)
        ensures
            r@ == self@,
            r@.len() == 32,
    {
        let mut out: Vec<u8> = Vec::new();
        for i in 0..32usize
            invariant
                self@.len() == 32,
                out@ == self@.subrange(0, i as int),
        {
            out.push(self.bytes[i]);
        }
        assert(out@ =~= self@);
        out
    }

    /// Reads a filter from the wire: no bytes or 32 zero bytes are the
    /// wildcard, 32 bytes are an identifier, any other length is refused.
    pub fn from_wire(bytes: &[u8]) -> (r: Result<ContractId, ParseError>)
        ensures
            bytes@.len() == 0 ==> r is Ok && is_zero(r->Ok_0@),
            bytes@.len() == 32 ==> r is Ok && r->Ok_0@ == bytes@,
            bytes@.len() != 0 && bytes@.len() != 32 ==> r == Err::<ContractId, ParseError>(
                ParseError::InvalidLength,
            ),
    {
        if bytes.len() == 0 {
            return Ok(ContractId::zero());
        }
        if bytes.len() != 32 {
            return Err(ParseError::InvalidLength);
        }
        let mut out: [u8; 32] = [0u8; 32];
        for i in 0..32usize
            invariant
                bytes@.len() == 32,
                out@.len() == 32,
                forall|j: int| 0 <= j < i ==> out@[j] == bytes@[j],
        {
            out[i] = bytes[i];
        }
        assert(out@ =~= bytes@);
        Ok(ContractId { bytes: out })
    }

    /// Reads an identifier from its text form: `0x` and hexadecimal digits.
    /// Text without the `0x` mark is no address.
    pub fn parse(s: &str) -> (r: Result<ContractId, ParseError>)
        ensures
            !has_hex_prefix(s@) ==> r == Err::<ContractId, ParseError>(ParseError::InvalidFelt),
            has_hex_prefix(s@) ==> match felt_from_str(s@) {
                Some(b) => r is Ok && r->Ok_0@ == b,
                None => r == Err::<ContractId, ParseError>(ParseError::InvalidFelt),
            },
    {
        if !starts_with_hex_prefix(s) {
            return Err(ParseError::InvalidFelt);
        }
        match parse_felt(s) {
            Some(b) => Ok(ContractId { bytes: b }),
            None => Err(ParseError::InvalidFelt),
        }
    }

    /// The lowercase `0x`-prefixed hexadecimal form, as the progress store
    /// keys its rows.
    pub fn to_hex(&self) -> (r: String)
        ensures
            r@ == felt_hex(self@),
    {
        felt_hex_string(&self.bytes)
    }

    /// Whether this is the wildcard.
    pub fn is_zero(&self) -> (r: bool)
        ensures
            r == is_zero(self@),
    {
        let mut i: usize = 0;
        while i < 32
            invariant
                i <= 32,
                self@.len() == 32,
                forall|j: int| 0 <= j < i ==> self@[j] == 0u8,
            decreases 32 - i,
        {
            if self.bytes[i] != 0 {
                return false;
            }
            i = i + 1;
        }
        true
    }

    /// Whether the two identifiers are equal.
    pub fn same_as(&self, other: &ContractId) -> (r: bool)
        ensures
            r == (self@ == other@),
    {
        let mut i: usize = 0;
        while i < 32
            invariant
                i <= 32,
                self@.len() == 32,
                other@.len() == 32,
                forall|j: int| 0 <= j < i ==> self@[j] == other@[j],
            decreases 32 - i,
        {
            if self.bytes[i] != other.bytes[i] {
                return false;
            }
            i = i + 1;
        }
        assert(self@ =~= other@);
        true
    }

    /// Whether a subscriber filtering on `self` receives an update for
    /// `contract`: the wildcard admits every contract, any other filter
    /// only itself.
    pub fn admits(&self, contract: &ContractId) -> (r: bool)
        ensures
            r == admits(self@, contract@),
    {
        self.is_zero() || self.same_as(contract)
    }
}

} // verus!
