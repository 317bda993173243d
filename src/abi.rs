use vstd::prelude::*;
use ethers::abi::{ParamType, Token};
use ethers::types::{BigEndianHash, H256};

verus! {

/// The ABI parameter types that the job events carry.
#[derive(Clone, Copy, Debug, PartialEq, Eq, Structural)]
pub enum ParamKind {
    FixedBytes(usize),
    Bytes,
    Uint(usize),
    AddressArray,
}

/// A decoded ABI value. A `Uint` holds its 32 big-endian bytes; an `Array`
/// holds, for each element, its address where the element is one.
pub enum AbiToken {
    Address(Vec<u8>),
    FixedBytes(Vec<u8>),
    Bytes(Vec<u8>),
    Uint(Vec<u8>),
    Array(Vec<Option<Vec<u8>>>),
    Other,
}

/// What an `AbiToken` holds, as sequences.
pub enum TokenView {
    Address(Seq<u8>),
    FixedBytes(Seq<u8>),
    Bytes(Seq<u8>),
    Uint(Seq<u8>),
    Array(Seq<Option<Seq<u8>>>),
    Other,
}

pub open spec fn opt_bytes_view(o: Option<Vec<u8>>) -> Option<Seq<u8>> {
    match o {
        Some(v) => Some(v@),
        None => None,
    }
}

pub open spec fn token_view(t: AbiToken) -> TokenView {
    match t {
        AbiToken::Address(a) => TokenView::Address(a@),
        AbiToken::FixedBytes(b) => TokenView::FixedBytes(b@),
        AbiToken::Bytes(b) => TokenView::Bytes(b@),
        AbiToken::Uint(b) => TokenView::Uint(b@),
        AbiToken::Array(xs) => TokenView::Array(xs@.map_values(|x: Option<Vec<u8>>| opt_bytes_view(x))),
        AbiToken::Other => TokenView::Other,
    }
}

pub open spec fn tokens_view(ts: Seq<AbiToken>) -> Seq<TokenView> {
    ts.map_values(|t: AbiToken| token_view(t))
}

/// What ethabi's `decode` yields for the given types and data, if it succeeds.
/// Fixed byte strings are at most one 32-byte word wide, as the ABI defines them.
pub open spec fn kinds_ok(kinds: Seq<ParamKind>) -> bool {
    forall|i: int| 0 <= i < kinds.len() && #[trigger] kinds[i] is FixedBytes ==> kinds[i]->FixedBytes_0 <= 32
}

pub uninterp spec fn abi_decoded(kinds: Seq<ParamKind>, data: Seq<u8>) -> Option<Seq<TokenView>>;

/// The Keccak-256 digest of a string's bytes.
pub uninterp spec fn keccak_of(s: Seq<char>) -> Seq<u8>;

/// Lowercase hexadecimal digits.
pub open spec fn hex_digits() -> Seq<char> {
    seq!['0', '1', '2', '3', '4', '5', '6', '7', '8', '9', 'a', 'b', 'c', 'd', 'e', 'f']
}

/// Two lowercase hex digits per byte, most significant first.
pub open spec fn hex_lower(b: Seq<u8>) -> Seq<char>
    decreases b.len(),
{
    if b.len() == 0 {
        Seq::empty()
    } else {
        hex_lower(b.drop_last()) + seq![hex_digits()[b.last() as int / 16], hex_digits()[b.last() as int % 16]]
    }
}

/// ethabi's parameter type, carried opaquely to its decoder.
#[verifier::external_type_specification]
#[verifier::external_body]
pub struct ExParamType(ParamType);

/// ethabi's decoded value, turned into an `AbiToken` at once.
#[verifier::external_type_specification]
#[verifier::external_body]
pub struct ExToken(Token);

/// Converts a parameter kind into ethabi's type for it, variant for variant.
#[verifier::external_body]
fn param_type(k: &ParamKind) -> ParamType {
    match k {
        ParamKind::FixedBytes(n) => ParamType::FixedBytes(*n),
        ParamKind::Bytes => ParamType::Bytes,
        ParamKind::Uint(n) => ParamType::Uint(*n),
        ParamKind::AddressArray => ParamType::Array(Box::new(ParamType::Address)),
    }
}

/// Converts an ethabi token, variant for variant; an array keeps, for each
/// element, what ethabi's `Token::into_address` gives.
#[verifier::external_body]
fn abi_token(t: Token) -> AbiToken {
    match t {
        Token::Address(a) => AbiToken::Address(a.0.to_vec()),
        Token::FixedBytes(b) => AbiToken::FixedBytes(b),
        Token::Bytes(b) => AbiToken::Bytes(b),
        Token::Uint(u) => AbiToken::Uint(H256::from_uint(&u).0.to_vec()),
        Token::Array(ts) => AbiToken::Array(ts.into_iter().map(|x| x.into_address().map(|a| a.0.to_vec())).collect()),
        _ => AbiToken::Other,
    }
}

/// Relies on ethabi's `decode` (through `ethers::abi::decode`): one token per
/// requested type, or an error on data that does not fit the types.
#[verifier::external_body]
fn decode_abi(kinds: &Vec<ParamKind>, data: &[u8]) -> (r: Option<Vec<AbiToken>>)
    requires
        kinds_ok(kinds@),
    ensures
        match r {
            Some(ts) => abi_decoded(kinds@, data@) == Some(tokens_view(ts@)) && ts@.len() == kinds@.len(),
            None => abi_decoded(kinds@, data@) is None,
        },
{
    let types: Vec<ParamType> = kinds.iter().map(param_type).collect();
    ethers::abi::decode(&types, data).ok().map(|ts| ts.into_iter().map(abi_token).collect())
}

/// Decodes `data` as the given ABI types: exactly what `abi_decoded` names.
pub fn decode(kinds: &Vec<ParamKind>, data: &[u8]) -> (r: Option<Vec<AbiToken>>)
    requires
        kinds_ok(kinds@),
    ensures
        match r {
            Some(ts) => abi_decoded(kinds@, data@) == Some(tokens_view(ts@)),
            None => abi_decoded(kinds@, data@) is None,
        },
{
    decode_abi(kinds, data)
}

/// Relies on `ethers::utils::keccak256`: the 32-byte digest of the string's bytes.
#[verifier::external_body]
pub(crate) fn keccak(s: &str) -> (r: Vec<u8>)
    ensures
        r@ == keccak_of(s@),
        r@.len() == 32,
{
    ethers::utils::keccak256(s.as_bytes()).to_vec()
}

/// Relies on `data_encoding::HEXLOWER.encode`: two lowercase hex digits per byte.
#[verifier::external_body]
fn hex_encode(b: &[u8]) -> (r: String)
    ensures
        r@ == hex_lower(b@),
{
    data_encoding::HEXLOWER.encode(b)
}

/// A code hash as `0x` followed by its lowercase hex digits.
pub fn prefixed_hex(b: &[u8]) -> (r: String)
    ensures
        r@ == "0x"@ + hex_lower(b@),
{
    let h = hex_encode(b);
    let p = String::from_str("0x");
    p.concat(h.as_str())
}

} // verus!
