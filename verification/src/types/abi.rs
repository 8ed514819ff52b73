//! The tokens of `ethabi` and their binary encoding, as far as the controller
//! uses them: unsigned integers, strings, tuples and arrays.
//!
//! A token is made by `ethabi` and opaque here. What it stands for and how
//! many bytes it takes are known by name only, from what the functions below
//! say of the tokens they make.

use ethabi::Token;
use vstd::prelude::*;

verus! {

/// `ethabi::Token`, a value that can be encoded.
#[verifier::external_type_specification]
#[verifier::external_body]
pub struct ExToken(ethabi::Token);

/// A value in the shapes that the controller encodes.
pub enum AbiValue {
    /// An unsigned integer.
    Uint(nat),
    /// A string.
    Text(Seq<char>),
    /// A tuple, with its fields in order.
    Tuple(Seq<AbiValue>),
    /// An array of any length, with its items in order.
    Array(Seq<AbiValue>),
}

/// The value that a token stands for.
pub uninterp spec fn token_value(token: Token) -> AbiValue;

/// The number of bytes that a token takes in an encoding, with everything
/// that belongs to it: the word that points to it, where it has one, the
/// word that gives its length, where it has one, and its padding. It is the
/// true number, however large, whatever a machine number could hold.
pub uninterp spec fn token_len(token: Token) -> nat;

/// The bytes that `ethabi::encode` makes of tokens that stand for `values`.
pub uninterp spec fn abi_encoding(values: Seq<AbiValue>) -> Seq<u8>;

/// The values that a sequence of tokens stands for.
pub open spec fn token_values(tokens: Seq<Token>) -> Seq<AbiValue> {
    tokens.map_values(|token: Token| token_value(token))
}

/// The number of bytes that a sequence of tokens takes in an encoding.
pub open spec fn tokens_len(tokens: Seq<Token>) -> nat
    decreases tokens.len(),
{
    if tokens.len() == 0 {
        0
    } else {
        tokens_len(tokens.drop_last()) + token_len(tokens.last())
    }
}

/// The bytes of a string in memory.
pub open spec fn utf8_len(text: Seq<char>) -> nat {
    vstd::utf8::encode_utf8(text).len()
}

/// `bytes` rounded up to whole words of 32 bytes.
pub open spec fn padded_len(bytes: nat) -> nat {
    32 * ((bytes + 31) / 32)
}

/// Whether `ethabi::encode` can lay out an encoding of `len` bytes: it counts
/// bytes in 32 bits, and reserves 32 bytes of memory for each of them before
/// it writes.
pub open spec fn len_fits(len: nat) -> bool {
    len <= u32::MAX && 32 * len <= isize::MAX
}

/// `Token::Uint` of a `u128`. Not verified: the contract says that the token
/// stands for that number and takes one word.
#[verifier::external_body]
pub(crate) fn uint_token(value: u128) -> (token: Token)
    ensures
        token_value(token) == AbiValue::Uint(value as nat),
        token_len(token) == 32,
{
    Token::Uint(value.into())
}

/// `Token::String`. Not verified: the contract says that the token stands for
/// that string, and takes one word that points to it, one word for its
/// length and its bytes padded to whole words.
#[verifier::external_body]
pub(crate) fn string_token(text: String) -> (token: Token)
    ensures
        token_value(token) == AbiValue::Text(text@),
        token_len(token) == 64 + padded_len(utf8_len(text@)),
{
    Token::String(text)
}

/// `Token::Tuple`. Not verified: the contract says that the token stands for
/// the tuple of what the fields stand for, and takes what its fields take
/// and, where a field's length can vary, one word more that points to the
/// tuple.
#[verifier::external_body]
pub(crate) fn tuple_token(fields: Vec<Token>) -> (token: Token)
    ensures
        token_value(token) == AbiValue::Tuple(token_values(fields@)),
        token_len(token) <= 32 + tokens_len(fields@),
{
    Token::Tuple(fields)
}

/// `Token::Array`. Not verified: the contract says that the token stands for
/// the array of what the items stand for, and takes what its items take, one
/// word that points to the array and one word for its length.
#[verifier::external_body]
pub(crate) fn array_token(items: Vec<Token>) -> (token: Token)
    ensures
        token_value(token) == AbiValue::Array(token_values(items@)),
        token_len(token) == 64 + tokens_len(items@),
{
    Token::Array(items)
}

/// `ethabi::encode`. Not verified: the contract says that the bytes are a
/// function of what the tokens stand for, named `abi_encoding`, and nothing
/// about which bytes they are. The call is made only where the encoding is
/// short enough for `ethabi` to lay it out.
#[verifier::external_body]
pub(crate) fn abi_encode(tokens: &Vec<Token>) -> (bytes: Vec<u8>)
    requires
        len_fits(tokens_len(tokens@)),
    ensures
        bytes@ == abi_encoding(token_values(tokens@)),
{
    ethabi::encode(tokens)
}

} // verus!
