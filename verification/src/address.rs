//! Address bytes as text: bech32 for the addresses of today, base58 for
//! those of the Byron era.

use crate::ledger::{address_bech32, byron_base58, encode_base58, encode_bech32, parse_address,
    parse_byron_address, parsed_address, parsed_byron_address};
use vstd::prelude::*;

verus! {

/// Why address bytes have no text.
#[derive(Clone, Copy, Debug, PartialEq, Eq)]
pub enum AddressError {
    /// The bytes are an address of no known era.
    Unrecognized,
}

/// The bech32 text of the bytes read as an address of today, if they are
/// one that has such a text.
pub open spec fn modern_text(bytes: Seq<u8>) -> Option<Seq<char>> {
    match parsed_address(bytes) {
        Some(address) => address_bech32(address),
        None => None,
    }
}

/// The base58 text of the bytes read as a Byron address, if they are one.
pub open spec fn legacy_text(bytes: Seq<u8>) -> Option<Seq<char>> {
    match parsed_byron_address(bytes) {
        Some(address) => Some(byron_base58(address)),
        None => None,
    }
}

/// The text to give for an address whose two readings gave `modern` and
/// `legacy`: the modern one where there is one, else the legacy one.
pub open spec fn preferred_text(modern: Option<Seq<char>>, legacy: Option<Seq<char>>) -> Option<
    Seq<char>,
> {
    match modern {
        Some(text) => Some(text),
        None => legacy,
    }
}

/// The text of address bytes.
pub open spec fn address_text(bytes: Seq<u8>) -> Option<Seq<char>> {
    preferred_text(modern_text(bytes), legacy_text(bytes))
}

/// The view of an optional text.
pub open spec fn text_option_view(t: Option<String>) -> Option<Seq<char>> {
    match t {
        Some(text) => Some(text@),
        None => None,
    }
}

/// Reads the bytes as an address of today and gives its bech32 text.
pub fn modern_address_text(bytes: &[u8]) -> (r: Option<String>)
    ensures
        text_option_view(r) == modern_text(bytes@),
{
    match parse_address(bytes) {
        Ok(address) => match encode_bech32(&address) {
            Ok(text) => Some(text),
            Err(_) => None,
        },
        Err(_) => None,
    }
}

/// Reads the bytes as a Byron address and gives its base58 text.
pub fn legacy_address_text(bytes: &[u8]) -> (r: Option<String>)
    ensures
        text_option_view(r) == legacy_text(bytes@),
{
    match parse_byron_address(bytes) {
        Ok(address) => Some(encode_base58(&address)),
        Err(_) => None,
    }
}

/// Chooses between the two readings of an address: the modern text where
/// there is one, else the legacy text, else an error.
pub fn prefer_modern(modern: Option<String>, legacy: Option<String>) -> (r: Result<
    String,
    AddressError,
>)
    ensures
        match r {
            Ok(text) => preferred_text(text_option_view(modern), text_option_view(legacy)) == Some(
                text@,
            ),
            Err(e) => e == AddressError::Unrecognized && modern is None && legacy is None,
        },
{
    match modern {
        Some(text) => Ok(text),
        None => match legacy {
            Some(text) => Ok(text),
            None => Err(AddressError::Unrecognized),
        },
    }
}

/// The text of address bytes: bech32 where the bytes are an address that
/// has a bech32 text, else base58 where they are a Byron address; an error
/// where they are neither.
pub fn address_bytes_to_text(bytes: &[u8]) -> (r: Result<String, AddressError>)
    ensures
        match r {
            Ok(text) => address_text(bytes@) == Some(text@),
            Err(e) => e == AddressError::Unrecognized && address_text(bytes@) is None,
        },
{
    let modern = modern_address_text(bytes);
    let legacy = if modern.is_none() {
        legacy_address_text(bytes)
    } else {
        None
    };
    prefer_modern(modern, legacy)
}

} // verus!
