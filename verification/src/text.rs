//! Text forms of the values that a query reports.

use vstd::prelude::*;
use vstd::string::to_string_from_display_ensures;
use vstd::string::StringExecFns;
use crate::hash::{H160, H256};

verus! {

/// The sixteen digits of lower-case hexadecimal, in order.
pub open spec fn hex_digits() -> Seq<char> {
    seq!['0', '1', '2', '3', '4', '5', '6', '7', '8', '9', 'a', 'b', 'c', 'd', 'e', 'f']
}

/// A byte string in lower-case hexadecimal: two digits for each byte, the high half first.
pub open spec fn hex_text(bytes: Seq<u8>) -> Seq<char> {
    Seq::new(
        2 * bytes.len(),
        |i: int|
            if i % 2 == 0 {
                hex_digits()[bytes[i / 2] as int / 16]
            } else {
                hex_digits()[bytes[i / 2] as int % 16]
            },
    )
}

/// The number that a hexadecimal digit stands for.
pub open spec fn hex_value(digit: u8) -> Option<int> {
    if 0x30 <= digit <= 0x39 {
        Some(digit - 0x30)
    } else if 0x41 <= digit <= 0x46 {
        Some(digit - 0x41 + 10)
    } else if 0x61 <= digit <= 0x66 {
        Some(digit - 0x61 + 10)
    } else {
        None
    }
}

/// A text is hexadecimal where it is made of pairs of hexadecimal digits.
pub open spec fn is_hex_text(text: Seq<u8>) -> bool {
    &&& text.len() % 2 == 0
    &&& forall|i: int| 0 <= i < text.len() ==> hex_value(#[trigger] text[i]) is Some
}

/// The bytes that a hexadecimal text spells, two digits a byte, the high half first.
pub open spec fn hex_bytes(text: Seq<u8>) -> Seq<u8> {
    Seq::new(
        text.len() / 2,
        |i: int| (hex_value(text[2 * i])->Some_0 * 16 + hex_value(text[2 * i + 1])->Some_0) as u8,
    )
}

/// A hash in full: `0x` and its 64 hexadecimal digits.
pub open spec fn full_hex_text(bytes: Seq<u8>) -> Seq<char> {
    "0x"@ + hex_text(bytes)
}

/// A hash in short: `0x`, the digits of its first two bytes, an ellipsis, and the digits of
/// its last two bytes.
pub open spec fn short_hex_text(bytes: Seq<u8>) -> Seq<char> {
    "0x"@ + hex_text(bytes.subrange(0, 2)) + "\u{2026}"@ + hex_text(
        bytes.subrange(bytes.len() - 2, bytes.len() as int),
    )
}

/// Writes bytes in lower-case hexadecimal with `hex::encode`.
///
/// Not proved: that the outside function writes two digits for each byte, the high half
/// first, with the letters in lower case.
#[verifier::external_body]
pub(crate) fn hex_encode(bytes: &[u8]) -> (text: String)
    ensures
        text@ == hex_text(bytes@),
{
    hex::encode(bytes)
}

/// The error of `hex::decode`.
#[verifier::external_type_specification]
#[verifier::external_body]
pub struct ExFromHexError(hex::FromHexError);

/// Reads the bytes that a text spells in hexadecimal with `hex::decode`.
///
/// Not proved: that the outside function succeeds exactly on the texts that are made of
/// pairs of hexadecimal digits, in either case, and then gives the byte of each pair, the
/// high half first.
#[verifier::external_body]
pub(crate) fn hex_decode(text: &[u8]) -> (decoded: Result<Vec<u8>, hex::FromHexError>)
    ensures
        decoded is Ok <==> is_hex_text(text@),
        decoded matches Ok(bytes) ==> bytes@ == hex_bytes(text@),
{
    hex::decode(text)
}

/// Writes a value in its debugging form with `std`'s formatting of `{:?}`.
///
/// Nothing is claimed of the text: it is whatever the type's `Debug` writes.
#[verifier::external_body]
pub(crate) fn debug_text<T: core::fmt::Debug>(value: &T) -> (text: String) {
    format!("{:?}", value)
}

/// The text for a value that may be absent: the text of the value, or `None`.
pub fn text_or_none(text: Option<String>) -> (shown: String)
    ensures
        match text {
            Some(present) => shown == present,
            None => shown@ == "None"@,
        },
{
    match text {
        Some(present) => present,
        None => String::from_str("None"),
    }
}

/// Format an optional value into either the display form of the value or "None".
pub fn option_into_display_string<T: core::fmt::Display>(opt: &Option<T>) -> (shown: String)
    ensures
        match *opt {
            Some(value) => to_string_from_display_ensures::<T>(&value, shown),
            None => shown@ == "None"@,
        },
{
    match opt {
        Some(value) => text_or_none(Some(value.to_string())),
        None => text_or_none(None),
    }
}

/// Format an optional value into either the debugging form of the value or "None".
pub fn option_into_debug_string<T: core::fmt::Debug>(opt: &Option<T>) -> (shown: String)
    ensures
        opt is None ==> shown@ == "None"@,
{
    match opt {
        Some(value) => text_or_none(Some(debug_text(value))),
        None => text_or_none(None),
    }
}

impl H256 {
    /// The hash in full: `0x` and its 64 hexadecimal digits.
    pub fn to_hex_string(&self) -> (text: String)
        ensures
            text@ == full_hex_text(self@),
    {
        let digits = hex_encode(self.to_vec().as_slice());
        String::from_str("0x").concat(digits.as_str())
    }

    /// The hash in short: `0x`, the digits of its first two bytes, an ellipsis, and the
    /// digits of its last two bytes.
    pub fn to_short_string(&self) -> (text: String)
        ensures
            text@ == short_hex_text(self@),
    {
        let bytes = self.to_vec();
        let head = hex_encode(crate::abi::copy_range(&bytes, 0, 2).as_slice());
        let tail = hex_encode(crate::abi::copy_range(&bytes, 30, 32).as_slice());
        String::from_str("0x").concat(head.as_str()).concat("\u{2026}").concat(tail.as_str())
    }
}

impl H160 {
    /// The address in full: `0x` and its 40 hexadecimal digits.
    pub fn to_hex_string(&self) -> (text: String)
        ensures
            text@ == full_hex_text(self@),
    {
        let digits = hex_encode(self.to_vec().as_slice());
        String::from_str("0x").concat(digits.as_str())
    }
}

} // verus!
