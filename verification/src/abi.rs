//! Reading values out of the 32-byte words of the contract ABI.

use vstd::prelude::*;
use crate::hash::H256;

verus! {

/// Why a record that carries an event's signature could not be read as that event.
#[derive(Clone, Copy, Debug, PartialEq, Eq, Structural)]
pub enum DecodeError {
    /// There are no bytes at all where the event carries values.
    Empty,
    /// The topics or the payload do not have the event's shape.
    InvalidData,
    /// The dispatched message is shorter than its fixed header.
    TruncatedMessage,
}

/// The number that four bytes spell, most significant byte first.
pub open spec fn be_u32(bytes: Seq<u8>) -> int {
    bytes[0] as int * 0x100_0000 + bytes[1] as int * 0x1_0000 + bytes[2] as int * 0x100
        + bytes[3] as int
}

/// The 32-bit number in a word: what its last four bytes spell. The bytes before them are
/// not looked at.
pub open spec fn u32_of_word(word: Seq<u8>) -> int {
    be_u32(word.subrange(28, 32))
}

/// A word read as an offset or a length: the number in its last four bytes, provided that
/// all bytes before them are zero.
pub open spec fn length_of_word(word: Seq<u8>) -> Option<int> {
    if forall|i: int| 0 <= i < 28 ==> word[i] == 0 {
        Some(u32_of_word(word))
    } else {
        None
    }
}

/// A byte string of any length that stands alone in a payload.
///
/// The first word gives the offset of the length word, and the bytes follow the length word.
/// Bytes of the payload that this leaves out are not looked at.
pub open spec fn bytes_payload(data: Seq<u8>) -> Result<Seq<u8>, DecodeError> {
    if data.len() == 0 {
        Err(DecodeError::Empty)
    } else if data.len() < 32 {
        Err(DecodeError::InvalidData)
    } else {
        match length_of_word(data.subrange(0, 32)) {
            None => Err(DecodeError::InvalidData),
            Some(offset) => if offset + 32 > data.len() {
                Err(DecodeError::InvalidData)
            } else {
                match length_of_word(data.subrange(offset, offset + 32)) {
                    None => Err(DecodeError::InvalidData),
                    Some(len) => if offset + 32 + len > data.len() {
                        Err(DecodeError::InvalidData)
                    } else {
                        Ok(data.subrange(offset + 32, offset + 32 + len))
                    },
                }
            },
        }
    }
}

/// Two words that stand side by side at the start of a payload.
pub open spec fn word_pair_payload(data: Seq<u8>) -> Result<(Seq<u8>, Seq<u8>), DecodeError> {
    if data.len() == 0 {
        Err(DecodeError::Empty)
    } else if data.len() < 64 {
        Err(DecodeError::InvalidData)
    } else {
        Ok((data.subrange(0, 32), data.subrange(32, 64)))
    }
}

/// Reads the 32-bit number that a word carries in its last four bytes.
pub fn word_to_u32(word: &H256) -> (number: u32)
    ensures
        number as int == u32_of_word(word@),
{
    let b0: u32 = word.0[28] as u32;
    let b1: u32 = word.0[29] as u32;
    let b2: u32 = word.0[30] as u32;
    let b3: u32 = word.0[31] as u32;
    b0 * 0x100_0000 + b1 * 0x1_0000 + b2 * 0x100 + b3
}

/// Reads the word that starts at `at`.
pub fn word_at(data: &Vec<u8>, at: usize) -> (word: H256)
    requires
        at + 32 <= data@.len(),
    ensures
        word@ == data@.subrange(at as int, at + 32),
{
    let total: usize = data.len();
    let mut bytes = [0u8; 32];
    let mut i: usize = 0;
    while i < 32
        invariant
            i <= 32,
            at + 32 <= total == data@.len(),
            forall|j: int| 0 <= j < i ==> bytes@[j] == data@[at + j],
        decreases 32 - i,
    {
        bytes[i] = data[at + i];
        i += 1;
    }
    assert(bytes@ =~= data@.subrange(at as int, at + 32));
    H256(bytes)
}

/// Reads a word as an offset or a length.
pub fn word_to_length(word: &H256) -> (length: Option<u32>)
    ensures
        length is Some <==> length_of_word(word@) is Some,
        length matches Some(n) ==> length_of_word(word@) == Some(n as int),
{
    let mut i: usize = 0;
    while i < 28
        invariant
            i <= 28,
            forall|j: int| 0 <= j < i ==> word@[j] == 0,
        decreases 28 - i,
    {
        if word.0[i] != 0 {
            return None;
        }
        i += 1;
    }
    Some(word_to_u32(word))
}

/// Copies the bytes from `from` up to, not including, `to`.
pub fn copy_range(data: &Vec<u8>, from: usize, to: usize) -> (bytes: Vec<u8>)
    requires
        from <= to <= data@.len(),
    ensures
        bytes@ == data@.subrange(from as int, to as int),
{
    let mut bytes: Vec<u8> = Vec::new();
    let mut i: usize = from;
    while i < to
        invariant
            from <= i <= to <= data@.len(),
            bytes@.len() == i - from,
            forall|j: int| 0 <= j < i - from ==> bytes@[j] == data@[from + j],
        decreases to - i,
    {
        bytes.push(data[i]);
        i += 1;
    }
    assert(bytes@ =~= data@.subrange(from as int, to as int));
    bytes
}

/// Reads the byte string that stands alone in a payload.
pub fn decode_bytes_payload(data: &Vec<u8>) -> (decoded: Result<Vec<u8>, DecodeError>)
    ensures
        match decoded {
            Ok(bytes) => bytes_payload(data@) == Ok::<Seq<u8>, DecodeError>(bytes@),
            Err(error) => bytes_payload(data@) == Err::<Seq<u8>, DecodeError>(error),
        },
{
    let total: usize = data.len();
    if total == 0 {
        return Err(DecodeError::Empty);
    }
    if total < 32 {
        return Err(DecodeError::InvalidData);
    }
    let offset: u32 = match word_to_length(&word_at(data, 0)) {
        None => { return Err(DecodeError::InvalidData); },
        Some(n) => n,
    };
    if offset as u64 + 32 > total as u64 {
        return Err(DecodeError::InvalidData);
    }
    let start: usize = offset as usize;
    let len: u32 = match word_to_length(&word_at(data, start)) {
        None => { return Err(DecodeError::InvalidData); },
        Some(n) => n,
    };
    if offset as u64 + 32 + len as u64 > total as u64 {
        return Err(DecodeError::InvalidData);
    }
    Ok(copy_range(data, start + 32, start + 32 + len as usize))
}

/// Reads the two words at the start of a payload.
pub fn decode_word_pair_payload(data: &Vec<u8>) -> (decoded: Result<(H256, H256), DecodeError>)
    ensures
        match decoded {
            Ok(pair) => word_pair_payload(data@) == Ok::<(Seq<u8>, Seq<u8>), DecodeError>(
                (pair.0@, pair.1@),
            ),
            Err(error) => word_pair_payload(data@) == Err::<(Seq<u8>, Seq<u8>), DecodeError>(
                error,
            ),
        },
{
    if data.len() == 0 {
        return Err(DecodeError::Empty);
    }
    if data.len() < 64 {
        return Err(DecodeError::InvalidData);
    }
    Ok((word_at(data, 0), word_at(data, 32)))
}

} // verus!
