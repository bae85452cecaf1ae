//! Reading contract-call arguments: 32-byte words, and byte strings reached through
//! an offset word and a length word.
use crate::text::{lossy_text, text_view};
use crate::wide::{unsigned_value, WideInt};
use vstd::prelude::*;
use vstd::slice::slice_subrange;

verus! {

/// The 32-byte word of `data` that starts at `offset`, where `data` holds all of it.
pub open spec fn word_at(data: Seq<u8>, offset: int) -> Option<Seq<u8>> {
    if 0 <= offset && offset + 32 <= data.len() {
        Some(data.subrange(offset, offset + 32))
    } else {
        None
    }
}

/// The word at `offset` read as a position in `data`: its 28 high bytes must be
/// zero, and its four low bytes are the position.
pub open spec fn offset_at(data: Seq<u8>, offset: int) -> Option<int> {
    match word_at(data, offset) {
        Some(word) => {
            if forall|i: int| 0 <= i < 28 ==> word[i] == 0 {
                Some(unsigned_value(word.subrange(28, 32)) as int)
            } else {
                None
            }
        },
        None => None,
    }
}

/// The byte string whose head word is at `offset`: the head gives the place of a
/// length word, and that many bytes follow the length word.
pub open spec fn bytes_at(data: Seq<u8>, offset: int) -> Option<Seq<u8>> {
    match offset_at(data, offset) {
        Some(at) => match offset_at(data, at) {
            Some(len) => {
                if at + 32 + len <= data.len() {
                    Some(data.subrange(at + 32, at + 32 + len))
                } else {
                    None
                }
            },
            None => None,
        },
        None => None,
    }
}

/// The string whose head word is at `offset`: its bytes read as text.
pub open spec fn string_at(data: Seq<u8>, offset: int) -> Option<Seq<char>> {
    match bytes_at(data, offset) {
        Some(bytes) => Some(lossy_text(bytes)),
        None => None,
    }
}

/// The unsigned integer in the word at `offset`.
pub open spec fn uint_at(data: Seq<u8>, offset: int) -> Option<int> {
    match word_at(data, offset) {
        Some(word) => Some(unsigned_value(word) as int),
        None => None,
    }
}

/// The view of an optional wide integer.
pub open spec fn wide_view(value: Option<WideInt>) -> Option<int> {
    match value {
        Some(v) => Some(v@),
        None => None,
    }
}

/// Calls `substreams_ethereum::abi::read_string`, keeping the text and dropping the
/// error message. Trusted: it reads the head word at `offset` as a position, the
/// word there as a length, copies that many bytes after the length word and turns
/// them into text with `String::from_utf8_lossy`; it fails where a word or the
/// bytes reach past `data`, or a position word has a non-zero byte above its low four.
#[verifier::external_body]
fn read_string(data: &[u8], offset: usize) -> (r: Option<String>)
    ensures
        text_view(r) == string_at(data@, offset as int),
{
    substreams_ethereum::abi::read_string(data, offset, "").ok()
}

/// Calls `substreams_ethereum::abi::read_uint`, keeping the number as its
/// two's-complement bytes. Trusted: it reads the whole word at `offset` as a
/// big-endian unsigned integer, and fails where the word reaches past `data`.
#[verifier::external_body]
fn read_uint(data: &[u8], offset: usize) -> (r: Option<WideInt>)
    ensures
        wide_view(r) == uint_at(data@, offset as int),
{
    substreams_ethereum::abi::read_uint(data, offset, "").ok().map(
        |v| WideInt { bytes: v.to_signed_bytes_be() },
    )
}

/// The first four bytes of a call's input as one number, most significant first.
pub open spec fn selector_of(input: Seq<u8>) -> Option<u32> {
    if input.len() >= 4 {
        Some(
            (input[0] * 0x100_0000 + input[1] * 0x1_0000 + input[2] * 0x100 + input[3]) as u32,
        )
    } else {
        None
    }
}

/// The selector of a call, where its input has the four bytes of one.
pub fn selector(input: &Vec<u8>) -> (r: Option<u32>)
    ensures
        r == selector_of(input@),
{
    if input.len() >= 4 {
        let b0: u32 = input[0] as u32;
        let b1: u32 = input[1] as u32;
        let b2: u32 = input[2] as u32;
        let b3: u32 = input[3] as u32;
        Some(b0 * 0x100_0000 + b1 * 0x1_0000 + b2 * 0x100 + b3)
    } else {
        None
    }
}

/// Whether `input` starts with the four bytes of `id`.
pub open spec fn has_selector(input: Seq<u8>, id: u32) -> bool {
    selector_of(input) == Some(id)
}

/// What a call `f(string)` with selector `id` sets: its one argument.
pub open spec fn text_call(input: Seq<u8>, id: u32) -> Option<Seq<char>> {
    if has_selector(input, id) {
        string_at(input.skip(4), 0)
    } else {
        None
    }
}

/// What a call `f(string, string)` with selector `id` sets: its two arguments.
pub open spec fn text_pair_call(input: Seq<u8>, id: u32) -> Option<(Seq<char>, Seq<char>)> {
    if has_selector(input, id) {
        match (string_at(input.skip(4), 0), string_at(input.skip(4), 32)) {
            (Some(first), Some(second)) => Some((first, second)),
            _ => None,
        }
    } else {
        None
    }
}

/// The view of an optional pair of strings.
pub open spec fn text_pair_view(pair: Option<(String, String)>) -> Option<(Seq<char>, Seq<char>)> {
    match pair {
        Some((first, second)) => Some((first@, second@)),
        None => None,
    }
}

/// Decodes a call `f(string)`: selector `id`, then one string.
pub fn decode_text_call(input: &Vec<u8>, id: u32) -> (r: Option<String>)
    ensures
        text_view(r) == text_call(input@, id),
{
    match selector(input) {
        Some(found) => {
            if found == id {
                let data = slice_subrange(input.as_slice(), 4, input.len());
                assert(data@ =~= input@.skip(4));
                read_string(data, 0)
            } else {
                None
            }
        },
        None => None,
    }
}

/// Decodes a call `f(string, string)`: selector `id`, then two strings.
pub fn decode_text_pair_call(input: &Vec<u8>, id: u32) -> (r: Option<(String, String)>)
    ensures
        text_pair_view(r) == text_pair_call(input@, id),
{
    match selector(input) {
        Some(found) => {
            if found == id {
                let data = slice_subrange(input.as_slice(), 4, input.len());
                assert(data@ =~= input@.skip(4));
                match read_string(data, 0) {
                    Some(first) => match read_string(data, 32) {
                        Some(second) => Some((first, second)),
                        None => None,
                    },
                    None => None,
                }
            } else {
                None
            }
        },
        None => None,
    }
}

/// The selector of `initialize(string,string,uint8,uint64,address,uint16,bytes32)`.
pub const INITIALIZE: u32 = 0xc71f_4615;

/// What a bridged-token `initialize` call sets: name, symbol and decimals. The call
/// decodes only where all seven arguments can be read, so the four fixed words
/// after the decimals must be there too.
pub open spec fn initialize_call(input: Seq<u8>) -> Option<(Seq<char>, Seq<char>, int)> {
    let data = input.skip(4);
    if has_selector(input, INITIALIZE) && data.len() >= 224 {
        match (string_at(data, 0), string_at(data, 32), uint_at(data, 64)) {
            (Some(name), Some(symbol), Some(decimals)) => Some((name, symbol, decimals)),
            _ => None,
        }
    } else {
        None
    }
}

/// The view of an optional name, symbol and decimals.
pub open spec fn text_pair_wide_view(triple: Option<(String, String, WideInt)>) -> Option<
    (Seq<char>, Seq<char>, int),
> {
    match triple {
        Some((first, second, number)) => Some((first@, second@, number@)),
        None => None,
    }
}

/// Decodes a bridged-token `initialize` call.
pub fn decode_initialize_call(input: &Vec<u8>) -> (r: Option<(String, String, WideInt)>)
    ensures
        text_pair_wide_view(r) == initialize_call(input@),
{
    match selector(input) {
        Some(found) => {
            if found == INITIALIZE && input.len() - 4 >= 224 {
                let data = slice_subrange(input.as_slice(), 4, input.len());
                assert(data@ =~= input@.skip(4));
                match read_string(data, 0) {
                    Some(name) => match read_string(data, 32) {
                        Some(symbol) => match read_uint(data, 64) {
                            Some(decimals) => Some((name, symbol, decimals)),
                            None => None,
                        },
                        None => None,
                    },
                    None => None,
                }
            } else {
                None
            }
        },
        None => None,
    }
}

} // verus!
