//! Reading big-endian instruction words out of a byte buffer, and the
//! listing of a buffer's first instructions.
use vstd::prelude::*;
use vstd::slice::slice_subrange;
use crate::text::{word_format, word_text};

verus! {

/// The value of four bytes read most significant first.
pub open spec fn be_value(b: Seq<u8>) -> int {
    b[0] * 0x100_0000 + b[1] * 0x1_0000 + b[2] * 0x100 + b[3]
}

/// The number of whole words in a buffer of `len` bytes.
pub open spec fn word_count(len: nat) -> nat {
    len / 4
}

/// Word `k` of a buffer: bytes `4k..4k+4`, big-endian.
pub open spec fn word_of(bytes: Seq<u8>, k: int) -> u32 {
    be_value(bytes.subrange(4 * k, 4 * k + 4)) as u32
}

/// Relies on byteorder's `BigEndian::read_u32`: the first four bytes, most
/// significant first (it panics on fewer than four).
#[verifier::external_body]
fn read_be_u32(buf: &[u8]) -> (r: u32)
    requires
        buf@.len() >= 4,
    ensures
        r as int == be_value(buf@),
{
    <byteorder::BigEndian as byteorder::ByteOrder>::read_u32(buf)
}

/// Word `index` of `bytes`, or `None` when the buffer holds no whole word there.
pub fn word_at(bytes: &[u8], index: usize) -> (r: Option<u32>)
    ensures
        r is Some <==> index < word_count(bytes@.len()),
        r is Some ==> r->0 == word_of(bytes@, index as int),
{
    if index < bytes.len() / 4 {
        let start: usize = index * 4;
        let w = read_be_u32(slice_subrange(bytes, start, start + 4));
        Some(w)
    } else {
        None
    }
}

/// The lines shown for the first `num` words of `bytes`, or for all its
/// whole words when it holds fewer.
pub fn disassemble(bytes: &[u8], num: usize) -> (r: Vec<String>)
    ensures
        r@.len() == if num < word_count(bytes@.len()) { num as nat } else { word_count(bytes@.len()) },
        forall|k: int| 0 <= k < r@.len() ==> r@[k]@ == word_text(word_of(bytes@, k)),
{
    let mut lines: Vec<String> = Vec::new();
    let mut n: usize = 0;
    while n < num
        invariant
            n <= num,
            n <= word_count(bytes@.len()),
            lines@.len() == n,
            forall|k: int| 0 <= k < n ==> lines@[k]@ == word_text(word_of(bytes@, k)),
        ensures
            n == num || n == word_count(bytes@.len()),
            lines@.len() == n,
            forall|k: int| 0 <= k < n ==> lines@[k]@ == word_text(word_of(bytes@, k)),
        decreases num - n,
    {
        match word_at(bytes, n) {
            Some(w) => {
                lines.push(word_format(w));
                n = n + 1;
            },
            None => {
                break;
            },
        }
    }
    lines
}

} // verus!
