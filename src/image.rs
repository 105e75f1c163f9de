//! The image format: a big-endian 16-bit origin address followed by
//! big-endian 16-bit words, which are placed in memory from the origin on.
use vstd::prelude::*;

use crate::machine::MEMORY_SIZE;

verus! {

/// Why an image could not be loaded. Memory is left unchanged in either case.
#[derive(Debug, Clone, Copy, PartialEq, Eq, Structural)]
pub enum LoadError {
    /// The image is shorter than the two bytes of its origin address.
    MissingOrigin,
    /// The words would run past the end of the address space.
    Overflow,
}

/// The word whose high byte is `hi` and whose low byte is `lo`.
pub open spec fn be_word(hi: u8, lo: u8) -> u16 {
    (hi as int * 256 + lo as int) as u16
}

/// The origin address of an image: its first two bytes.
pub open spec fn image_origin(b: Seq<u8>) -> u16 {
    be_word(b[0], b[1])
}

/// The words of an image: the bytes after the origin, in pairs; a trailing
/// odd byte is no word.
pub open spec fn image_words(b: Seq<u8>) -> Seq<u16> {
    Seq::new(
        ((b.len() - 2) / 2) as nat,
        |i: int| be_word(b[2 + 2 * i], b[3 + 2 * i]),
    )
}

/// Whether `b` can be loaded: it has an origin, and its words end inside
/// the address space.
pub open spec fn image_fits(b: Seq<u8>) -> bool {
    &&& b.len() >= 2
    &&& image_origin(b) + image_words(b).len() <= MEMORY_SIZE
}

/// `mem` with `words` written from `origin` on.
pub open spec fn place(mem: Seq<u16>, origin: int, words: Seq<u16>) -> Seq<u16> {
    Seq::new(
        mem.len(),
        |a: int|
            if origin <= a < origin + words.len() {
                words[a - origin]
            } else {
                mem[a]
            },
    )
}

/// The image that holds `words` at `origin`.
pub open spec fn encode_image(origin: u16, words: Seq<u16>) -> Seq<u8> {
    Seq::new(
        2 + 2 * words.len(),
        |j: int|
            if j < 2 {
                if j == 0 {
                    (origin / 256) as u8
                } else {
                    (origin % 256) as u8
                }
            } else if (j - 2) % 2 == 0 {
                (words[(j - 2) / 2] / 256) as u8
            } else {
                (words[(j - 2) / 2] % 256) as u8
            },
    )
}

/// The word whose high byte is `hi` and whose low byte is `lo`.
pub fn word_from_be_bytes(hi: u8, lo: u8) -> (r: u16)
    ensures
        r == be_word(hi, lo),
{
    (hi as u16) * 256 + (lo as u16)
}

} // verus!
