//! Shader bytecode: bytes to 32-bit SPIR-V words.

use vstd::prelude::*;

verus! {

/// The first word of every SPIR-V module.
pub const SPIRV_MAGIC: u32 = 0x0723_0203;

/// Word `i` of `b`, least significant byte first.
pub open spec fn word_le(b: Seq<u8>, i: int) -> int {
    b[4 * i] + b[4 * i + 1] * 256 + b[4 * i + 2] * 65536 + b[4 * i + 3] * 16777216
}

/// Word `i` of `b`, most significant byte first.
pub open spec fn word_be(b: Seq<u8>, i: int) -> int {
    b[4 * i + 3] + b[4 * i + 2] * 256 + b[4 * i + 1] * 65536 + b[4 * i] * 16777216
}

/// The whole words of `b` in the given byte order; trailing bytes are dropped.
pub open spec fn decode(b: Seq<u8>, big_endian: bool) -> Seq<u32> {
    Seq::new(
        b.len() / 4,
        |i: int|
            if big_endian {
                word_be(b, i) as u32
            } else {
                word_le(b, i) as u32
            },
    )
}

/// The byte order in which `b` begins with the magic number, if it is made of
/// whole words and does.
pub open spec fn byte_order(b: Seq<u8>) -> Option<bool> {
    if b.len() == 0 || b.len() % 4 != 0 {
        None
    } else if word_le(b, 0) == SPIRV_MAGIC {
        Some(false)
    } else if word_be(b, 0) == SPIRV_MAGIC {
        Some(true)
    } else {
        None
    }
}

#[derive(Clone, Copy, Debug, PartialEq, Eq, Structural)]
pub enum ShaderError {
    /// The length is not a multiple of four.
    PartialWord,
    /// The code does not begin with the SPIR-V magic number in either byte order.
    MissingMagic,
}

/// Relies on ash::util::read_spv: it refuses a length that is not a multiple of
/// four and code that does not begin with the magic number in either byte order,
/// and otherwise returns the words in the byte order of the magic number.
#[verifier::external_body]
fn read_spv_words(code: &[u8]) -> (r: Option<Vec<u32>>)
    ensures
        match byte_order(code@) {
            None => r is None,
            Some(big_endian) => r matches Some(w) && w@ == decode(code@, big_endian),
        },
{
    ash::util::read_spv(&mut std::io::Cursor::new(code)).ok()
}

/// Decodes a shader module, in whichever byte order it was written.
pub fn load_spirv(code: &[u8]) -> (r: Result<Vec<u32>, ShaderError>)
    ensures
        code@.len() % 4 != 0 ==> r == Err::<Vec<u32>, ShaderError>(ShaderError::PartialWord),
        code@.len() % 4 == 0 ==> match byte_order(code@) {
            None => r == Err::<Vec<u32>, ShaderError>(ShaderError::MissingMagic),
            Some(big_endian) => r matches Ok(w) && w@ == decode(code@, big_endian),
        },
{
    if code.len() % 4 != 0 {
        return Err(ShaderError::PartialWord);
    }
    match read_spv_words(code) {
        Some(w) => Ok(w),
        None => Err(ShaderError::MissingMagic),
    }
}

/// The whole little-endian words of `code`, without further checks; trailing
/// bytes are dropped.
pub fn words_from_bytes(code: &[u8]) -> (r: Vec<u32>)
    ensures
        r@ == decode(code@, false),
{
    let len = code.len();
    let n = len / 4;
    let mut r: Vec<u32> = Vec::new();
    let mut i: usize = 0;
    while i < n
        invariant
            n == code@.len() / 4,
            len == code@.len(),
            i <= n,
            r@.len() == i,
            forall|k: int| 0 <= k < i ==> r@[k] == word_le(code@, k) as u32,
        decreases n - i,
    {
        assert(4 * i + 3 < code@.len()) by (nonlinear_arith)
            requires
                i < n,
                n == len / 4,
                len == code@.len(),
        ;
        let b0 = code[4 * i] as u32;
        let b1 = code[4 * i + 1] as u32;
        let b2 = code[4 * i + 2] as u32;
        let b3 = code[4 * i + 3] as u32;
        let w: u32 = b0 + b1 * 256 + b2 * 65536 + b3 * 16777216;
        r.push(w);
        i = i + 1;
    }
    assert(r@ =~= decode(code@, false));
    r
}

} // verus!
