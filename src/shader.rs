//! Shader bytecode and shader modules.
use vstd::prelude::*;

use crate::result::{map_error, error_for, CallSite};
use crate::vk;
use crate::GMResult;

verus! {

/// The first word of every module of the intermediate shader representation.
pub const SPIRV_MAGIC: u32 = 0x0723_0203;

/// Indicates shader type.
///
/// * `Vertex` - Vertex shader.
/// * `Fragment` - Fragment shader.
#[derive(Clone, Copy, Debug, PartialEq, Eq, Structural)]
pub enum ShaderKind {
    Vertex,
    Fragment,
}

/// The pipeline stage flag that a shader of `kind` is bound to.
pub open spec fn stage_flag(kind: ShaderKind) -> u32 {
    match kind {
        ShaderKind::Vertex => vk::SHADER_STAGE_VERTEX_BIT,
        ShaderKind::Fragment => vk::SHADER_STAGE_FRAGMENT_BIT,
    }
}

impl ShaderKind {
    pub fn stage_flag(&self) -> (r: u32)
        ensures
            r == stage_flag(*self),
    {
        match self {
            ShaderKind::Vertex => vk::SHADER_STAGE_VERTEX_BIT,
            ShaderKind::Fragment => vk::SHADER_STAGE_FRAGMENT_BIT,
        }
    }
}

/// Word `i` of `b`, read least significant byte first.
pub open spec fn word_le(b: Seq<u8>, i: int) -> u32 {
    (b[4 * i] as u32) | ((b[4 * i + 1] as u32) << 8u32) | ((b[4 * i + 2] as u32) << 16u32) | ((
    b[4 * i + 3] as u32) << 24u32)
}

/// Word `i` of `b`, read most significant byte first.
pub open spec fn word_be(b: Seq<u8>, i: int) -> u32 {
    (b[4 * i + 3] as u32) | ((b[4 * i + 2] as u32) << 8u32) | ((b[4 * i + 1] as u32) << 16u32)
        | ((b[4 * i] as u32) << 24u32)
}

pub open spec fn words_le(b: Seq<u8>) -> Seq<u32> {
    Seq::new(b.len() / 4, |i: int| word_le(b, i))
}

pub open spec fn words_be(b: Seq<u8>) -> Seq<u32> {
    Seq::new(b.len() / 4, |i: int| word_be(b, i))
}

/// The words of a bytecode file, in whichever byte order makes its first
/// word the magic number; `None` when the length is not a whole, non-zero
/// number of words or the magic number is missing in both orders.
pub open spec fn spirv_decode(b: Seq<u8>) -> Option<Seq<u32>> {
    if b.len() % 4 != 0 || b.len() < 4 {
        None
    } else if word_le(b, 0) == SPIRV_MAGIC {
        Some(words_le(b))
    } else if word_be(b, 0) == SPIRV_MAGIC {
        Some(words_be(b))
    } else {
        None
    }
}

/// Relies on ash::util::read_spv, reading from a cursor over `bytes`: it
/// fails unless the length is a multiple of four holding at least one word
/// whose first word is the magic number in one of the two byte orders, and
/// then returns the words in that order.
#[verifier::external_body]
fn read_spv_words(bytes: &[u8]) -> (r: Option<Vec<u32>>)
    ensures
        match r {
            Some(w) => spirv_decode(bytes@) == Some(w@),
            None => spirv_decode(bytes@) is None,
        },
{
    ash::util::read_spv(&mut std::io::Cursor::new(bytes)).ok()
}

/// Bytecode of one shader, as the words the driver reads.
#[derive(Debug)]
pub struct Spirv {
    data: Vec<u32>,
}

impl Spirv {
    #[verifier::type_invariant]
    closed spec fn wf(&self) -> bool {
        &&& self.data@.len() >= 1
        &&& self.data@[0] == SPIRV_MAGIC
        &&& self.data@.len() * 4 <= usize::MAX
    }

    pub closed spec fn spec_words(&self) -> Seq<u32> {
        self.data@
    }

    /// Decodes the bytes of a bytecode file. Fails with `InvalidValue` when
    /// they are no whole number of words or lack the magic number.
    pub fn new(bytes: &[u8]) -> (r: Result<Spirv, GMResult>)
        ensures
            match spirv_decode(bytes@) {
                Some(w) => r matches Ok(s) && s.spec_words() == w,
                None => r == Err::<Spirv, GMResult>(GMResult::InvalidValue),
            },
    {
        let n = bytes.len();
        match read_spv_words(bytes) {
            Some(data) => {
                proof {
                    let b = bytes@;
                    assert(data@.len() == b.len() / 4);
                    assert(b.len() == n);
                    if word_le(b, 0) == SPIRV_MAGIC {
                        assert(data@[0] == words_le(b)[0]);
                    } else {
                        assert(data@[0] == words_be(b)[0]);
                    }
                }
                Ok(Spirv { data })
            },
            None => Err(GMResult::InvalidValue),
        }
    }

    pub fn words(&self) -> (r: &Vec<u32>)
        ensures
            r@ == self.spec_words(),
    {
        &self.data
    }

    pub fn word_count(&self) -> (r: usize)
        ensures
            r == self.spec_words().len(),
    {
        self.data.len()
    }

    /// Size of the bytecode in bytes.
    pub fn code_size(&self) -> (r: usize)
        ensures
            r == self.spec_words().len() * 4,
    {
        proof {
            use_type_invariant(self);
        }
        self.data.len() * 4
    }
}

/// The byte `j` (0 to 3, least significant first) of `w`.
pub open spec fn byte_of(w: u32, j: int) -> u8 {
    if j == 0 {
        (w & 0xffu32) as u8
    } else if j == 1 {
        ((w >> 8u32) & 0xffu32) as u8
    } else if j == 2 {
        ((w >> 16u32) & 0xffu32) as u8
    } else {
        ((w >> 24u32) & 0xffu32) as u8
    }
}

/// `words` written out least significant byte first, as a file holds them.
pub open spec fn le_bytes(words: Seq<u32>) -> Seq<u8> {
    Seq::new(words.len() * 4, |k: int| byte_of(words[k / 4], k % 4))
}

proof fn lemma_word_le_of_bytes(w: u32)
    ensures
        ((byte_of(w, 0) as u32) | ((byte_of(w, 1) as u32) << 8u32) | ((byte_of(w, 2) as u32)
            << 16u32) | ((byte_of(w, 3) as u32) << 24u32)) == w,
{
    let b0 = (w & 0xffu32) as u8;
    let b1 = ((w >> 8u32) & 0xffu32) as u8;
    let b2 = ((w >> 16u32) & 0xffu32) as u8;
    let b3 = ((w >> 24u32) & 0xffu32) as u8;
    assert(((b0 as u32) | ((b1 as u32) << 8u32) | ((b2 as u32) << 16u32) | ((b3 as u32)
        << 24u32)) == w) by (bit_vector)
        requires
            b0 == (w & 0xffu32) as u8,
            b1 == ((w >> 8u32) & 0xffu32) as u8,
            b2 == ((w >> 16u32) & 0xffu32) as u8,
            b3 == ((w >> 24u32) & 0xffu32) as u8,
    ;
}

/// Loading bytecode back from the bytes of `words`, written least
/// significant byte first, yields exactly `words` when the first word is the
/// magic number: as many words as the file holds, each as written.
pub proof fn lemma_spirv_round_trip(words: Seq<u32>)
    requires
        words.len() >= 1,
        words[0] == SPIRV_MAGIC,
    ensures
        le_bytes(words).len() == words.len() * 4,
        spirv_decode(le_bytes(words)) == Some(words),
{
    let b = le_bytes(words);
    assert forall|i: int| 0 <= i < words.len() implies word_le(b, i) == words[i] by {
        assert((4 * i) / 4 == i && (4 * i) % 4 == 0);
        assert((4 * i + 1) / 4 == i && (4 * i + 1) % 4 == 1);
        assert((4 * i + 2) / 4 == i && (4 * i + 2) % 4 == 2);
        assert((4 * i + 3) / 4 == i && (4 * i + 3) % 4 == 3);
        lemma_word_le_of_bytes(words[i]);
    }
    assert(b.len() / 4 == words.len());
    assert(words_le(b) =~= words);
}

/// Bytecode is accepted only as whole words: a length that is no multiple of
/// four is refused, and what is accepted has one word per four bytes.
pub proof fn lemma_spirv_word_count(b: Seq<u8>)
    ensures
        b.len() % 4 != 0 ==> spirv_decode(b) is None,
        spirv_decode(b) matches Some(w) ==> w.len() * 4 == b.len(),
{
}

/// A compiled shader module of the driver, tagged with its stage.
#[derive(Clone, Copy, Debug, PartialEq, Eq, Structural)]
pub struct Shader {
    handle: u64,
    kind: ShaderKind,
}

impl Shader {
    pub closed spec fn spec_handle(&self) -> u64 {
        self.handle
    }

    pub closed spec fn spec_kind(&self) -> ShaderKind {
        self.kind
    }

    /// The shader of stage `kind` whose module creation returned `created`
    /// (the module's handle, or the native error code).
    pub fn created(kind: ShaderKind, created: Result<u64, i32>) -> (r: Result<Shader, GMResult>)
        ensures
            match created {
                Ok(h) => r matches Ok(s) && s.spec_handle() == h && s.spec_kind() == kind,
                Err(code) => r == Err::<Shader, GMResult>(
                    error_for(CallSite::CreateShaderModule, code),
                ),
            },
    {
        match created {
            Ok(handle) => Ok(Shader { handle, kind }),
            Err(code) => Err(map_error(CallSite::CreateShaderModule, code)),
        }
    }

    pub fn handle(&self) -> (r: u64)
        ensures
            r == self.spec_handle(),
    {
        self.handle
    }

    pub fn kind(&self) -> (r: ShaderKind)
        ensures
            r == self.spec_kind(),
    {
        self.kind
    }
}

} // verus!
