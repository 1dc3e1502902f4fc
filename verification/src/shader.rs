//! Shader modules.

use crate::delete_queue::DeleteQueue;
use crate::delete_queue::DeletionEntry;
use crate::device::refusal;
use crate::device::spec_refusal;
use crate::device::Reply;
use crate::device::Request;
use crate::device::RequestView;
use crate::device::Step;
use ash::vk;
use vstd::prelude::*;

verus! {

/// A shader module on the device.
#[derive(Clone, Copy, Debug)]
pub struct Shader {
    pub module: vk::ShaderModule,
}

/// The creation of a shader module in progress.
#[derive(Clone, Copy, Debug, PartialEq, Eq, Structural)]
pub struct ShaderBuild {}

impl Shader {
    /// Starts the creation of a module from the words of `code`.
    pub fn new(code: Vec<u32>) -> (r: (ShaderBuild, Request))
        ensures
            r.1@ == RequestView::CreateShaderModule(code@),
    {
        (ShaderBuild {  }, Request::CreateShaderModule(code))
    }
}

impl ShaderBuild {
    /// What follows from `reply`.
    pub open spec fn spec_advance(self, reply: Reply) -> Step<ShaderBuild, Shader> {
        match reply {
            Reply::ShaderModule(module) => Step::Done(Shader { module }),
            reply => Step::Failed(spec_refusal(reply)),
        }
    }

    /// The entries that `reply` adds to the deletion queue.
    pub open spec fn spec_registered(self, reply: Reply) -> Seq<DeletionEntry> {
        match reply {
            Reply::ShaderModule(module) => seq![DeletionEntry::ShaderModule(module)],
            _ => Seq::empty(),
        }
    }

    /// Takes the reply to the request and registers the module with `queue`.
    pub fn advance(self, reply: Reply, queue: &mut DeleteQueue) -> (r: Step<ShaderBuild, Shader>)
        ensures
            r == self.spec_advance(reply),
            final(queue)@ == old(queue)@ + self.spec_registered(reply),
    {
        proof {
            assert(old(queue)@ + Seq::<DeletionEntry>::empty() =~= old(queue)@);
        }
        match reply {
            Reply::ShaderModule(module) => {
                queue.push(module);
                assert(queue@ =~= old(queue)@ + seq![DeletionEntry::ShaderModule(module)]);
                Step::Done(Shader { module })
            },
            reply => Step::Failed(refusal(reply)),
        }
    }
}


/// The word whose bytes are the four given, the first byte lowest.
pub open spec fn spec_word_le(b: Seq<u8>) -> int {
    b[0] + b[1] * 0x100 + b[2] * 0x1_0000 + b[3] * 0x100_0000
}

/// The word whose bytes are the four given, the first byte highest.
pub open spec fn spec_word_be(b: Seq<u8>) -> int {
    b[3] + b[2] * 0x100 + b[1] * 0x1_0000 + b[0] * 0x100_0000
}

/// Calls `u32::from_ne_bytes`, which reads four bytes as a word in the
/// byte order of the machine. The contract claims that the word is the one
/// or the other of the two byte orders there are.
#[verifier::external_body]
fn word(b0: u8, b1: u8, b2: u8, b3: u8) -> (r: u32)
    ensures
        r == spec_word_le(seq![b0, b1, b2, b3]) || r == spec_word_be(seq![b0, b1, b2, b3]),
{
    u32::from_ne_bytes([b0, b1, b2, b3])
}

/// The word whose bytes are the four given, the first byte lowest.
fn word_le(b0: u8, b1: u8, b2: u8, b3: u8) -> (r: u32)
    ensures
        r == spec_word_le(seq![b0, b1, b2, b3]),
        r == spec_word_be(seq![b3, b2, b1, b0]),
{
    let low: u32 = b0 as u32 + (b1 as u32) * 0x100;
    let high: u32 = (b2 as u32) * 0x1_0000 + (b3 as u32) * 0x100_0000;
    low + high
}

/// The words that the bytes make, four bytes each, all in the one byte
/// order: the first byte of a word lowest where `little` holds, else
/// highest.
pub open spec fn spec_words(bytes: Seq<u8>, little: bool) -> Seq<u32> {
    Seq::new(
        (bytes.len() / 4) as nat,
        |i: int|
            if little {
                spec_word_le(bytes.subrange(4 * i, 4 * i + 4)) as u32
            } else {
                spec_word_be(bytes.subrange(4 * i, 4 * i + 4)) as u32
            },
    )
}

/// Reads shader code from bytes: every four bytes make one word, and all
/// words are read in the same byte order, that of the machine. The bytes
/// must come in fours.
pub fn read_shader(bytes: &Vec<u8>) -> (r: Vec<u32>)
    requires
        bytes@.len() % 4 == 0,
    ensures
        r@ == spec_words(bytes@, true) || r@ == spec_words(bytes@, false),
{
    let little = word(1, 0, 0, 0) == 1;
    let mut words: Vec<u32> = Vec::new();
    let mut at: usize = 0;
    while at < bytes.len()
        invariant
            bytes@.len() % 4 == 0,
            at % 4 == 0,
            at <= bytes@.len(),
            words@.len() * 4 == at,
            forall|i: int| 0 <= i < words@.len() ==> words@[i] == spec_words(bytes@, little)[i],
        decreases bytes@.len() - at,
    {
        proof {
            let four = bytes@.subrange(at as int, at + 4);
            assert(four =~= seq![
                bytes@[at as int],
                bytes@[at + 1],
                bytes@[at + 2],
                bytes@[at + 3],
            ]);
            assert(at as int == 4 * (at as int / 4));
        }
        let w = if little {
            word_le(bytes[at], bytes[at + 1], bytes[at + 2], bytes[at + 3])
        } else {
            word_le(bytes[at + 3], bytes[at + 2], bytes[at + 1], bytes[at])
        };
        words.push(w);
        at += 4;
    }
    assert(words@ =~= spec_words(bytes@, little));
    words
}

} // verus!
