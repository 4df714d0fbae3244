//! The values that the vertex shader reads once per draw.

use vstd::prelude::*;

use crate::bytes::{
    cast_words, law_memory_holds_words, lemma_memory_of_subrange, machine_is_big_endian, memory_of,
    word_at, words,
};
use crate::scalar::Scalar;

verus! {

/// Where the circle is drawn, padded to sixteen bytes.
#[derive(Clone, Copy, Debug, PartialEq, Eq)]
pub struct CircleUniforms {
    pub offset: [Scalar; 2],
    pub _pad: [Scalar; 2],
}

impl CircleUniforms {
    /// The components in the order in which a buffer holds them.
    pub open spec fn components(self) -> Seq<u32> {
        seq![self.offset[0].bits, self.offset[1].bits, self._pad[0].bits, self._pad[1].bits]
    }

    /// The bytes of a uniform buffer that holds these values.
    pub fn bytes(&self) -> (bytes: Vec<u8>)
        ensures
            bytes@ == memory_of(words(self.components()), 4),
            bytes@.len() == 16,
            word_at(bytes@, 0) == self.offset[0].bits,
            word_at(bytes@, 4) == self.offset[1].bits,
            word_at(bytes@, 8) == self._pad[0].bits,
            word_at(bytes@, 12) == self._pad[1].bits,
    {
        let numbers: Vec<u32> = vec![
            self.offset[0].bits,
            self.offset[1].bits,
            self._pad[0].bits,
            self._pad[1].bits,
        ];
        assert(numbers@ =~= self.components());
        proof {
            law_uniform_bytes_hold_every_part(*self);
        }
        cast_words(&numbers)
    }
}

/// The vertex shader finds the offset at the start of the buffer: the first eight of its sixteen
/// bytes are the memory of the two parts of the offset.
pub proof fn law_uniforms_start_with_the_offset(uniforms: CircleUniforms)
    ensures
        ({
            let buffer = memory_of(words(uniforms.components()), 4);
            &&& buffer.len() == 16
            &&& buffer.subrange(0, 8) == memory_of(
                words(seq![uniforms.offset[0].bits, uniforms.offset[1].bits]),
                4,
            )
        }),
{
    let numbers = words(uniforms.components());
    lemma_memory_of_subrange(numbers, 4, machine_is_big_endian(), 0, 2);
    assert(numbers.subrange(0, 2) =~= words(
        seq![uniforms.offset[0].bits, uniforms.offset[1].bits],
    ));
}

/// The buffer of uniforms holds their four parts in order: the offset at bytes 0 and 4, and the
/// padding at bytes 8 and 12.
pub proof fn law_uniform_bytes_hold_every_part(uniforms: CircleUniforms)
    ensures
        ({
            let buffer = memory_of(words(uniforms.components()), 4);
            &&& buffer.len() == 16
            &&& word_at(buffer, 0) == uniforms.offset[0].bits
            &&& word_at(buffer, 4) == uniforms.offset[1].bits
            &&& word_at(buffer, 8) == uniforms._pad[0].bits
            &&& word_at(buffer, 12) == uniforms._pad[1].bits
        }),
{
    law_memory_holds_words(uniforms.components(), 0);
    law_memory_holds_words(uniforms.components(), 1);
    law_memory_holds_words(uniforms.components(), 2);
    law_memory_holds_words(uniforms.components(), 3);
}

} // verus!
