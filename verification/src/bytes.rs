//! How numbers lie in memory, byte by byte.

use vstd::prelude::*;

verus! {

/// The weight of byte `k` of a number, counted from its least significant byte.
pub open spec fn place(k: int) -> int {
    if k == 0 {
        1
    } else if k == 1 {
        0x100
    } else if k == 2 {
        0x1_0000
    } else {
        0x100_0000
    }
}

/// Byte `k` of `value`, counted from its least significant byte.
pub open spec fn byte_of(value: int, k: int) -> u8 {
    (value / place(k) % 0x100) as u8
}

/// The bytes of `values`, `width` bytes each, one value after the other. Within each value
/// the least significant byte comes last where `big_endian` holds, and first otherwise.
pub open spec fn laid_out(values: Seq<int>, width: int, big_endian: bool) -> Seq<u8> {
    Seq::new(
        (width * values.len()) as nat,
        |i: int|
            byte_of(
                values[i / width],
                if big_endian {
                    width - 1 - i % width
                } else {
                    i % width
                },
            ),
    )
}

/// Whether the machine that runs the code keeps the least significant byte of a number last.
pub open spec fn machine_is_big_endian() -> bool {
    vstd::endian::endianness() is Big
}

/// The bytes of `values`, `width` bytes each, as they lie in the memory of the machine that
/// runs the code.
pub open spec fn memory_of(values: Seq<int>, width: int) -> Seq<u8> {
    laid_out(values, width, machine_is_big_endian())
}

/// The values of a sequence of 16-bit numbers.
pub open spec fn halves(numbers: Seq<u16>) -> Seq<int> {
    numbers.map_values(|number: u16| number as int)
}

/// The values of a sequence of 32-bit numbers.
pub open spec fn words(numbers: Seq<u32>) -> Seq<int> {
    numbers.map_values(|number: u32| number as int)
}

/// Calls `bytemuck::cast_slice` from `u16` to `u8`: the bytes of the numbers as they lie in
/// memory, two for each number, in the byte order of the machine, which is the same in every
/// call. A cast to bytes needs no alignment and leaves no remainder, so it never panics.
#[verifier::external_body]
pub(crate) fn cast_halves(numbers: &Vec<u16>) -> (bytes: Vec<u8>)
    ensures
        bytes@ == memory_of(halves(numbers@), 2),
{
    bytemuck::cast_slice::<u16, u8>(numbers).to_vec()
}

/// Calls `bytemuck::cast_slice` from `u32` to `u8`: the bytes of the numbers as they lie in
/// memory, four for each number, in the byte order of the machine, which is the same in every
/// call. A cast to bytes needs no alignment and leaves no remainder, so it never panics.
#[verifier::external_body]
pub(crate) fn cast_words(numbers: &Vec<u32>) -> (bytes: Vec<u8>)
    ensures
        bytes@ == memory_of(words(numbers@), 4),
{
    bytemuck::cast_slice::<u32, u8>(numbers).to_vec()
}

/// Value `i` of the values that lie in `bytes`.
pub open spec fn value_in(bytes: Seq<u8>, width: int, big_endian: bool, i: int) -> int {
    let at = |k: int|
        bytes[width * i + (if big_endian {
            width - 1 - k
        } else {
            k
        })] * place(k);
    if width == 2 {
        at(0) + at(1)
    } else {
        at(0) + at(1) + at(2) + at(3)
    }
}

/// Memory keeps what it is given: read in the byte order in which it was laid down, each number
/// is the number that it was.
#[verifier::spinoff_prover]
pub proof fn law_memory_reads_back(values: Seq<int>, width: int, big_endian: bool, i: int)
    requires
        width == 2 || width == 4,
        0 <= i < values.len(),
        0 <= values[i] < (if width == 2 {
            0x1_0000int
        } else {
            0x1_0000_0000int
        }),
    ensures
        value_in(laid_out(values, width, big_endian), width, big_endian, i) == values[i],
{
    let bytes = laid_out(values, width, big_endian);
    let value = values[i];
    lemma_bytes_add_up(value);
    if width == 2 {
        assert(bytes[2 * i] == byte_of(value, if big_endian { 1 } else { 0 }));
        assert(bytes[2 * i + 1] == byte_of(value, if big_endian { 0 } else { 1 }));
    } else {
        assert(bytes[4 * i] == byte_of(value, if big_endian { 3 } else { 0 }));
        assert(bytes[4 * i + 1] == byte_of(value, if big_endian { 2 } else { 1 }));
        assert(bytes[4 * i + 2] == byte_of(value, if big_endian { 1 } else { 2 }));
        assert(bytes[4 * i + 3] == byte_of(value, if big_endian { 0 } else { 3 }));
    }
}

/// A number is the sum of its bytes, each times its weight.
proof fn lemma_bytes_add_up(value: int)
    requires
        0 <= value < 0x1_0000_0000,
    ensures
        value == byte_of(value, 0) + byte_of(value, 1) * 0x100 + byte_of(value, 2) * 0x1_0000
            + byte_of(value, 3) * 0x100_0000,
        value < 0x1_0000 ==> value == byte_of(value, 0) + byte_of(value, 1) * 0x100,
{
    let second = value / 0x100;
    let third = second / 0x100;
    let fourth = third / 0x100;
    assert(value / 0x1_0000 == third) by {
        vstd::arithmetic::div_mod::lemma_div_denominator(value, 0x100, 0x100);
    }
    assert(value / 0x100_0000 == fourth) by {
        vstd::arithmetic::div_mod::lemma_div_denominator(value, 0x1_0000, 0x100);
    }
    assert(value == value % 0x100 + 0x100 * second);
    assert(second == second % 0x100 + 0x100 * third);
    assert(third == third % 0x100 + 0x100 * fourth);
    assert(0 <= fourth < 0x100);
    assert(byte_of(value, 0) == value % 0x100);
    assert(byte_of(value, 1) == second % 0x100);
    assert(byte_of(value, 2) == third % 0x100);
    assert(byte_of(value, 3) == fourth);
}

/// The machine reads its own memory back: in its own byte order, each number that lies there is
/// the number that was put there.
pub proof fn law_machine_reads_its_memory(values: Seq<int>, width: int, i: int)
    requires
        width == 2 || width == 4,
        0 <= i < values.len(),
        0 <= values[i] < (if width == 2 {
            0x1_0000int
        } else {
            0x1_0000_0000int
        }),
    ensures
        value_in(memory_of(values, width), width, machine_is_big_endian(), i) == values[i],
{
    law_memory_reads_back(values, width, machine_is_big_endian(), i);
}

/// The 32-bit number whose bytes start at byte `at`, as the machine reads it.
pub open spec fn word_at(bytes: Seq<u8>, at: int) -> int {
    if vstd::endian::endianness() is Big {
        bytes[at] * 0x100_0000 + bytes[at + 1] * 0x1_0000 + bytes[at + 2] * 0x100 + bytes[at + 3]
    } else {
        bytes[at] + bytes[at + 1] * 0x100 + bytes[at + 2] * 0x1_0000 + bytes[at + 3] * 0x100_0000
    }
}

/// The 16-bit number whose bytes start at byte `at`, as the machine reads it.
pub open spec fn half_at(bytes: Seq<u8>, at: int) -> int {
    if vstd::endian::endianness() is Big {
        bytes[at] * 0x100 + bytes[at + 1]
    } else {
        bytes[at] + bytes[at + 1] * 0x100
    }
}

/// A machine that keeps the least significant byte first reads a number from its first byte on,
/// each byte for 256 times as much as the one before it; any other machine reads it from its
/// last byte on.
pub proof fn law_numbers_are_read_byte_by_byte(bytes: Seq<u8>, at: int)
    ensures
        vstd::endian::endianness() is Little ==> word_at(bytes, at) == bytes[at] + 0x100 * (bytes[at
            + 1] + 0x100 * (bytes[at + 2] + 0x100 * bytes[at + 3])),
        vstd::endian::endianness() is Big ==> word_at(bytes, at) == bytes[at + 3] + 0x100 * (
        bytes[at + 2] + 0x100 * (bytes[at + 1] + 0x100 * bytes[at])),
        vstd::endian::endianness() is Little ==> half_at(bytes, at) == bytes[at] + 0x100
            * bytes[at + 1],
        vstd::endian::endianness() is Big ==> half_at(bytes, at) == bytes[at + 1] + 0x100
            * bytes[at],
{
}

/// The memory of 32-bit numbers holds all of them, in their order and nothing else: it takes
/// four bytes for each, and what the machine reads at byte `4 * i` is number `i`.
pub proof fn law_memory_holds_words(numbers: Seq<u32>, i: int)
    requires
        0 <= i < numbers.len(),
    ensures
        memory_of(words(numbers), 4).len() == 4 * numbers.len(),
        word_at(memory_of(words(numbers), 4), 4 * i) == numbers[i],
{
    law_machine_reads_its_memory(words(numbers), 4, i);
}

/// The memory of 16-bit numbers holds all of them, in their order and nothing else: it takes two
/// bytes for each, and what the machine reads at byte `2 * i` is number `i`.
pub proof fn law_memory_holds_halves(numbers: Seq<u16>, i: int)
    requires
        0 <= i < numbers.len(),
    ensures
        memory_of(halves(numbers), 2).len() == 2 * numbers.len(),
        half_at(memory_of(halves(numbers), 2), 2 * i) == numbers[i],
{
    law_machine_reads_its_memory(halves(numbers), 2, i);
}

/// A run of whole values within the memory of a sequence is the memory of those values: from
/// byte `width * first` on lie the values from `first` on.
pub proof fn lemma_memory_of_subrange(
    values: Seq<int>,
    width: int,
    big_endian: bool,
    first: int,
    end: int,
)
    requires
        width > 0,
        0 <= first <= end <= values.len(),
    ensures
        0 <= width * first <= width * end <= laid_out(values, width, big_endian).len(),
        laid_out(values, width, big_endian).subrange(width * first, width * end) == laid_out(
            values.subrange(first, end),
            width,
            big_endian,
        ),
{
    let whole = laid_out(values, width, big_endian);
    let part = laid_out(values.subrange(first, end), width, big_endian);
    assert(0 <= width * first <= width * end <= width * values.len()) by (nonlinear_arith)
        requires
            width > 0,
            0 <= first <= end <= values.len(),
    ;
    assert(width * end - width * first == width * (end - first)) by (nonlinear_arith);
    assert forall|i: int| 0 <= i < part.len() implies whole[width * first + i] == part[i] by {
        vstd::arithmetic::div_mod::lemma_fundamental_div_mod(i, width);
        let quotient = i / width;
        let remainder = i % width;
        assert(0 <= quotient < end - first && 0 <= remainder < width) by {
            vstd::arithmetic::div_mod::lemma_mod_bound(i, width);
            assert(0 <= quotient < end - first) by (nonlinear_arith)
                requires
                    width > 0,
                    0 <= remainder < width,
                    i == width * quotient + remainder,
                    0 <= i < width * (end - first),
            ;
        }
        assert(width * first + i == (first + quotient) * width + remainder) by (nonlinear_arith)
            requires
                i == width * quotient + remainder,
        ;
        vstd::arithmetic::div_mod::lemma_fundamental_div_mod_converse(
            width * first + i,
            width,
            first + quotient,
            remainder,
        );
    }
    assert(whole.subrange(width * first, width * end) =~= part);
}

} // verus!
