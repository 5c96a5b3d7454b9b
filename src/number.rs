//! Uniform values of the primitive types, drawn from a [`Generator`].
//!
//! Integers reduce a drawn word modulo the width of the requested half-open
//! range and add the range's start; the small bias toward the low end of the
//! range that this leaves is accepted. Signed integers are shifted into the
//! unsigned domain of the same width, drawn there, and shifted back.
use crate::engine::{generate_random_u64, lemma_advanced_compose, Generator};
use core::ops::Range;
use core::time::Duration;
use vstd::prelude::*;

verus! {

/// A type whose values can be drawn from a generator.
pub trait RandomNumber: Sized {
    /// Whether `start..end` is a range that values can be drawn from.
    spec fn valid_range(start: Self, end: Self) -> bool;

    /// Whether `r` is the value that generator `g` gives for the range `start..end`.
    spec fn range_draw(g: Generator, start: Self, end: Self, r: Self) -> bool;

    /// Whether `r` is the value that generator `g` gives over the whole domain.
    spec fn full_draw(g: Generator, r: Self) -> bool;

    /// How many words one draw takes from the generator.
    spec fn words_per_draw() -> nat;

    /// Whether values can be drawn from `range`.
    fn is_valid_range(range: &Range<Self>) -> (r: bool)
        ensures
            r == Self::valid_range(range.start, range.end),
    ;

    /// Get a random value.
    fn random(g: &mut Generator) -> (r: Self)
        ensures
            Self::full_draw(*old(g), r),
            *final(g) == old(g).advanced(Self::words_per_draw()),
    ;

    /// Get a random value between the given values.
    fn random_range(g: &mut Generator, range: Range<Self>) -> (r: Self)
        requires
            Self::valid_range(range.start, range.end),
        ensures
            Self::range_draw(*old(g), range.start, range.end, r),
            *final(g) == old(g).advanced(Self::words_per_draw()),
    ;
}

/// The `u8` that generator `g` gives for `start..end`: its next word, cut to
/// `u8`, reduced modulo the width of the range and added to `start`.
pub open spec fn draw_u8(g: Generator, start: u8, end: u8) -> u8 {
    (start + (g.word(0) as u8) as int % (end - start)) as u8
}

impl RandomNumber for u8 {
    open spec fn valid_range(start: u8, end: u8) -> bool {
        start < end
    }

    open spec fn range_draw(g: Generator, start: u8, end: u8, r: u8) -> bool {
        r == draw_u8(g, start, end)
    }

    open spec fn full_draw(g: Generator, r: u8) -> bool {
        r == draw_u8(g, u8::MIN, u8::MAX)
    }

    open spec fn words_per_draw() -> nat {
        1
    }

    fn is_valid_range(range: &Range<u8>) -> (r: bool) {
        range.start < range.end
    }

    fn random(g: &mut Generator) -> (r: u8)
        ensures
            r < u8::MAX,
    {
        Self::random_range(g, u8::MIN..u8::MAX)
    }

    fn random_range(g: &mut Generator, range: Range<u8>) -> (r: u8)
        ensures
            range.start <= r < range.end,
    {
        let span: u8 = range.end - range.start;
        let seed: u8 = generate_random_u64(g) as u8;
        range.start + seed % span
    }
}

/// The `u16` that generator `g` gives for `start..end`: its next word, cut to
/// `u16`, reduced modulo the width of the range and added to `start`.
pub open spec fn draw_u16(g: Generator, start: u16, end: u16) -> u16 {
    (start + (g.word(0) as u16) as int % (end - start)) as u16
}

impl RandomNumber for u16 {
    open spec fn valid_range(start: u16, end: u16) -> bool {
        start < end
    }

    open spec fn range_draw(g: Generator, start: u16, end: u16, r: u16) -> bool {
        r == draw_u16(g, start, end)
    }

    open spec fn full_draw(g: Generator, r: u16) -> bool {
        r == draw_u16(g, u16::MIN, u16::MAX)
    }

    open spec fn words_per_draw() -> nat {
        1
    }

    fn is_valid_range(range: &Range<u16>) -> (r: bool) {
        range.start < range.end
    }

    fn random(g: &mut Generator) -> (r: u16)
        ensures
            r < u16::MAX,
    {
        Self::random_range(g, u16::MIN..u16::MAX)
    }

    fn random_range(g: &mut Generator, range: Range<u16>) -> (r: u16)
        ensures
            range.start <= r < range.end,
    {
        let span: u16 = range.end - range.start;
        let seed: u16 = generate_random_u64(g) as u16;
        range.start + seed % span
    }
}

/// The `u32` that generator `g` gives for `start..end`: its next word, cut to
/// `u32`, reduced modulo the width of the range and added to `start`.
pub open spec fn draw_u32(g: Generator, start: u32, end: u32) -> u32 {
    (start + (g.word(0) as u32) as int % (end - start)) as u32
}

impl RandomNumber for u32 {
    open spec fn valid_range(start: u32, end: u32) -> bool {
        start < end
    }

    open spec fn range_draw(g: Generator, start: u32, end: u32, r: u32) -> bool {
        r == draw_u32(g, start, end)
    }

    open spec fn full_draw(g: Generator, r: u32) -> bool {
        r == draw_u32(g, u32::MIN, u32::MAX)
    }

    open spec fn words_per_draw() -> nat {
        1
    }

    fn is_valid_range(range: &Range<u32>) -> (r: bool) {
        range.start < range.end
    }

    fn random(g: &mut Generator) -> (r: u32)
        ensures
            r < u32::MAX,
    {
        Self::random_range(g, u32::MIN..u32::MAX)
    }

    fn random_range(g: &mut Generator, range: Range<u32>) -> (r: u32)
        ensures
            range.start <= r < range.end,
    {
        let span: u32 = range.end - range.start;
        let seed: u32 = generate_random_u64(g) as u32;
        range.start + seed % span
    }
}

/// The `u64` that generator `g` gives for `start..end`: its next word, cut to
/// `u64`, reduced modulo the width of the range and added to `start`.
pub open spec fn draw_u64(g: Generator, start: u64, end: u64) -> u64 {
    (start + (g.word(0)) as int % (end - start)) as u64
}

impl RandomNumber for u64 {
    open spec fn valid_range(start: u64, end: u64) -> bool {
        start < end
    }

    open spec fn range_draw(g: Generator, start: u64, end: u64, r: u64) -> bool {
        r == draw_u64(g, start, end)
    }

    open spec fn full_draw(g: Generator, r: u64) -> bool {
        r == draw_u64(g, u64::MIN, u64::MAX)
    }

    open spec fn words_per_draw() -> nat {
        1
    }

    fn is_valid_range(range: &Range<u64>) -> (r: bool) {
        range.start < range.end
    }

    fn random(g: &mut Generator) -> (r: u64)
        ensures
            r < u64::MAX,
    {
        Self::random_range(g, u64::MIN..u64::MAX)
    }

    fn random_range(g: &mut Generator, range: Range<u64>) -> (r: u64)
        ensures
            range.start <= r < range.end,
    {
        let span: u64 = range.end - range.start;
        let seed: u64 = generate_random_u64(g);
        range.start + seed % span
    }
}

/// The `usize` that generator `g` gives for `start..end`: its next word, cut to
/// `usize`, reduced modulo the width of the range and added to `start`.
pub open spec fn draw_usize(g: Generator, start: usize, end: usize) -> usize {
    (start + (g.word(0) as usize) as int % (end - start)) as usize
}

impl RandomNumber for usize {
    open spec fn valid_range(start: usize, end: usize) -> bool {
        start < end
    }

    open spec fn range_draw(g: Generator, start: usize, end: usize, r: usize) -> bool {
        r == draw_usize(g, start, end)
    }

    open spec fn full_draw(g: Generator, r: usize) -> bool {
        r == draw_usize(g, usize::MIN, usize::MAX)
    }

    open spec fn words_per_draw() -> nat {
        1
    }

    fn is_valid_range(range: &Range<usize>) -> (r: bool) {
        range.start < range.end
    }

    fn random(g: &mut Generator) -> (r: usize)
        ensures
            r < usize::MAX,
    {
        Self::random_range(g, usize::MIN..usize::MAX)
    }

    fn random_range(g: &mut Generator, range: Range<usize>) -> (r: usize)
        ensures
            range.start <= r < range.end,
    {
        let span: usize = range.end - range.start;
        let seed: usize = generate_random_u64(g) as usize;
        range.start + seed % span
    }
}

/// The 128-bit value made of a high and a low word.
pub open spec fn join_words(high: u64, low: u64) -> u128 {
    (high * 0x1_0000_0000_0000_0000 + low) as u128
}

/// The `u128` that generator `g` gives for `start..end`: its next two words
/// joined (the first one high), reduced modulo the width of the range and
/// added to `start`.
pub open spec fn draw_u128(g: Generator, start: u128, end: u128) -> u128 {
    (start + join_words(g.word(0), g.word(1)) as int % (end - start)) as u128
}

impl RandomNumber for u128 {
    open spec fn valid_range(start: u128, end: u128) -> bool {
        start < end
    }

    open spec fn range_draw(g: Generator, start: u128, end: u128, r: u128) -> bool {
        r == draw_u128(g, start, end)
    }

    open spec fn full_draw(g: Generator, r: u128) -> bool {
        r == draw_u128(g, u128::MIN, u128::MAX)
    }

    open spec fn words_per_draw() -> nat {
        2
    }

    fn is_valid_range(range: &Range<u128>) -> (r: bool) {
        range.start < range.end
    }

    fn random(g: &mut Generator) -> (r: u128)
        ensures
            r < u128::MAX,
    {
        Self::random_range(g, u128::MIN..u128::MAX)
    }

    fn random_range(g: &mut Generator, range: Range<u128>) -> (r: u128)
        ensures
            range.start <= r < range.end,
    {
        proof {
            lemma_advanced_compose(*g, 1, 1);
        }
        let span: u128 = range.end - range.start;
        let high: u64 = generate_random_u64(g);
        let low: u64 = generate_random_u64(g);
        let seed: u128 = ((high as u128) << 64u128) | (low as u128);
        assert(seed == join_words(high, low)) by {
            assert(((high as u128) << 64u128) | (low as u128) == (high as u128) * 0x1_0000_0000_0000_0000u128 + (low as u128)) by (bit_vector);
        }
        range.start + seed % span
    }
}

/// The bound `v` carried into the unsigned domain: a negative value moves up
/// by `i8::MAX + 1`, a non-negative one by `i8::MAX`.
pub open spec fn shift_i8(v: i8) -> u8 {
    if v < 0 {
        (v + i8::MAX + 1) as u8
    } else {
        (v + i8::MAX) as u8
    }
}

/// An unsigned draw carried back: a value at or above `i8::MAX` moves down
/// by `i8::MAX`, a smaller one stays as it is.
pub open spec fn unshift_i8(v: u8) -> i8 {
    if v >= i8::MAX {
        (v - i8::MAX) as i8
    } else {
        v as i8
    }
}

/// The `i8` that generator `g` gives for `start..end`: the bounds shifted
/// into the unsigned domain, a `u8` drawn there, and that shifted back.
pub open spec fn draw_i8(g: Generator, start: i8, end: i8) -> i8 {
    unshift_i8(draw_u8(g, shift_i8(start), shift_i8(end)))
}

/// Carries the bound `v` into the unsigned domain.
fn lift_i8(v: i8) -> (r: u8)
    ensures
        r == shift_i8(v),
{
    if v < 0 {
        (v + i8::MAX + 1) as u8
    } else {
        v as u8 + i8::MAX as u8
    }
}

impl RandomNumber for i8 {
    open spec fn valid_range(start: i8, end: i8) -> bool {
        shift_i8(start) < shift_i8(end)
    }

    open spec fn range_draw(g: Generator, start: i8, end: i8, r: i8) -> bool {
        r == draw_i8(g, start, end)
    }

    open spec fn full_draw(g: Generator, r: i8) -> bool {
        r == draw_i8(g, i8::MIN, i8::MAX)
    }

    open spec fn words_per_draw() -> nat {
        u8::words_per_draw()
    }

    fn is_valid_range(range: &Range<i8>) -> (r: bool) {
        lift_i8(range.start) < lift_i8(range.end)
    }

    fn random(g: &mut Generator) -> (r: i8)
        ensures
            i8::MIN <= r < i8::MAX,
    {
        Self::random_range(g, i8::MIN..i8::MAX)
    }

    /// A draw below the `i8::MAX` offset comes back as it is, so the
    /// result is never negative, whatever the range.
    fn random_range(g: &mut Generator, range: Range<i8>) -> (r: i8)
        ensures
            0 <= r < i8::MAX,
    {
        let start: u8 = lift_i8(range.start);
        let end: u8 = lift_i8(range.end);
        let drawn: u8 = u8::random_range(g, start..end);
        if drawn >= i8::MAX as u8 {
            (drawn - i8::MAX as u8) as i8
        } else {
            drawn as i8
        }
    }
}

/// The bound `v` carried into the unsigned domain: a negative value moves up
/// by `i16::MAX + 1`, a non-negative one by `i16::MAX`.
pub open spec fn shift_i16(v: i16) -> u16 {
    if v < 0 {
        (v + i16::MAX + 1) as u16
    } else {
        (v + i16::MAX) as u16
    }
}

/// An unsigned draw carried back: a value at or above `i16::MAX` moves down
/// by `i16::MAX`, a smaller one stays as it is.
pub open spec fn unshift_i16(v: u16) -> i16 {
    if v >= i16::MAX {
        (v - i16::MAX) as i16
    } else {
        v as i16
    }
}

/// The `i16` that generator `g` gives for `start..end`: the bounds shifted
/// into the unsigned domain, a `u16` drawn there, and that shifted back.
pub open spec fn draw_i16(g: Generator, start: i16, end: i16) -> i16 {
    unshift_i16(draw_u16(g, shift_i16(start), shift_i16(end)))
}

/// Carries the bound `v` into the unsigned domain.
fn lift_i16(v: i16) -> (r: u16)
    ensures
        r == shift_i16(v),
{
    if v < 0 {
        (v + i16::MAX + 1) as u16
    } else {
        v as u16 + i16::MAX as u16
    }
}

impl RandomNumber for i16 {
    open spec fn valid_range(start: i16, end: i16) -> bool {
        shift_i16(start) < shift_i16(end)
    }

    open spec fn range_draw(g: Generator, start: i16, end: i16, r: i16) -> bool {
        r == draw_i16(g, start, end)
    }

    open spec fn full_draw(g: Generator, r: i16) -> bool {
        r == draw_i16(g, i16::MIN, i16::MAX)
    }

    open spec fn words_per_draw() -> nat {
        u16::words_per_draw()
    }

    fn is_valid_range(range: &Range<i16>) -> (r: bool) {
        lift_i16(range.start) < lift_i16(range.end)
    }

    fn random(g: &mut Generator) -> (r: i16)
        ensures
            i16::MIN <= r < i16::MAX,
    {
        Self::random_range(g, i16::MIN..i16::MAX)
    }

    /// A draw below the `i16::MAX` offset comes back as it is, so the
    /// result is never negative, whatever the range.
    fn random_range(g: &mut Generator, range: Range<i16>) -> (r: i16)
        ensures
            0 <= r < i16::MAX,
    {
        let start: u16 = lift_i16(range.start);
        let end: u16 = lift_i16(range.end);
        let drawn: u16 = u16::random_range(g, start..end);
        if drawn >= i16::MAX as u16 {
            (drawn - i16::MAX as u16) as i16
        } else {
            drawn as i16
        }
    }
}

/// The bound `v` carried into the unsigned domain: a negative value moves up
/// by `i32::MAX + 1`, a non-negative one by `i32::MAX`.
pub open spec fn shift_i32(v: i32) -> u32 {
    if v < 0 {
        (v + i32::MAX + 1) as u32
    } else {
        (v + i32::MAX) as u32
    }
}

/// An unsigned draw carried back: a value at or above `i32::MAX` moves down
/// by `i32::MAX`, a smaller one stays as it is.
pub open spec fn unshift_i32(v: u32) -> i32 {
    if v >= i32::MAX {
        (v - i32::MAX) as i32
    } else {
        v as i32
    }
}

/// The `i32` that generator `g` gives for `start..end`: the bounds shifted
/// into the unsigned domain, a `u32` drawn there, and that shifted back.
pub open spec fn draw_i32(g: Generator, start: i32, end: i32) -> i32 {
    unshift_i32(draw_u32(g, shift_i32(start), shift_i32(end)))
}

/// Carries the bound `v` into the unsigned domain.
fn lift_i32(v: i32) -> (r: u32)
    ensures
        r == shift_i32(v),
{
    if v < 0 {
        (v + i32::MAX + 1) as u32
    } else {
        v as u32 + i32::MAX as u32
    }
}

impl RandomNumber for i32 {
    open spec fn valid_range(start: i32, end: i32) -> bool {
        shift_i32(start) < shift_i32(end)
    }

    open spec fn range_draw(g: Generator, start: i32, end: i32, r: i32) -> bool {
        r == draw_i32(g, start, end)
    }

    open spec fn full_draw(g: Generator, r: i32) -> bool {
        r == draw_i32(g, i32::MIN, i32::MAX)
    }

    open spec fn words_per_draw() -> nat {
        u32::words_per_draw()
    }

    fn is_valid_range(range: &Range<i32>) -> (r: bool) {
        lift_i32(range.start) < lift_i32(range.end)
    }

    fn random(g: &mut Generator) -> (r: i32)
        ensures
            i32::MIN <= r < i32::MAX,
    {
        Self::random_range(g, i32::MIN..i32::MAX)
    }

    /// A draw below the `i32::MAX` offset comes back as it is, so the
    /// result is never negative, whatever the range.
    fn random_range(g: &mut Generator, range: Range<i32>) -> (r: i32)
        ensures
            0 <= r < i32::MAX,
    {
        let start: u32 = lift_i32(range.start);
        let end: u32 = lift_i32(range.end);
        let drawn: u32 = u32::random_range(g, start..end);
        if drawn >= i32::MAX as u32 {
            (drawn - i32::MAX as u32) as i32
        } else {
            drawn as i32
        }
    }
}

/// The bound `v` carried into the unsigned domain: a negative value moves up
/// by `i64::MAX + 1`, a non-negative one by `i64::MAX`.
pub open spec fn shift_i64(v: i64) -> u64 {
    if v < 0 {
        (v + i64::MAX + 1) as u64
    } else {
        (v + i64::MAX) as u64
    }
}

/// An unsigned draw carried back: a value at or above `i64::MAX` moves down
/// by `i64::MAX`, a smaller one stays as it is.
pub open spec fn unshift_i64(v: u64) -> i64 {
    if v >= i64::MAX {
        (v - i64::MAX) as i64
    } else {
        v as i64
    }
}

/// The `i64` that generator `g` gives for `start..end`: the bounds shifted
/// into the unsigned domain, a `u64` drawn there, and that shifted back.
pub open spec fn draw_i64(g: Generator, start: i64, end: i64) -> i64 {
    unshift_i64(draw_u64(g, shift_i64(start), shift_i64(end)))
}

/// Carries the bound `v` into the unsigned domain.
fn lift_i64(v: i64) -> (r: u64)
    ensures
        r == shift_i64(v),
{
    if v < 0 {
        (v + i64::MAX + 1) as u64
    } else {
        v as u64 + i64::MAX as u64
    }
}

impl RandomNumber for i64 {
    open spec fn valid_range(start: i64, end: i64) -> bool {
        shift_i64(start) < shift_i64(end)
    }

    open spec fn range_draw(g: Generator, start: i64, end: i64, r: i64) -> bool {
        r == draw_i64(g, start, end)
    }

    open spec fn full_draw(g: Generator, r: i64) -> bool {
        r == draw_i64(g, i64::MIN, i64::MAX)
    }

    open spec fn words_per_draw() -> nat {
        u64::words_per_draw()
    }

    fn is_valid_range(range: &Range<i64>) -> (r: bool) {
        lift_i64(range.start) < lift_i64(range.end)
    }

    fn random(g: &mut Generator) -> (r: i64)
        ensures
            i64::MIN <= r < i64::MAX,
    {
        Self::random_range(g, i64::MIN..i64::MAX)
    }

    /// A draw below the `i64::MAX` offset comes back as it is, so the
    /// result is never negative, whatever the range.
    fn random_range(g: &mut Generator, range: Range<i64>) -> (r: i64)
        ensures
            0 <= r < i64::MAX,
    {
        let start: u64 = lift_i64(range.start);
        let end: u64 = lift_i64(range.end);
        let drawn: u64 = u64::random_range(g, start..end);
        if drawn >= i64::MAX as u64 {
            (drawn - i64::MAX as u64) as i64
        } else {
            drawn as i64
        }
    }
}

/// The bound `v` carried into the unsigned domain: a negative value moves up
/// by `i128::MAX + 1`, a non-negative one by `i128::MAX`.
pub open spec fn shift_i128(v: i128) -> u128 {
    if v < 0 {
        (v + i128::MAX + 1) as u128
    } else {
        (v + i128::MAX) as u128
    }
}

/// An unsigned draw carried back: a value at or above `i128::MAX` moves down
/// by `i128::MAX`, a smaller one stays as it is.
pub open spec fn unshift_i128(v: u128) -> i128 {
    if v >= i128::MAX {
        (v - i128::MAX) as i128
    } else {
        v as i128
    }
}

/// The `i128` that generator `g` gives for `start..end`: the bounds shifted
/// into the unsigned domain, a `u128` drawn there, and that shifted back.
pub open spec fn draw_i128(g: Generator, start: i128, end: i128) -> i128 {
    unshift_i128(draw_u128(g, shift_i128(start), shift_i128(end)))
}

/// Carries the bound `v` into the unsigned domain.
fn lift_i128(v: i128) -> (r: u128)
    ensures
        r == shift_i128(v),
{
    if v < 0 {
        (v + i128::MAX + 1) as u128
    } else {
        v as u128 + i128::MAX as u128
    }
}

impl RandomNumber for i128 {
    open spec fn valid_range(start: i128, end: i128) -> bool {
        shift_i128(start) < shift_i128(end)
    }

    open spec fn range_draw(g: Generator, start: i128, end: i128, r: i128) -> bool {
        r == draw_i128(g, start, end)
    }

    open spec fn full_draw(g: Generator, r: i128) -> bool {
        r == draw_i128(g, i128::MIN, i128::MAX)
    }

    open spec fn words_per_draw() -> nat {
        u128::words_per_draw()
    }

    fn is_valid_range(range: &Range<i128>) -> (r: bool) {
        lift_i128(range.start) < lift_i128(range.end)
    }

    fn random(g: &mut Generator) -> (r: i128)
        ensures
            i128::MIN <= r < i128::MAX,
    {
        Self::random_range(g, i128::MIN..i128::MAX)
    }

    /// A draw below the `i128::MAX` offset comes back as it is, so the
    /// result is never negative, whatever the range.
    fn random_range(g: &mut Generator, range: Range<i128>) -> (r: i128)
        ensures
            0 <= r < i128::MAX,
    {
        let start: u128 = lift_i128(range.start);
        let end: u128 = lift_i128(range.end);
        let drawn: u128 = u128::random_range(g, start..end);
        if drawn >= i128::MAX as u128 {
            (drawn - i128::MAX as u128) as i128
        } else {
            drawn as i128
        }
    }
}

impl RandomNumber for bool {
    open spec fn valid_range(start: bool, end: bool) -> bool {
        true
    }

    open spec fn range_draw(g: Generator, start: bool, end: bool, r: bool) -> bool {
        r == true
    }

    open spec fn full_draw(g: Generator, r: bool) -> bool {
        r == true
    }

    open spec fn words_per_draw() -> nat {
        1
    }

    fn is_valid_range(range: &Range<bool>) -> (r: bool) {
        true
    }

    /// Compares a `u8` drawn from `0..1` with zero. That range holds zero
    /// alone, so the result is always `true`.
    fn random(g: &mut Generator) -> (r: bool) {
        u8::random_range(g, 0..1) == 0
    }

    /// The range is not consulted: the same as `random`.
    fn random_range(g: &mut Generator, range: Range<bool>) -> (r: bool) {
        Self::random(g)
    }
}

impl RandomNumber for char {
    open spec fn valid_range(start: char, end: char) -> bool {
        (start as u8) < (end as u8)
    }

    open spec fn range_draw(g: Generator, start: char, end: char, r: char) -> bool {
        r == draw_u8(g, start as u8, end as u8) as char
    }

    open spec fn full_draw(g: Generator, r: char) -> bool {
        r == draw_u8(g, u8::MIN, u8::MAX) as char
    }

    open spec fn words_per_draw() -> nat {
        1
    }

    fn is_valid_range(range: &Range<char>) -> (r: bool) {
        (range.start as u8) < (range.end as u8)
    }

    /// A random `u8` taken as a character.
    fn random(g: &mut Generator) -> (r: char) {
        u8::random(g) as char
    }

    /// Draws a `u8` between the low bytes of the bounds and takes it as a
    /// character.
    fn random_range(g: &mut Generator, range: Range<char>) -> (r: char) {
        u8::random_range(g, (range.start as u8)..(range.end as u8)) as char
    }
}

/// Whole milliseconds in a duration, as `Duration::as_millis` counts them.
pub uninterp spec fn millis_in(d: Duration) -> u128;

/// Relies on `Duration::as_millis`: the whole milliseconds in `d`.
#[verifier::external_body]
fn duration_as_millis(d: &Duration) -> (r: u128)
    ensures
        r == millis_in(*d),
{
    d.as_millis()
}

/// Relies on `Duration::from_millis`: a duration of `ms` milliseconds, whose
/// whole milliseconds are `ms` again.
#[verifier::external_body]
fn duration_from_millis(ms: u64) -> (r: Duration)
    ensures
        millis_in(r) == ms,
{
    Duration::from_millis(ms)
}

impl RandomNumber for Duration {
    /// The bounds' whole milliseconds, cut to `u64`, must form a valid range.
    open spec fn valid_range(start: Duration, end: Duration) -> bool {
        (millis_in(start) as u64) < (millis_in(end) as u64)
    }

    open spec fn range_draw(g: Generator, start: Duration, end: Duration, r: Duration) -> bool {
        millis_in(r) == draw_u64(g, millis_in(start) as u64, millis_in(end) as u64)
    }

    open spec fn full_draw(g: Generator, r: Duration) -> bool {
        millis_in(r) == draw_u64(g, u64::MIN, u64::MAX)
    }

    open spec fn words_per_draw() -> nat {
        1
    }

    fn is_valid_range(range: &Range<Duration>) -> (r: bool) {
        (duration_as_millis(&range.start) as u64) < (duration_as_millis(&range.end) as u64)
    }

    /// A random `u64` taken as milliseconds.
    fn random(g: &mut Generator) -> (r: Duration) {
        duration_from_millis(u64::random(g))
    }

    /// Draws a `u64` between the bounds' milliseconds and takes it as
    /// milliseconds.
    fn random_range(g: &mut Generator, range: Range<Duration>) -> (r: Duration) {
        let start: u64 = duration_as_millis(&range.start) as u64;
        let end: u64 = duration_as_millis(&range.end) as u64;
        duration_from_millis(u64::random_range(g, start..end))
    }
}

} // verus!
