//! The generator core: a 64-bit counter advanced by an odd constant, and a
//! stateless avalanche mix that turns each counter value into an output word.
use vstd::arithmetic::div_mod::{lemma_mod_bound, lemma_mul_mod_noop_left, lemma_mul_mod_noop_right};
use vstd::prelude::*;

verus! {

/// Size of the 64-bit word domain.
pub open spec fn word_modulus() -> int {
    0x1_0000_0000_0000_0000
}

/// Odd "golden ratio" step added to the counter on every draw.
pub const STATE_INCREMENT: u64 = 0x9E37_79B9_7F4A_7C15;

/// Fixed constant mixed into the seed.
pub const SEED_CONSTANT: u64 = 0x243F_6A88_85A3_08D3;

/// Seed used when the mixed entropy happens to be zero.
pub const FALLBACK_SEED: u64 = 0xDA3E_39CB_94B9_5BDB;

/// First multiplier of the avalanche mix.
pub const MIX_MULTIPLIER_A: u64 = 0xBF58_476D_1CE4_E5B9;

/// Second multiplier of the avalanche mix.
pub const MIX_MULTIPLIER_B: u64 = 0x94D0_49BB_1331_11EB;

/// Multiplicative inverses modulo 2^64 of the three odd constants above.
const STATE_INCREMENT_INVERSE: u64 = 0xF1DE_83E1_9937_733D;
const MIX_MULTIPLIER_A_INVERSE: u64 = 0x96DE_1B17_3F11_9089;
const MIX_MULTIPLIER_B_INVERSE: u64 = 0x3196_42B2_D24D_8EC3;

/// `x` reduced into the 64-bit word domain.
pub open spec fn to_word(x: int) -> u64 {
    (x % word_modulus()) as u64
}

/// The avalanche mix of a counter value.
pub open spec fn mix_spec(v: u64) -> u64 {
    let a = to_word(v + 2 * STATE_INCREMENT);
    let b = to_word((a ^ (a >> 30u64)) * MIX_MULTIPLIER_A);
    let c = to_word((b ^ (b >> 27u64)) * MIX_MULTIPLIER_B);
    c ^ (c >> 31u64)
}

/// The seed derived from a nanosecond time stamp and an address; never zero.
pub open spec fn seed_spec(time_ns: u64, address: u64) -> u64 {
    let s = time_ns ^ to_word(address * STATE_INCREMENT) ^ SEED_CONSTANT;
    if s == 0 {
        FALLBACK_SEED
    } else {
        s
    }
}

/// The counter value `k` steps after `v`.
pub open spec fn counter_after(v: u64, k: nat) -> u64 {
    to_word(v + k * STATE_INCREMENT)
}

/// State of the generator: the counter ("value modifier") that each draw advances.
#[derive(Debug)]
pub struct Generator {
    pub value_modifier: u64,
}

impl Generator {
    /// The `k`-th word that this generator hands out, counting from zero.
    pub open spec fn word(self, k: nat) -> u64 {
        mix_spec(counter_after(self.value_modifier, k))
    }

    /// This generator after `k` draws.
    pub open spec fn advanced(self, k: nat) -> Generator {
        Generator { value_modifier: counter_after(self.value_modifier, k) }
    }
}

/// The avalanche mix: add the step twice, two rounds of xor-shift-multiply,
/// then a final xor-shift.
pub fn mix(old_value: u64) -> (r: u64)
    ensures
        r == mix_spec(old_value),
{
    let mut v: u64 = old_value.wrapping_add(STATE_INCREMENT);
    v = v.wrapping_add(STATE_INCREMENT);
    assert(v == to_word(old_value + 2 * STATE_INCREMENT));
    v = (v ^ (v >> 30u64)).wrapping_mul(MIX_MULTIPLIER_A);
    v = (v ^ (v >> 27u64)).wrapping_mul(MIX_MULTIPLIER_B);
    v ^ (v >> 31u64)
}

/// Builds the generator from the seed parts: a nanosecond time stamp and an
/// address, combined by multiplication and exclusive-or with a fixed constant.
/// A combined value of zero is replaced by a fixed non-zero seed.
pub fn init_state(time_ns: u64, address: u64) -> (g: Generator)
    ensures
        g.value_modifier == seed_spec(time_ns, address),
        g.value_modifier != 0,
{
    let seed: u64 = time_ns ^ address.wrapping_mul(STATE_INCREMENT) ^ SEED_CONSTANT;
    Generator { value_modifier: if seed == 0 { FALLBACK_SEED } else { seed } }
}

/// Draws one word: advances the counter by one step and returns the mix of
/// the value it held before.
pub fn generate_random_u64(g: &mut Generator) -> (r: u64)
    ensures
        r == old(g).word(0),
        *final(g) == old(g).advanced(1),
{
    let old_value: u64 = g.value_modifier;
    g.value_modifier = old_value.wrapping_add(STATE_INCREMENT);
    mix(old_value)
}

proof fn lemma_xorshift_30_injective(x: u64, y: u64)
    requires
        x ^ (x >> 30u64) == y ^ (y >> 30u64),
    ensures
        x == y,
{
    assert(x ^ (x >> 30u64) == y ^ (y >> 30u64) ==> x == y) by (bit_vector);
}

proof fn lemma_xorshift_27_injective(x: u64, y: u64)
    requires
        x ^ (x >> 27u64) == y ^ (y >> 27u64),
    ensures
        x == y,
{
    assert(x ^ (x >> 27u64) == y ^ (y >> 27u64) ==> x == y) by (bit_vector);
}

proof fn lemma_xorshift_31_injective(x: u64, y: u64)
    requires
        x ^ (x >> 31u64) == y ^ (y >> 31u64),
    ensures
        x == y,
{
    assert(x ^ (x >> 31u64) == y ^ (y >> 31u64) ==> x == y) by (bit_vector);
}

/// Multiplying by a constant that has an inverse modulo 2^64 can be undone.
proof fn lemma_mul_cancel(a: int, b: int, c: int, c_inverse: int)
    requires
        (c * c_inverse) % word_modulus() == 1,
        (a * c) % word_modulus() == (b * c) % word_modulus(),
    ensures
        a % word_modulus() == b % word_modulus(),
{
    let m = word_modulus();
    assert forall|x: int| (#[trigger] (x * c) % m * c_inverse) % m == x % m by {
        lemma_mul_mod_noop_left(x * c, c_inverse, m);
        assert(x * c * c_inverse == x * (c * c_inverse)) by (nonlinear_arith);
        lemma_mul_mod_noop_right(x, c * c_inverse, m);
    }
    assert((a * c) % m * c_inverse == (b * c) % m * c_inverse);
}

proof fn lemma_mul_word_injective(x: u64, y: u64, c: u64, c_inverse: u64)
    requires
        (c * c_inverse) % word_modulus() == 1,
        to_word(x * c) == to_word(y * c),
    ensures
        x == y,
{
    let m = word_modulus();
    lemma_mod_bound(x * c, m);
    lemma_mod_bound(y * c, m);
    lemma_mul_cancel(x as int, y as int, c as int, c_inverse as int);
    lemma_mod_bound(x as int, m);
    vstd::arithmetic::div_mod::lemma_small_mod(x as nat, m as nat);
    vstd::arithmetic::div_mod::lemma_small_mod(y as nat, m as nat);
}

/// The avalanche mix is a bijection on 64-bit words: distinct counter values
/// give distinct outputs.
pub proof fn lemma_mix_injective(x: u64, y: u64)
    requires
        mix_spec(x) == mix_spec(y),
    ensures
        x == y,
{
    let m = word_modulus();
    assert((MIX_MULTIPLIER_A as int * MIX_MULTIPLIER_A_INVERSE as int) % m == 1);
    assert((MIX_MULTIPLIER_B as int * MIX_MULTIPLIER_B_INVERSE as int) % m == 1);
    let ax = to_word(x + 2 * STATE_INCREMENT);
    let ay = to_word(y + 2 * STATE_INCREMENT);
    let bx = to_word((ax ^ (ax >> 30u64)) * MIX_MULTIPLIER_A);
    let by_ = to_word((ay ^ (ay >> 30u64)) * MIX_MULTIPLIER_A);
    let cx = to_word((bx ^ (bx >> 27u64)) * MIX_MULTIPLIER_B);
    let cy = to_word((by_ ^ (by_ >> 27u64)) * MIX_MULTIPLIER_B);
    lemma_xorshift_31_injective(cx, cy);
    lemma_mul_word_injective(
        bx ^ (bx >> 27u64),
        by_ ^ (by_ >> 27u64),
        MIX_MULTIPLIER_B,
        MIX_MULTIPLIER_B_INVERSE,
    );
    lemma_xorshift_27_injective(bx, by_);
    lemma_mul_word_injective(
        ax ^ (ax >> 30u64),
        ay ^ (ay >> 30u64),
        MIX_MULTIPLIER_A,
        MIX_MULTIPLIER_A_INVERSE,
    );
    lemma_xorshift_30_injective(ax, ay);
    vstd::arithmetic::div_mod::lemma_mod_equivalence(x + 2 * STATE_INCREMENT, y + 2 * STATE_INCREMENT, m);
    vstd::arithmetic::div_mod::lemma_mod_equivalence(x as int, y as int, m);
    vstd::arithmetic::div_mod::lemma_small_mod(x as nat, m as nat);
    vstd::arithmetic::div_mod::lemma_small_mod(y as nat, m as nat);
}

/// Drawing no words leaves a generator as it was.
pub proof fn lemma_advanced_none(g: Generator)
    ensures
        g.advanced(0) == g,
{
    vstd::arithmetic::div_mod::lemma_small_mod(g.value_modifier as nat, word_modulus() as nat);
}

/// Drawing `i` words and then `j` more leaves the generator where drawing
/// `i + j` words does, so successive draws hand out `word(0)`, `word(1)`, ...
pub proof fn lemma_advanced_compose(g: Generator, i: nat, j: nat)
    ensures
        g.advanced(i).advanced(j) == g.advanced(i + j),
        g.advanced(i).word(j) == g.word(i + j),
{
    let m = word_modulus();
    let v = g.value_modifier as int;
    let s = STATE_INCREMENT as int;
    vstd::arithmetic::div_mod::lemma_add_mod_noop(v + i * s, j * s, m);
    vstd::arithmetic::div_mod::lemma_mod_twice(j * s, m);
    vstd::arithmetic::div_mod::lemma_add_mod_noop((v + i * s) % m, j * s, m);
    vstd::arithmetic::div_mod::lemma_mod_bound(v + i * s, m);
    assert(v + i * s + j * s == v + (i + j) * s) by (nonlinear_arith);
}

/// No repeats: the first 2^64 words drawn from any generator are pairwise
/// distinct. Each draw moves the counter by an odd step, so the counter
/// revisits no value within 2^64 draws, and the mix is a bijection.
pub proof fn lemma_words_distinct(g: Generator, i: nat, j: nat)
    requires
        i < j < word_modulus(),
    ensures
        g.word(i) != g.word(j),
{
    if g.word(i) == g.word(j) {
        let m = word_modulus();
        let v = g.value_modifier as int;
        let s = STATE_INCREMENT as int;
        lemma_mix_injective(counter_after(g.value_modifier, i), counter_after(g.value_modifier, j));
        assert((STATE_INCREMENT as int * STATE_INCREMENT_INVERSE as int) % m == 1);
        vstd::arithmetic::div_mod::lemma_mod_bound(v + i * s, m);
        vstd::arithmetic::div_mod::lemma_mod_bound(v + j * s, m);
        vstd::arithmetic::div_mod::lemma_mod_equivalence(v + i * s, v + j * s, m);
        assert(v + j * s - (v + i * s) == (j - i) * s) by (nonlinear_arith);
        vstd::arithmetic::div_mod::lemma_mod_equivalence((j - i) * s, 0 * s, m);
        lemma_mul_cancel(j - i, 0, s, STATE_INCREMENT_INVERSE as int);
        vstd::arithmetic::div_mod::lemma_small_mod((j - i) as nat, m as nat);
    }
}

} // verus!
