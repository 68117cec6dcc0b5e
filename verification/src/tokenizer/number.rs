//! The value of an integer literal.

use crate::text::{decimal_digit, digit_value};
use crate::tokenizer::scan::{all_decimal, decimal_number, literal_value};
use vstd::arithmetic::div_mod::{
    lemma_add_mod_noop, lemma_fundamental_div_mod_converse, lemma_mul_mod_noop_left,
    lemma_small_mod,
};
use vstd::prelude::*;

verus! {

/// Appending a digit in wrapping 32-bit arithmetic keeps the value equal to the number
/// read so far, modulo 2^32.
proof fn lemma_wrapping_step(number: nat, value: u32, digit: u32)
    requires
        value == number % 0x1_0000_0000,
        digit <= 9,
    ensures
        value.wrapping_mul(10).wrapping_add(digit) == (number * 10 + digit) % 0x1_0000_0000,
{
    let m = 0x1_0000_0000int;
    let n = number as int;
    let shifted = value.wrapping_mul(10);
    assert(shifted == (value * 10) % m);
    lemma_mul_mod_noop_left(n, 10, m);
    assert(shifted == (n * 10) % m);
    lemma_add_mod_noop(n * 10, digit as int, m);
    lemma_small_mod(digit as nat, m as nat);
    assert((n * 10 + digit) % m == (shifted + digit) % m);
    if shifted + digit >= m {
        lemma_mod_sub_once(shifted + digit, m);
    } else {
        lemma_small_mod((shifted + digit) as nat, m as nat);
    }
}

/// A number in `[m, 2m)` is reduced by subtracting `m` once.
proof fn lemma_mod_sub_once(x: int, m: int)
    requires
        0 < m <= x < 2 * m,
    ensures
        x % m == x - m,
{
    lemma_fundamental_div_mod_converse(x, m, 1, x - m);
}

/// The value of an integer literal with the given digits, if they are all decimal.
pub fn decimal_value(characters: &Vec<char>) -> (value: Option<u32>)
    ensures
        value == literal_value(characters@),
{
    let mut value: u32 = 0;
    let mut index: usize = 0;
    while index < characters.len()
        invariant
            index <= characters.len(),
            all_decimal(characters@.take(index as int)),
            value == decimal_number(characters@.take(index as int)) % 0x1_0000_0000,
        decreases characters.len() - index,
    {
        let ghost read = characters@.take(index as int);
        let ghost longer = characters@.take(index + 1);
        assert(longer.drop_last() == read);
        assert(longer.last() == characters@[index as int]);
        match decimal_digit(characters[index]) {
            None => {
                assert(!all_decimal(characters@)) by {
                    assert(digit_value(characters@[index as int]) is None);
                }
                return None;
            },
            Some(digit) => {
                proof {
                    lemma_wrapping_step(decimal_number(read), value, digit);
                }
                value = value.wrapping_mul(10).wrapping_add(digit);
            },
        }
        index += 1;
    }
    assert(characters@.take(index as int) == characters@);
    Some(value)
}

} // verus!
