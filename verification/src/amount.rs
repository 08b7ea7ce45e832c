//! Non-negative amounts of any size, computed with `num_bigint`.
//!
//! An amount is held as the base 2^32 digits of its value, least
//! significant first, which is the form in which `num_bigint::BigUint`
//! takes and gives its digits. The arithmetic itself is `BigUint`'s.

use vstd::prelude::*;
use std::str::FromStr;
use num_bigint::BigUint;
use crate::text::{decimal, digits_value, is_digit};

verus! {

/// The number with the base 2^32 digits `digits`, least significant first.
pub open spec fn limbs_value(digits: Seq<u32>) -> nat
    decreases digits.len(),
{
    if digits.len() == 0 {
        0
    } else {
        digits[0] as nat + 4294967296 * limbs_value(digits.drop_first())
    }
}

/// The text behind one leading `+`, or the whole text where it has none.
pub open spec fn after_sign(text: Seq<char>) -> Seq<char> {
    if text.len() > 0 && text[0] == '+' {
        text.skip(1)
    } else {
        text
    }
}

/// Whether `body` spells an amount: it is not empty, has a digit or `_` at
/// each place, and does not begin with `_`.
pub open spec fn spells_amount(body: Seq<char>) -> bool {
    &&& body.len() > 0
    &&& body[0] != '_'
    &&& forall|i: int| 0 <= i < body.len() ==> is_digit(#[trigger] body[i]) || body[i] == '_'
}

/// The amount that `text` stands for: after an optional `+`, a digit or `_`
/// at each place, the first of them a digit. The value is that of the
/// digits; a `_` only separates them. Any other text stands for none.
pub open spec fn parsed_amount(text: Seq<char>) -> Option<nat> {
    if spells_amount(after_sign(text)) {
        Some(digits_value(after_sign(text)))
    } else {
        None
    }
}

/// The amount that `text` stands for, or zero where it stands for none.
pub open spec fn amount_or_zero(text: Seq<char>) -> nat {
    match parsed_amount(text) {
        Some(value) => value,
        None => 0,
    }
}

/// `BigUint::from_str`, which reads radix 10: one leading `+` is dropped,
/// the rest has to be non-empty, not begin with `_`, and hold only digits
/// and `_`; the value is that of the digits. The digits of the result are
/// handed out by `BigUint::to_u32_digits`, least significant first.
#[verifier::external_body]
fn biguint_from_str(text: &str) -> (digits: Option<Vec<u32>>)
    ensures
        match parsed_amount(text@) {
            Some(value) => digits is Some && limbs_value(digits->0@) == value,
            None => digits is None,
        },
{
    match BigUint::from_str(text) {
        Ok(value) => Some(value.to_u32_digits()),
        Err(_) => None,
    }
}

/// `BigUint`'s `+`, on values made by `BigUint::new` from base 2^32 digits,
/// least significant first: the digits of the sum.
#[verifier::external_body]
fn biguint_add(left: &Vec<u32>, right: &Vec<u32>) -> (sum: Vec<u32>)
    ensures
        limbs_value(sum@) == limbs_value(left@) + limbs_value(right@),
{
    (BigUint::new(left.clone()) + BigUint::new(right.clone())).to_u32_digits()
}

/// `BigUint`'s `-`, which panics where the right side is the larger: the
/// digits of the difference.
#[verifier::external_body]
fn biguint_sub(left: &Vec<u32>, right: &Vec<u32>) -> (difference: Vec<u32>)
    requires
        limbs_value(left@) >= limbs_value(right@),
    ensures
        limbs_value(difference@) == limbs_value(left@) - limbs_value(right@),
{
    (BigUint::new(left.clone()) - BigUint::new(right.clone())).to_u32_digits()
}

/// `BigUint`'s `>=`, which orders by value.
#[verifier::external_body]
fn biguint_ge(left: &Vec<u32>, right: &Vec<u32>) -> (result: bool)
    ensures
        result == (limbs_value(left@) >= limbs_value(right@)),
{
    BigUint::new(left.clone()) >= BigUint::new(right.clone())
}

/// `BigUint`'s `to_string`: the value in radix 10, without leading zeros,
/// `0` for zero.
#[verifier::external_body]
fn biguint_to_string(digits: &Vec<u32>) -> (text: String)
    ensures
        text@ == decimal(limbs_value(digits@)),
{
    BigUint::new(digits.clone()).to_string()
}

/// A non-negative amount of any size.
#[derive(Debug)]
pub struct Amount {
    pub digits: Vec<u32>,
}

impl View for Amount {
    type V = nat;

    open spec fn view(&self) -> nat {
        limbs_value(self.digits@)
    }
}

impl Amount {
    pub fn zero() -> (amount: Amount)
        ensures
            amount@ == 0,
    {
        Amount { digits: Vec::new() }
    }

    /// Reads an amount from decimal text.
    pub fn parse(text: &str) -> (amount: Option<Amount>)
        ensures
            match parsed_amount(text@) {
                Some(value) => amount is Some && amount->0@ == value,
                None => amount is None,
            },
    {
        match biguint_from_str(text) {
            Some(digits) => Some(Amount { digits }),
            None => None,
        }
    }

    /// Reads an amount from decimal text; text that is no amount gives
    /// zero.
    pub fn parse_or_zero(text: &str) -> (amount: Amount)
        ensures
            amount@ == amount_or_zero(text@),
    {
        match Amount::parse(text) {
            Some(amount) => amount,
            None => Amount::zero(),
        }
    }

    pub fn plus(&self, other: &Amount) -> (sum: Amount)
        ensures
            sum@ == self@ + other@,
    {
        Amount { digits: biguint_add(&self.digits, &other.digits) }
    }

    pub fn minus(&self, other: &Amount) -> (difference: Amount)
        requires
            self@ >= other@,
        ensures
            difference@ == self@ - other@,
    {
        Amount { digits: biguint_sub(&self.digits, &other.digits) }
    }

    pub fn at_least(&self, other: &Amount) -> (result: bool)
        ensures
            result == (self@ >= other@),
    {
        biguint_ge(&self.digits, &other.digits)
    }

    /// The amount in decimal digits.
    pub fn to_string(&self) -> (text: String)
        ensures
            text@ == decimal(self@),
    {
        biguint_to_string(&self.digits)
    }
}

} // verus!
