//! Money amounts: decimal text that `BigDecimal` reads, compared and shown by
//! `BigDecimal`.
use bigdecimal::BigDecimal;
use crate::text::{owned, push_str};
use std::str::FromStr;
use vstd::prelude::*;

verus! {

/// How `BigDecimal` orders the numbers written `a` and `b`: `Some(-1)`,
/// `Some(0)` or `Some(1)` as `a` is below, equal to or above `b`, and `None`
/// when either text is not a decimal number that `BigDecimal` reads.
pub uninterp spec fn decimal_order(a: Seq<char>, b: Seq<char>) -> Option<i8>;

/// What `format!("{:.2}", n)` writes for the `BigDecimal` `n` read from `a`:
/// its `Display` with a precision of two digits.
pub uninterp spec fn two_place_text(a: Seq<char>) -> Seq<char>;

/// The amount written `a` as a price: a dollar sign, then the number with two
/// decimals.
pub open spec fn currency_text(a: Seq<char>) -> Seq<char> {
    "$"@ + two_place_text(a)
}

/// Reads both texts with `BigDecimal::from_str` and compares the numbers with
/// `Ord::cmp` on `BigDecimal`. The result is named by `decimal_order`. The
/// crate's source shows that a comparison gives one of three answers, that
/// swapping the numbers reverses it (`cmp` is a total order), and that there
/// is an answer exactly when each text reads as a number (a text that reads
/// as a number compares equal to itself).
#[verifier::external_body]
pub(crate) fn compare_decimals(a: &str, b: &str) -> (r: Option<i8>)
    ensures
        r == decimal_order(a@, b@),
        r matches Some(x) ==> -1 <= x <= 1,
        decimal_order(b@, a@) == reversed(r),
        r is Some <==> (decimal_order(a@, a@) is Some && decimal_order(b@, b@) is Some),
{
    match (BigDecimal::from_str(a), BigDecimal::from_str(b)) {
        (Ok(x), Ok(y)) => match x.cmp(&y) {
            std::cmp::Ordering::Less => Some(-1),
            std::cmp::Ordering::Equal => Some(0),
            std::cmp::Ordering::Greater => Some(1),
        },
        _ => None,
    }
}

/// Reads `a` with `BigDecimal::from_str`, which succeeds on the texts that
/// `decimal_order` compares, and writes the number with `format!("{:.2}", ..)`,
/// that is, through `BigDecimal`'s `Display` with a precision of two digits.
/// The text is named by `two_place_text`.
#[verifier::external_body]
fn format_two_places(a: &str) -> (r: String)
    requires
        decimal_order(a@, a@) is Some,
    ensures
        r@ == two_place_text(a@),
{
    format!("{:.2}", BigDecimal::from_str(a).unwrap())
}

/// `BigDecimal::from(0)` written with `to_string`: the text `0`, which
/// `BigDecimal::from_str` reads back as zero (the crate's formatting tests show
/// both).
#[verifier::external_body]
fn zero_text() -> (r: String)
    ensures
        r@ == "0"@,
        decimal_order(r@, r@) == Some(0i8),
{
    BigDecimal::from(0).to_string()
}

/// The answer of a comparison with its two numbers swapped.
pub open spec fn reversed(o: Option<i8>) -> Option<i8> {
    match o {
        Some(x) => if x == 1 {
            Some(-1i8)
        } else if x == -1 {
            Some(1i8)
        } else {
            Some(x)
        },
        None => None,
    }
}

/// A comparison that found the first number strictly above the second.
pub open spec fn is_above(order: Option<i8>) -> bool {
    order == Some(1i8)
}

/// A comparison that found the first number at or above the second.
pub open spec fn is_at_least(order: Option<i8>) -> bool {
    order == Some(0i8) || order == Some(1i8)
}

/// An amount of money, written as decimal text that `BigDecimal` reads.
#[derive(Debug)]
pub struct Amount {
    text: String,
}

impl Clone for Amount {
    fn clone(&self) -> (r: Self)
        ensures
            r@ == self@,
    {
        self.duplicate()
    }
}

impl View for Amount {
    type V = Seq<char>;

    closed spec fn view(&self) -> Seq<char> {
        self.text@
    }
}

impl Amount {
    #[verifier::type_invariant]
    closed spec fn is_decimal(self) -> bool {
        decimal_order(self.text@, self.text@) is Some
    }

    /// Accepts `text` as an amount when `BigDecimal` reads it as a number.
    pub fn parse(text: String) -> (r: Option<Amount>)
        ensures
            match r {
                Some(a) => a@ == text@ && decimal_order(text@, text@) is Some,
                None => decimal_order(text@, text@) is None,
            },
    {
        match compare_decimals(text.as_str(), text.as_str()) {
            Some(_) => Some(Amount { text }),
            None => None,
        }
    }

    /// The decimal text.
    pub fn as_str(&self) -> (r: &str)
        ensures
            r@ == self@,
    {
        self.text.as_str()
    }

    /// Copies the amount.
    pub fn duplicate(&self) -> (r: Amount)
        ensures
            r@ == self@,
    {
        proof {
            use_type_invariant(self);
        }
        Amount { text: self.text.clone() }
    }

    /// How this amount compares with the number written `other`.
    pub fn compare_with(&self, other: &str) -> (r: Option<i8>)
        ensures
            r == decimal_order(self@, other@),
            r matches Some(x) ==> -1 <= x <= 1,
            decimal_order(other@, self@) == reversed(r),
            r is Some <==> decimal_order(other@, other@) is Some,
    {
        proof {
            use_type_invariant(self);
        }
        compare_decimals(self.text.as_str(), other)
    }

    /// How this amount compares with `other`: always one of three answers.
    pub fn compare(&self, other: &Amount) -> (r: i8)
        ensures
            decimal_order(self@, other@) == Some(r),
            -1 <= r <= 1,
            decimal_order(other@, self@) == reversed(Some(r)),
    {
        proof {
            use_type_invariant(self);
            use_type_invariant(other);
        }
        match compare_decimals(self.text.as_str(), other.text.as_str()) {
            Some(x) => x,
            None => 0,
        }
    }

    /// Zero, written `0`.
    pub fn zero() -> (r: Amount)
        ensures
            r@ == "0"@,
    {
        let text = zero_text();
        Amount { text }
    }

    /// The amount as a price: a dollar sign and two decimals.
    pub fn format_currency(&self) -> (r: String)
        ensures
            r@ == currency_text(self@),
    {
        proof {
            use_type_invariant(self);
        }
        let mut r = owned("$");
        let digits = format_two_places(self.text.as_str());
        push_str(&mut r, digits.as_str());
        r
    }
}

} // verus!
