//! Error types.

use std::str::Utf8Error;
use vstd::prelude::*;
use vstd::std_specs::convert::FromSpecImpl;
use vstd::string::StringExecFns;

verus! {

/// `std::str::Utf8Error`, carried through as it is.
#[verifier::external_type_specification]
#[verifier::external_body]
pub struct ExUtf8Error(Utf8Error);

/// The text that `Debug` writes for a `Utf8Error`.
#[verifier::external_body]
fn utf8_error_text(e: &Utf8Error) -> (r: String) {
    format!("{:?}", e)
}

/// The decimal digit that stands for `d`, which is below 10.
pub open spec fn digit_char(d: nat) -> char {
    (48 + d) as char
}

/// The number `n` in decimal digits, without leading zeros.
pub open spec fn decimal_text(n: nat) -> Seq<char>
    decreases n,
{
    if n < 10 {
        seq![digit_char(n)]
    } else {
        decimal_text(n / 10).push(digit_char(n % 10))
    }
}

/// Appends the number `n`, in decimal digits, to `out`.
pub fn push_decimal(out: &mut String, n: usize)
    ensures
        final(out)@ == old(out)@ + decimal_text(n as nat),
{
    // The digits from the last one to the first.
    let mut digits: Vec<char> = Vec::new();
    let mut m: usize = n;
    let ghost mut tail = Seq::<char>::empty();
    loop
        invariant_except_break
            decimal_text(n as nat) == decimal_text(m as nat) + tail,
        invariant
            digits@.len() == tail.len(),
            forall|i: int| 0 <= i < tail.len() ==> digits@[i] == tail[tail.len() - 1 - i],
        ensures
            decimal_text(n as nat) == tail,
            digits@.len() > 0,
        decreases m,
    {
        let d: u8 = (m % 10) as u8;
        let c: char = (48 + d) as char;
        assert(c == digit_char((m % 10) as nat));
        digits.push(c);
        proof {
            let old_tail = tail;
            tail = seq![c] + old_tail;
            if m >= 10 {
                assert(decimal_text(m as nat) + old_tail =~= decimal_text((m / 10) as nat)
                    + tail);
            } else {
                assert(decimal_text(m as nat) + old_tail =~= tail);
            }
        }
        if m < 10 {
            break ;
        }
        m = m / 10;
    }
    let mut k: usize = digits.len();
    let ghost base = out@;
    while k > 0
        invariant
            k <= digits@.len(),
            digits@.len() == tail.len(),
            forall|i: int| 0 <= i < tail.len() ==> digits@[i] == tail[tail.len() - 1 - i],
            out@ == base + tail.take(tail.len() - k),
        decreases k,
    {
        k = k - 1;
        out.push(digits[k]);
        proof {
            assert(out@ =~= base + tail.take(tail.len() - k));
        }
    }
    proof {
        assert(tail.take(tail.len() as int) =~= tail);
    }
}

/// The result type of this crate.
pub type TextosResult<N> = Result<N, TextosError>;

/// The error type of this crate.
#[non_exhaustive]
#[derive(Debug, PartialEq, Eq)]
pub enum TextosError {
    /// The value is out of bounds.
    OutOfBounds,
    /// Not enough capacity for the attempted operation.
    ///
    /// Holds the needed capacity.
    NotEnoughCapacity(usize),
    /// Not enough elements for the attempted operation.
    ///
    /// Holds the needed number of elements.
    NotEnoughElements(usize),
    /// An error met when a sequence of bytes was read as a string.
    Utf8(Utf8Error),
    /// A miscellaneous error.
    Error(String),
}

impl TextosError {
    /// Returns `true` if the error is about bytes to UTF-8 conversion.
    pub fn is_utf8(&self) -> (r: bool)
        ensures
            r == (self is Utf8),
    {
        match self {
            TextosError::Utf8(_) => true,
            _ => false,
        }
    }

    /// Returns the message of the error.
    ///
    /// An error that holds a number says what it lacked and gives the
    /// number in decimal digits. For an error of UTF-8 decoding the message
    /// is the one that the standard library writes for it.
    pub fn to_string(&self) -> (r: String)
        ensures
            self is OutOfBounds ==> r@ == "The value is out of bounds."@,
            self matches TextosError::NotEnoughCapacity(c) ==> r@
                == "Not enough capacity. Needed: "@ + decimal_text(c as nat),
            self matches TextosError::NotEnoughElements(e) ==> r@
                == "Not enough elements. Needed: "@ + decimal_text(e as nat),
            self matches TextosError::Error(s) ==> r@ == "Error: "@ + s@,
    {
        match self {
            TextosError::OutOfBounds => String::from_str("The value is out of bounds."),
            TextosError::NotEnoughCapacity(c) => {
                let mut out = String::from_str("Not enough capacity. Needed: ");
                push_decimal(&mut out, *c);
                out
            },
            TextosError::NotEnoughElements(e) => {
                let mut out = String::from_str("Not enough elements. Needed: ");
                push_decimal(&mut out, *e);
                out
            },
            TextosError::Utf8(e) => utf8_error_text(e),
            TextosError::Error(s) => {
                let mut out = String::from_str("Error: ");
                out.append(s.as_str());
                out
            },
        }
    }
}

impl From<Utf8Error> for TextosError {
    fn from(e: Utf8Error) -> (r: TextosError) {
        TextosError::Utf8(e)
    }
}

impl FromSpecImpl<Utf8Error> for TextosError {
    open spec fn obeys_from_spec() -> bool {
        true
    }

    open spec fn from_spec(e: Utf8Error) -> TextosError {
        TextosError::Utf8(e)
    }
}

} // verus!
