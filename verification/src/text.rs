//! Identifiers and findings in words.

use vstd::prelude::*;
use vstd::string::StringExecFns;
use crate::error::{LayoutError, OverflowAxis};
use crate::GlobalId;

verus! {

/// The character of a decimal digit.
pub open spec fn digit(d: int) -> char {
    if d == 0 {
        '0'
    } else if d == 1 {
        '1'
    } else if d == 2 {
        '2'
    } else if d == 3 {
        '3'
    } else if d == 4 {
        '4'
    } else if d == 5 {
        '5'
    } else if d == 6 {
        '6'
    } else if d == 7 {
        '7'
    } else if d == 8 {
        '8'
    } else {
        '9'
    }
}

/// A number in decimal digits, without leading zeros.
pub open spec fn decimal(n: nat) -> Seq<char>
    decreases n,
{
    if n < 10 {
        seq![digit(n as int)]
    } else {
        decimal(n / 10).push(digit((n % 10) as int))
    }
}

/// The digits before the last digit of a number: none, if it has one digit
/// only.
spec fn leading(n: nat) -> Seq<char> {
    if n > 0 {
        decimal(n)
    } else {
        Seq::empty()
    }
}

/// The characters of digits that are held last digit first.
spec fn turned(digits: Seq<u8>) -> Seq<char> {
    Seq::new(digits.len(), |i: int| digit(digits[digits.len() - 1 - i] as int))
}

/// The name of an axis of overflow.
pub open spec fn axis_name(axis: OverflowAxis) -> Seq<char> {
    match axis {
        OverflowAxis::MainAxis => "MainAxis"@,
        OverflowAxis::CrossAxis => "CrossAxis"@,
    }
}

/// A finding as a sentence.
pub open spec fn message_text(finding: LayoutError) -> Seq<char> {
    match finding {
        LayoutError::OutOfBounds { parent_id, child_id } => "Widget(id:"@ + decimal(
            child_id.0 as nat,
        ) + ") is out of it's parent's (id:"@ + decimal(parent_id.0 as nat) + ") bounds"@,
        LayoutError::Overflow { id, axis } => "Widget(id:"@ + decimal(id.0 as nat)
            + ")'s children have overflown in the "@ + axis_name(axis),
    }
}

/// One decimal digit as text.
fn digit_text(d: u8) -> (r: &'static str)
    requires
        d < 10,
    ensures
        r@ == seq![digit(d as int)],
{
    let r = match d {
        0 => "0",
        1 => "1",
        2 => "2",
        3 => "3",
        4 => "4",
        5 => "5",
        6 => "6",
        7 => "7",
        8 => "8",
        _ => "9",
    };
    proof {
        reveal_strlit("0");
        reveal_strlit("1");
        reveal_strlit("2");
        reveal_strlit("3");
        reveal_strlit("4");
        reveal_strlit("5");
        reveal_strlit("6");
        reveal_strlit("7");
        reveal_strlit("8");
        reveal_strlit("9");
    }
    r
}

/// A number as text, in decimal digits.
pub fn decimal_text(value: u32) -> (r: String)
    ensures
        r@ == decimal(value as nat),
{
    let mut digits: Vec<u8> = Vec::new();
    digits.push((value % 10) as u8);
    let mut rest: u32 = value / 10;
    while rest > 0
        invariant
            digits@.len() > 0,
            forall|i: int| 0 <= i < digits@.len() ==> digits@[i] < 10,
            leading(rest as nat) + turned(digits@) == decimal(value as nat),
        decreases rest,
    {
        digits.push((rest % 10) as u8);
        rest = rest / 10;
    }
    let mut out = String::new();
    let mut i: usize = digits.len();
    while i > 0
        invariant
            0 <= i <= digits@.len(),
            forall|j: int| 0 <= j < digits@.len() ==> digits@[j] < 10,
            out@ == turned(digits@).take(digits@.len() - i),
        decreases i,
    {
        i -= 1;
        out.append(digit_text(digits[i]));
    }
    out
}

impl GlobalId {
    /// The number of the identifier, in decimal digits.
    pub fn text(&self) -> (r: String)
        ensures
            r@ == decimal(self.0 as nat),
    {
        decimal_text(self.0)
    }
}

impl OverflowAxis {
    /// The name of the axis.
    pub fn name(&self) -> (r: &'static str)
        ensures
            r@ == axis_name(*self),
    {
        match self {
            OverflowAxis::MainAxis => "MainAxis",
            OverflowAxis::CrossAxis => "CrossAxis",
        }
    }
}

impl LayoutError {
    /// The finding as a sentence that names the nodes by their identifiers.
    pub fn message(&self) -> (r: String)
        ensures
            r@ == message_text(*self),
    {
        let mut out = String::new();
        out.append("Widget(id:");
        match self {
            LayoutError::OutOfBounds { parent_id, child_id } => {
                out.append(child_id.text().as_str());
                out.append(") is out of it's parent's (id:");
                out.append(parent_id.text().as_str());
                out.append(") bounds");
            },
            LayoutError::Overflow { id, axis } => {
                out.append(id.text().as_str());
                out.append(")'s children have overflown in the ");
                out.append(axis.name());
            },
        }
        out
    }
}

} // verus!
