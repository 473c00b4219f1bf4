//! How the arena is laid out at the start: where each object lies, and what
//! it is called.

use crate::vector::FixedVec3;
use crate::vector::UNIT;
use vstd::prelude::*;

verus! {

/// How many objects lie about the arena at the start.
pub const OBSTACLE_COUNT: u32 = 20;

/// Where the object with this index lies. The objects are strung along the
/// diagonal of the arena, ten units apart, one unit above the ground: those
/// with an even index on the positive side, those with an odd index on the
/// negative side, the first of them five units from the centre.
pub open spec fn obstacle_position_spec(index: u32) -> FixedVec3 {
    let reach = (10 * index + 5) * UNIT;
    let along = if index % 2 == 0 {
        reach
    } else {
        -reach
    };
    FixedVec3 { x: along as i64, y: UNIT, z: along as i64 }
}

/// Where the object with this index lies.
pub fn obstacle_position(index: u32) -> (position: FixedVec3)
    ensures
        position == obstacle_position_spec(index),
{
    let reach: i64 = (10 * (index as i64) + 5) * UNIT;
    let along: i64 = if index % 2 == 0 {
        reach
    } else {
        -reach
    };
    FixedVec3 { x: along, y: UNIT, z: along }
}

/// The character for a digit.
pub open spec fn digit(d: nat) -> char {
    if d == 0 {
        '0'
    } else if d == 1 {
        '1'
    } else if d == 2 {
        '2'
    } else if d == 3 {
        '3'
    } else if d == 4 {
        '4'
    } else if d == 5 {
        '5'
    } else if d == 6 {
        '6'
    } else if d == 7 {
        '7'
    } else if d == 8 {
        '8'
    } else {
        '9'
    }
}

/// A number written in decimal, without leading zeros.
pub open spec fn decimal(n: nat) -> Seq<char>
    decreases n,
{
    if n < 10 {
        seq![digit(n)]
    } else {
        decimal(n / 10).push(digit(n % 10))
    }
}

/// A digit as text.
fn digit_text(d: u32) -> (text: &'static str)
    requires
        d < 10,
    ensures
        text@ == seq![digit(d as nat)],
{
    proof {
        reveal_strlit("0");
        reveal_strlit("1");
        reveal_strlit("2");
        reveal_strlit("3");
        reveal_strlit("4");
        reveal_strlit("5");
        reveal_strlit("6");
        reveal_strlit("7");
        reveal_strlit("8");
        reveal_strlit("9");
    }
    let text = if d == 0 {
        "0"
    } else if d == 1 {
        "1"
    } else if d == 2 {
        "2"
    } else if d == 3 {
        "3"
    } else if d == 4 {
        "4"
    } else if d == 5 {
        "5"
    } else if d == 6 {
        "6"
    } else if d == 7 {
        "7"
    } else if d == 8 {
        "8"
    } else {
        "9"
    };
    text
}

/// Writes `n` in decimal at the end of `text`.
fn append_decimal(text: &mut String, n: u32)
    ensures
        final(text)@ == old(text)@ + decimal(n as nat),
    decreases n,
{
    if n >= 10 {
        append_decimal(text, n / 10);
    }
    text.append(digit_text(n % 10));
}

/// What the object with this index is called: `Box` and its index.
pub fn obstacle_name(index: u32) -> (name: String)
    ensures
        name@ == "Box "@ + decimal(index as nat),
{
    let mut name = String::from_str("Box ");
    append_decimal(&mut name, index);
    name
}

/// The category that every object of the arena belongs to.
pub fn obstacle_category() -> (category: String)
    ensures
        category@ == "Priceless Treasures"@,
{
    String::from_str("Priceless Treasures")
}

} // verus!
