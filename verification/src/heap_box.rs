//! An integer in a heap box.
//!
//! A box has one owner. The owner can read the integer, change it in place,
//! or take another box in place of its own, which lets the first one go.
//! Boxing a plain integer copies it: the plain integer is not touched by what
//! happens to the box.

use vstd::prelude::*;
use vstd::string::StringExecFns;
use crate::text::{decimal, push_decimal, texts, unsigned_decimal};

verus! {

/// Reads the integer that `owner` holds.
pub fn read(owner: &Box<i32>) -> (value: i32)
    ensures
        value == **owner,
{
    **owner
}

/// Gives `owner` the box `other` in place of its own. The box that `owner`
/// held before is let go: from now on `owner` reaches the integer of `other`
/// and no other.
pub fn reassign(owner: &mut Box<i32>, other: Box<i32>)
    ensures
        *final(owner) == other,
{
    *owner = other;
}

/// Writes `value` into the box that `owner` holds.
pub fn overwrite(owner: &mut Box<i32>, value: i32)
    ensures
        **final(owner) == value,
{
    **owner = value;
}

/// Boxes a copy of `original`, then writes `value` into the box. Returns the
/// plain integer as it is afterwards, and the box.
pub fn overwrite_boxed_copy(original: i32, value: i32) -> (pair: (i32, Box<i32>))
    ensures
        pair.0 == original,
        *pair.1 == value,
{
    let x: i32 = original;
    let mut y: Box<i32> = Box::new(x);
    overwrite(&mut y, value);
    (x, y)
}

/// The line that shows the integer `value` that the owner reaches.
pub open spec fn points_to_line(value: int) -> Seq<char> {
    "`x` points to "@ + decimal(value)
}

/// The line that shows the plain integer `value` after its copy was changed.
pub open spec fn still_line(value: int) -> Seq<char> {
    "x is still "@ + decimal(value)
}

/// The line that shows what `owner` reaches.
fn show_points_to(owner: &Box<i32>) -> (line: String)
    ensures
        line@ == points_to_line(**owner as int),
{
    let mut line = String::from_str("`x` points to ");
    push_decimal(&mut line, read(owner) as i64);
    line
}

/// A box is made around 75 and read.
pub fn first_box() -> (line: String)
    ensures
        line@ == points_to_line(75),
{
    let x: Box<i32> = Box::new(75);
    show_points_to(&x)
}

/// An owner of a box around 74 takes a box around 42 in its place and is
/// read; then 43 is written into the box that it holds now, and it is read
/// again.
pub fn reassigned_box() -> (lines: Vec<String>)
    ensures
        lines@.len() == 2,
        texts(lines@) == seq![points_to_line(42), points_to_line(43)],
{
    let y: Box<i32> = Box::new(42);
    let mut x: Box<i32> = Box::new(74);
    let mut lines: Vec<String> = Vec::new();

    reassign(&mut x, y);
    lines.push(show_points_to(&x));

    overwrite(&mut x, 43);
    lines.push(show_points_to(&x));

    assert(texts(lines@) =~= seq![points_to_line(42), points_to_line(43)]);
    lines
}

/// The plain integer 3 is boxed, 45 is written into the box, and the plain
/// integer is shown.
pub fn boxed_copy() -> (line: String)
    ensures
        line@ == still_line(3),
{
    let (x, _y) = overwrite_boxed_copy(3, 45);
    let mut line = String::from_str("x is still ");
    push_decimal(&mut line, x as i64);
    line
}

/// The study as a whole: the first box, the reassigned box before and after
/// it is changed in place, and the plain integer whose boxed copy was
/// changed.
pub fn transcript() -> (lines: Vec<String>)
    ensures
        lines@.len() == 4,
        texts(lines@) == seq![
            "`x` points to 75"@,
            "`x` points to 42"@,
            "`x` points to 43"@,
            "x is still 3"@,
        ],
{
    let mut lines: Vec<String> = Vec::new();
    lines.push(first_box());
    let mut middle = reassigned_box();
    let ghost shown = middle@;
    lines.append(&mut middle);
    lines.push(boxed_copy());
    proof {
        reveal_strlit("`x` points to ");
        reveal_strlit("`x` points to 75");
        reveal_strlit("`x` points to 42");
        reveal_strlit("`x` points to 43");
        reveal_strlit("x is still ");
        reveal_strlit("x is still 3");
        assert(decimal(75) =~= seq!['7', '5']) by {
            assert(unsigned_decimal(7) =~= seq!['7']);
        }
        assert(decimal(42) =~= seq!['4', '2']) by {
            assert(unsigned_decimal(4) =~= seq!['4']);
        }
        assert(decimal(43) =~= seq!['4', '3']) by {
            assert(unsigned_decimal(4) =~= seq!['4']);
        }
        assert(decimal(3) =~= seq!['3']);
        assert(points_to_line(75) =~= "`x` points to 75"@);
        assert(points_to_line(42) =~= "`x` points to 42"@);
        assert(points_to_line(43) =~= "`x` points to 43"@);
        assert(still_line(3) =~= "x is still 3"@);
        assert(texts(shown).len() == 2);
        assert(texts(shown)[0] == points_to_line(42));
        assert(texts(shown)[1] == points_to_line(43));
        assert(texts(lines@) =~= seq![
            "`x` points to 75"@,
            "`x` points to 42"@,
            "`x` points to 43"@,
            "x is still 3"@,
        ]);
    }
    lines
}

} // verus!
