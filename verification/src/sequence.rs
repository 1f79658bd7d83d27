//! An owned sequence of integers: doubled in place through an exclusive
//! borrow, and read out line by line in five ways.
//!
//! Every reader takes the sequence by value. A caller that hands its sequence
//! to one reader has given it away, and the compiler refuses a second use of
//! the same binding.

use vstd::prelude::*;
use vstd::string::StringExecFns;
use crate::text::{decimal, push_decimal, push_unsigned, texts, unsigned_decimal};

verus! {

/// Whether twice each element of `s` is still an `i32`.
pub open spec fn doubles_fit(s: Seq<i32>) -> bool {
    forall|i: int| 0 <= i < s.len() ==> i32::MIN <= 2 * #[trigger] s[i] <= i32::MAX
}

/// The line for the element `value` at position `index`: the position, a
/// colon, the value.
pub open spec fn entry_line(index: nat, value: int) -> Seq<char> {
    unsigned_decimal(index) + seq![':'] + decimal(value)
}

/// Tells whether `double_all` may be called on `all`.
pub fn can_double_all(all: &Vec<i32>) -> (ok: bool)
    ensures
        ok == doubles_fit(all@),
{
    let mut i: usize = 0;
    while i < all.len()
        invariant
            i <= all.len(),
            doubles_fit(all@.subrange(0, i as int)),
        decreases all.len() - i,
    {
        let a: i32 = all[i];
        if a < i32::MIN / 2 || a > i32::MAX / 2 {
            assert(!(i32::MIN <= 2 * all@[i as int] <= i32::MAX));
            return false;
        }
        proof {
            let before = all@.subrange(0, i as int);
            let after = all@.subrange(0, i + 1);
            assert forall|k: int| 0 <= k < after.len() implies i32::MIN <= 2 * #[trigger] after[k]
                <= i32::MAX by {
                if k < i {
                    assert(after[k] == before[k]);
                }
            }
        }
        i += 1;
    }
    assert(all@.subrange(0, i as int) =~= all@);
    true
}

/// Doubles every element in place.
pub fn double_all(all: &mut Vec<i32>)
    requires
        doubles_fit(old(all)@),
    ensures
        final(all)@.len() == old(all)@.len(),
        forall|i: int| 0 <= i < old(all)@.len() ==> #[trigger] final(all)@[i] == 2 * old(all)@[i],
{
    let mut i: usize = 0;
    while i < all.len()
        invariant
            i <= all.len(),
            all@.len() == old(all)@.len(),
            doubles_fit(old(all)@),
            forall|k: int| 0 <= k < i ==> all@[k] == 2 * old(all)@[k],
            forall|k: int| i <= k < all@.len() ==> all@[k] == old(all)@[k],
        decreases all.len() - i,
    {
        let a: i32 = all[i];
        all.set(i, a + a);
        i += 1;
    }
}

/// The line that holds the decimal text of `value` and nothing else.
fn value_line(value: i32) -> (line: String)
    ensures
        line@ == decimal(value as int),
{
    let mut line = String::new();
    push_decimal(&mut line, value as i64);
    assert(line@ =~= decimal(value as int));
    line
}

/// The line that holds `index`, a colon and `value`.
fn entry(index: usize, value: i32) -> (line: String)
    ensures
        line@ == entry_line(index as nat, value as int),
{
    let mut line = String::new();
    push_unsigned(&mut line, index as u64);
    line.append(":");
    proof {
        reveal_strlit(":");
    }
    push_decimal(&mut line, value as i64);
    assert(line@ =~= entry_line(index as nat, value as int));
    line
}

/// Reads the sequence by taking each element out of it.
pub fn render_all(all: Vec<i32>) -> (lines: Vec<String>)
    ensures
        lines@.len() == all@.len(),
        forall|i: int| 0 <= i < all@.len() ==> (#[trigger] lines@[i])@ == decimal(all@[i] as int),
{
    let mut lines: Vec<String> = Vec::new();
    for a in it: all
        invariant
            lines@.len() == it.index(),
            forall|k: int| 0 <= k < lines@.len() ==> lines@[k]@ == decimal(it.seq()[k] as int),
    {
        lines.push(value_line(a));
    }
    lines
}

/// Reads the sequence through a shared borrow of the whole.
pub fn render_ref(all: Vec<i32>) -> (lines: Vec<String>)
    ensures
        lines@.len() == all@.len(),
        forall|i: int| 0 <= i < all@.len() ==> (#[trigger] lines@[i])@ == decimal(all@[i] as int),
{
    let mut lines: Vec<String> = Vec::new();
    for a in it: &all
        invariant
            lines@.len() == it.index(),
            forall|k: int| 0 <= k < lines@.len() ==> lines@[k]@ == decimal(*it.seq()[k] as int),
    {
        lines.push(value_line(*a));
    }
    lines
}

/// Reads the sequence through an iterator over borrowed elements.
pub fn render_all_iter(all: Vec<i32>) -> (lines: Vec<String>)
    ensures
        lines@.len() == all@.len(),
        forall|i: int| 0 <= i < all@.len() ==> (#[trigger] lines@[i])@ == decimal(all@[i] as int),
{
    let mut lines: Vec<String> = Vec::new();
    for a in it: all.iter()
        invariant
            lines@.len() == it.index(),
            forall|k: int| 0 <= k < lines@.len() ==> lines@[k]@ == decimal(*it.seq()[k] as int),
    {
        lines.push(value_line(*a));
    }
    lines
}

/// Reads the sequence by position, from the first to the last.
pub fn render_all_idx_len(all: Vec<i32>) -> (lines: Vec<String>)
    ensures
        lines@.len() == all@.len(),
        forall|i: int| 0 <= i < all@.len() ==> (#[trigger] lines@[i])@ == decimal(all@[i] as int),
{
    let mut lines: Vec<String> = Vec::new();
    for i in 0..all.len()
        invariant
            lines@.len() == i,
            forall|k: int| 0 <= k < lines@.len() ==> lines@[k]@ == decimal(all@[k] as int),
    {
        lines.push(value_line(all[i]));
    }
    lines
}

/// Reads the sequence through an iterator and gives each element with its
/// position.
pub fn render_all_iter_enumerate(all: Vec<i32>) -> (lines: Vec<String>)
    ensures
        lines@.len() == all@.len(),
        forall|i: int|
            0 <= i < all@.len() ==> (#[trigger] lines@[i])@ == entry_line(i as nat, all@[i] as int),
{
    let mut lines: Vec<String> = Vec::new();
    let mut i: usize = 0;
    for a in it: all.iter()
        invariant
            i == it.index(),
            it.seq().len() == all.len(),
            lines@.len() == it.index(),
            forall|k: int|
                0 <= k < lines@.len() ==> lines@[k]@ == entry_line(k as nat, *it.seq()[k] as int),
    {
        lines.push(entry(i, *a));
        i += 1;
    }
    lines
}

/// What is said of `x`: zero, one and ten have a name, any other number is
/// written out.
pub open spec fn some_line(x: int) -> Seq<char> {
    if x == 0 {
        "x is zero"@
    } else if x == 1 {
        "x is one"@
    } else if x == 10 {
        "x is ten"@
    } else {
        "x is something else "@ + decimal(x)
    }
}

/// Says which number `x` is.
pub fn render_some(x: i32) -> (line: String)
    ensures
        line@ == some_line(x as int),
{
    match x {
        0 => String::from_str("x is zero"),
        1 => String::from_str("x is one"),
        10 => String::from_str("x is ten"),
        y => {
            let mut line = String::from_str("x is something else ");
            push_decimal(&mut line, y as i64);
            line
        },
    }
}

/// The study as a whole: the sequence one to four is doubled in place and
/// read out with positions.
pub fn transcript() -> (lines: Vec<String>)
    ensures
        lines@.len() == 4,
        texts(lines@) == seq!["0:2"@, "1:4"@, "2:6"@, "3:8"@],
{
    let mut nums: Vec<i32> = vec![1, 2, 3, 4];
    double_all(&mut nums);
    assert(nums@[0] == 2 && nums@[1] == 4 && nums@[2] == 6 && nums@[3] == 8);
    let lines = render_all_iter_enumerate(nums);
    proof {
        reveal_strlit("0:2");
        reveal_strlit("1:4");
        reveal_strlit("2:6");
        reveal_strlit("3:8");
        assert(lines@[0]@ == entry_line(0, 2));
        assert(lines@[1]@ == entry_line(1, 4));
        assert(lines@[2]@ == entry_line(2, 6));
        assert(lines@[3]@ == entry_line(3, 8));
        assert(entry_line(0, 2) =~= "0:2"@);
        assert(entry_line(1, 4) =~= "1:4"@);
        assert(entry_line(2, 6) =~= "2:6"@);
        assert(entry_line(3, 8) =~= "3:8"@);
        assert(texts(lines@) =~= seq!["0:2"@, "1:4"@, "2:6"@, "3:8"@]);
    }
    lines
}

} // verus!
