//! A record behind a shared cell.
//!
//! The cell is held through handles, and every handle reaches the same
//! record. The record is read through read-only views and changed through a
//! mutable view. Any number of read-only views may be out at once, or one
//! mutable view, never both: the rule is checked when a view is taken, not
//! when the program is built. A caller asks `can_borrow` or `can_borrow_mut`
//! first; taking a view that the rule refuses is outside every contract here.
//! When the last handle goes, nothing reaches the record any more.

use vstd::prelude::*;
use vstd::string::StringExecFns;
use crate::text::{decimal, push_decimal, texts, unsigned_decimal};

verus! {

/// The record that the cell holds.
#[derive(Clone, Copy, Debug, PartialEq, Eq, Structural)]
pub struct Record {
    pub field: i32,
}

/// The value that the helper writes into the record.
pub const HELPER_VALUE: i32 = 45;

/// What a shared cell is at one moment.
pub struct CellState {
    /// The record's field.
    pub field: int,
    /// How many handles reach the cell.
    pub handles: nat,
    /// How many read-only views are out.
    pub readers: nat,
    /// Whether the mutable view is out.
    pub writing: bool,
}

impl CellState {
    /// The counts and the field fit their machine types, the mutable view is
    /// never out together with a read-only one, and a view is out only while
    /// a handle reaches the cell.
    pub open spec fn wf(self) -> bool {
        &&& self.handles <= usize::MAX
        &&& self.readers <= usize::MAX
        &&& i32::MIN <= self.field <= i32::MAX
        &&& self.writing ==> self.readers == 0
        &&& !self.live() ==> self.readers == 0 && !self.writing
    }

    /// Whether a handle reaches the cell. When the last handle has gone the
    /// record is gone with it.
    pub open spec fn live(self) -> bool {
        self.handles >= 1
    }

    /// A fresh cell around `field`: one handle, no view.
    pub open spec fn fresh(field: int) -> CellState {
        CellState { field, handles: 1, readers: 0, writing: false }
    }

    /// Whether one more handle can be made: from a handle that is there.
    pub open spec fn can_clone_handle(self) -> bool {
        1 <= self.handles < usize::MAX
    }

    /// The cell with one more handle.
    pub open spec fn clone_handle(self) -> CellState {
        CellState { handles: self.handles + 1, ..self }
    }

    /// Whether a handle can go: there is one, and where it is the last no
    /// view is out through it.
    pub open spec fn can_drop_handle(self) -> bool {
        &&& self.live()
        &&& self.handles == 1 ==> self.readers == 0 && !self.writing
    }

    /// The cell with one handle fewer.
    pub open spec fn drop_handle(self) -> CellState {
        CellState { handles: (self.handles - 1) as nat, ..self }
    }

    /// Whether a read-only view may be taken: a handle reaches the cell and
    /// the mutable view is not out.
    pub open spec fn can_borrow(self) -> bool {
        self.live() && !self.writing && self.readers < usize::MAX
    }

    /// The cell with one more read-only view out.
    pub open spec fn borrow(self) -> CellState {
        CellState { readers: self.readers + 1, ..self }
    }

    /// The cell with one read-only view given back.
    pub open spec fn release(self) -> CellState {
        CellState { readers: (self.readers - 1) as nat, ..self }
    }

    /// Whether the mutable view may be taken: a handle reaches the cell and
    /// no view of either kind is out.
    pub open spec fn can_borrow_mut(self) -> bool {
        self.live() && !self.writing && self.readers == 0
    }

    /// The cell with the mutable view out.
    pub open spec fn borrow_mut(self) -> CellState {
        CellState { writing: true, ..self }
    }

    /// The cell with the mutable view given back.
    pub open spec fn release_mut(self) -> CellState {
        CellState { writing: false, ..self }
    }

    /// Whether the record can be read: some view is out.
    pub open spec fn readable(self) -> bool {
        self.writing || self.readers > 0
    }

    /// The cell with `field` written into the record.
    pub open spec fn set_field(self, field: int) -> CellState {
        CellState { field, ..self }
    }

    /// The cell after `n` read-only views were taken one after another.
    pub open spec fn borrow_n(self, n: nat) -> CellState
        decreases n,
    {
        if n == 0 {
            self
        } else {
            self.borrow_n((n - 1) as nat).borrow()
        }
    }

    /// The cell after `n` read-only views were given back one after another.
    pub open spec fn release_n(self, n: nat) -> CellState
        decreases n,
    {
        if n == 0 {
            self
        } else {
            self.release_n((n - 1) as nat).release()
        }
    }

    /// The cell after the helper ran on one of its handles: the field holds
    /// the helper's value, and the helper's handle is gone. Where that was
    /// the only handle, nothing reaches the record any more.
    pub open spec fn after_helper(self) -> CellState {
        CellState { field: HELPER_VALUE as int, handles: (self.handles - 1) as nat, ..self }
    }
}

/// A shared cell around one record.
pub struct SharedCell {
    record: Record,
    handles: usize,
    readers: usize,
    writing: bool,
}

impl View for SharedCell {
    type V = CellState;

    closed spec fn view(&self) -> CellState {
        CellState {
            field: self.record.field as int,
            handles: self.handles as nat,
            readers: self.readers as nat,
            writing: self.writing,
        }
    }
}

impl SharedCell {
    /// Whether the cell is in a state that its own operations can reach.
    pub open spec fn wf(&self) -> bool {
        self@.wf()
    }

    /// Wraps `record` in a fresh cell with one handle.
    pub fn new(record: Record) -> (cell: SharedCell)
        ensures
            cell.wf(),
            cell@ == CellState::fresh(record.field as int),
    {
        SharedCell { record, handles: 1, readers: 0, writing: false }
    }

    /// Tells whether a handle still reaches the cell.
    pub fn is_live(&self) -> (ok: bool)
        ensures
            ok == self@.live(),
    {
        self.handles >= 1
    }

    /// Tells whether `clone_handle` may be called.
    pub fn can_clone_handle(&self) -> (ok: bool)
        ensures
            ok == self@.can_clone_handle(),
    {
        1 <= self.handles && self.handles < usize::MAX
    }

    /// Makes one more handle to the same record.
    pub fn clone_handle(&mut self)
        requires
            old(self).wf(),
            old(self)@.can_clone_handle(),
        ensures
            final(self).wf(),
            final(self)@ == old(self)@.clone_handle(),
    {
        self.handles = self.handles + 1;
    }

    /// Tells whether `drop_handle` may be called.
    pub fn can_drop_handle(&self) -> (ok: bool)
        ensures
            ok == self@.can_drop_handle(),
    {
        self.handles >= 2 || (self.handles == 1 && self.readers == 0 && !self.writing)
    }

    /// Lets one handle go. After the last one no handle reaches the record.
    pub fn drop_handle(&mut self)
        requires
            old(self).wf(),
            old(self)@.can_drop_handle(),
        ensures
            final(self).wf(),
            final(self)@ == old(self)@.drop_handle(),
    {
        self.handles = self.handles - 1;
    }

    /// Tells whether a read-only view may be taken now.
    pub fn can_borrow(&self) -> (ok: bool)
        ensures
            ok == self@.can_borrow(),
    {
        self.handles >= 1 && !self.writing && self.readers < usize::MAX
    }

    /// Takes a read-only view.
    pub fn borrow(&mut self)
        requires
            old(self).wf(),
            old(self)@.can_borrow(),
        ensures
            final(self).wf(),
            final(self)@ == old(self)@.borrow(),
    {
        self.readers = self.readers + 1;
    }

    /// Gives a read-only view back.
    pub fn release(&mut self)
        requires
            old(self).wf(),
            old(self)@.readers > 0,
        ensures
            final(self).wf(),
            final(self)@ == old(self)@.release(),
    {
        self.readers = self.readers - 1;
    }

    /// Tells whether the mutable view may be taken now.
    pub fn can_borrow_mut(&self) -> (ok: bool)
        ensures
            ok == self@.can_borrow_mut(),
    {
        self.handles >= 1 && !self.writing && self.readers == 0
    }

    /// Takes the mutable view.
    pub fn borrow_mut(&mut self)
        requires
            old(self).wf(),
            old(self)@.can_borrow_mut(),
        ensures
            final(self).wf(),
            final(self)@ == old(self)@.borrow_mut(),
    {
        self.writing = true;
    }

    /// Gives the mutable view back.
    pub fn release_mut(&mut self)
        requires
            old(self).wf(),
            old(self)@.writing,
        ensures
            final(self).wf(),
            final(self)@ == old(self)@.release_mut(),
    {
        self.writing = false;
    }

    /// Reads the record's field through a view that is out.
    pub fn field(&self) -> (value: i32)
        requires
            self.wf(),
            self@.readable(),
        ensures
            value == self@.field,
    {
        self.record.field
    }

    /// Writes the record's field through the mutable view.
    pub fn set_field(&mut self, value: i32)
        requires
            old(self).wf(),
            old(self)@.writing,
        ensures
            final(self).wf(),
            final(self)@ == old(self)@.set_field(value as int),
    {
        self.record.field = value;
    }

    /// How many handles reach the cell.
    pub fn handles(&self) -> (n: usize)
        ensures
            n == self@.handles,
    {
        self.handles
    }

    /// How many read-only views are out.
    pub fn readers(&self) -> (n: usize)
        ensures
            n == self@.readers,
    {
        self.readers
    }

    /// Whether the mutable view is out.
    pub fn is_writing(&self) -> (b: bool)
        ensures
            b == self@.writing,
    {
        self.writing
    }
}

/// The line that shows two readings `first` and `second` of the field.
pub open spec fn twice_line(first: int, second: int) -> Seq<char> {
    "the field, twice "@ + decimal(first) + " "@ + decimal(second)
}

/// The line that shows one reading `value` of the field.
pub open spec fn field_line(value: int) -> Seq<char> {
    "The field "@ + decimal(value)
}

/// The line that shows one reading of the field.
fn show_field(value: i32) -> (line: String)
    ensures
        line@ == field_line(value as int),
{
    let mut line = String::from_str("The field ");
    push_decimal(&mut line, value as i64);
    line
}

/// The helper: it holds one handle of the cell, the only one or one of
/// several. It takes two read-only views at once and reads the field through
/// each, gives both back, then takes the mutable view, writes `HELPER_VALUE`
/// and reads it again. Its handle goes when it ends. It returns its two
/// lines: the two readings, then the field as written.
pub fn read_twice_then_write(cell: &mut SharedCell) -> (lines: Vec<String>)
    requires
        old(cell).wf(),
        old(cell)@.can_borrow_mut(),
    ensures
        final(cell).wf(),
        final(cell)@ == old(cell)@.after_helper(),
        lines@.len() == 2,
        texts(lines@) == seq![
            twice_line(old(cell)@.field, old(cell)@.field),
            field_line(HELPER_VALUE as int),
        ],
{
    let mut lines: Vec<String> = Vec::new();

    cell.borrow();
    let first: i32 = cell.field();
    cell.borrow();
    let second: i32 = cell.field();
    let mut line = String::from_str("the field, twice ");
    push_decimal(&mut line, first as i64);
    line.append(" ");
    push_decimal(&mut line, second as i64);
    assert(line@ =~= twice_line(old(cell)@.field, old(cell)@.field));
    lines.push(line);
    cell.release();
    cell.release();

    cell.borrow_mut();
    cell.set_field(HELPER_VALUE);
    let written: i32 = cell.field();
    lines.push(show_field(written));
    cell.release_mut();

    cell.drop_handle();
    assert(texts(lines@) =~= seq![
        twice_line(old(cell)@.field, old(cell)@.field),
        field_line(HELPER_VALUE as int),
    ]);
    lines
}

/// The study as a whole: a record with the field 12 goes into a cell, the
/// helper runs on a second handle, and the first handle reads what the
/// helper wrote.
pub fn transcript() -> (lines: Vec<String>)
    ensures
        lines@.len() == 3,
        texts(lines@) == seq!["the field, twice 12 12"@, "The field 45"@, "The field 45"@],
{
    let mut cell = SharedCell::new(Record { field: 12 });
    cell.clone_handle();
    let mut lines = read_twice_then_write(&mut cell);
    let ghost from_helper = lines@;

    cell.borrow();
    let seen: i32 = cell.field();
    cell.release();
    lines.push(show_field(seen));

    proof {
        reveal_strlit("the field, twice 12 12");
        reveal_strlit("the field, twice ");
        reveal_strlit(" ");
        reveal_strlit("The field 45");
        reveal_strlit("The field ");
        assert(decimal(12) =~= seq!['1', '2']) by {
            assert(unsigned_decimal(1) =~= seq!['1']);
        }
        assert(decimal(45) =~= seq!['4', '5']) by {
            assert(unsigned_decimal(4) =~= seq!['4']);
        }
        assert(twice_line(12, 12) =~= "the field, twice 12 12"@);
        assert(field_line(45) =~= "The field 45"@);
        assert(texts(from_helper).len() == 2);
        assert(texts(from_helper)[0] == twice_line(12, 12));
        assert(texts(from_helper)[1] == field_line(45));
        assert(texts(lines@) =~= seq![
            "the field, twice 12 12"@,
            "The field 45"@,
            "The field 45"@,
        ]);
    }
    lines
}

/// Read-only views coexist: from a cell that a handle reaches and whose
/// mutable view is not out, `n` read-only views can be taken one after
/// another, each of them allowed, and the record is the same throughout.
/// When all `n` have been given back the cell is as it was.
pub proof fn lemma_read_views_coexist(s: CellState, n: nat)
    requires
        s.wf(),
        s.live(),
        !s.writing,
        s.readers + n <= usize::MAX,
    ensures
        forall|k: nat| k < n ==> (#[trigger] s.borrow_n(k)).can_borrow(),
        forall|k: nat| k <= n ==> (#[trigger] s.borrow_n(k)).wf(),
        s.borrow_n(n) == (CellState { readers: s.readers + n, ..s }),
        s.borrow_n(n).release_n(n) == s,
{
    lemma_borrow_n(s, n);
    lemma_release_n(s.borrow_n(n), n);
    assert forall|k: nat| k <= n implies (#[trigger] s.borrow_n(k)).wf() && (k < n ==> s.borrow_n(
        k,
    ).can_borrow()) by {
        lemma_borrow_n(s, k);
    }
}

/// The mutable view waits for the read-only ones: while any of `n` read-only
/// views is out the mutable view is refused, and once all of them have been
/// given back it is allowed.
pub proof fn lemma_mutable_view_after_reads(s: CellState, n: nat)
    requires
        s.wf(),
        s.can_borrow_mut(),
        n <= usize::MAX,
    ensures
        forall|k: nat| 1 <= k <= n ==> !(#[trigger] s.borrow_n(k)).can_borrow_mut(),
        forall|k: nat| k < n ==> !(#[trigger] s.borrow_n(n).release_n(k)).can_borrow_mut(),
        s.borrow_n(n).release_n(n).can_borrow_mut(),
        s.borrow_n(n).release_n(n).borrow_mut().wf(),
{
    lemma_read_views_coexist(s, n);
    assert forall|k: nat| 1 <= k <= n implies !(#[trigger] s.borrow_n(k)).can_borrow_mut() by {
        lemma_borrow_n(s, k);
    }
    assert forall|k: nat| k < n implies !(#[trigger] s.borrow_n(n).release_n(k)).can_borrow_mut() by {
        lemma_release_n(s.borrow_n(n), k);
    }
}

/// While the mutable view is out no other view is allowed, of either kind.
pub proof fn lemma_mutable_view_is_alone(s: CellState)
    requires
        s.wf(),
        s.can_borrow_mut(),
    ensures
        !s.borrow_mut().can_borrow(),
        !s.borrow_mut().can_borrow_mut(),
        s.borrow_mut().release_mut() == s,
{
}

/// What the helper does, on any cell with a handle and no view out: both of
/// its read-only views are allowed at once, the mutable view is allowed once
/// they are back, and the cell is left as after those steps, the write and
/// the loss of the helper's handle. What it wrote is what every other handle
/// reads afterwards: where another handle is left the cell can be read, and
/// the field read from it is the helper's value, whatever the field was
/// before. Where the helper held the only handle, none is left.
pub proof fn lemma_helper_write_is_shared(s: CellState)
    requires
        s.wf(),
        s.can_borrow_mut(),
    ensures
        s.can_borrow(),
        s.borrow().can_borrow(),
        s.borrow().borrow().release().release().can_borrow_mut(),
        s.borrow().borrow().release().release().borrow_mut().set_field(
            HELPER_VALUE as int,
        ).release_mut().can_drop_handle(),
        s.after_helper() == s.borrow().borrow().release().release().borrow_mut().set_field(
            HELPER_VALUE as int,
        ).release_mut().drop_handle(),
        s.after_helper().wf(),
        s.after_helper().field == HELPER_VALUE,
        s.handles >= 2 ==> s.after_helper().can_borrow()
            && s.after_helper().borrow().readable()
            && s.after_helper().borrow().field == HELPER_VALUE,
        s.handles == 1 ==> !s.after_helper().live(),
{
}

/// Taking `n` read-only views adds `n` to the count and changes nothing else.
proof fn lemma_borrow_n(s: CellState, n: nat)
    ensures
        s.borrow_n(n) == (CellState { readers: s.readers + n, ..s }),
    decreases n,
{
    if n > 0 {
        lemma_borrow_n(s, (n - 1) as nat);
    }
}

/// Giving `n` read-only views back takes `n` from the count and changes
/// nothing else.
proof fn lemma_release_n(s: CellState, n: nat)
    requires
        n <= s.readers,
    ensures
        s.release_n(n) == (CellState { readers: (s.readers - n) as nat, ..s }),
    decreases n,
{
    if n > 0 {
        lemma_release_n(s, (n - 1) as nat);
    }
}

} // verus!
