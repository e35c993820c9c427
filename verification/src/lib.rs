//! A fixed-capacity, ordered table of the twelve calendar month names.
//!
//! The table is built once, holds exactly twelve immutable text values in
//! calendar order (January at index 0 through December at index 11), and is
//! read back by position. Formatting of the diagnostic report lines is done
//! here too, so that the order and content of the output are proved; only the
//! printing itself, and the machine-dependent address values, live outside.

use vstd::prelude::*;

verus! {

/// Number of entries the table holds: one per calendar month.
pub const MONTH_COUNT: usize = 12;

/// The calendar month name that belongs at position `i`, with January at 0
/// and December at 11. Positions outside that range carry the empty sequence.
pub open spec fn month_name(i: int) -> Seq<char> {
    if i == 0 {
        "January"@
    } else if i == 1 {
        "February"@
    } else if i == 2 {
        "March"@
    } else if i == 3 {
        "April"@
    } else if i == 4 {
        "May"@
    } else if i == 5 {
        "June"@
    } else if i == 6 {
        "July"@
    } else if i == 7 {
        "August"@
    } else if i == 8 {
        "September"@
    } else if i == 9 {
        "October"@
    } else if i == 10 {
        "November"@
    } else if i == 11 {
        "December"@
    } else {
        Seq::empty()
    }
}

/// The one failure the table can report: a read at a position outside
/// `[0, MONTH_COUNT)`.
#[derive(Clone, Copy, Debug, PartialEq, Eq, Structural)]
pub enum TableError {
    IndexOutOfRange,
}

/// An ordered, fixed-length collection of the twelve month names, readable
/// by zero-based index. Constructed once and never mutated.
pub struct FixedStringTable {
    months: Vec<String>,
}

impl View for FixedStringTable {
    type V = Seq<Seq<char>>;

    closed spec fn view(&self) -> Seq<Seq<char>> {
        self.months.deep_view()
    }
}

impl FixedStringTable {
    /// The table's invariant: exactly twelve entries, each the month name
    /// that calendar order puts at its index.
    pub open spec fn wf(&self) -> bool {
        &&& self@.len() == MONTH_COUNT
        &&& forall|i: int| 0 <= i < MONTH_COUNT ==> self@[i] == month_name(i)
    }

    /// Builds the table, pre-populated with the twelve month names in
    /// calendar order.
    pub fn construct() -> (t: FixedStringTable)
        ensures
            t.wf(),
    {
        let mut months: Vec<String> = Vec::new();
        months.push(String::from_str("January"));
        months.push(String::from_str("February"));
        months.push(String::from_str("March"));
        months.push(String::from_str("April"));
        months.push(String::from_str("May"));
        months.push(String::from_str("June"));
        months.push(String::from_str("July"));
        months.push(String::from_str("August"));
        months.push(String::from_str("September"));
        months.push(String::from_str("October"));
        months.push(String::from_str("November"));
        months.push(String::from_str("December"));
        let t = FixedStringTable { months };
        proof {
            assert forall|i: int| 0 <= i < MONTH_COUNT implies t@[i] == month_name(i) by {
                assert(t@[i] == t.months@[i]@);
            }
        }
        t
    }

    /// Returns the month name at `index`. Out-of-range indices are a caller
    /// error and are excluded by the precondition; `try_get` reports them
    /// instead.
    pub fn get(&self, index: usize) -> (name: &str)
        requires
            self.wf(),
            index < MONTH_COUNT,
        ensures
            name@ == month_name(index as int),
    {
        self.months[index].as_str()
    }

    /// Returns the month name at `index`, or `IndexOutOfRange` when `index`
    /// is not a valid position; success exactly on indices below twelve.
    pub fn try_get(&self, index: usize) -> (r: Result<&str, TableError>)
        requires
            self.wf(),
        ensures
            index < MONTH_COUNT <==> r is Ok,
            r is Ok ==> r->Ok_0@ == month_name(index as int),
            index >= MONTH_COUNT ==> r == Result::<&str, TableError>::Err(TableError::IndexOutOfRange),
    {
        if index < MONTH_COUNT {
            Ok(self.get(index))
        } else {
            Err(TableError::IndexOutOfRange)
        }
    }

    /// The number of entries: always twelve.
    pub fn len(&self) -> (n: usize)
        requires
            self.wf(),
        ensures
            n == MONTH_COUNT,
    {
        self.months.len()
    }

    /// Scans the table front to back and renders one announcement line per
    /// entry: `"current month is: "` followed by the month name, in calendar
    /// order.
    pub fn month_lines(&self) -> (lines: Vec<String>)
        requires
            self.wf(),
        ensures
            lines@.len() == MONTH_COUNT,
            forall|i: int|
                0 <= i < MONTH_COUNT ==> lines@[i]@ == "current month is: "@ + month_name(i),
    {
        let mut lines: Vec<String> = Vec::new();
        let mut index: usize = 0;
        while index < MONTH_COUNT
            invariant
                self.wf(),
                index <= MONTH_COUNT,
                lines@.len() == index,
                forall|i: int|
                    0 <= i < index ==> lines@[i]@ == "current month is: "@ + month_name(i),
            decreases MONTH_COUNT - index,
        {
            let line = String::from_str("current month is: ").concat(self.get(index));
            lines.push(line);
            index = index + 1;
        }
        lines
    }

    /// Renders the full diagnostic report: for each entry in calendar order,
    /// its announcement line, then a line carrying the caller-supplied
    /// storage-location marker of the entry itself, then one for its
    /// character data. The marker texts are opaque diagnostics; only their
    /// placement is promised.
    pub fn report_lines(&self, stack_marks: &Vec<String>, heap_marks: &Vec<String>) -> (lines: Vec<
        String,
    >)
        requires
            self.wf(),
            stack_marks@.len() == MONTH_COUNT,
            heap_marks@.len() == MONTH_COUNT,
        ensures
            lines@.len() == 3 * MONTH_COUNT,
            forall|i: int|
                0 <= i < MONTH_COUNT ==> lines@[3 * i]@ == "current month is: "@ + month_name(i),
            forall|i: int|
                0 <= i < MONTH_COUNT ==> lines@[3 * i + 1]@ == "data address on stack : "@
                    + stack_marks@[i]@,
            forall|i: int|
                0 <= i < MONTH_COUNT ==> lines@[3 * i + 2]@ == "data address on heap  : "@
                    + heap_marks@[i]@,
    {
        let mut lines: Vec<String> = Vec::new();
        let mut index: usize = 0;
        while index < MONTH_COUNT
            invariant
                self.wf(),
                stack_marks@.len() == MONTH_COUNT,
                heap_marks@.len() == MONTH_COUNT,
                index <= MONTH_COUNT,
                lines@.len() == 3 * index,
                forall|i: int|
                    0 <= i < index ==> lines@[3 * i]@ == "current month is: "@ + month_name(i),
                forall|i: int|
                    0 <= i < index ==> lines@[3 * i + 1]@ == "data address on stack : "@
                        + stack_marks@[i]@,
                forall|i: int|
                    0 <= i < index ==> lines@[3 * i + 2]@ == "data address on heap  : "@
                        + heap_marks@[i]@,
            decreases MONTH_COUNT - index,
        {
            lines.push(String::from_str("current month is: ").concat(self.get(index)));
            lines.push(String::from_str("data address on stack : ").concat(stack_marks[index].as_str()));
            lines.push(String::from_str("data address on heap  : ").concat(heap_marks[index].as_str()));
            index = index + 1;
        }
        lines
    }
}

/// The twelve month names are pairwise distinct: no name appears at two
/// positions of the table.
pub proof fn lemma_month_names_distinct()
    ensures
        forall|i: int, j: int|
            0 <= i < MONTH_COUNT && 0 <= j < MONTH_COUNT && i != j ==> month_name(i)
                != month_name(j),
{
    reveal_strlit("January");
    reveal_strlit("February");
    reveal_strlit("March");
    reveal_strlit("April");
    reveal_strlit("May");
    reveal_strlit("June");
    reveal_strlit("July");
    reveal_strlit("August");
    reveal_strlit("September");
    reveal_strlit("October");
    reveal_strlit("November");
    reveal_strlit("December");
    assert forall|i: int, j: int|
        0 <= i < MONTH_COUNT && 0 <= j < MONTH_COUNT && i != j implies month_name(i)
        != month_name(j) by {
        if month_name(i).len() == month_name(j).len() {
            assert(month_name(i)[2] != month_name(j)[2] || month_name(i)[0] != month_name(j)[0]);
        }
    }
}

/// Scanning any well-formed table from index 0 to 11 ascending visits every
/// month exactly once, in calendar order; and the sequence of names read is
/// the same for every table, hence identical across repeated runs.
pub proof fn lemma_scan_calendar_order(t1: &FixedStringTable, t2: &FixedStringTable)
    requires
        t1.wf(),
        t2.wf(),
    ensures
        t1@.len() == MONTH_COUNT,
        forall|i: int| 0 <= i < MONTH_COUNT ==> t1@[i] == month_name(i),
        forall|i: int, j: int|
            0 <= i < MONTH_COUNT && 0 <= j < MONTH_COUNT && i != j ==> t1@[i] != t1@[j],
        t1@ =~= t2@,
{
    lemma_month_names_distinct();
    assert forall|i: int, j: int|
        0 <= i < MONTH_COUNT && 0 <= j < MONTH_COUNT && i != j implies t1@[i] != t1@[j] by {
        assert(t1@[i] == month_name(i));
        assert(t1@[j] == month_name(j));
    }
    assert forall|i: int| 0 <= i < t1@.len() implies t1@[i] == t2@[i] by {
        assert(t1@[i] == month_name(i));
        assert(t2@[i] == month_name(i));
    }
}

/// Round trip: every entry read back from a constructed table is, character
/// for character, the month name the table was built from; nothing is
/// transformed or truncated on the way in or out.
pub proof fn lemma_round_trip(t: &FixedStringTable, i: int)
    requires
        t.wf(),
        0 <= i < MONTH_COUNT,
    ensures
        t@[i] == month_name(i),
{
}

} // verus!
