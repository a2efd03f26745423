//! The sample data model the demonstration application feeds the table:
//! five columns of fixed default widths and deterministically generated
//! rows.

use vstd::prelude::*;
use crate::layout::ColumnSizing;

verus! {

/// The category a sample row belongs to.
#[derive(Clone, Copy, Debug, PartialEq, Eq, Structural)]
pub enum Category {
    A,
    B,
    C,
    D,
    E,
}

/// The one-letter label of a category.
pub open spec fn category_label(c: Category) -> Seq<char> {
    match c {
        Category::A => "A"@,
        Category::B => "B"@,
        Category::C => "C"@,
        Category::D => "D"@,
        Category::E => "E"@,
    }
}

impl Category {
    /// The one-letter label shown for this category.
    pub fn label(&self) -> (r: &'static str)
        ensures
            r@ == category_label(*self),
    {
        match self {
            Category::A => "A",
            Category::B => "B",
            Category::C => "C",
            Category::D => "D",
            Category::E => "E",
        }
    }
}

/// The category of the generated row at `index`: the five categories cycle.
pub open spec fn generated_category(index: int) -> Category {
    if index % 5 == 0 {
        Category::A
    } else if index % 5 == 1 {
        Category::B
    } else if index % 5 == 2 {
        Category::C
    } else if index % 5 == 3 {
        Category::D
    } else {
        Category::E
    }
}

/// One sample row: free-form notes, a category, and an enabled flag.
#[derive(Clone, Debug, PartialEq, Eq)]
pub struct Row {
    pub notes: String,
    pub category: Category,
    pub is_enabled: bool,
}

impl Row {
    /// The deterministic sample row at `index`: empty notes, the categories
    /// cycling through all five, and every fifth row disabled.
    pub fn generate(index: usize) -> (r: Row)
        ensures
            r.notes@ == Seq::<char>::empty(),
            r.category == generated_category(index as int),
            r.is_enabled == (index % 5 < 4),
    {
        let m = index % 5;
        let category = if m == 0 {
            Category::A
        } else if m == 1 {
            Category::B
        } else if m == 2 {
            Category::C
        } else if m == 3 {
            Category::D
        } else {
            Category::E
        };
        let is_enabled = m < 4;
        Row { notes: String::new(), category, is_enabled }
    }
}

/// How many of the given rows are enabled.
pub open spec fn enabled_count(rows: Seq<Row>) -> int
    decreases rows.len(),
{
    if rows.len() == 0 {
        0
    } else {
        enabled_count(rows.drop_last()) + if rows.last().is_enabled {
            1int
        } else {
            0int
        }
    }
}

/// The enabled count never exceeds the number of rows.
proof fn lemma_enabled_count_bound(rows: Seq<Row>)
    ensures
        0 <= enabled_count(rows) <= rows.len(),
    decreases rows.len(),
{
    if rows.len() > 0 {
        lemma_enabled_count_bound(rows.drop_last());
    }
}

/// The aggregate the sample footer shows: the number of enabled rows.
pub fn count_enabled(rows: &Vec<Row>) -> (n: usize)
    ensures
        n == enabled_count(rows@),
{
    let mut n: usize = 0;
    let len = rows.len();
    for i in 0..len
        invariant
            len == rows@.len(),
            n == enabled_count(rows@.take(i as int)),
            n <= i,
    {
        proof {
            assert(rows@.take(i + 1 as int).drop_last() =~= rows@.take(i as int));
            assert(rows@.take(i + 1 as int).last() == rows@[i as int]);
            lemma_enabled_count_bound(rows@.take(i as int));
        }
        if rows[i].is_enabled {
            n = n + 1;
        }
    }
    proof {
        assert(rows@.take(len as int) =~= rows@);
    }
    n
}

/// What each sample column shows.
#[derive(Clone, Copy, Debug, PartialEq, Eq, Structural)]
pub enum ColumnKind {
    Index,
    Category,
    Enabled,
    Notes,
    Delete,
}

/// The default width of a sample column of the given kind.
pub open spec fn default_width(kind: ColumnKind) -> int {
    match kind {
        ColumnKind::Index => 60,
        ColumnKind::Category => 100,
        ColumnKind::Enabled => 155,
        ColumnKind::Notes => 400,
        ColumnKind::Delete => 100,
    }
}

/// One sample column: its kind plus the sizing state the table reads.
#[derive(Clone, Copy, Debug, PartialEq, Eq)]
pub struct Column {
    pub kind: ColumnKind,
    pub width: i32,
    pub resize_offset: Option<i32>,
}

impl Column {
    /// A sample column of the given kind at its default width, with no drag
    /// in progress.
    pub fn new(kind: ColumnKind) -> (c: Column)
        ensures
            c.kind == kind,
            c.width == default_width(kind),
            c.resize_offset is None,
    {
        let width: i32 = match kind {
            ColumnKind::Index => 60,
            ColumnKind::Category => 100,
            ColumnKind::Enabled => 155,
            ColumnKind::Notes => 400,
            ColumnKind::Delete => 100,
        };
        Column { kind, width, resize_offset: None }
    }

    /// The sizing state the table composer reads from this column.
    pub fn sizing(&self) -> (s: ColumnSizing)
        ensures
            s.width == self.width,
            s.resize_offset == self.resize_offset,
    {
        ColumnSizing { width: self.width, resize_offset: self.resize_offset }
    }
}

} // verus!
