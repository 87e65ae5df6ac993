use vstd::prelude::*;

verus! {

/// Cursor state of a table widget: at most one selected row index.
#[derive(Clone, Copy)]
pub struct TableState {
    selected: Option<usize>,
}

impl TableState {
    /// The selected row index, if any.
    pub closed spec fn spec_selected(&self) -> Option<usize> {
        self.selected
    }

    pub fn selected(&self) -> (r: Option<usize>)
        ensures
            r == self.spec_selected(),
    {
        self.selected
    }

    pub fn select(&mut self, index: Option<usize>)
        ensures
            final(self).spec_selected() == index,
    {
        self.selected = index;
    }
}

impl Default for TableState {
    /// A fresh table state has no row selected.
    fn default() -> (r: Self)
        ensures
            r.spec_selected() is None,
    {
        TableState { selected: None }
    }
}

/// What one wraparound step forward does to the selection of a list with
/// `count` rows: an empty list is left alone, an unselected list selects the
/// first row, and a selected list moves down one row, wrapping to the top.
pub open spec fn advance_spec(sel: Option<int>, count: int) -> Option<int> {
    if count <= 0 {
        sel
    } else {
        match sel {
            None => Some(0int),
            Some(i) => if i + 1 >= count {
                Some(0int)
            } else {
                Some(i + 1)
            },
        }
    }
}

/// One wraparound step backward: the mirror image of `advance_spec`.
pub open spec fn retreat_spec(sel: Option<int>, count: int) -> Option<int> {
    if count <= 0 {
        sel
    } else {
        match sel {
            None => Some(0int),
            Some(i) => if i == 0 {
                Some(count - 1)
            } else {
                Some(i - 1)
            },
        }
    }
}

/// Ordered rows of display cells plus a selection cursor: the selectable-list
/// abstraction that every screen builds on. Insertion order is display order.
pub struct DataTable {
    pub table_state: TableState,
    pub table_items: Vec<Vec<String>>,
}

impl DataTable {
    /// The selection as a mathematical value.
    pub open spec fn sel(&self) -> Option<int> {
        match self.table_state.spec_selected() {
            None => None,
            Some(i) => Some(i as int),
        }
    }

    /// The selection points at a row, or at nothing; on an empty list any
    /// index is tolerated, since navigation leaves an empty list alone.
    pub open spec fn sel_in_range(&self) -> bool {
        match self.sel() {
            None => true,
            Some(i) => self.table_items.len() == 0 || i < self.table_items.len(),
        }
    }

    /// Move the selection one row down, wrapping to the first row.
    pub fn advance(&mut self)
        ensures
            final(self).table_items == old(self).table_items,
            final(self).sel() == advance_spec(old(self).sel(), old(self).table_items.len() as int),
            final(self).sel_in_range(),
    {
        let i: usize = match self.table_state.selected() {
            Some(i) => {
                let count = self.table_items.len();
                if count == 0 {
                    return ;
                } else if i >= count - 1 {
                    0
                } else {
                    i + 1
                }
            },
            None => {
                if self.table_items.len() == 0 {
                    return ;
                }
                0
            },
        };
        self.table_state.select(Some(i));
    }

    /// Move the selection one row up, wrapping to the last row.
    pub fn retreat(&mut self)
        ensures
            final(self).table_items == old(self).table_items,
            final(self).sel() == retreat_spec(old(self).sel(), old(self).table_items.len() as int),
            old(self).sel_in_range() ==> final(self).sel_in_range(),
    {
        let i: usize = match self.table_state.selected() {
            Some(i) => {
                let count = self.table_items.len();
                if count == 0 {
                    return ;
                } else if i == 0 {
                    count - 1
                } else {
                    i - 1
                }
            },
            None => {
                if self.table_items.len() == 0 {
                    return ;
                }
                0
            },
        };
        self.table_state.select(Some(i));
    }
}

impl Default for DataTable {
    /// A fresh table has no rows and no selection.
    fn default() -> (r: Self)
        ensures
            r.sel() is None,
            r.table_items.len() == 0,
    {
        DataTable { table_state: TableState::default(), table_items: Vec::new() }
    }
}

/// `n` forward steps in a row, as a mathematical value.
pub open spec fn advance_n_spec(sel: Option<int>, count: int, n: nat) -> Option<int>
    decreases n,
{
    if n == 0 {
        sel
    } else {
        advance_spec(advance_n_spec(sel, count, (n - 1) as nat), count)
    }
}

/// Stepping forward never leaves the list: starting from row `i` of a list
/// with `count` rows, `k` steps with `i + k < count` land on row `i + k`.
proof fn lemma_advance_straight(i: int, count: int, k: nat)
    requires
        0 <= i,
        i + k < count,
    ensures
        advance_n_spec(Some(i), count, k) == Some(i + k),
    decreases k,
{
    if k > 0 {
        lemma_advance_straight(i, count, (k - 1) as nat);
    }
}

/// Consecutive runs of forward steps compose: `a + b` steps are `a` steps
/// followed by `b` steps.
proof fn lemma_advance_n_add(sel: Option<int>, count: int, a: nat, b: nat)
    ensures
        advance_n_spec(sel, count, (a + b) as nat) == advance_n_spec(
            advance_n_spec(sel, count, a),
            count,
            b,
        ),
    decreases b,
{
    if b > 0 {
        lemma_advance_n_add(sel, count, a, (b - 1) as nat);
    }
}

/// Full-lap law: on a list with `count` rows, `count` consecutive forward
/// steps from any selected row return the selection to that row.
pub proof fn lemma_advance_full_lap(i: int, count: int)
    requires
        0 <= i < count,
    ensures
        advance_n_spec(Some(i), count, count as nat) == Some(i),
{
    // i .. count - 1 is count - 1 - i steps, one more wraps to row 0,
    // and the remaining i steps walk back down to row i.
    lemma_advance_straight(i, count, (count - 1 - i) as nat);
    lemma_advance_n_add(Some(i), count, (count - 1 - i) as nat, 1);
    lemma_advance_straight(0, count, i as nat);
    lemma_advance_n_add(Some(i), count, (count - i) as nat, i as nat);
}

/// Forward steps from an empty selection: the first step selects row 0, so
/// `n` steps from nothing land on row 0 only for `n <= 1` (and an empty
/// list is never touched at all).
pub proof fn lemma_advance_from_none(count: int, n: nat)
    requires
        n <= 1,
    ensures
        count == 0 ==> advance_n_spec(None, count, n) is None,
        count > 0 && n == 1 ==> advance_n_spec(None, count, n) == Some(0int),
        n == 0 ==> advance_n_spec(None, count, n) is None,
{
    if n == 1 {
        assert(advance_n_spec(None, count, 1) == advance_spec(
            advance_n_spec(None, count, 0),
            count,
        ));
    }
}

/// A backward step immediately after a forward step restores the selection,
/// from any selected row of a list with at least one row.
pub proof fn lemma_retreat_undoes_advance(i: int, count: int)
    requires
        0 <= i < count,
    ensures
        retreat_spec(advance_spec(Some(i), count), count) == Some(i),
{
}

} // verus!
