//! The cursors of the lists and forms.

use vstd::prelude::*;

verus! {

/// One cursor per list and form.
#[derive(Clone, Copy, Debug, PartialEq, Eq, Structural)]
pub struct SelectionState {
    pub sites_list_index: usize,
    pub domains_list_index: usize,
    pub nodes_list_index: usize,
    pub form_field_index: usize,
    pub dns_records_index: usize,
}

/// Every cursor at the first position.
pub open spec fn all_first() -> SelectionState {
    SelectionState {
        sites_list_index: 0,
        domains_list_index: 0,
        nodes_list_index: 0,
        form_field_index: 0,
        dns_records_index: 0,
    }
}

/// A cursor is valid for a list if it points into it, or is zero where the
/// list is empty.
pub open spec fn cursor_valid(index: int, len: int) -> bool {
    if len == 0 {
        index == 0
    } else {
        0 <= index < len
    }
}

/// The cursor after a step forward, wrapping to the start; unchanged on an
/// empty list.
pub open spec fn cursor_next(index: int, len: int) -> int {
    if len > 0 {
        (index + 1) % len
    } else {
        index
    }
}

/// The cursor after a step back, wrapping to the end; unchanged on an empty
/// list.
pub open spec fn cursor_previous(index: int, len: int) -> int {
    if len > 0 {
        (index + len - 1) % len
    } else {
        index
    }
}

/// The cursor after the list shrank to a new length: where it was if that
/// still points into the list, else on the last item, or zero where the list
/// is now empty.
pub open spec fn cursor_clamped(index: int, len: int) -> int {
    if len == 0 {
        0
    } else if index >= len {
        len - 1
    } else {
        index
    }
}

/// The cursor after `steps` steps forward.
pub open spec fn cursor_after(index: int, len: int, steps: nat) -> int
    decreases steps,
{
    if steps == 0 {
        index
    } else {
        cursor_next(cursor_after(index, len, (steps - 1) as nat), len)
    }
}

/// Steps forward from a valid cursor on a list that is not empty add up
/// modulo the length of the list; from the first position the cursor stands
/// at the number of steps modulo the length.
pub proof fn lemma_cursor_after(index: int, len: int, steps: nat)
    requires
        len > 0,
        0 <= index < len,
    ensures
        cursor_after(index, len, steps) == (index + steps) % len,
        index == 0 ==> cursor_after(index, len, steps) == steps as int % len,
    decreases steps,
{
    if steps == 0 {
        assert(index % len == index) by (nonlinear_arith)
            requires
                0 <= index < len,
        ;
    } else {
        let before = (steps - 1) as nat;
        lemma_cursor_after(index, len, before);
        let a = index + before;
        assert(((a % len) + 1) % len == (a + 1) % len) by (nonlinear_arith)
            requires
                len > 0,
                a >= 0,
        ;
    }
}

/// On an empty list no number of steps moves the cursor.
pub proof fn lemma_cursor_after_empty(index: int, steps: nat)
    ensures
        cursor_after(index, 0, steps) == index,
    decreases steps,
{
    if steps > 0 {
        lemma_cursor_after_empty(index, (steps - 1) as nat);
    }
}

/// A step forward and a step back keep a valid cursor valid, and undo each
/// other.
pub proof fn lemma_cursor_steps(index: int, len: int)
    requires
        cursor_valid(index, len),
    ensures
        cursor_valid(cursor_next(index, len), len),
        cursor_valid(cursor_previous(index, len), len),
        cursor_previous(cursor_next(index, len), len) == index,
        cursor_next(cursor_previous(index, len), len) == index,
        len > 0 ==> cursor_next(index, len) == if index + 1 == len {
            0
        } else {
            index + 1
        },
        len > 0 ==> cursor_previous(index, len) == if index == 0 {
            len - 1
        } else {
            index - 1
        },
{
    if len > 0 {
        if index + 1 == len {
            assert((index + 1) % len == 0) by (nonlinear_arith)
                requires
                    index + 1 == len,
                    len > 0,
            ;
        } else {
            assert((index + 1) % len == index + 1) by (nonlinear_arith)
                requires
                    0 <= index + 1 < len,
            ;
        }
        if index == 0 {
            assert((index + len - 1) % len == len - 1) by (nonlinear_arith)
                requires
                    index == 0,
                    len > 0,
            ;
        } else {
            assert((index + len - 1) % len == index - 1) by (nonlinear_arith)
                requires
                    0 < index < len,
            ;
        }
        let n = cursor_next(index, len);
        let p = cursor_previous(index, len);
        if n == 0 {
            assert((n + len - 1) % len == len - 1) by (nonlinear_arith)
                requires
                    n == 0,
                    len > 0,
            ;
        } else {
            assert((n + len - 1) % len == n - 1) by (nonlinear_arith)
                requires
                    0 < n < len,
            ;
        }
        if p + 1 == len {
            assert((p + 1) % len == 0) by (nonlinear_arith)
                requires
                    p + 1 == len,
                    len > 0,
            ;
        } else {
            assert((p + 1) % len == p + 1) by (nonlinear_arith)
                requires
                    0 <= p + 1 < len,
            ;
        }
    }
}

/// Whether a cursor is valid for a list of the given length.
pub fn cursor_fits(index: usize, len: usize) -> (valid: bool)
    ensures
        valid == cursor_valid(index as int, len as int),
{
    if len == 0 {
        index == 0
    } else {
        index < len
    }
}

/// Moves a cursor one step forward on a list of the given length.
pub fn step_forward(index: usize, len: usize) -> (next: usize)
    requires
        cursor_valid(index as int, len as int),
    ensures
        next == cursor_next(index as int, len as int),
        cursor_valid(next as int, len as int),
{
    proof {
        lemma_cursor_steps(index as int, len as int);
    }
    if len == 0 {
        index
    } else if index + 1 == len {
        0
    } else {
        index + 1
    }
}

/// Moves a cursor one step back on a list of the given length.
pub fn step_back(index: usize, len: usize) -> (previous: usize)
    requires
        cursor_valid(index as int, len as int),
    ensures
        previous == cursor_previous(index as int, len as int),
        cursor_valid(previous as int, len as int),
{
    proof {
        lemma_cursor_steps(index as int, len as int);
    }
    if len == 0 {
        index
    } else if index == 0 {
        len - 1
    } else {
        index - 1
    }
}

/// Brings a cursor back into a list that shrank to the given length.
pub fn clamp(index: usize, len: usize) -> (clamped: usize)
    ensures
        clamped == cursor_clamped(index as int, len as int),
        cursor_valid(clamped as int, len as int),
{
    if len == 0 {
        0
    } else if index >= len {
        len - 1
    } else {
        index
    }
}

impl Default for SelectionState {
    fn default() -> (selection: Self)
        ensures
            selection == all_first(),
    {
        SelectionState {
            sites_list_index: 0,
            domains_list_index: 0,
            nodes_list_index: 0,
            form_field_index: 0,
            dns_records_index: 0,
        }
    }
}

impl SelectionState {
    /// Every cursor at the first position.
    pub fn new() -> (selection: Self)
        ensures
            selection == all_first(),
    {
        SelectionState {
            sites_list_index: 0,
            domains_list_index: 0,
            nodes_list_index: 0,
            form_field_index: 0,
            dns_records_index: 0,
        }
    }

    /// Moves every cursor back to the first position.
    pub fn reset(&mut self)
        ensures
            *final(self) == all_first(),
    {
        *self = SelectionState::new();
    }
}

} // verus!
