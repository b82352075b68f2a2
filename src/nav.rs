//! Which list is in focus, and how a selection cursor moves within a list.
use vstd::prelude::*;

verus! {

/// The two states of a task; also names the list that has the focus.
#[derive(Debug, Clone, Copy, PartialEq, Eq, Structural)]
pub enum Status {
    Todo,
    Done,
}

impl Status {
    pub open spec fn spec_toggle(self) -> Status {
        match self {
            Status::Todo => Status::Done,
            Status::Done => Status::Todo,
        }
    }

    /// The other status.
    pub fn toggle(&self) -> (r: Status)
        ensures
            r == self.spec_toggle(),
    {
        match self {
            Status::Todo => Status::Done,
            Status::Done => Status::Todo,
        }
    }
}

/// The cursor one row up, floored at zero.
pub open spec fn cursor_up(cur: nat) -> nat {
    if cur > 0 {
        (cur - 1) as nat
    } else {
        0
    }
}

/// The cursor one row down, if a row is there; else unchanged.
pub open spec fn cursor_down(cur: nat, len: nat) -> nat {
    if cur + 1 < len {
        cur + 1
    } else {
        cur
    }
}

/// Moves the cursor of `_list` one row up, stopping at the first row.
pub fn list_up(_list: &Vec<String>, list_curr: &mut usize)
    ensures
        *final(list_curr) as nat == cursor_up(*old(list_curr) as nat),
{
    if *list_curr > 0 {
        *list_curr = *list_curr - 1;
    }
}

/// Moves the cursor of `list` one row down, stopping at the last row.
pub fn list_down(list: &Vec<String>, list_curr: &mut usize)
    ensures
        *final(list_curr) as nat == cursor_down(*old(list_curr) as nat, list@.len()),
        *old(list_curr) < list@.len() ==> *final(list_curr) < list@.len(),
{
    if *list_curr < list.len() && *list_curr + 1 < list.len() {
        *list_curr = *list_curr + 1;
    }
}

/// The cursor after `n` moves up from `cur`.
pub open spec fn ups(cur: nat, n: nat) -> nat
    decreases n,
{
    if n == 0 {
        cur
    } else {
        cursor_up(ups(cur, (n - 1) as nat))
    }
}

/// The cursor after `n` moves down from `cur` in a list of `len` rows.
pub open spec fn downs(cur: nat, len: nat, n: nat) -> nat
    decreases n,
{
    if n == 0 {
        cur
    } else {
        cursor_down(downs(cur, len, (n - 1) as nat), len)
    }
}

/// Any run of moves up from `cur` takes the cursor down by one per move and
/// stops at zero, never below it.
pub proof fn lemma_moves_up_floor_at_zero(cur: nat, n: nat)
    ensures
        ups(cur, n) == if cur >= n { (cur - n) as nat } else { 0nat },
    decreases n,
{
    if n > 0 {
        lemma_moves_up_floor_at_zero(cur, (n - 1) as nat);
    }
}

/// Any run of moves down from a cursor inside a list of `len` rows keeps the
/// cursor inside the list: it stops at the last row.
pub proof fn lemma_moves_down_stay_in_list(cur: nat, len: nat, n: nat)
    requires
        cur < len,
    ensures
        downs(cur, len, n) < len,
        downs(cur, len, n) == if cur + n < len { cur + n } else { (len - 1) as nat },
    decreases n,
{
    if n > 0 {
        lemma_moves_down_stay_in_list(cur, len, (n - 1) as nat);
    }
}

} // verus!
