use vstd::prelude::*;
use crate::field::Key;

verus! {

/// A selection is valid for a list of `len` rows when it names a row of a
/// non-empty list, or is absent exactly when the list is empty.
pub open spec fn selection_valid(sel: Option<usize>, len: nat) -> bool {
    match sel {
        Some(i) => i < len,
        None => len == 0,
    }
}

/// One step forward, wrapping from the last row to the first.
pub open spec fn step_forward(sel: Option<usize>, len: nat) -> Option<usize> {
    match sel {
        Some(i) => if i + 1 >= len { Some(0usize) } else { Some((i + 1) as usize) },
        None => if len > 0 { Some(0usize) } else { None },
    }
}

/// One step back, wrapping from the first row to the last.
pub open spec fn step_backward(sel: Option<usize>, len: nat) -> Option<usize> {
    match sel {
        Some(i) => if len == 0 { None } else if i == 0 || i >= len { Some((len - 1) as usize) } else { Some((i - 1) as usize) },
        None => if len > 0 { Some(0usize) } else { None },
    }
}

/// The selection a list of `len` rows starts with after it is filled.
pub open spec fn start_selection(len: nat) -> Option<usize> {
    if len > 0 { Some(0usize) } else { None }
}

/// What a key sent on to a list of rows does to its selection.
pub open spec fn list_key_outcome(old_sel: Option<usize>, new_sel: Option<usize>, len: nat, k: Key) -> bool {
    if k == Key::Char('j') || k == Key::Down {
        new_sel == step_forward(old_sel, len)
    } else if k == Key::Char('k') || k == Key::Up {
        new_sel == step_backward(old_sel, len)
    } else {
        new_sel == old_sel
    }
}

/// `n` steps forward.
pub open spec fn forward_n(sel: Option<usize>, len: nat, n: nat) -> Option<usize>
    decreases n,
{
    if n == 0 { sel } else { step_forward(forward_n(sel, len, (n - 1) as nat), len) }
}

/// `n` steps back.
pub open spec fn backward_n(sel: Option<usize>, len: nat, n: nat) -> Option<usize>
    decreases n,
{
    if n == 0 { sel } else { step_backward(backward_n(sel, len, (n - 1) as nat), len) }
}

/// The row after `sel` in a list of `len` rows; on an empty list nothing changes.
pub fn next_selection(sel: Option<usize>, len: usize) -> (r: Option<usize>)
    requires
        selection_valid(sel, len as nat),
    ensures
        r == step_forward(sel, len as nat),
        selection_valid(r, len as nat),
{
    match sel {
        Some(i) => if i + 1 >= len { Some(0) } else { Some(i + 1) },
        None => if len > 0 { Some(0) } else { None },
    }
}

/// The row before `sel` in a list of `len` rows; on an empty list nothing changes.
pub fn previous_selection(sel: Option<usize>, len: usize) -> (r: Option<usize>)
    requires
        selection_valid(sel, len as nat),
    ensures
        r == step_backward(sel, len as nat),
        selection_valid(r, len as nat),
{
    match sel {
        Some(i) => if len == 0 { None } else if i == 0 || i >= len { Some(len - 1) } else { Some(i - 1) },
        None => if len > 0 { Some(0) } else { None },
    }
}

/// The selection of a list of `len` rows that has just been filled: the first
/// row, or none for an empty list.
pub fn fresh_selection(len: usize) -> (r: Option<usize>)
    ensures
        r == start_selection(len as nat),
        selection_valid(r, len as nat),
{
    if len > 0 { Some(0) } else { None }
}

proof fn lemma_forward_n_value(i: usize, len: usize, n: nat)
    requires
        i < len,
    ensures
        forward_n(Some(i), len as nat, n) == Some(((i + n) % (len as int)) as usize),
    decreases n,
{
    if n == 0 {
        vstd::arithmetic::div_mod::lemma_small_mod(i as nat, len as nat);
    } else {
        lemma_forward_n_value(i, len, (n - 1) as nat);
        let k = (i + n - 1) % (len as int);
        vstd::arithmetic::div_mod::lemma_mod_bound((i + n - 1) as int, len as int);
        vstd::arithmetic::div_mod::lemma_add_mod_noop_right(1, (i + n - 1) as int, len as int);
        if k + 1 < len {
            vstd::arithmetic::div_mod::lemma_small_mod((k + 1) as nat, len as nat);
        } else {
            vstd::arithmetic::div_mod::lemma_mod_self_0(len as int);
        }
    }
}

proof fn lemma_backward_n_value(i: usize, len: usize, n: nat)
    requires
        i < len,
        n <= i,
    ensures
        backward_n(Some(i), len as nat, n) == Some((i - n) as usize),
    decreases n,
{
    if n > 0 {
        lemma_backward_n_value(i, len, (n - 1) as nat);
    }
}

proof fn lemma_backward_from_top(len: usize, n: nat)
    requires
        0 < len,
        n < len,
    ensures
        backward_n(Some((len - 1) as usize), len as nat, n) == Some((len - 1 - n) as usize),
    decreases n,
{
    if n > 0 {
        lemma_backward_from_top(len, (n - 1) as nat);
    }
}

proof fn lemma_backward_split(sel: Option<usize>, len: nat, a: nat, b: nat)
    ensures
        backward_n(sel, len, a + b) == backward_n(backward_n(sel, len, a), len, b),
    decreases b,
{
    if b > 0 {
        lemma_backward_split(sel, len, a, (b - 1) as nat);
        assert(((a + b) - 1) as nat == a + (b - 1) as nat);
    }
}

/// Moving forward as many times as the list has rows comes back to the row one
/// started from; so does moving back as many times.
pub proof fn lemma_full_cycle(sel: Option<usize>, len: usize)
    requires
        len > 0,
        selection_valid(sel, len as nat),
    ensures
        forward_n(sel, len as nat, len as nat) == sel,
        backward_n(sel, len as nat, len as nat) == sel,
{
    let i = sel.unwrap();
    lemma_forward_n_value(i, len, len as nat);
    vstd::arithmetic::div_mod::lemma_add_mod_noop(i as int, len as int, len as int);
    vstd::arithmetic::div_mod::lemma_mod_self_0(len as int);
    vstd::arithmetic::div_mod::lemma_small_mod(i as nat, len as nat);
    assert((i + len) % (len as int) == i);
    lemma_backward_split(sel, len as nat, i as nat, (len - i) as nat);
    lemma_backward_n_value(i, len, i as nat);
    assert(backward_n(Some(0usize), len as nat, 0) == Some(0usize));
    assert(backward_n(Some(0usize), len as nat, 1) == Some((len - 1) as usize));
    lemma_backward_split(Some(0usize), len as nat, 1, (len - i - 1) as nat);
    lemma_backward_from_top(len, (len - i - 1) as nat);
    assert((len - 1 - (len - i - 1)) == i);
}

} // verus!
