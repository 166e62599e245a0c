use vstd::prelude::*;
use crate::field::Key;
use crate::paths::{file_name_of, final_component, path_equal, paths_equal};
use crate::selection::{
    fresh_selection, next_selection, previous_selection, selection_valid, start_selection,
    step_backward, step_forward, list_key_outcome,
};

verus! {

/// A quick-access bookmark: its shown name, its directory and how often it
/// was visited.
#[derive(Debug, Clone)]
pub struct QAFileEntry {
    pub name: String,
    pub path: String,
    pub count: u32,
}

/// The quick-access table.
pub struct QuickAccess {
    pub entries: Vec<QAFileEntry>,
    pub selected: Option<usize>,
    pub in_focus: bool,
}

impl QAFileEntry {
    /// A field-by-field copy of the entry.
    pub fn copy_entry(&self) -> (r: QAFileEntry)
        ensures
            r == *self,
    {
        QAFileEntry { name: self.name.clone(), path: self.path.clone(), count: self.count }
    }

    /// The one cell of the entry's row: its name.
    pub fn ref_array(&self) -> (r: [String; 1])
        ensures
            r[0]@ == self.name@,
    {
        [self.name.clone()]
    }
}

/// How many bookmarks the table keeps at start.
pub const QUICK_ACCESS_LIMIT: usize = 20;

/// Every entry counts at least as many visits as any entry after it.
pub open spec fn counts_descending(s: Seq<QAFileEntry>) -> bool {
    forall|i: int, j: int| 0 <= i < j < s.len() ==> (#[trigger] s[i]).count >= (#[trigger] s[j]).count
}

/// The bookmarks the table starts with: the stored ones ordered by visit
/// count, most visited first, and cut to the first twenty.
pub fn top_entries(entries: &Vec<QAFileEntry>) -> (r: Vec<QAFileEntry>)
    ensures
        counts_descending(r@),
        r@.len() == if entries@.len() < QUICK_ACCESS_LIMIT { entries@.len() } else { QUICK_ACCESS_LIMIT as nat },
        exists|full: Seq<QAFileEntry>| {
            &&& full.to_multiset() == entries@.to_multiset()
            &&& counts_descending(full)
            &&& r@ == full.subrange(0, r@.len() as int)
        },
{
    broadcast use vstd::seq_lib::group_to_multiset_ensures;
    let mut sorted: Vec<QAFileEntry> = Vec::new();
    let n = entries.len();
    let mut i: usize = 0;
    while i < n
        invariant
            n == entries@.len(),
            i <= n,
            sorted@.len() == i,
            sorted@.to_multiset() == entries@.subrange(0, i as int).to_multiset(),
            counts_descending(sorted@),
        decreases n - i,
    {
        let e = entries[i].copy_entry();
        let mut pos: usize = 0;
        while pos < sorted.len() && sorted[pos].count >= e.count
            invariant
                pos <= sorted@.len(),
                forall|m: int| 0 <= m < pos ==> (#[trigger] sorted@[m]).count >= e.count,
            decreases sorted@.len() - pos,
        {
            pos = pos + 1;
        }
        let ghost before = sorted@;
        proof {
            assert forall|m: int| pos <= m < before.len() implies (#[trigger] before[m]).count < e.count by {
                if m > pos {
                    assert(before[pos as int].count >= before[m].count);
                }
            }
        }
        sorted.insert(pos, e);
        proof {
            assert(entries@.subrange(0, i + 1) =~= entries@.subrange(0, i as int).push(e));
            let now = sorted@;
            assert(now == before.insert(pos as int, e));
            vstd::seq_lib::to_multiset_insert(before, pos as int, e);
            vstd::seq_lib::to_multiset_build(entries@.subrange(0, i as int), e);
            assert forall|a: int, b: int| 0 <= a < b < now.len() implies (#[trigger] now[a]).count >= (#[trigger] now[b]).count by {
                if b < pos {
                    assert(now[a] == before[a] && now[b] == before[b]);
                } else if b == pos {
                    assert(now[a] == before[a]);
                } else if a < pos {
                    assert(now[a] == before[a] && now[b] == before[b - 1]);
                } else if a == pos {
                    assert(now[b] == before[b - 1]);
                } else {
                    assert(now[a] == before[a - 1] && now[b] == before[b - 1]);
                }
            }
        }
        i = i + 1;
    }
    proof {
        assert(entries@.subrange(0, n as int) =~= entries@);
    }
    let ghost full = sorted@;
    sorted.truncate(QUICK_ACCESS_LIMIT);
    proof {
        if full.len() <= QUICK_ACCESS_LIMIT {
            assert(full.subrange(0, full.len() as int) =~= full);
        }
        assert forall|a: int, b: int| 0 <= a < b < sorted@.len() implies (#[trigger] sorted@[a]).count >= (#[trigger] sorted@[b]).count by {
            assert(sorted@[a] == full[a] && sorted@[b] == full[b]);
        }
    }
    sorted
}

/// The entries whose directory still exists.
pub open spec fn live_entries(s: Seq<QAFileEntry>, alive: Seq<bool>) -> Seq<QAFileEntry>
    decreases s.len(),
{
    if s.len() == 0 {
        s
    } else {
        let rest = live_entries(s.drop_last(), alive.drop_last());
        if alive.last() { rest.push(s.last()) } else { rest }
    }
}

/// `a` and `b` name the same directory: they are the same text, or equal as
/// paths.
pub open spec fn same_dir(a: Seq<char>, b: Seq<char>) -> bool {
    a == b || path_equal(a, b)
}

/// `i` is the first entry of `s` for the directory `p`.
pub open spec fn first_with_path(s: Seq<QAFileEntry>, p: Seq<char>, i: int) -> bool {
    &&& 0 <= i < s.len()
    &&& same_dir(s[i].path@, p)
    &&& forall|m: int| 0 <= m < i ==> !same_dir((#[trigger] s[m]).path@, p)
}

pub open spec fn has_path(s: Seq<QAFileEntry>, p: Seq<char>) -> bool {
    exists|i: int| 0 <= i < s.len() && same_dir((#[trigger] s[i]).path@, p)
}

/// A visit count one higher, held at the largest count.
pub open spec fn bumped(c: u32) -> u32 {
    if c < u32::MAX { (c + 1) as u32 } else { c }
}

/// The name a new bookmark for `p` shows: its last component, or the whole
/// path where it has none (a root).
pub open spec fn bookmark_name(p: Seq<char>) -> Seq<char> {
    match final_component(p) {
        Some(n) => n,
        None => p,
    }
}

/// `new` is `old` after a visit of `p`: the entries whose directory is gone
/// are dropped; then the first entry for `p` counts one more visit, or, where
/// none is, an entry for `p` with one visit is appended.
pub open spec fn visited(old: Seq<QAFileEntry>, alive: Seq<bool>, p: Seq<char>, new: Seq<QAFileEntry>) -> bool {
    let kept = live_entries(old, alive);
    if has_path(kept, p) {
        exists|i: int| {
            &&& #[trigger] first_with_path(kept, p, i)
            &&& new.len() == kept.len()
            &&& forall|m: int| 0 <= m < kept.len() && m != i ==> new[m] == kept[m]
            &&& new[i].name == kept[i].name
            &&& new[i].path == kept[i].path
            &&& new[i].count == bumped(kept[i].count)
        }
    } else {
        &&& new.len() == kept.len() + 1
        &&& new.subrange(0, kept.len() as int) == kept
        &&& new.last().path@ == p
        &&& new.last().name@ == bookmark_name(p)
        &&& new.last().count == 1
    }
}

/// Records a visit of the directory `path` among `entries`; `alive` tells for
/// each entry whether its directory still exists.
pub fn update_qa_files(entries: &mut Vec<QAFileEntry>, path: &String, alive: &Vec<bool>)
    requires
        alive@.len() == old(entries)@.len(),
        old(entries)@.len() < usize::MAX,
    ensures
        visited(old(entries)@, alive@, path@, final(entries)@),
        final(entries)@.len() > 0,
{
    let ghost old_entries = entries@;
    let mut kept: Vec<QAFileEntry> = Vec::new();
    let mut i: usize = 0;
    while i < entries.len()
        invariant
            entries@ == old_entries,
            alive@.len() == old_entries.len(),
            i <= old_entries.len(),
            kept@ == live_entries(old_entries.subrange(0, i as int), alive@.subrange(0, i as int)),
            kept@.len() <= i,
        decreases old_entries.len() - i,
    {
        proof {
            assert(old_entries.subrange(0, i + 1).drop_last() =~= old_entries.subrange(0, i as int));
            assert(alive@.subrange(0, i + 1).drop_last() =~= alive@.subrange(0, i as int));
        }
        if alive[i] {
            kept.push(entries[i].copy_entry());
        }
        i = i + 1;
    }
    proof {
        assert(old_entries.subrange(0, old_entries.len() as int) =~= old_entries);
        assert(alive@.subrange(0, alive@.len() as int) =~= alive@);
    }
    let ghost k = kept@;
    let mut j: usize = 0;
    let mut found: Option<usize> = None;
    while j < kept.len() && found.is_none()
        invariant
            kept@ == k,
            j <= k.len(),
            found.is_none() ==> forall|m: int| 0 <= m < j ==> !same_dir((#[trigger] k[m]).path@, path@),
            found.is_some() ==> first_with_path(k, path@, found->Some_0 as int),
        decreases k.len() - j + (if found.is_none() { 1int } else { 0int }),
    {
        if kept[j].path == *path || paths_equal(&kept[j].path, path) {
            found = Some(j);
        } else {
            j = j + 1;
        }
    }
    match found {
        Some(idx) => {
            let c = kept[idx].count;
            let bumped_count = if c < u32::MAX { c + 1 } else { c };
            let e = QAFileEntry { name: kept[idx].name.clone(), path: kept[idx].path.clone(), count: bumped_count };
            kept.set(idx, e);
            proof {
                assert(has_path(k, path@));
                assert(first_with_path(k, path@, idx as int));
            }
        },
        None => {
            let name = match file_name_of(path) {
                Some(n) => n,
                None => path.clone(),
            };
            proof {
                assert(!has_path(k, path@));
            }
            kept.push(QAFileEntry { name, path: path.clone(), count: 1 });
            proof {
                assert(kept@.subrange(0, k.len() as int) =~= k);
            }
        },
    }
    *entries = kept;
}

proof fn lemma_all_alive(s: Seq<QAFileEntry>, alive: Seq<bool>)
    requires
        alive.len() == s.len(),
        forall|i: int| 0 <= i < alive.len() ==> #[trigger] alive[i],
    ensures
        live_entries(s, alive) == s,
    decreases s.len(),
{
    if s.len() > 0 {
        lemma_all_alive(s.drop_last(), alive.drop_last());
        assert(alive[alive.len() - 1]);
        assert(s.drop_last().push(s.last()) =~= s);
    }
}

/// Visiting one directory three times, with every bookmarked directory still
/// there and none yet for it, leaves exactly one bookmark for it, with a count
/// of three.
pub proof fn lemma_three_visits(
    s0: Seq<QAFileEntry>,
    s1: Seq<QAFileEntry>,
    s2: Seq<QAFileEntry>,
    s3: Seq<QAFileEntry>,
    a0: Seq<bool>,
    a1: Seq<bool>,
    a2: Seq<bool>,
    p: Seq<char>,
)
    requires
        !has_path(s0, p),
        a0.len() == s0.len() && forall|i: int| 0 <= i < a0.len() ==> #[trigger] a0[i],
        a1.len() == s1.len() && forall|i: int| 0 <= i < a1.len() ==> #[trigger] a1[i],
        a2.len() == s2.len() && forall|i: int| 0 <= i < a2.len() ==> #[trigger] a2[i],
        visited(s0, a0, p, s1),
        visited(s1, a1, p, s2),
        visited(s2, a2, p, s3),
    ensures
        s3.len() == s0.len() + 1,
        s3.last().path@ == p,
        s3.last().count == 3,
        forall|m: int| 0 <= m < s3.len() - 1 ==> !same_dir((#[trigger] s3[m]).path@, p),
{
    lemma_all_alive(s0, a0);
    lemma_all_alive(s1, a1);
    lemma_all_alive(s2, a2);
    let n = s0.len() as int;
    assert forall|m: int| 0 <= m < n implies !same_dir((#[trigger] s1[m]).path@, p) by {
        assert(s1.subrange(0, n)[m] == s1[m]);
        if same_dir(s1[m].path@, p) {
            assert(s0[m] == s1[m]);
        }
    }
    assert(first_with_path(s1, p, n));
    assert(has_path(s1, p));
    let i1 = choose|i: int| #[trigger] first_with_path(s1, p, i) && s2.len() == s1.len()
        && (forall|m: int| 0 <= m < s1.len() && m != i ==> s2[m] == s1[m])
        && s2[i].name == s1[i].name && s2[i].path == s1[i].path && s2[i].count == bumped(s1[i].count);
    assert(i1 == n);
    assert forall|m: int| 0 <= m < n implies !same_dir((#[trigger] s2[m]).path@, p) by {
        assert(s2[m] == s1[m]);
    }
    assert(first_with_path(s2, p, n));
    assert(has_path(s2, p));
    let i2 = choose|i: int| #[trigger] first_with_path(s2, p, i) && s3.len() == s2.len()
        && (forall|m: int| 0 <= m < s2.len() && m != i ==> s3[m] == s2[m])
        && s3[i].name == s2[i].name && s3[i].path == s2[i].path && s3[i].count == bumped(s2[i].count);
    assert(i2 == n);
    assert forall|m: int| 0 <= m < s3.len() - 1 implies !same_dir((#[trigger] s3[m]).path@, p) by {
        assert(s3[m] == s2[m]);
    }
}

impl QuickAccess {
    pub open spec fn well_formed(&self) -> bool {
        selection_valid(self.selected, self.entries@.len())
    }

    /// A table of the given bookmarks, unfocused, with the first row selected.
    pub fn new(entries: Vec<QAFileEntry>) -> (r: QuickAccess)
        ensures
            r.well_formed(),
            r.entries == entries,
            r.selected == start_selection(entries@.len()),
            !r.in_focus,
    {
        let selected = fresh_selection(entries.len());
        QuickAccess { entries, selected, in_focus: false }
    }

    /// Selects the next row, from the last back to the first.
    pub fn next_row(&mut self)
        requires
            old(self).well_formed(),
        ensures
            final(self).well_formed(),
            final(self).selected == step_forward(old(self).selected, old(self).entries@.len()),
            final(self).entries == old(self).entries,
            final(self).in_focus == old(self).in_focus,
    {
        self.selected = next_selection(self.selected, self.entries.len());
    }

    /// Selects the previous row, from the first round to the last.
    pub fn previous_row(&mut self)
        requires
            old(self).well_formed(),
        ensures
            final(self).well_formed(),
            final(self).selected == step_backward(old(self).selected, old(self).entries@.len()),
            final(self).entries == old(self).entries,
            final(self).in_focus == old(self).in_focus,
    {
        self.selected = previous_selection(self.selected, self.entries.len());
    }

    /// Handles a key sent to the table: `j`/Down and `k`/Up move the
    /// selection.
    pub fn handle_input(&mut self, k: Key)
        requires
            old(self).well_formed(),
        ensures
            final(self).well_formed(),
            list_key_outcome(old(self).selected, final(self).selected, old(self).entries@.len(), k),
            final(self).entries == old(self).entries,
            final(self).in_focus == old(self).in_focus,
    {
        if k == Key::Char('j') || k == Key::Down {
            self.next_row();
        } else if k == Key::Char('k') || k == Key::Up {
            self.previous_row();
        }
    }

    /// Records a visit of `path` (see `update_qa_files`); a selection that no
    /// longer names a row goes back to the first.
    pub fn record_visit(&mut self, path: &String, alive: &Vec<bool>)
        requires
            alive@.len() == old(self).entries@.len(),
            old(self).entries@.len() < usize::MAX,
        ensures
            final(self).well_formed(),
            visited(old(self).entries@, alive@, path@, final(self).entries@),
            selection_valid(old(self).selected, final(self).entries@.len())
                ==> final(self).selected == old(self).selected,
            !selection_valid(old(self).selected, final(self).entries@.len())
                ==> final(self).selected == start_selection(final(self).entries@.len()),
            final(self).in_focus == old(self).in_focus,
    {
        update_qa_files(&mut self.entries, path, alive);
        let keep = match self.selected {
            Some(i) => i < self.entries.len(),
            None => false,
        };
        if !keep {
            self.selected = fresh_selection(self.entries.len());
        }
    }
}

} // verus!
