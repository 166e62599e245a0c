use vstd::prelude::*;
use crate::listing::{EntryType, FileEntry, directories_first, get_data, kept_entries};
use crate::field::Key;
use crate::paths::{join_path, joined_path};
use crate::state::Action;
use crate::selection::{
    fresh_selection, next_selection, previous_selection, selection_valid, start_selection,
    step_backward, step_forward,
};

verus! {

/// The directory table's pending copy or cut.
#[derive(Debug, Clone)]
pub enum Clipboard {
    Empty,
    Holding { source: String, name: String, kind: EntryType, is_cut: bool },
}

/// An entry of the filesystem named by its path.
#[derive(Debug, Clone)]
pub struct EntryRef {
    pub path: String,
    pub kind: EntryType,
}

/// A copy that pasting asks for: `source` is copied to `destination`, the path
/// of `target_name` in the listed directory.
#[derive(Debug, Clone)]
pub struct PasteJob {
    pub source: String,
    pub destination: String,
    pub target_name: String,
    pub kind: EntryType,
}

/// The directory table: the listing of `root_path`, its selected row and the
/// clipboard.
pub struct Explorer {
    pub root_path: String,
    pub include_hidden: bool,
    pub files: Vec<FileEntry>,
    pub selected: Option<usize>,
    pub clipboard: Clipboard,
    pub in_focus: bool,
}

/// The rows a directory shows, from the entries read from it.
pub open spec fn listing_rows(entries: Seq<FileEntry>, include_hidden: bool) -> Seq<FileEntry> {
    kept_entries(directories_first(entries), include_hidden, false)
}

/// `name` behind `k` copies of the prefix `Copy-`.
pub open spec fn prefixed(name: Seq<char>, k: nat) -> Seq<char>
    decreases k,
{
    if k == 0 { name } else { "Copy-"@ + prefixed(name, (k - 1) as nat) }
}

/// Some row of the listing has the name `n`.
pub open spec fn name_taken(files: Seq<FileEntry>, n: Seq<char>) -> bool {
    exists|i: int| 0 <= i < files.len() && (#[trigger] files[i]).name@ == n
}

/// `r` is the name a pasted `name` gets among `files`: the name behind the
/// fewest `Copy-` prefixes that no row has.
pub open spec fn is_paste_name(r: Seq<char>, name: Seq<char>, files: Seq<FileEntry>) -> bool {
    exists|k: nat| {
        &&& r == #[trigger] prefixed(name, k)
        &&& !name_taken(files, r)
        &&& forall|j: nat| j < k ==> name_taken(files, #[trigger] prefixed(name, j))
    }
}

/// The longest name among the rows.
pub open spec fn longest_name(files: Seq<FileEntry>) -> nat
    decreases files.len(),
{
    if files.len() == 0 {
        0
    } else {
        let rest = longest_name(files.drop_last());
        if files.last().name@.len() > rest { files.last().name@.len() } else { rest }
    }
}

proof fn lemma_longest_name(files: Seq<FileEntry>, i: int)
    requires
        0 <= i < files.len(),
    ensures
        files[i].name@.len() <= longest_name(files),
    decreases files.len(),
{
    if i < files.len() - 1 {
        lemma_longest_name(files.drop_last(), i);
    }
}

/// What pasting leaves to be removed once its copy went through: the source of
/// a cut; nothing after a copy or a failed copy.
pub open spec fn removal_after_paste(clip: Clipboard, copied: bool) -> Option<(Seq<char>, EntryType)> {
    match clip {
        Clipboard::Holding { source, kind, is_cut, .. } =>
            if is_cut && copied { Some((source@, kind)) } else { None },
        Clipboard::Empty => None,
    }
}

/// The clipboard after a paste: a cut that went through becomes a plain copy
/// of the same source; anything else stays.
pub open spec fn clipboard_after_paste(clip: Clipboard, copied: bool) -> Clipboard {
    match clip {
        Clipboard::Holding { source, name, kind, is_cut } =>
            if is_cut && copied {
                Clipboard::Holding { source, name, kind, is_cut: false }
            } else {
                clip
            },
        Clipboard::Empty => clip,
    }
}

/// The clipboard after copying (`cut` false) or cutting row `idx` of a table
/// listing `root`.
pub open spec fn clipboard_of_row(root: Seq<char>, files: Seq<FileEntry>, idx: int, cut: bool, c: Clipboard) -> bool {
    match c {
        Clipboard::Holding { source, name, kind, is_cut } => {
            &&& source@ == joined_path(root, files[idx].name@)
            &&& name@ == files[idx].name@
            &&& kind == files[idx].e_type
            &&& is_cut == cut
        },
        Clipboard::Empty => false,
    }
}

/// The name a pasted entry called `name` gets among `files`: `name` itself
/// when no row has it, else `name` behind as many `Copy-` prefixes as it takes
/// to be unique.
pub fn paste_name(name: &String, files: &Vec<FileEntry>) -> (r: String)
    ensures
        is_paste_name(r@, name@, files@),
{
    let ghost bound = longest_name(files@) + 5;
    let mut candidate = name.clone();
    let ghost mut k: nat = 0;
    proof {
        reveal_strlit("Copy-");
    }
    loop
        invariant
            candidate@ == prefixed(name@, k),
            forall|j: nat| j < k ==> name_taken(files@, #[trigger] prefixed(name@, j)),
            k > 0 ==> candidate@.len() <= bound,
            bound == longest_name(files@) + 5,
            "Copy-"@.len() == 5,
        decreases bound + 5 - candidate@.len(),
    {
        let mut taken = false;
        let mut i: usize = 0;
        while i < files.len()
            invariant
                i <= files@.len(),
                taken <==> exists|m: int| 0 <= m < i && (#[trigger] files@[m]).name@ == candidate@,
            decreases files@.len() - i,
        {
            if files[i].name == candidate {
                taken = true;
            }
            i = i + 1;
        }
        if !taken {
            assert(!name_taken(files@, candidate@));
            return candidate;
        }
        proof {
            let m = choose|m: int| 0 <= m < files@.len() && (#[trigger] files@[m]).name@ == candidate@;
            lemma_longest_name(files@, m);
            assert forall|j: nat| j < k + 1 implies name_taken(files@, #[trigger] prefixed(name@, j)) by {
                if j == k {
                    assert(files@[m].name@ == prefixed(name@, j));
                }
            }
        }
        candidate = String::from_str("Copy-").concat(candidate.as_str());
        proof {
            k = k + 1;
        }
    }
}

/// The name a paste picks is one that no row of the listing has, so the copy
/// lands beside every entry already there and nothing is overwritten.
pub proof fn lemma_paste_name_fresh(r: Seq<char>, name: Seq<char>, files: Seq<FileEntry>)
    requires
        is_paste_name(r, name, files),
    ensures
        !name_taken(files, r),
{
}

/// After a paste whose copy went through, a cut hands back its source for
/// removal, so one copy is left, at the destination, and the clipboard keeps a
/// plain copy of the same source; a copy hands back nothing, so the source
/// stays beside the new copy. A failed copy removes nothing either way.
pub proof fn lemma_paste_outcome(clip: Clipboard, copied: bool)
    requires
        clip is Holding,
    ensures
        clip->is_cut && copied ==> removal_after_paste(clip, copied) == Some((clip->source@, clip->kind)),
        clip->is_cut && copied ==> clipboard_after_paste(clip, copied) == (Clipboard::Holding {
            source: clip->source,
            name: clip->name,
            kind: clip->kind,
            is_cut: false,
        }),
        !clip->is_cut ==> removal_after_paste(clip, copied).is_none(),
        !copied ==> removal_after_paste(clip, copied).is_none(),
        !copied ==> clipboard_after_paste(clip, copied) == clip,
{
}

/// A table whose listing comes back empty (its last entry was deleted) has no
/// selection, and moving down or up keeps it so.
pub proof fn lemma_emptied_listing(entries: Seq<FileEntry>, include_hidden: bool)
    requires
        listing_rows(entries, include_hidden).len() == 0,
    ensures
        selection_valid(start_selection(listing_rows(entries, include_hidden).len()), 0),
        start_selection(listing_rows(entries, include_hidden).len()) is None,
        step_forward(None, 0) is None,
        step_backward(None, 0) is None,
{
}

/// What a key sent on to the directory table does.
pub open spec fn explorer_key_outcome(old: Explorer, new: Explorer, k: Key, r: Action) -> bool {
    if k == Key::Char('j') || k == Key::Down {
        new.selected == step_forward(old.selected, old.files@.len()) && r is Idle
    } else if k == Key::Char('k') || k == Key::Up {
        new.selected == step_backward(old.selected, old.files@.len()) && r is Idle
    } else if k == Key::Char('r') {
        new == old && r == Action::Relist(old.root_path)
    } else if k == Key::Delete {
        new == old && match old.selected {
            None => r is Idle,
            Some(i) => r is Delete && r->Delete_0.kind == old.files@[i as int].e_type
                && r->Delete_0.path@ == joined_path(old.root_path@, old.files@[i as int].name@),
        }
    } else if k == Key::Char('c') || k == Key::Char('x') {
        r is Idle && new.selected == old.selected && new.files == old.files && match old.selected {
            None => new.clipboard == old.clipboard,
            Some(i) => clipboard_of_row(old.root_path@, old.files@, i as int,
                k == Key::Char('x'), new.clipboard),
        }
    } else if k == Key::Char('v') {
        new == old && match old.clipboard {
            Clipboard::Empty => r is Idle,
            Clipboard::Holding { source, name, kind, .. } => {
                &&& r is Paste
                &&& r->Paste_0.source@ == source@
                &&& r->Paste_0.kind == kind
                &&& is_paste_name(r->Paste_0.target_name@, name@, old.files@)
                &&& r->Paste_0.destination@ == joined_path(old.root_path@, r->Paste_0.target_name@)
            },
        }
    } else {
        new == old && r is Idle
    }
}

impl Explorer {
    pub open spec fn well_formed(&self) -> bool {
        selection_valid(self.selected, self.files@.len())
    }

    /// A table listing `path` from the entries read from it, with the first
    /// row selected, focused, and nothing on the clipboard.
    pub fn new(path: &String, include_hidden: bool, entries: Vec<FileEntry>) -> (r: Explorer)
        ensures
            r.well_formed(),
            r.root_path@ == path@,
            r.include_hidden == include_hidden,
            r.files@ == listing_rows(entries@, include_hidden),
            r.selected == start_selection(r.files@.len()),
            r.clipboard is Empty,
            r.in_focus,
    {
        let files = match get_data(entries, include_hidden, false) {
            Ok(v) => v,
            Err(_) => Vec::new(),
        };
        let selected = fresh_selection(files.len());
        Explorer {
            root_path: path.clone(),
            include_hidden,
            files,
            selected,
            clipboard: Clipboard::Empty,
            in_focus: true,
        }
    }

    /// Lists `path` afresh from the entries read from it and selects the first
    /// row; the clipboard and the focus stay as they were.
    pub fn refresh(&mut self, path: &String, include_hidden: bool, entries: Vec<FileEntry>)
        ensures
            final(self).well_formed(),
            final(self).root_path@ == path@,
            final(self).files@ == listing_rows(entries@, include_hidden),
            final(self).selected == start_selection(final(self).files@.len()),
            final(self).include_hidden == old(self).include_hidden,
            final(self).clipboard == old(self).clipboard,
            final(self).in_focus == old(self).in_focus,
    {
        self.root_path = path.clone();
        self.files = match get_data(entries, include_hidden, false) {
            Ok(v) => v,
            Err(_) => Vec::new(),
        };
        self.selected = fresh_selection(self.files.len());
    }

    /// Selects the next row, from the last back to the first.
    pub fn next_row(&mut self)
        requires
            old(self).well_formed(),
        ensures
            final(self).well_formed(),
            final(self).selected == step_forward(old(self).selected, old(self).files@.len()),
            final(self).files == old(self).files,
            final(self).root_path == old(self).root_path,
            final(self).clipboard == old(self).clipboard,
            final(self).in_focus == old(self).in_focus,
            final(self).include_hidden == old(self).include_hidden,
    {
        self.selected = next_selection(self.selected, self.files.len());
    }

    /// Selects the previous row, from the first round to the last.
    pub fn previous_row(&mut self)
        requires
            old(self).well_formed(),
        ensures
            final(self).well_formed(),
            final(self).selected == step_backward(old(self).selected, old(self).files@.len()),
            final(self).files == old(self).files,
            final(self).root_path == old(self).root_path,
            final(self).clipboard == old(self).clipboard,
            final(self).in_focus == old(self).in_focus,
            final(self).include_hidden == old(self).include_hidden,
    {
        self.selected = previous_selection(self.selected, self.files.len());
    }

    /// The selected row's path and kind, if a row is selected.
    pub fn selected_entry(&self) -> (r: Option<EntryRef>)
        requires
            self.well_formed(),
        ensures
            self.selected.is_none() ==> r.is_none(),
            self.selected.is_some() ==> r.is_some()
                && r->Some_0.path@ == joined_path(self.root_path@, self.files@[self.selected->Some_0 as int].name@)
                && r->Some_0.kind == self.files@[self.selected->Some_0 as int].e_type,
    {
        match self.selected {
            Some(idx) => Some(EntryRef {
                path: join_path(&self.root_path, &self.files[idx].name),
                kind: self.files[idx].e_type,
            }),
            None => None,
        }
    }

    fn take_selected(&mut self, cut: bool)
        requires
            old(self).well_formed(),
        ensures
            final(self).well_formed(),
            old(self).selected.is_none() ==> final(self).clipboard == old(self).clipboard,
            old(self).selected.is_some() ==> clipboard_of_row(old(self).root_path@, old(self).files@,
                old(self).selected->Some_0 as int, cut, final(self).clipboard),
            final(self).files == old(self).files,
            final(self).selected == old(self).selected,
            final(self).root_path == old(self).root_path,
            final(self).in_focus == old(self).in_focus,
            final(self).include_hidden == old(self).include_hidden,
    {
        if let Some(idx) = self.selected {
            let source = join_path(&self.root_path, &self.files[idx].name);
            self.clipboard = Clipboard::Holding {
                source,
                name: self.files[idx].name.clone(),
                kind: self.files[idx].e_type,
                is_cut: cut,
            };
        }
    }

    /// Puts the selected row on the clipboard as a copy; nothing is touched on
    /// disk.
    pub fn handle_copy(&mut self)
        requires
            old(self).well_formed(),
        ensures
            final(self).well_formed(),
            old(self).selected.is_none() ==> final(self).clipboard == old(self).clipboard,
            old(self).selected.is_some() ==> clipboard_of_row(old(self).root_path@, old(self).files@,
                old(self).selected->Some_0 as int, false, final(self).clipboard),
            final(self).files == old(self).files,
            final(self).selected == old(self).selected,
            final(self).root_path == old(self).root_path,
            final(self).in_focus == old(self).in_focus,
            final(self).include_hidden == old(self).include_hidden,
    {
        self.take_selected(false);
    }

    /// Puts the selected row on the clipboard as a cut; nothing is touched on
    /// disk.
    pub fn handle_cut(&mut self)
        requires
            old(self).well_formed(),
        ensures
            final(self).well_formed(),
            old(self).selected.is_none() ==> final(self).clipboard == old(self).clipboard,
            old(self).selected.is_some() ==> clipboard_of_row(old(self).root_path@, old(self).files@,
                old(self).selected->Some_0 as int, true, final(self).clipboard),
            final(self).files == old(self).files,
            final(self).selected == old(self).selected,
            final(self).root_path == old(self).root_path,
            final(self).in_focus == old(self).in_focus,
            final(self).include_hidden == old(self).include_hidden,
    {
        self.take_selected(true);
    }

    /// The copy that pasting asks for: the clipboard's source into the listed
    /// directory, under a name that no row has. None with an empty clipboard.
    pub fn paste_job(&self) -> (r: Option<PasteJob>)
        ensures
            self.clipboard is Empty <==> r.is_none(),
            match self.clipboard {
                Clipboard::Holding { source, name, kind, .. } => {
                    let job = r->Some_0;
                    &&& job.source@ == source@
                    &&& job.kind == kind
                    &&& is_paste_name(job.target_name@, name@, self.files@)
                    &&& job.destination@ == joined_path(self.root_path@, job.target_name@)
                },
                Clipboard::Empty => true,
            },
    {
        match &self.clipboard {
            Clipboard::Holding { source, name, kind, .. } => {
                let target_name = paste_name(name, &self.files);
                let destination = join_path(&self.root_path, &target_name);
                Some(PasteJob { source: source.clone(), destination, target_name, kind: *kind })
            },
            Clipboard::Empty => None,
        }
    }

    /// Takes back the outcome of a paste's copy. A cut whose copy went through
    /// hands back its source to be removed and stays on the clipboard as a
    /// plain copy; otherwise nothing is to be removed and the clipboard stays.
    /// The caller lists the directory afresh afterwards, whatever came of it.
    pub fn finish_paste(&mut self, copied: bool) -> (r: Option<EntryRef>)
        ensures
            final(self).clipboard == clipboard_after_paste(old(self).clipboard, copied),
            r.is_some() == removal_after_paste(old(self).clipboard, copied).is_some(),
            r.is_some() ==> (r->Some_0.path@, r->Some_0.kind) == removal_after_paste(old(self).clipboard, copied)->Some_0,
            final(self).files == old(self).files,
            final(self).selected == old(self).selected,
            final(self).root_path == old(self).root_path,
            final(self).in_focus == old(self).in_focus,
            final(self).include_hidden == old(self).include_hidden,
    {
        let mut removal: Option<EntryRef> = None;
        if let Clipboard::Holding { source, kind, is_cut, .. } = &mut self.clipboard {
            if *is_cut && copied {
                removal = Some(EntryRef { path: source.clone(), kind: *kind });
                *is_cut = false;
            }
        }
        removal
    }

    /// The entry that deleting removes: the selected row, if any. The caller
    /// lists the directory afresh afterwards.
    pub fn delete_target(&self) -> (r: Option<EntryRef>)
        requires
            self.well_formed(),
        ensures
            self.selected.is_none() ==> r.is_none(),
            self.selected.is_some() ==> r.is_some()
                && r->Some_0.path@ == joined_path(self.root_path@, self.files@[self.selected->Some_0 as int].name@)
                && r->Some_0.kind == self.files@[self.selected->Some_0 as int].e_type,
    {
        self.selected_entry()
    }

    /// Handles a key sent to the table: `j`/Down and `k`/Up move the
    /// selection, `c` copies and `x` cuts the selected row, `v` asks for a
    /// paste, Delete for removing the selected row and `r` for listing the
    /// directory again.
    pub fn handle_input(&mut self, k: Key) -> (r: Action)
        requires
            old(self).well_formed(),
        ensures
            final(self).well_formed(),
            explorer_key_outcome(*old(self), *final(self), k, r),
            final(self).root_path == old(self).root_path,
            final(self).files == old(self).files,
            final(self).in_focus == old(self).in_focus,
            final(self).include_hidden == old(self).include_hidden,
    {
        if k == Key::Char('j') || k == Key::Down {
            self.next_row();
            Action::Idle
        } else if k == Key::Char('k') || k == Key::Up {
            self.previous_row();
            Action::Idle
        } else if k == Key::Char('r') {
            Action::Relist(self.root_path.clone())
        } else if k == Key::Delete {
            match self.delete_target() {
                Some(t) => Action::Delete(t),
                None => Action::Idle,
            }
        } else if k == Key::Char('c') {
            self.handle_copy();
            Action::Idle
        } else if k == Key::Char('x') {
            self.handle_cut();
            Action::Idle
        } else if k == Key::Char('v') {
            match self.paste_job() {
                Some(job) => Action::Paste(job),
                None => Action::Idle,
            }
        } else {
            Action::Idle
        }
    }
}

} // verus!
