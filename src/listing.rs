use vstd::prelude::*;

verus! {

/// What a row of the directory table stands for.
#[derive(Debug, Clone, Copy, PartialEq, Eq, Structural)]
pub enum EntryType {
    File,
    Dir,
}

/// One row of a directory listing, as the directory table shows it.
#[derive(Debug, Clone)]
pub struct FileEntry {
    pub e_type: EntryType,
    pub name: String,
    pub size: String,
    pub modified_at: String,
    pub hidden: bool,
    pub is_exec: bool,
}

impl FileEntry {
    /// A field-by-field copy of the entry.
    pub fn copy_entry(&self) -> (r: FileEntry)
        ensures
            r == *self,
    {
        FileEntry {
            e_type: self.e_type,
            name: self.name.clone(),
            size: self.size.clone(),
            modified_at: self.modified_at.clone(),
            hidden: self.hidden,
            is_exec: self.is_exec,
        }
    }

    /// The four cells of the entry's row: kind, name, size and modification time.
    pub fn ref_array(&self) -> (r: [String; 4])
        ensures
            r[0]@ == kind_label(self.e_type),
            r[1]@ == self.name@,
            r[2]@ == self.size@,
            r[3]@ == self.modified_at@,
    {
        let kind = match self.e_type {
            EntryType::File => String::from_str("File"),
            EntryType::Dir => String::from_str("Dir"),
        };
        [kind, self.name.clone(), self.size.clone(), self.modified_at.clone()]
    }
}

/// The word that names an entry's kind in its row.
pub open spec fn kind_label(t: EntryType) -> Seq<char> {
    match t {
        EntryType::File => "File"@,
        EntryType::Dir => "Dir"@,
    }
}

pub open spec fn is_dir_entry(e: FileEntry) -> bool {
    e.e_type == EntryType::Dir
}

pub open spec fn is_file_entry(e: FileEntry) -> bool {
    e.e_type == EntryType::File
}

pub open spec fn is_hidden_entry(e: FileEntry) -> bool {
    e.hidden
}

pub open spec fn is_visible_entry(e: FileEntry) -> bool {
    !e.hidden
}

/// The entries of a listing in the order the table shows them: every
/// directory, in the order met, before every file, in the order met.
pub open spec fn directories_first(s: Seq<FileEntry>) -> Seq<FileEntry> {
    s.filter(|e: FileEntry| is_dir_entry(e)) + s.filter(|e: FileEntry| is_file_entry(e))
}

/// The entries a listing keeps: only the hidden ones, all of them, or only the
/// visible ones.
pub open spec fn kept_entries(s: Seq<FileEntry>, all: bool, hidden_only: bool) -> Seq<FileEntry> {
    if hidden_only {
        s.filter(|e: FileEntry| is_hidden_entry(e))
    } else if all {
        s
    } else {
        s.filter(|e: FileEntry| is_visible_entry(e))
    }
}

/// The message of a listing that holds nothing.
pub open spec fn empty_listing_message() -> Seq<char> {
    "No Files or Directories found!"@
}

/// Places one entry into a listing being built: a directory goes after the
/// directories already placed, a file at the end.
fn map_data(entry: FileEntry, data: &mut Vec<FileEntry>, dir_index: &mut usize)
    requires
        *old(dir_index) <= old(data)@.len(),
        old(data)@.len() < usize::MAX,
    ensures
        is_dir_entry(entry) ==> final(data)@ == old(data)@.insert(*old(dir_index) as int, entry)
            && *final(dir_index) == *old(dir_index) + 1,
        !is_dir_entry(entry) ==> final(data)@ == old(data)@.push(entry)
            && *final(dir_index) == *old(dir_index),
{
    if entry.e_type == EntryType::Dir {
        data.insert(*dir_index, entry);
        *dir_index = *dir_index + 1;
    } else {
        data.push(entry);
    }
}

/// Orders the entries of a directory as the table shows them: directories
/// before files, each group in the order the entries were met.
pub fn get_files(entries: Vec<FileEntry>) -> (r: Vec<FileEntry>)
    ensures
        r@ == directories_first(entries@),
{
    let mut data: Vec<FileEntry> = Vec::new();
    let mut dir_index: usize = 0;
    let n = entries.len();
    let mut i: usize = 0;
    while i < n
        invariant
            n == entries@.len(),
            i <= n,
            dir_index == entries@.subrange(0, i as int).filter(|e: FileEntry| is_dir_entry(e)).len(),
            data@ == directories_first(entries@.subrange(0, i as int)),
            data@.len() == i,
        decreases n - i,
    {
        let ghost seen = entries@.subrange(0, i as int);
        let ghost d = seen.filter(|e: FileEntry| is_dir_entry(e));
        let ghost f = seen.filter(|e: FileEntry| is_file_entry(e));
        let e = entries[i].copy_entry();
        proof {
            assert(entries@.subrange(0, i + 1) =~= seen.push(e));
            seen.lemma_filter_push(e, |e: FileEntry| is_dir_entry(e));
            seen.lemma_filter_push(e, |e: FileEntry| is_file_entry(e));
            seen.lemma_filter_len(|e: FileEntry| is_dir_entry(e));
            seen.lemma_filter_len(|e: FileEntry| is_file_entry(e));
        }
        map_data(e, &mut data, &mut dir_index);
        proof {
            if is_dir_entry(e) {
                assert((d + f).insert(d.len() as int, e) =~= d.push(e) + f);
            } else {
                assert((d + f).push(e) =~= d + f.push(e));
            }
        }
        i = i + 1;
    }
    assert(entries@.subrange(0, n as int) =~= entries@);
    data
}

/// The entries that are not hidden, in their order.
pub fn leave_hidden(data: &Vec<FileEntry>) -> (r: Vec<FileEntry>)
    ensures
        r@ == data@.filter(|e: FileEntry| is_visible_entry(e)),
{
    let mut res: Vec<FileEntry> = Vec::new();
    let mut i: usize = 0;
    while i < data.len()
        invariant
            i <= data@.len(),
            res@ == data@.subrange(0, i as int).filter(|e: FileEntry| is_visible_entry(e)),
        decreases data@.len() - i,
    {
        let e = data[i].copy_entry();
        proof {
            assert(data@.subrange(0, i + 1) =~= data@.subrange(0, i as int).push(e));
            data@.subrange(0, i as int).lemma_filter_push(e, |e: FileEntry| is_visible_entry(e));
        }
        if !e.hidden {
            res.push(e);
        }
        i = i + 1;
    }
    assert(data@.subrange(0, data@.len() as int) =~= data@);
    res
}

/// The entries that are hidden, in their order.
pub fn only_hidden(data: &Vec<FileEntry>) -> (r: Vec<FileEntry>)
    ensures
        r@ == data@.filter(|e: FileEntry| is_hidden_entry(e)),
{
    let mut res: Vec<FileEntry> = Vec::new();
    let mut i: usize = 0;
    while i < data.len()
        invariant
            i <= data@.len(),
            res@ == data@.subrange(0, i as int).filter(|e: FileEntry| is_hidden_entry(e)),
        decreases data@.len() - i,
    {
        let e = data[i].copy_entry();
        proof {
            assert(data@.subrange(0, i + 1) =~= data@.subrange(0, i as int).push(e));
            data@.subrange(0, i as int).lemma_filter_push(e, |e: FileEntry| is_hidden_entry(e));
        }
        if e.hidden {
            res.push(e);
        }
        i = i + 1;
    }
    assert(data@.subrange(0, data@.len() as int) =~= data@);
    res
}

/// The listing of a directory from the entries read from it: ordered
/// directories first, then narrowed to the hidden entries (`hidden_only`), to
/// every entry (`all`), or to the visible ones. A listing left empty is an
/// error.
pub fn get_data(entries: Vec<FileEntry>, all: bool, hidden_only: bool) -> (r: Result<Vec<FileEntry>, String>)
    ensures
        kept_entries(directories_first(entries@), all, hidden_only).len() > 0
            ==> r == Ok::<Vec<FileEntry>, String>(r->Ok_0)
            && r->Ok_0@ == kept_entries(directories_first(entries@), all, hidden_only),
        kept_entries(directories_first(entries@), all, hidden_only).len() == 0
            ==> r == Err::<Vec<FileEntry>, String>(r->Err_0) && r->Err_0@ == empty_listing_message(),
{
    let ordered = get_files(entries);
    let files = if hidden_only {
        only_hidden(&ordered)
    } else if !all {
        leave_hidden(&ordered)
    } else {
        ordered
    };
    if files.len() == 0 {
        return Err(String::from_str("No Files or Directories found!"));
    }
    Ok(files)
}

/// What the filesystem says of a path whose size is wanted.
#[derive(Debug, Clone, Copy, PartialEq, Eq, Structural)]
pub struct PathFacts {
    pub is_dir: bool,
    /// The length recorded for the path itself.
    pub len: u64,
    /// The summed length of the tree under a directory, where it was measured.
    pub tree_len: Option<u64>,
}

/// How the size column shows an entry.
#[derive(Debug, Clone, Copy, PartialEq, Eq, Structural)]
pub enum SizeLabel {
    /// The path could not be examined.
    Unknown,
    /// A directory whose size was not asked for.
    Deferred,
    /// A number of bytes, shown as such.
    Exact(u64),
    /// A number of bytes, shown in the largest fitting unit.
    Human(u64),
}

pub open spec fn size_label(facts: Option<PathFacts>, directory_size: bool, byte_size: bool) -> SizeLabel {
    match facts {
        None => SizeLabel::Unknown,
        Some(f) => if f.is_dir && !directory_size {
            SizeLabel::Deferred
        } else {
            let bytes = if f.is_dir {
                match f.tree_len { Some(t) => t, None => 0u64 }
            } else {
                f.len
            };
            if byte_size { SizeLabel::Exact(bytes) } else { SizeLabel::Human(bytes) }
        },
    }
}

/// The size an entry shows: unknown when the path could not be examined, put
/// off for a directory unless directory sizes are asked for (a directory's
/// size is then its tree's, or zero where that could not be measured), and
/// otherwise a byte count, raw when `byte_size` holds.
pub fn find_length(facts: Option<PathFacts>, directory_size: bool, byte_size: bool) -> (r: SizeLabel)
    ensures
        r == size_label(facts, directory_size, byte_size),
{
    match facts {
        None => SizeLabel::Unknown,
        Some(f) => {
            if f.is_dir && !directory_size {
                return SizeLabel::Deferred;
            }
            let bytes = if f.is_dir {
                match f.tree_len { Some(t) => t, None => 0 }
            } else {
                f.len
            };
            if byte_size { SizeLabel::Exact(bytes) } else { SizeLabel::Human(bytes) }
        },
    }
}

} // verus!
