use vstd::prelude::*;
use crate::paths::{join_path, joined_path};

verus! {

/// The pieces of `s` between single spaces, as `str::split(' ')` gives them:
/// two spaces in a row give an empty piece, and a text without a space is one
/// piece.
pub open spec fn split_spaces(s: Seq<char>) -> Seq<Seq<char>>
    decreases s.len(),
{
    if s.len() == 0 {
        seq![Seq::<char>::empty()]
    } else {
        let prev = split_spaces(s.drop_last());
        if s.last() == ' ' {
            prev.push(Seq::<char>::empty())
        } else {
            prev.update(prev.len() - 1, prev.last().push(s.last()))
        }
    }
}

proof fn lemma_split_nonempty(s: Seq<char>)
    ensures
        split_spaces(s).len() >= 1,
    decreases s.len(),
{
    if s.len() > 0 {
        lemma_split_nonempty(s.drop_last());
    }
}

pub open spec fn string_views(v: Seq<String>) -> Seq<Seq<char>> {
    v.map_values(|t: String| t@)
}

/// Splits `s` at every space (see `split_spaces`).
pub fn split_words(s: &String) -> (r: Vec<String>)
    ensures
        string_views(r@) == split_spaces(s@),
{
    let n = s.as_str().unicode_len();
    let mut tokens: Vec<String> = Vec::new();
    let mut start: usize = 0;
    let mut i: usize = 0;
    proof {
        assert(string_views(tokens@) =~= Seq::<Seq<char>>::empty());
        assert(s@.subrange(0, 0) =~= Seq::<char>::empty());
        assert(split_spaces(Seq::<char>::empty()) == seq![Seq::<char>::empty()]);
        assert(Seq::<Seq<char>>::empty().push(s@.subrange(0, 0)) =~= seq![Seq::<char>::empty()]);
    }
    while i < n
        invariant
            n == s@.len(),
            start <= i <= n,
            string_views(tokens@).push(s@.subrange(start as int, i as int)) == split_spaces(s@.subrange(0, i as int)),
        decreases n - i,
    {
        let c = s.as_str().get_char(i);
        let ghost prefix = s@.subrange(0, i as int);
        proof {
            assert(s@.subrange(0, i + 1).drop_last() =~= prefix);
            assert(s@.subrange(0, i + 1).last() == c);
            lemma_split_nonempty(prefix);
        }
        if c == ' ' {
            let piece = s.as_str().substring_char(start, i).to_owned();
            let ghost before = tokens@;
            tokens.push(piece);
            start = i + 1;
            proof {
                assert(string_views(tokens@) =~= string_views(before).push(piece@));
                assert(s@.subrange(start as int, i + 1) =~= Seq::<char>::empty());
            }
        } else {
            proof {
                assert(s@.subrange(start as int, i + 1) =~= s@.subrange(start as int, i as int).push(c));
            }
        }
        i = i + 1;
    }
    let last = s.as_str().substring_char(start, n).to_owned();
    let ghost before = tokens@;
    tokens.push(last);
    proof {
        assert(string_views(tokens@) =~= string_views(before).push(last@));
        assert(s@.subrange(0, n as int) =~= s@);
    }
    tokens
}

/// An ASCII whitespace character: space, tab, line feed, carriage return,
/// vertical tab or form feed.
pub open spec fn is_blank(c: char) -> bool {
    c == ' ' || c == '\t' || c == '\n' || c == '\r' || c == '\x0B' || c == '\x0C'
}

/// The words of `s`: its longest runs of non-blank characters, in order.
pub open spec fn blank_words(s: Seq<char>) -> Seq<Seq<char>>
    decreases s.len(),
{
    if s.len() == 0 {
        Seq::empty()
    } else {
        let prev = blank_words(s.drop_last());
        if is_blank(s.last()) {
            prev
        } else if s.len() >= 2 && !is_blank(s[s.len() - 2]) && prev.len() > 0 {
            prev.update(prev.len() - 1, prev.last().push(s.last()))
        } else {
            prev.push(seq![s.last()])
        }
    }
}

fn is_blank_char(c: char) -> (r: bool)
    ensures
        r == is_blank(c),
{
    c == ' ' || c == '\t' || c == '\n' || c == '\r' || c == '\x0B' || c == '\x0C'
}

proof fn lemma_words_end_in_word(s: Seq<char>, start: int)
    requires
        0 <= start < s.len(),
        forall|m: int| start <= m < s.len() ==> !is_blank(#[trigger] s[m]),
        start == 0 || is_blank(s[start - 1]),
    ensures
        blank_words(s).len() >= 1,
        blank_words(s).last() == s.subrange(start, s.len() as int),
        blank_words(s).drop_last() == blank_words(s.subrange(0, start)),
    decreases s.len(),
{
    let p = s.drop_last();
    if s.len() - 1 == start {
        assert(p =~= s.subrange(0, start));
        assert(seq![s.last()] =~= s.subrange(start, s.len() as int));
        assert(blank_words(s).drop_last() =~= blank_words(p));
    } else {
        assert(s[s.len() - 2] == p[p.len() - 1]);
        assert forall|m: int| start <= m < p.len() implies !is_blank(#[trigger] p[m]) by {
            assert(p[m] == s[m]);
        }
        if start > 0 {
            assert(p[start - 1] == s[start - 1]);
        }
        lemma_words_end_in_word(p, start);
        assert(p.subrange(0, start) =~= s.subrange(0, start));
        assert(p.subrange(start, p.len() as int).push(s.last()) =~= s.subrange(start, s.len() as int));
        assert(blank_words(s).drop_last() =~= blank_words(p).drop_last());
    }
}

/// Splits `s` into its words (see `blank_words`).
pub fn split_whitespace_words(s: &String) -> (r: Vec<String>)
    ensures
        string_views(r@) == blank_words(s@),
{
    let n = s.as_str().unicode_len();
    let mut tokens: Vec<String> = Vec::new();
    let mut start: usize = 0;
    let mut i: usize = 0;
    while i < n
        invariant
            n == s@.len(),
            start <= i <= n,
            forall|m: int| start <= m < i ==> !is_blank(#[trigger] s@[m]),
            start == 0 || is_blank(s@[start - 1]),
            string_views(tokens@) == blank_words(s@.subrange(0, start as int)),
        decreases n - i,
    {
        let c = s.as_str().get_char(i);
        if is_blank_char(c) {
            let ghost prefix = s@.subrange(0, i as int);
            if start < i {
                let piece = s.as_str().substring_char(start, i).to_owned();
                let ghost before = tokens@;
                tokens.push(piece);
                proof {
                    lemma_words_end_in_word(prefix, start as int);
                    assert(prefix.subrange(0, start as int) =~= s@.subrange(0, start as int));
                    assert(prefix.subrange(start as int, i as int) =~= piece@);
                    assert(string_views(tokens@) =~= string_views(before).push(piece@));
                    assert(blank_words(prefix) =~= blank_words(prefix).drop_last().push(blank_words(prefix).last()));
                }
            } else {
                proof {
                    assert(prefix =~= s@.subrange(0, start as int));
                }
            }
            proof {
                assert(s@.subrange(0, i + 1).drop_last() =~= prefix);
                assert(s@.subrange(0, i + 1).last() == c);
            }
            start = i + 1;
        }
        i = i + 1;
    }
    if start < n {
        let piece = s.as_str().substring_char(start, n).to_owned();
        let ghost before = tokens@;
        tokens.push(piece);
        proof {
            lemma_words_end_in_word(s@, start as int);
            assert(s@.subrange(start as int, n as int) =~= piece@);
            assert(string_views(tokens@) =~= string_views(before).push(piece@));
            assert(blank_words(s@) =~= blank_words(s@).drop_last().push(blank_words(s@).last()));
        }
    } else {
        proof {
            assert(s@.subrange(0, n as int) =~= s@);
        }
    }
    tokens
}

/// Splits a command line into its first word and the words after it.
pub fn split_command(cmd: &String) -> (r: (String, Vec<String>))
    ensures
        r.0@ == split_spaces(cmd@)[0],
        string_views(r.1@) == split_spaces(cmd@).drop_first(),
{
    let mut words = split_words(cmd);
    proof {
        lemma_split_nonempty(cmd@);
    }
    let ghost all = words@;
    let first = words.remove(0);
    proof {
        assert(string_views(words@) =~= string_views(all).drop_first());
    }
    (first, words)
}

/// A program to start on a file: the program and its arguments.
#[derive(Debug, Clone)]
pub struct LaunchRequest {
    pub program: String,
    pub args: Vec<String>,
}

/// The launch of `file` with the command template `cmd`: the template's first
/// word is the program, its other words and then the file its arguments.
pub open spec fn launch_of(cmd: Seq<char>, file: Seq<char>, r: LaunchRequest) -> bool {
    &&& r.program@ == split_spaces(cmd)[0]
    &&& string_views(r.args@) == split_spaces(cmd).drop_first().push(file)
}

/// The launch of `file` with the command template `cmd` (see `launch_of`).
pub fn launch_request(cmd: &String, file: &String) -> (r: LaunchRequest)
    ensures
        launch_of(cmd@, file@, r),
{
    let (program, mut args) = split_command(cmd);
    let ghost before = args@;
    args.push(file.clone());
    proof {
        assert(string_views(args@) =~= string_views(before).push(file@));
    }
    LaunchRequest { program, args }
}

/// A file operation that the command bar asks for.
#[derive(Debug, Clone)]
pub enum CommandRequest {
    /// Create the empty file `path`, which must not exist yet.
    CreateFile { path: String },
}

/// Why a command line was not accepted.
#[derive(Debug, Clone, Copy, PartialEq, Eq, Structural)]
pub enum CommandError {
    UnknownVerb,
    MissingArgument,
}

/// What the command line `cmd` asks for, run in the directory `dir`; its
/// words are separated by whitespace. `n NAME` creates the file NAME there; a
/// line without words or whose first word is not `n` is unknown, and `n`
/// without a name lacks its argument.
pub open spec fn command_outcome(cmd: Seq<char>, dir: Seq<char>, r: Result<CommandRequest, CommandError>) -> bool {
    let words = blank_words(cmd);
    if words.len() == 0 || words[0] != "n"@ {
        r == Err::<CommandRequest, CommandError>(CommandError::UnknownVerb)
    } else if words.len() < 2 {
        r == Err::<CommandRequest, CommandError>(CommandError::MissingArgument)
    } else {
        match r {
            Ok(CommandRequest::CreateFile { path }) => path@ == joined_path(dir, words[1]),
            Err(_) => false,
        }
    }
}

/// Reads the command line `cmd`, run in the directory `dir` (see
/// `command_outcome`).
pub fn parse_command(cmd: &String, dir: &String) -> (r: Result<CommandRequest, CommandError>)
    ensures
        command_outcome(cmd@, dir@, r),
{
    let words = split_whitespace_words(cmd);
    if words.len() == 0 {
        return Err(CommandError::UnknownVerb);
    }
    let verb = String::from_str("n");
    if words[0] != verb {
        return Err(CommandError::UnknownVerb);
    }
    if words.len() < 2 {
        return Err(CommandError::MissingArgument);
    }
    Ok(CommandRequest::CreateFile { path: join_path(dir, &words[1]) })
}

/// The message the command bar shows after trying to create a file.
pub open spec fn creation_message(created: bool) -> Seq<char> {
    if created { "The file created successfully"@ } else { "The file already exists"@ }
}

/// The message the command bar shows after trying to create a file.
pub fn creation_report(created: bool) -> (r: String)
    ensures
        r@ == creation_message(created),
{
    if created {
        String::from_str("The file created successfully")
    } else {
        String::from_str("The file already exists")
    }
}

/// The message the log shows for a command line that was not accepted.
pub open spec fn command_error_message(e: CommandError) -> Seq<char> {
    match e {
        CommandError::UnknownVerb => "Unknown command"@,
        CommandError::MissingArgument => "The command needs a file name"@,
    }
}

impl CommandError {
    /// The message the log shows for this error.
    pub fn message(&self) -> (r: String)
        ensures
            r@ == command_error_message(*self),
    {
        match self {
            CommandError::UnknownVerb => String::from_str("Unknown command"),
            CommandError::MissingArgument => String::from_str("The command needs a file name"),
        }
    }
}

} // verus!
