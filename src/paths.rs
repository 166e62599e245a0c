use vstd::prelude::*;

verus! {

/// The path of `name` inside the directory `dir`.
pub uninterp spec fn joined_path(dir: Seq<char>, name: Seq<char>) -> Seq<char>;

/// The directory that holds a path, if it has one.
pub uninterp spec fn parent_path(p: Seq<char>) -> Option<Seq<char>>;

/// The last component of a path, if it names one.
pub uninterp spec fn final_component(p: Seq<char>) -> Option<Seq<char>>;

/// The extension of a path's last component, without its dot, if it has one.
pub uninterp spec fn path_extension(p: Seq<char>) -> Option<Seq<char>>;

/// Whether two paths are equal as std compares paths: component by component,
/// so that a trailing separator or a `.` component makes no difference.
pub uninterp spec fn path_equal(a: Seq<char>, b: Seq<char>) -> bool;

/// Relies on std's `PartialEq for Path`: whether two paths have the same
/// components.
#[verifier::external_body]
pub(crate) fn paths_equal(a: &String, b: &String) -> (r: bool)
    ensures
        r == path_equal(a@, b@),
{
    std::path::Path::new(a.as_str()) == std::path::Path::new(b.as_str())
}

/// Relies on std's `Path::join`: the path of `name` inside `dir`.
#[verifier::external_body]
pub(crate) fn join_path(dir: &String, name: &String) -> (r: String)
    ensures
        r@ == joined_path(dir@, name@),
{
    std::path::Path::new(dir.as_str()).join(name.as_str()).to_string_lossy().into_owned()
}

/// Relies on std's `Path::parent`: the directory above a path, none for a root
/// or an empty path.
#[verifier::external_body]
pub(crate) fn parent_of(p: &String) -> (r: Option<String>)
    ensures
        r.is_some() == parent_path(p@).is_some(),
        r.is_some() ==> r->Some_0@ == parent_path(p@)->Some_0,
{
    std::path::Path::new(p.as_str()).parent().map(|q| q.to_string_lossy().into_owned())
}

/// Relies on std's `Path::file_name`: the last component of a path, none where
/// the path ends in a root or in `..`.
#[verifier::external_body]
pub(crate) fn file_name_of(p: &String) -> (r: Option<String>)
    ensures
        r.is_some() == final_component(p@).is_some(),
        r.is_some() ==> r->Some_0@ == final_component(p@)->Some_0,
{
    std::path::Path::new(p.as_str()).file_name().map(|q| q.to_string_lossy().into_owned())
}

/// Relies on std's `Path::extension`: what follows the last dot of the last
/// component, none where that component has no dot past its first character.
#[verifier::external_body]
pub(crate) fn extension_of(p: &String) -> (r: Option<String>)
    ensures
        r.is_some() == path_extension(p@).is_some(),
        r.is_some() ==> r->Some_0@ == path_extension(p@)->Some_0,
{
    std::path::Path::new(p.as_str()).extension().map(|q| q.to_string_lossy().into_owned())
}

} // verus!
