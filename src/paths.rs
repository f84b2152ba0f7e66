use vstd::prelude::*;

verus! {

/// The final component of a path without its extension, as `Path::file_stem`
/// gives it (`None` where the path has no final component).
pub uninterp spec fn file_stem_of(path: Seq<char>) -> Option<Seq<char>>;

/// The path that `PathBuf::push` makes of `base` and `part`.
pub uninterp spec fn joined_path(base: Seq<char>, part: Seq<char>) -> Seq<char>;

/// Relies on `std::path::Path::file_stem`: the stem depends on the path's text
/// alone. A stem of a UTF-8 path is a slice of it, so it converts without loss.
#[verifier::external_body]
pub(crate) fn file_stem(path: &str) -> (r: Option<String>)
    ensures
        match r {
            Some(s) => file_stem_of(path@) == Some(s@),
            None => file_stem_of(path@) is None,
        },
{
    match std::path::Path::new(path).file_stem() {
        Some(stem) => Some(stem.to_string_lossy().into_owned()),
        None => None,
    }
}

/// Relies on `std::path::PathBuf::push`: the joined path depends on the two
/// texts alone. Both are UTF-8, so the result converts without loss.
#[verifier::external_body]
fn push_path(base: &str, part: &str) -> (r: String)
    ensures
        r@ == joined_path(base@, part@),
{
    let mut p = std::path::PathBuf::from(base);
    p.push(part);
    p.to_string_lossy().into_owned()
}

/// The location of a file named `to_append` in the directory `exec_dir`
/// (the directory that holds the launcher's executable).
pub fn append_to_exec_dir(exec_dir: &str, to_append: &str) -> (r: String)
    ensures
        r@ == joined_path(exec_dir@, to_append@),
{
    push_path(exec_dir, to_append)
}

/// `s` with every occurrence of `from`, found left to right without
/// overlap, replaced by `to`.
pub open spec fn replaced(s: Seq<char>, from: Seq<char>, to: Seq<char>) -> Seq<char>
    decreases s.len(),
{
    if from.len() == 0 || s.len() < from.len() {
        s
    } else if s.subrange(0, from.len() as int) == from {
        to + replaced(s.subrange(from.len() as int, s.len() as int), from, to)
    } else {
        seq![s[0]] + replaced(s.subrange(1, s.len() as int), from, to)
    }
}

pub open spec fn file_scheme() -> Seq<char> {
    seq!['f', 'i', 'l', 'e', ':', '/', '/']
}

/// Relies on `str::replace`: every match of `from`, found left to right
/// without overlap, is replaced by `to`.
#[verifier::external_body]
fn replace_text(s: &str, from: &str, to: &str) -> (r: String)
    requires
        from@.len() > 0,
    ensures
        r@ == replaced(s@, from@, to@),
{
    s.replace(from, to)
}

/// The path that a file dialog's answer `raw` names: `raw` with every
/// "file://" taken out.
pub fn dialog_path(raw: &str) -> (r: String)
    ensures
        r@ == replaced(raw@, file_scheme(), Seq::empty()),
{
    let scheme: &str = "file://";
    let nothing: &str = "";
    proof {
        reveal_strlit("file://");
        reveal_strlit("");
    }
    assert(scheme@ =~= file_scheme());
    assert(nothing@ =~= Seq::<char>::empty());
    replace_text(raw, scheme, nothing)
}

/// Whether two texts are equal.
pub fn same_text(a: &str, b: &str) -> (r: bool)
    ensures
        r == (a@ == b@),
{
    a.to_owned() == b.to_owned()
}

} // verus!
