//! Paths are held as strings. What std::path computes on them is relied on through
//! the wrappers below, each of which names its result.
use vstd::prelude::*;

verus! {

/// What `Path::parent` gives for a path.
pub uninterp spec fn parent_of(p: Seq<char>) -> Option<Seq<char>>;

/// What `Path::join` gives for a base and a pushed path.
pub uninterp spec fn joined(base: Seq<char>, name: Seq<char>) -> Seq<char>;

/// What `Path::file_name` gives for a path, where it is valid text.
pub uninterp spec fn file_name_of(p: Seq<char>) -> Option<Seq<char>>;

/// The text of each item that `Path::components` yields for a path.
pub uninterp spec fn components_of(p: Seq<char>) -> Seq<Seq<char>>;

/// The text of the root component.
pub open spec fn root_text() -> Seq<char> {
    seq!['/']
}

/// Component text that names an entry (neither the root, `.` nor `..`).
pub open spec fn is_normal_text(c: Seq<char>) -> bool {
    c != root_text() && c != seq!['.'] && c != seq!['.', '.']
}

/// Relies on `Path::parent`: the path without its final component, none for a path
/// that ends in a root or is empty; a parent is shorter than its path.
#[verifier::external_body]
pub(crate) fn parent(p: &String) -> (r: Option<String>)
    ensures
        match r {
            Some(q) => parent_of(p@) == Some(q@),
            None => parent_of(p@) is None,
        },
        r is Some ==> r->0@.len() < p@.len(),
        p@.len() == 0 ==> r is None,
{
    std::path::Path::new(p.as_str()).parent().map(|q| q.to_string_lossy().into_owned())
}

/// Relies on `Path::join`: the base with the name pushed onto it.
#[verifier::external_body]
pub(crate) fn join(base: &String, name: &String) -> (r: String)
    ensures
        r@ == joined(base@, name@),
{
    std::path::Path::new(base.as_str()).join(name.as_str()).to_string_lossy().into_owned()
}

/// Relies on `Path::file_name`: the final component of a path, none where the path
/// ends in `..` or a root.
#[verifier::external_body]
pub(crate) fn file_name(p: &String) -> (r: Option<String>)
    ensures
        match r {
            Some(n) => file_name_of(p@) == Some(n@),
            None => file_name_of(p@) is None,
        },
{
    std::path::Path::new(p.as_str()).file_name().and_then(|n| n.to_str()).map(|n| n.to_string())
}

/// Relies on `Path::components`: the components of a path in order, each as its text.
#[verifier::external_body]
pub(crate) fn components(p: &String) -> (r: Vec<String>)
    ensures
        r@.len() == components_of(p@).len(),
        forall|i: int| 0 <= i < r@.len() ==> #[trigger] r@[i]@ == components_of(p@)[i],
{
    std::path::Path::new(p.as_str()).components().map(
        |c| c.as_os_str().to_string_lossy().into_owned(),
    ).collect()
}

/// Whether component text is the root.
pub fn is_root_text(c: &String) -> (r: bool)
    ensures
        r == (c@ == root_text()),
{
    let s = c.as_str();
    let n = s.unicode_len();
    if n != 1 {
        return false;
    }
    let a = s.get_char(0);
    proof {
        if a == '/' {
            assert(c@ =~= root_text());
        }
    }
    a == '/'
}

/// Whether component text names an entry.
pub fn is_normal_component(c: &String) -> (r: bool)
    ensures
        r == is_normal_text(c@),
{
    let s = c.as_str();
    let n = s.unicode_len();
    if n == 1 {
        let a = s.get_char(0);
        proof {
            if a == '/' {
                assert(c@ =~= root_text());
            }
            if a == '.' {
                assert(c@ =~= seq!['.']);
            }
        }
        a != '/' && a != '.'
    } else if n == 2 {
        let a = s.get_char(0);
        let b = s.get_char(1);
        proof {
            if a == '.' && b == '.' {
                assert(c@ =~= seq!['.', '.']);
            }
        }
        !(a == '.' && b == '.')
    } else {
        true
    }
}

} // verus!

verus! {

/// The texts of a list of paths.
pub open spec fn texts(v: Seq<String>) -> Seq<Seq<char>> {
    v.map_values(|p: String| p@)
}

} // verus!
