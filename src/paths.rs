//! Paths that the browser hands to the filesystem.

use vstd::prelude::*;

verus! {

/// Whether a listed entry already names its directory explicitly: it is
/// absolute, or starts from the current or the parent directory.
pub open spec fn is_anchored(entry: Seq<char>) -> bool {
    ||| (entry.len() >= 1 && entry[0] == '/')
    ||| (entry.len() >= 2 && entry[0] == '.' && entry[1] == '/')
    ||| (entry.len() >= 3 && entry[0] == '.' && entry[1] == '.' && entry[2] == '/')
}

/// The path that is listed when the browser enters `entry`: the entry itself
/// where it is anchored, else the entry under the current directory.
pub open spec fn nav_target_spec(entry: Seq<char>) -> Seq<char> {
    if is_anchored(entry) {
        entry
    } else {
        seq!['.', '/'] + entry
    }
}

/// The directory that is listed first.
pub fn start_dir() -> (r: String)
    ensures
        r@ == seq!['.', '/'],
{
    proof {
        reveal_strlit("./");
    }
    String::from_str("./")
}

/// The path that "leave to the parent directory" lists.
pub fn parent_dir() -> (r: String)
    ensures
        r@ == seq!['.', '.', '/'],
{
    proof {
        reveal_strlit("../");
    }
    String::from_str("../")
}

/// The path to list when the browser enters `entry`.
pub fn nav_target(entry: &str) -> (r: String)
    ensures
        r@ == nav_target_spec(entry@),
{
    let n = entry.unicode_len();
    let c0 = if n >= 1 { entry.get_char(0) } else { ' ' };
    let c1 = if n >= 2 { entry.get_char(1) } else { ' ' };
    let c2 = if n >= 3 { entry.get_char(2) } else { ' ' };
    let anchored = (n >= 1 && c0 == '/') || (n >= 2 && c0 == '.' && c1 == '/') || (n >= 3 && c0
        == '.' && c1 == '.' && c2 == '/');
    if anchored {
        String::from_str(entry)
    } else {
        let mut r = start_dir();
        r.append(entry);
        r
    }
}

/// What `std::path::Path::file_name` gives for a path: its final component,
/// or nothing where the path ends in `..` or is a bare root or prefix.
pub uninterp spec fn file_name_of(path: Seq<char>) -> Option<Seq<char>>;

/// The view of an optional string.
pub open spec fn opt_view(o: Option<String>) -> Option<Seq<char>> {
    match o {
        Some(s) => Some(s@),
        None => None,
    }
}

/// The characters after the last `/` of a path; the whole path where it has
/// no `/`.
pub open spec fn last_piece(p: Seq<char>) -> Seq<char>
    decreases p.len(),
{
    if p.len() == 0 {
        p
    } else if p.last() == '/' {
        Seq::empty()
    } else {
        last_piece(p.drop_last()).push(p.last())
    }
}

/// A piece that names an entry: not empty, and neither `.` nor `..`.
pub open spec fn is_plain_name(n: Seq<char>) -> bool {
    n.len() > 0 && n != seq!['.'] && n != seq!['.', '.']
}

/// The name under which a path is moved: the path's last piece where that
/// is a plain name, else what `Path::file_name` gives.
pub open spec fn name_of(path: Seq<char>) -> Option<Seq<char>> {
    if is_plain_name(last_piece(path)) {
        Some(last_piece(path))
    } else {
        file_name_of(path)
    }
}

/// Relies on `std::path::Path::file_name`: its result depends on the path's
/// characters alone, and, as its documentation gives, a path whose last
/// `/`-separated piece is a plain name has that piece as its final
/// component. A path made from a `str` is valid UTF-8, so the lossy
/// conversion back to a `String` keeps every character.
#[verifier::external_body]
pub(crate) fn file_name(path: &str) -> (r: Option<String>)
    ensures
        opt_view(r) == file_name_of(path@),
        is_plain_name(last_piece(path@)) ==> opt_view(r) == Some(last_piece(path@)),
{
    match std::path::Path::new(path).file_name() {
        Some(n) => Some(n.to_string_lossy().into_owned()),
        None => None,
    }
}

/// Where a file called `name` goes when it is moved into the directory `dir`.
pub fn move_target(dir: &str, name: &str) -> (r: String)
    ensures
        r@ == dir@ + seq!['/'] + name@,
{
    proof {
        reveal_strlit("/");
    }
    let mut r = String::from_str(dir);
    r.append("/");
    r.append(name);
    r
}

} // verus!
