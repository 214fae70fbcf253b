//! What the organizer reads out of a path: the name of the file it leads to
//! and the extension of that name.

use crate::text::{is_segment_of, to_lowercase, unicode_lowercase};
use vstd::prelude::*;
use vstd::string::StrSliceExecFns;
use vstd::string::StringExecFns;

verus! {

/// Whether the last dot of `name` stands at index `at`.
pub open spec fn is_last_dot(name: Seq<char>, at: int) -> bool {
    &&& 0 <= at < name.len()
    &&& name[at] == '.'
    &&& forall|k: int| at < k < name.len() ==> name[k] != '.'
}

/// The extension of the file name `name`: what follows its last dot. A name
/// without a dot has none, and neither has a name whose only dot is its
/// first character.
pub open spec fn extension(name: Seq<char>) -> Option<Seq<char>> {
    if exists|at: int| at > 0 && is_last_dot(name, at) {
        let at = choose|at: int| at > 0 && is_last_dot(name, at);
        Some(name.subrange(at + 1, name.len() as int))
    } else {
        None
    }
}

/// The extension of `name` as the organizer compares it: in lower case,
/// behind a dot.
pub open spec fn dotted_extension(name: Seq<char>) -> Option<Seq<char>> {
    match extension(name) {
        Some(ext) => Some(seq!['.'] + unicode_lowercase(ext)),
        None => None,
    }
}

/// The last component of `path`, as `std::path::Path::file_name` gives it:
/// the name of the file or directory that the path leads to, and `None`
/// where the path has no such name. It is a function of the path alone, read
/// by the path syntax of the platform that the library is built for.
pub uninterp spec fn last_component(path: Seq<char>) -> Option<Seq<char>>;

/// `std::path::Path::file_name` on `path`, as text. The result is what
/// [`last_component`] names. Of what it holds only this is claimed: it is a
/// part of the path.
#[verifier::external_body]
pub(crate) fn file_name(path: &str) -> (name: Option<&str>)
    ensures
        match name {
            Some(found) => last_component(path@) == Some(found@),
            None => last_component(path@) is None,
        },
        name matches Some(found) ==> is_segment_of(found@, path@),
{
    std::path::Path::new(path).file_name()?.to_str()
}

/// A name has one last dot at most.
proof fn lemma_last_dot_is_unique(name: Seq<char>, a: int, b: int)
    requires
        is_last_dot(name, a),
        is_last_dot(name, b),
    ensures
        a == b,
{
}

/// The extension of the file name `name`, as it stands in the name.
pub fn extension_of_name(name: &str) -> (ext: Option<&str>)
    ensures
        match ext {
            Some(found) => extension(name@) == Some(found@),
            None => extension(name@) is None,
        },
{
    let n: usize = name.unicode_len();
    let mut at: usize = n;
    while at > 0 && name.get_char(at - 1) != '.'
        invariant
            at <= n,
            n == name@.len(),
            forall|k: int| at <= k < n ==> name@[k] != '.',
        decreases at,
    {
        at -= 1;
    }
    if at <= 1 {
        proof {
            assert forall|d: int| is_last_dot(name@, d) implies d == 0 by {
                if at == 1 {
                    lemma_last_dot_is_unique(name@, d, 0);
                }
            }
        }
        return None;
    }
    proof {
        let found = at - 1;
        assert(found > 0 && is_last_dot(name@, found));
        let chosen = choose|d: int| d > 0 && is_last_dot(name@, d);
        lemma_last_dot_is_unique(name@, chosen, found);
    }
    Some(name.substring_char(at, n))
}

/// The extension of the file name `name`, in lower case and behind a dot.
pub fn dotted_extension_of(name: &str) -> (ext: Option<String>)
    ensures
        ext.deep_view() == dotted_extension(name@),
{
    match extension_of_name(name) {
        Some(found) => {
            proof {
                reveal_strlit(".");
                assert("."@ =~= seq!['.']);
            }
            let mut ext = String::from_str(".");
            ext.append(to_lowercase(found).as_str());
            Some(ext)
        },
        None => None,
    }
}

} // verus!
