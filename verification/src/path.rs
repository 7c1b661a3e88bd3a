//! Object paths: the addresses under which the bus knows its objects.

use vstd::prelude::*;

verus! {

/// Whether a character may stand in an element of an object path: an ASCII
/// letter, an ASCII digit or an underscore.
pub open spec fn is_element_char(c: char) -> bool {
    ||| 'a' <= c <= 'z'
    ||| 'A' <= c <= 'Z'
    ||| '0' <= c <= '9'
    ||| c == '_'
}

/// Whether a string is a well-formed object path: it starts with a slash,
/// holds only slashes and element characters, has no two slashes in a row,
/// and ends in a slash only if it is the root path.
pub open spec fn is_object_path(s: Seq<char>) -> bool {
    &&& s.len() >= 1
    &&& s[0] == '/'
    &&& s.len() > 1 ==> s[s.len() - 1] != '/'
    &&& forall|i: int| 0 <= i < s.len() ==> #[trigger] s[i] == '/' || is_element_char(s[i])
    &&& forall|i: int| 0 <= i < s.len() - 1 ==> !(#[trigger] s[i] == '/' && s[i + 1] == '/')
}

/// Asks `zvariant::ObjectPath::try_from`, reached as `zbus::zvariant`,
/// whether it takes the string. Its validator parses a slash followed by
/// non-empty runs of ASCII letters, digits and underscores separated by single
/// slashes, and wants the whole input consumed; the contract restates that
/// grammar and is not proved.
#[verifier::external_body]
pub(crate) fn object_path_accepted(path: &str) -> (accepted: bool)
    ensures
        accepted == is_object_path(path@),
{
    zbus::zvariant::ObjectPath::try_from(path).is_ok()
}

} // verus!
