//! Normalisation of state-variable names.
//!
//! By UPnP convention a leading `A_ARG_TYPE_` marks a variable that only
//! exists to type an action argument; the marker is not part of the logical
//! name and is removed whenever a name is read.

use vstd::prelude::*;

verus! {

/// The marker that introduces an argument-only state variable name.
pub open spec fn arg_type_marker() -> Seq<char> {
    seq!['A', '_', 'A', 'R', 'G', '_', 'T', 'Y', 'P', 'E', '_']
}

/// Whether `s` begins with the marker.
pub open spec fn starts_with_marker(s: Seq<char>) -> bool {
    s.len() >= arg_type_marker().len() && s.subrange(0, arg_type_marker().len() as int)
        == arg_type_marker()
}

/// `s` with every leading occurrence of the marker removed.
pub open spec fn strip_marker(s: Seq<char>) -> Seq<char>
    decreases s.len(),
{
    if starts_with_marker(s) {
        strip_marker(s.subrange(arg_type_marker().len() as int, s.len() as int))
    } else {
        s
    }
}

/// Relies on `str::trim_start_matches` with a string pattern: it removes the
/// pattern from the front of `s` repeatedly, as long as `s` starts with it.
#[verifier::external_body]
pub(crate) fn trim_arg_type_marker(s: &str) -> (r: &str)
    ensures
        r@ == strip_marker(s@),
{
    s.trim_start_matches("A_ARG_TYPE_")
}

/// Stripping the marker removes a prefix of the name: the result is a suffix
/// of `s`, does not itself start with the marker, and is `s` unchanged when `s`
/// does not start with the marker.
pub proof fn lemma_strip_is_suffix(s: Seq<char>)
    ensures
        strip_marker(s).len() <= s.len(),
        strip_marker(s) == s.subrange(s.len() - strip_marker(s).len(), s.len() as int),
        !starts_with_marker(strip_marker(s)),
        !starts_with_marker(s) ==> strip_marker(s) == s,
    decreases s.len(),
{
    if starts_with_marker(s) {
        let rest = s.subrange(arg_type_marker().len() as int, s.len() as int);
        lemma_strip_is_suffix(rest);
        assert(rest.subrange(rest.len() - strip_marker(rest).len(), rest.len() as int)
            =~= s.subrange(s.len() - strip_marker(rest).len(), s.len() as int));
    }
}

/// Stripping the marker is idempotent: stripping twice equals stripping once.
pub proof fn lemma_strip_idempotent(s: Seq<char>)
    ensures
        strip_marker(strip_marker(s)) == strip_marker(s),
{
    lemma_strip_is_suffix(s);
}

} // verus!
