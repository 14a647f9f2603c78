//! Where the result of a conversion is stored.

use crate::text::{ends_with, is_suffix, lemma_suffix_of_concat};
use vstd::prelude::*;

verus! {

/// The path a conversion stores its result under: `output` itself where it
/// already ends with the format tag, and otherwise `output`, a dot and the tag.
///
/// The test is on the characters alone, with no regard to where an extension
/// starts: `my_jpeg` with the tag `jpeg` is left as it is.
pub open spec fn resolved_path(output: Seq<char>, tag: Seq<char>) -> Seq<char> {
    if is_suffix(output, tag) {
        output
    } else {
        output + seq!['.'] + tag
    }
}

/// The path to store a conversion to `format` under, given the path asked for.
pub fn resolve_output_path(output_path: &str, format: &str) -> (path: String)
    ensures
        path@ == resolved_path(output_path@, format@),
{
    let mut path: String = String::from_str(output_path);
    if !ends_with(output_path, format) {
        proof {
            reveal_strlit(".");
            assert("."@ =~= seq!['.']);
        }
        path.append(".");
        path.append(format);
    }
    path
}

/// A resolved path ends with the format tag.
pub proof fn lemma_resolved_path_ends_with_tag(output: Seq<char>, tag: Seq<char>)
    ensures
        is_suffix(resolved_path(output, tag), tag),
{
    if !is_suffix(output, tag) {
        lemma_suffix_of_concat(output + seq!['.'], tag);
    }
}

/// Resolving is idempotent: a resolved path resolves to itself under the same tag.
pub proof fn lemma_resolve_idempotent(output: Seq<char>, tag: Seq<char>)
    ensures
        resolved_path(resolved_path(output, tag), tag) == resolved_path(output, tag),
{
    lemma_resolved_path_ends_with_tag(output, tag);
}

/// A path that already ends with the tag is kept, and no other path is.
pub proof fn lemma_resolved_path_kept_iff_suffix(output: Seq<char>, tag: Seq<char>)
    ensures
        resolved_path(output, tag) == output <==> is_suffix(output, tag),
{
    if !is_suffix(output, tag) {
        assert(resolved_path(output, tag).len() == output.len() + 1 + tag.len());
    }
}

} // verus!
