//! The comment block of a file, as `metaflac` holds it: a map from field
//! names to lists of values. Everything stated here about the block is taken
//! on trust from the source of `metaflac`.

use vstd::prelude::*;
use metaflac::block::VorbisComment;
use crate::text::strs;

verus! {

/// `metaflac::block::VorbisComment`, carried as an opaque value: nothing is
/// claimed of its fields.
#[verifier::external_type_specification]
#[verifier::external_body]
pub struct ExVorbisComment(metaflac::block::VorbisComment);

/// The comments of a block, that is the contents of its `comments` map: for
/// each field name that is set, its values in the order in which they are
/// stored.
pub uninterp spec fn comments_of(block: VorbisComment) -> Map<Seq<char>, Seq<Seq<char>>>;

/// The texts of a list are pairwise different.
pub open spec fn distinct(names: Seq<Seq<char>>) -> bool {
    forall|i: int, j: int| 0 <= i < j < names.len() ==> names[i] != names[j]
}

/// Calls `VorbisComment::get` and copies what it finds. Trusted: the result
/// is the list stored under exactly this name, and nothing where the name is
/// not set.
#[verifier::external_body]
pub(crate) fn stored_values(block: &VorbisComment, key: &str) -> (r: Option<Vec<String>>)
    ensures
        match r {
            Some(v) => comments_of(*block).contains_key(key@) && strs(v@) == comments_of(
                *block,
            )[key@],
            None => !comments_of(*block).contains_key(key@),
        },
{
    block.get(key).cloned()
}

/// Calls `VorbisComment::set`. Trusted: afterwards the name holds exactly the
/// given values, and every other name holds what it held.
#[verifier::external_body]
pub(crate) fn store_values(block: &mut VorbisComment, key: &str, values: Vec<String>)
    ensures
        comments_of(*final(block)) == comments_of(*old(block)).insert(key@, strs(values@)),
{
    block.set(key, values)
}

/// Calls `VorbisComment::remove`. Trusted: afterwards the name is not set, and
/// every other name holds what it held.
#[verifier::external_body]
pub(crate) fn remove_values(block: &mut VorbisComment, key: &str)
    ensures
        comments_of(*final(block)) == comments_of(*old(block)).remove(key@),
{
    block.remove(key)
}

/// Copies the keys of the block's `comments` map. Trusted: each name that is
/// set comes once and no other name comes; the order is not determined.
#[verifier::external_body]
pub(crate) fn stored_keys(block: &VorbisComment) -> (r: Vec<String>)
    ensures
        distinct(strs(r@)),
        forall|name: Seq<char>| strs(r@).contains(name) <==> comments_of(*block).contains_key(name),
{
    block.comments.keys().cloned().collect()
}

} // verus!
