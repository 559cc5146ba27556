//! The bulk edits on the comments of a file.

use vstd::prelude::*;
use itertools::Itertools;
use metaflac::block::VorbisComment;
use crate::comments::{
    comments_of,
    distinct,
    remove_values,
    store_values,
    stored_keys,
    stored_values,
};
use crate::eval::Comments;
use crate::tags::{FlacTags, TagView, is_standard_name, tag_name};
use crate::text::strs;

verus! {

/// The values stored under a name: none where the name is not set.
pub open spec fn values_of(env: Comments, name: Seq<char>) -> Seq<Seq<char>> {
    if env.contains_key(name) {
        env[name]
    } else {
        Seq::empty()
    }
}

/// A list without its repetitions: of equal elements the first stays, and
/// what stays keeps its order.
pub open spec fn first_occurrences(s: Seq<Seq<char>>) -> Seq<Seq<char>>
    decreases s.len(),
{
    if s.len() == 0 {
        Seq::empty()
    } else {
        let head = first_occurrences(s.drop_last());
        if head.contains(s.last()) {
            head
        } else {
            head.push(s.last())
        }
    }
}

/// The names that name no field of the catalogue.
pub open spec fn non_standard_names() -> Set<Seq<char>> {
    Set::new(|name: Seq<char>| !is_standard_name(name))
}

/// Calls `Itertools::unique` on the values and collects what it yields.
/// Trusted: of equal values the first is kept, and the values that are kept
/// come in their order.
#[verifier::external_body]
fn unique_values(values: Vec<String>) -> (r: Vec<String>)
    ensures
        strs(r@) == first_occurrences(strs(values@)),
{
    values.into_iter().unique().collect()
}

/// Sets the values of a field; what it held before is gone. An `Other`
/// field is taken by the name it holds, whether or not the name keeps the
/// invariant of fields.
pub fn set_tags(meta: &mut VorbisComment, field: FlacTags, tags: Vec<String>)
    ensures
        comments_of(*final(meta)) == comments_of(*old(meta)).insert(
            tag_name(field@),
            strs(tags@),
        ),
        field@ matches TagView::Other(name) ==> comments_of(*final(meta)) == comments_of(
            *old(meta),
        ).insert(name, strs(tags@)),
{
    store_values(meta, field.as_str(), tags)
}

/// Adds values to a field, after those that it holds. An `Other` field is
/// taken by the name it holds, whether or not the name keeps the invariant of
/// fields.
pub fn append_tags(meta: &mut VorbisComment, field: FlacTags, tags: Vec<String>)
    ensures
        comments_of(*final(meta)) == comments_of(*old(meta)).insert(
            tag_name(field@),
            values_of(comments_of(*old(meta)), tag_name(field@)) + strs(tags@),
        ),
        field@ matches TagView::Other(name) ==> comments_of(*final(meta)) == comments_of(
            *old(meta),
        ).insert(name, values_of(comments_of(*old(meta)), name) + strs(tags@)),
{
    let mut extra = tags;
    let new_tags = match stored_values(meta, field.as_str()) {
        Some(current) => {
            let mut new_tags = current;
            new_tags.append(&mut extra);
            assert(strs(new_tags@) =~= strs(current@) + strs(tags@));
            new_tags
        },
        None => {
            assert(strs(extra@) =~= Seq::<Seq<char>>::empty() + strs(tags@));
            extra
        },
    };
    store_values(meta, field.as_str(), new_tags);
}

/// Deletes the values of a field and leaves the field unset. An `Other`
/// field is taken by the name it holds, whether or not the name keeps the
/// invariant of fields.
pub fn delete_tags(meta: &mut VorbisComment, field: FlacTags)
    ensures
        comments_of(*final(meta)) == comments_of(*old(meta)).remove(tag_name(field@)),
        field@ matches TagView::Other(name) ==> comments_of(*final(meta)) == comments_of(
            *old(meta),
        ).remove(name),
{
    remove_values(meta, field.as_str())
}

/// Removes the repeated values of every field.
pub fn clean_tags(meta: &mut VorbisComment)
    ensures
        comments_of(*final(meta)) == comments_of(*old(meta)).map_values(
            |values: Seq<Seq<char>>| first_occurrences(values),
        ),
{
    let ghost orig = comments_of(*meta);
    let keys = stored_keys(meta);
    let ghost names = strs(keys@);
    let mut i: usize = 0;
    while i < keys.len()
        invariant
            i <= keys.len(),
            names == strs(keys@),
            distinct(names),
            forall|name: Seq<char>| names.contains(name) <==> orig.contains_key(name),
            forall|name: Seq<char>| comments_of(*meta).contains_key(name) <==> orig.contains_key(name),
            forall|k: int|
                0 <= k < i ==> comments_of(*meta)[#[trigger] names[k]] == first_occurrences(
                    orig[names[k]],
                ),
            forall|k: int| i <= k < names.len() ==> comments_of(*meta)[#[trigger] names[k]] == orig[names[k]],
        decreases keys.len() - i,
    {
        let key = keys[i].as_str();
        assert(names[i as int] == key@);
        assert(names.contains(key@));
        let ghost cur = comments_of(*meta);
        match stored_values(meta, key) {
            Some(values) => {
                let cleaned = unique_values(values);
                store_values(meta, key, cleaned);
                assert forall|k: int| 0 <= k < names.len() && k != i implies comments_of(
                    *meta,
                )[#[trigger] names[k]] == cur[names[k]] by {
                    assert(names[k] != names[i as int]);
                }
            },
            None => {},
        }
        i += 1;
    }
    assert(comments_of(*meta) =~= orig.map_values(
        |values: Seq<Seq<char>>| first_occurrences(values),
    )) by {
        assert forall|name: Seq<char>| orig.contains_key(name) implies comments_of(*meta)[name]
            == first_occurrences(orig[name]) by {
            assert(names.contains(name));
            let k = choose|k: int| 0 <= k < names.len() && names[k] == name;
            assert(comments_of(*meta)[names[k]] == first_occurrences(orig[names[k]]));
        }
    }
}

/// Whether a name is among the first `i` of a list of names.
pub open spec fn among(names: Seq<Seq<char>>, i: int, name: Seq<char>) -> bool {
    exists|k: int| 0 <= k < i && k < names.len() && names[k] == name
}

/// Deletes every field whose name is not in the catalogue.
pub fn clean_non_standard_tags(meta: &mut VorbisComment)
    ensures
        comments_of(*final(meta)) == comments_of(*old(meta)).remove_keys(non_standard_names()),
{
    let ghost orig = comments_of(*meta);
    let keys = stored_keys(meta);
    let ghost names = strs(keys@);
    let mut i: usize = 0;
    while i < keys.len()
        invariant
            i <= keys.len(),
            names == strs(keys@),
            forall|name: Seq<char>| names.contains(name) <==> orig.contains_key(name),
            forall|name: Seq<char>|
                #[trigger] comments_of(*meta).contains_key(name) <==> orig.contains_key(name) && (
                is_standard_name(name) || !among(names, i as int, name)),
            forall|name: Seq<char>|
                #[trigger] comments_of(*meta).contains_key(name) ==> comments_of(*meta)[name]
                    == orig[name],
        decreases keys.len() - i,
    {
        let key = keys[i].as_str();
        assert(names[i as int] == key@);
        assert forall|name: Seq<char>|
            among(names, i + 1, name) == (among(names, i as int, name) || name == key@) by {
            if among(names, i as int, name) {
                let k = choose|k: int| 0 <= k < i && k < names.len() && names[k] == name;
                assert(0 <= k < i + 1 && k < names.len() && names[k] == name);
            }
            if name == key@ {
                assert(0 <= i < i + 1 && i < names.len() && names[i as int] == name);
            }
        }
        if !FlacTags::standard_name(key) {
            remove_values(meta, key);
        }
        i += 1;
    }
    assert(comments_of(*meta) =~= orig.remove_keys(non_standard_names())) by {
        assert forall|name: Seq<char>| orig.contains_key(name) implies among(
            names,
            i as int,
            name,
        ) by {
            assert(names.contains(name));
            let k = choose|k: int| 0 <= k < names.len() && names[k] == name;
            assert(0 <= k < i && k < names.len() && names[k] == name);
        }
    }
}

} // verus!
