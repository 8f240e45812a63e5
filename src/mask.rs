//! Field masks: the list of field paths that a partial update names.

use vstd::prelude::*;
use crate::text::same_text;

verus! {

/// The fields that an update should touch; none means every mutable field.
#[derive(Clone, Debug)]
pub struct FieldMask {
    pub paths: Vec<String>,
}

pub open spec fn text_views(paths: Seq<String>) -> Seq<Seq<char>> {
    paths.map_values(|p: String| p@)
}

pub open spec fn str_views(fields: Seq<&str>) -> Seq<Seq<char>> {
    fields.map_values(|f: &str| f@)
}

/// The paths that a mask lists, in order; an absent mask lists none.
pub open spec fn mask_paths(mask: Option<FieldMask>) -> Seq<Seq<char>> {
    match mask {
        Some(m) => text_views(m.paths@),
        None => Seq::empty(),
    }
}

/// Every path is one of `fields`.
pub open spec fn all_known(paths: Seq<Seq<char>>, fields: Seq<Seq<char>>) -> bool {
    forall|i: int| 0 <= i < paths.len() ==> fields.contains(#[trigger] paths[i])
}

/// Whether an update with `mask` writes `field`: every field when the mask is empty.
pub open spec fn writes(mask: Option<FieldMask>, field: Seq<char>) -> bool {
    mask_paths(mask).len() == 0 || mask_paths(mask).contains(field)
}

/// A mask that an update accepts: empty, or naming only known fields.
pub open spec fn mask_accepted(mask: Option<FieldMask>, fields: Seq<Seq<char>>) -> bool {
    mask_paths(mask).len() == 0 || all_known(mask_paths(mask), fields)
}

/// The paths of a mask, taken out of it.
pub fn into_paths(mask: Option<FieldMask>) -> (r: Vec<String>)
    ensures
        text_views(r@) == mask_paths(mask),
{
    match mask {
        Some(m) => m.paths,
        None => Vec::new(),
    }
}

/// Whether `field` is among `paths`.
pub fn names_field(paths: &Vec<String>, field: &str) -> (r: bool)
    ensures
        r == text_views(paths@).contains(field@),
{
    let mut i: usize = 0;
    while i < paths.len()
        invariant
            i <= paths.len(),
            forall|k: int| 0 <= k < i ==> paths@[k]@ != field@,
        decreases paths.len() - i,
    {
        if same_text(paths[i].as_str(), field) {
            assert(text_views(paths@)[i as int] == field@);
            return true;
        }
        i = i + 1;
    }
    assert forall|k: int| 0 <= k < paths.len() implies text_views(paths@)[k] != field@ by {
        assert(paths@[k]@ != field@);
    }
    false
}

fn is_listed(fields: &Vec<&str>, p: &str) -> (r: bool)
    ensures
        r == str_views(fields@).contains(p@),
{
    let mut i: usize = 0;
    while i < fields.len()
        invariant
            i <= fields.len(),
            forall|k: int| 0 <= k < i ==> fields@[k]@ != p@,
        decreases fields.len() - i,
    {
        if same_text(fields[i], p) {
            assert(str_views(fields@)[i as int] == p@);
            return true;
        }
        i = i + 1;
    }
    assert forall|k: int| 0 <= k < fields.len() implies str_views(fields@)[k] != p@ by {
        assert(fields@[k]@ != p@);
    }
    false
}

/// Whether every path is one of `fields`.
pub fn all_paths_known(paths: &Vec<String>, fields: &Vec<&str>) -> (r: bool)
    ensures
        r == all_known(text_views(paths@), str_views(fields@)),
{
    let mut i: usize = 0;
    while i < paths.len()
        invariant
            i <= paths.len(),
            forall|k: int|
                0 <= k < i ==> str_views(fields@).contains(#[trigger] text_views(paths@)[k]),
        decreases paths.len() - i,
    {
        if !is_listed(fields, paths[i].as_str()) {
            assert(text_views(paths@)[i as int] == paths@[i as int]@);
            return false;
        }
        i = i + 1;
    }
    true
}

} // verus!
