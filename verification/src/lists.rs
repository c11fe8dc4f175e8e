//! Optional lists of strings as the wire models carry them.

use vstd::prelude::*;
use crate::text::views;

verus! {

/// The view of an optional list of strings.
pub open spec fn opt_views(o: Option<Vec<String>>) -> Option<Seq<Seq<char>>> {
    match o {
        Some(v) => Some(views(v@)),
        None => None,
    }
}

/// An empty list as no list, as request bodies omit empty lists.
pub open spec fn none_if_empty(v: Seq<Seq<char>>) -> Option<Seq<Seq<char>>> {
    if v.len() == 0 {
        None
    } else {
        Some(v)
    }
}

/// No list as an empty one, as responses may omit empty lists.
pub open spec fn empty_if_none(o: Option<Seq<Seq<char>>>) -> Seq<Seq<char>> {
    match o {
        Some(v) => v,
        None => Seq::empty(),
    }
}

/// Omits an empty list.
pub fn list_or_none(v: Vec<String>) -> (r: Option<Vec<String>>)
    ensures
        opt_views(r) == none_if_empty(views(v@)),
{
    if v.len() == 0 {
        None
    } else {
        Some(v)
    }
}

/// Reads an omitted list as empty.
pub fn list_or_empty(o: Option<Vec<String>>) -> (v: Vec<String>)
    ensures
        views(v@) == empty_if_none(opt_views(o)),
{
    match o {
        Some(v) => v,
        None => {
            let v: Vec<String> = Vec::new();
            assert(views(v@) =~= Seq::<Seq<char>>::empty());
            v
        },
    }
}

/// Omitting an empty list and reading it back gives the list.
pub proof fn lemma_list_roundtrip(v: Seq<Seq<char>>)
    ensures
        empty_if_none(none_if_empty(v)) == v,
{
    if v.len() == 0 {
        assert(v =~= Seq::<Seq<char>>::empty());
    }
}

} // verus!
