//! Conversion from wire models: one value at a time, and whole lists, where the
//! first value that does not convert decides the error.

use vstd::prelude::*;
use crate::pagination::{nonempty_cursor_of, pagination_from_json_nonempty, total_count_of, PaginationJson, PaginationMeta};
use crate::problem::{opt_view, ValidationError};

verus! {

/// The view of a conversion result.
pub open spec fn result_view<T: View>(r: Result<T, ValidationError>) -> Result<T::V, ValidationError> {
    match r {
        Ok(t) => Ok(t@),
        Err(e) => Err(e),
    }
}

/// A nullable member: absent and `null` alike mean no value.
pub open spec fn flatten<T>(o: Option<Option<T>>) -> Option<T> {
    match o {
        Some(Some(t)) => Some(t),
        _ => None,
    }
}

/// Reads a nullable member: absent and `null` alike give no value.
pub fn flatten_option<T>(o: Option<Option<T>>) -> (r: Option<T>)
    ensures
        r == flatten(o),
{
    match o {
        Some(Some(t)) => Some(t),
        _ => None,
    }
}

/// A domain value that is read from a wire model.
pub trait FromJson: Sized + View {
    /// The wire model the value is read from.
    type Json;

    /// What reading a wire model gives.
    spec fn json_result(json: Self::Json) -> Result<Self::V, ValidationError>;

    /// Reads a domain value from its wire model.
    fn from_json(json: Self::Json) -> (r: Result<Self, ValidationError>)
        ensures
            result_view(r) == Self::json_result(json),
    ;
}

/// Puts converted values in front of the result of converting the rest.
pub open spec fn prepend<V>(done: Seq<V>, rest: Result<Seq<V>, ValidationError>) -> Result<Seq<V>, ValidationError> {
    match rest {
        Ok(r) => Ok(done + r),
        Err(e) => Err(e),
    }
}

/// What reading a list gives: every value in order, or the error of the first
/// value that does not convert.
pub open spec fn all_json_results<T: FromJson>(items: Seq<T::Json>) -> Result<Seq<T::V>, ValidationError>
    decreases items.len(),
{
    if items.len() == 0 {
        Ok(Seq::empty())
    } else {
        match T::json_result(items[0]) {
            Err(e) => Err(e),
            Ok(v) => prepend(seq![v], all_json_results::<T>(items.drop_first())),
        }
    }
}

/// The views of a list of domain values.
pub open spec fn list_view<T: View>(v: Seq<T>) -> Seq<T::V> {
    v.map_values(|t: T| t@)
}

/// The view of a list conversion result.
pub open spec fn list_result_view<T: View>(r: Result<Vec<T>, ValidationError>) -> Result<Seq<T::V>, ValidationError> {
    match r {
        Ok(v) => Ok(list_view(v@)),
        Err(e) => Err(e),
    }
}

/// Reads every value of a list, in order; stops at the first that does not convert.
pub fn all_from_json<T: FromJson>(items: Vec<T::Json>) -> (r: Result<Vec<T>, ValidationError>)
    ensures
        list_result_view(r) == all_json_results::<T>(items@),
{
    let ghost all = items@;
    let mut rest = items;
    let mut out: Vec<T> = Vec::new();
    assert(all.skip(0) =~= all);
    while rest.len() > 0
        invariant
            all == items@,
            out@.len() + rest@.len() == all.len(),
            rest@ == all.skip(out@.len() as int),
            all_json_results::<T>(all) == prepend(list_view(out@), all_json_results::<T>(rest@)),
        decreases rest@.len(),
    {
        let ghost before = rest@;
        let item = rest.remove(0);
        assert(before.drop_first() =~= rest@);
        assert(before[0] == item);
        match T::from_json(item) {
            Err(e) => {
                assert(all_json_results::<T>(before) == Err::<Seq<T::V>, ValidationError>(e));
                return Err(e);
            },
            Ok(v) => {
                let ghost done = list_view(out@);
                out.push(v);
                assert(list_view(out@) =~= done + seq![v@]);
                assert forall|tail: Seq<T::V>| (done + seq![v@]) + tail =~= done + (seq![v@] + tail) by {}
                assert(rest@ =~= all.skip(out@.len() as int));
            },
        }
    }
    assert(list_view(out@) + Seq::<T::V>::empty() =~= list_view(out@));
    Ok(out)
}

/// What reading a member that must be present gives: its conversion, or the
/// named field as missing.
pub open spec fn required_json_result<T: FromJson>(item: Option<T::Json>, field: &'static str) -> Result<T::V, ValidationError> {
    match item {
        Some(j) => T::json_result(j),
        None => Err(ValidationError::MissingField(field)),
    }
}

/// Reads a member that must be present, such as the one resource that a
/// create, get or update response wraps.
pub fn required_from_json<T: FromJson>(item: Option<T::Json>, field: &'static str) -> (r: Result<T, ValidationError>)
    ensures
        result_view(r) == required_json_result::<T>(item, field),
{
    match item {
        Some(j) => T::from_json(j),
        None => Err(ValidationError::MissingField(field)),
    }
}

/// The items of a list that may be absent; an absent list is empty.
pub open spec fn items_or_empty<J>(items: Option<Vec<J>>) -> Seq<J> {
    match items {
        Some(v) => v@,
        None => Seq::empty(),
    }
}

/// One page of a list response: the items and where the next page starts.
#[derive(Debug, Clone, PartialEq, Eq)]
pub struct Page<T> {
    pub items: Vec<T>,
    pub pagination: PaginationMeta,
}

/// Reads one page of a list response. The items are converted in order, an
/// absent list being empty, and the first that does not convert is the error;
/// an empty next-page cursor means there is no next page.
pub fn page_from_json<T: FromJson>(items: Option<Vec<T::Json>>, pagination: Option<PaginationJson>) -> (r: Result<Page<T>, ValidationError>)
    ensures
        match r {
            Ok(page) => {
                &&& all_json_results::<T>(items_or_empty(items)) == Ok::<Seq<T::V>, ValidationError>(list_view(page.items@))
                &&& opt_view(page.pagination.next_cursor) == nonempty_cursor_of(pagination)
                &&& page.pagination.total_count == total_count_of(pagination)
            },
            Err(e) => all_json_results::<T>(items_or_empty(items)) == Err::<Seq<T::V>, ValidationError>(e),
        },
{
    let items = match items {
        Some(v) => v,
        None => Vec::new(),
    };
    let items = match all_from_json::<T>(items) {
        Ok(v) => v,
        Err(e) => return Err(e),
    };
    Ok(Page { items, pagination: pagination_from_json_nonempty(pagination) })
}

} // verus!
