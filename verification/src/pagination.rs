//! Pagination and search parameters, and the pagination metadata of list responses.

use vstd::prelude::*;
use crate::problem::opt_view;

verus! {

/// The order of a sort key.
#[derive(Debug, Clone, Copy, PartialEq, Eq, Structural)]
pub enum SortDirection {
    Asc,
    Desc,
}

/// A sort key.
#[derive(Debug, Clone, PartialEq, Eq)]
pub struct SortField {
    pub field: String,
    pub direction: SortDirection,
}

/// Pagination of a list request.
#[derive(Debug, Clone, PartialEq, Eq)]
pub struct PaginationParams {
    pub page_size: Option<i32>,
    pub cursor: Option<String>,
    pub sort: Vec<SortField>,
}

/// Pagination of a list response.
#[derive(Debug, Clone, PartialEq, Eq)]
pub struct PaginationMeta {
    pub next_cursor: Option<String>,
    pub total_count: Option<i64>,
}

/// A search request: a query and its pagination.
#[derive(Debug, Clone, PartialEq, Eq)]
pub struct SearchParams {
    pub query: String,
    pub pagination: PaginationParams,
}

/// The protobuf sort direction.
#[derive(Debug, Clone, Copy, PartialEq, Eq, Structural)]
pub enum ProtoSortDirection {
    Asc,
    Desc,
}

/// A protobuf sort key.
#[derive(Debug, Clone, PartialEq, Eq)]
pub struct ProtoSortField {
    pub field: String,
    pub direction: ProtoSortDirection,
}

/// Protobuf pagination parameters: absent values are zero and empty.
#[derive(Debug, Clone, PartialEq, Eq)]
pub struct ProtoPaginationParams {
    pub page_size: i32,
    pub cursor: String,
    pub sort: Vec<ProtoSortField>,
}

/// Protobuf pagination metadata: an empty cursor means no next page.
#[derive(Debug, Clone, PartialEq, Eq)]
pub struct ProtoPaginationMeta {
    pub next_cursor: String,
    pub total_count: Option<i64>,
}

/// Protobuf search parameters.
#[derive(Debug, Clone, PartialEq, Eq)]
pub struct ProtoSearchParams {
    pub query: String,
    pub pagination: Option<ProtoPaginationParams>,
}

/// Pagination metadata as the OpenAPI wire model holds it.
#[derive(Debug, Clone, PartialEq, Eq)]
pub struct PaginationJson {
    pub next_cursor: Option<String>,
    pub total_count: Option<i64>,
}

/// The protobuf direction of a sort direction.
pub open spec fn proto_direction(d: SortDirection) -> ProtoSortDirection {
    match d {
        SortDirection::Asc => ProtoSortDirection::Asc,
        SortDirection::Desc => ProtoSortDirection::Desc,
    }
}

/// Converts a sort key to protobuf.
pub fn sort_field_into_proto(s: SortField) -> (p: ProtoSortField)
    ensures
        p.field@ == s.field@,
        p.direction == proto_direction(s.direction),
{
    let direction = match s.direction {
        SortDirection::Asc => ProtoSortDirection::Asc,
        SortDirection::Desc => ProtoSortDirection::Desc,
    };
    ProtoSortField { field: s.field, direction }
}

/// Converts pagination parameters to protobuf: no page size is zero, no cursor
/// is empty, and the sort keys keep their order.
pub fn pagination_params_to_proto(params: PaginationParams) -> (p: ProtoPaginationParams)
    ensures
        p.page_size == (match params.page_size {
            Some(n) => n,
            None => 0,
        }),
        p.cursor@ == (match params.cursor {
            Some(c) => c@,
            None => Seq::<char>::empty(),
        }),
        p.sort@.len() == params.sort@.len(),
        forall|i: int| 0 <= i < p.sort@.len() ==> {
            &&& (#[trigger] p.sort@[i]).field@ == params.sort@[i].field@
            &&& p.sort@[i].direction == proto_direction(params.sort@[i].direction)
        },
{
    let PaginationParams { page_size, cursor, sort } = params;
    let page_size = match page_size {
        Some(n) => n,
        None => 0,
    };
    let cursor = match cursor {
        Some(c) => c,
        None => String::new(),
    };
    let mut sort = sort;
    let ghost all = sort@;
    let mut out: Vec<ProtoSortField> = Vec::new();
    while sort.len() > 0
        invariant
            out@.len() + sort@.len() == all.len(),
            sort@ == all.skip(out@.len() as int),
            forall|i: int| 0 <= i < out@.len() ==> {
                &&& (#[trigger] out@[i]).field@ == all[i].field@
                &&& out@[i].direction == proto_direction(all[i].direction)
            },
        decreases sort@.len(),
    {
        let ghost k = out@.len() as int;
        let s = sort.remove(0);
        assert(s == all[k]);
        out.push(sort_field_into_proto(s));
        assert(sort@ =~= all.skip(out@.len() as int));
    }
    ProtoPaginationParams { page_size, cursor, sort: out }
}

/// Converts search parameters to protobuf.
pub fn search_params_to_proto(params: SearchParams) -> (p: ProtoSearchParams)
    ensures
        p.query@ == params.query@,
        p.pagination is Some,
{
    ProtoSearchParams { query: params.query, pagination: Some(pagination_params_to_proto(params.pagination)) }
}

/// Converts protobuf pagination metadata: an empty cursor becomes none.
pub fn pagination_meta_from_proto(proto: ProtoPaginationMeta) -> (m: PaginationMeta)
    ensures
        opt_view(m.next_cursor) == (if proto.next_cursor@.len() == 0 {
            None
        } else {
            Some(proto.next_cursor@)
        }),
        m.total_count == proto.total_count,
{
    let next_cursor = if proto.next_cursor.as_str().is_empty() {
        None
    } else {
        Some(proto.next_cursor)
    };
    PaginationMeta { next_cursor, total_count: proto.total_count }
}

/// Converts the pagination metadata of a list response, as it is; no metadata
/// means no next page and no count.
pub fn pagination_from_json(p: Option<PaginationJson>) -> (m: PaginationMeta)
    ensures
        opt_view(m.next_cursor) == (match p {
            Some(q) => opt_view(q.next_cursor),
            None => None,
        }),
        m.total_count == (match p {
            Some(q) => q.total_count,
            None => None,
        }),
{
    match p {
        Some(q) => PaginationMeta { next_cursor: q.next_cursor, total_count: q.total_count },
        None => PaginationMeta { next_cursor: None, total_count: None },
    }
}

/// The next-page cursor of a list response, where an empty cursor means no next page.
pub open spec fn nonempty_cursor_of(p: Option<PaginationJson>) -> Option<Seq<char>> {
    match p {
        Some(q) => match q.next_cursor {
            Some(c) => if c@.len() == 0 {
                None
            } else {
                Some(c@)
            },
            None => None,
        },
        None => None,
    }
}

/// The total count of a list response, if it gives one.
pub open spec fn total_count_of(p: Option<PaginationJson>) -> Option<i64> {
    match p {
        Some(q) => q.total_count,
        None => None,
    }
}

/// Converts the pagination metadata of a list response, reading an empty cursor as no next page.
pub fn pagination_from_json_nonempty(p: Option<PaginationJson>) -> (m: PaginationMeta)
    ensures
        opt_view(m.next_cursor) == nonempty_cursor_of(p),
        m.total_count == total_count_of(p),
        m.next_cursor matches Some(c) ==> c@.len() > 0,
{
    match p {
        Some(q) => {
            let next_cursor = match q.next_cursor {
                Some(c) => if c.as_str().is_empty() {
                    None
                } else {
                    Some(c)
                },
                None => None,
            };
            PaginationMeta { next_cursor, total_count: q.total_count }
        },
        None => PaginationMeta { next_cursor: None, total_count: None },
    }
}

/// The query parameter of a search: an empty query is not sent.
pub fn search_query_param(query: String) -> (q: Option<String>)
    ensures
        opt_view(q) == (if query@.len() == 0 {
            None
        } else {
            Some(query@)
        }),
{
    if query.as_str().is_empty() {
        None
    } else {
        Some(query)
    }
}

/// A flag sent only when it is set (such as listing only enabled providers).
pub fn flag_param(flag: bool) -> (p: Option<bool>)
    ensures
        p == (if flag {
            Some(true)
        } else {
            None
        }),
{
    if flag {
        Some(true)
    } else {
        None
    }
}

} // verus!
