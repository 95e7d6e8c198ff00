//! Get a source of economic data: the source response shape, its decoder, and the argument builder for the source endpoint.

pub mod releases;

use vstd::prelude::*;
use vstd::string::*;
use crate::json;
use crate::decode::{decode_failure, failure_from_body, opt_str_view, opt_usize_u64, u64_to_usize, usize_item_ok, opt_usize_field_ok};

verus! {

/// Response data structure for a collection of sources.
pub struct Response {
    /// The realtime start of the request.
    pub realtime_start: String,
    /// The realtime end of the request.
    pub realtime_end: String,
    /// On what metric the results are ordered.
    pub order_by: Option<String>,
    /// Results are listed in ascending or descending order.
    pub sort_order: Option<String>,
    /// The number of results returned.
    pub count: Option<usize>,
    /// The first result returned.
    pub offset: Option<usize>,
    /// The maximum number of results requested.
    pub limit: Option<usize>,
    /// The sources returned by the query.
    pub sources: Vec<Source>,
}

/// Information about one particular source.
pub struct Source {
    /// The source id.
    pub id: usize,
    /// The realtime start of the source.
    pub realtime_start: String,
    /// The realtime end of the source.
    pub realtime_end: String,
    /// The source name.
    pub name: String,
    /// A link to more information about the source.
    pub link: Option<String>,
    /// Additional information about the source.
    pub notes: Option<String>,
}

/// Element `i` of the `sources` array carries every required field,
/// with the integer fields small enough to hold.
pub open spec fn source_item_ok(body: Seq<char>, i: int) -> bool {
    &&& usize_item_ok(body, "sources"@, i, "id"@)
    &&& json::json_item_str(body, "sources"@, i, "realtime_start"@) is Some
    &&& json::json_item_str(body, "sources"@, i, "realtime_end"@) is Some
    &&& json::json_item_str(body, "sources"@, i, "name"@) is Some
}

/// The decoded value `t` holds exactly the fields of element `i` of the
/// `sources` array.
pub open spec fn source_item_matches(body: Seq<char>, i: int, t: Source) -> bool {
    &&& Some(t.id as u64) == json::json_item_u64(body, "sources"@, i, "id"@)
    &&& Some(t.realtime_start@) == json::json_item_str(body, "sources"@, i, "realtime_start"@)
    &&& Some(t.realtime_end@) == json::json_item_str(body, "sources"@, i, "realtime_end"@)
    &&& Some(t.name@) == json::json_item_str(body, "sources"@, i, "name"@)
    &&& opt_str_view(t.link) == json::json_item_str(body, "sources"@, i, "link"@)
    &&& opt_str_view(t.notes) == json::json_item_str(body, "sources"@, i, "notes"@)
}

/// The body matches the success shape of this endpoint.
pub open spec fn source_shape_ok(body: Seq<char>) -> bool {
    &&& json::json_str_field(body, "realtime_start"@) is Some
    &&& json::json_str_field(body, "realtime_end"@) is Some
    &&& opt_usize_field_ok(body, "count"@)
    &&& opt_usize_field_ok(body, "offset"@)
    &&& opt_usize_field_ok(body, "limit"@)
    &&& json::json_arr_len(body, "sources"@) is Some
    &&& forall|i: int|
        0 <= i < json::json_arr_len(body, "sources"@)->Some_0 ==> #[trigger] source_item_ok(
            body,
            i,
        )
}

/// The decoded response `resp` holds exactly the fields of `body`.
pub open spec fn response_matches(body: Seq<char>, resp: Response) -> bool {
    &&& Some(resp.realtime_start@) == json::json_str_field(body, "realtime_start"@)
    &&& Some(resp.realtime_end@) == json::json_str_field(body, "realtime_end"@)
    &&& opt_str_view(resp.order_by) == json::json_str_field(body, "order_by"@)
    &&& opt_str_view(resp.sort_order) == json::json_str_field(body, "sort_order"@)
    &&& opt_usize_u64(resp.count) == json::json_u64_field(body, "count"@)
    &&& opt_usize_u64(resp.offset) == json::json_u64_field(body, "offset"@)
    &&& opt_usize_u64(resp.limit) == json::json_u64_field(body, "limit"@)
    &&& resp.sources@.len() == json::json_arr_len(body, "sources"@)->Some_0
    &&& forall|i: int|
        0 <= i < resp.sources@.len() ==> source_item_matches(body, i, #[trigger] resp.sources@[i])
}

/// Decodes a response body of this endpoint: the success shape when the
/// body matches it, otherwise the failure that the dual-shape protocol
/// prescribes.
pub fn from_body(text: &str) -> (r: Result<Response, String>)
    ensures
        r is Ok <==> source_shape_ok(text@),
        r matches Ok(resp) ==> response_matches(text@, resp),
        r matches Err(e) ==> e@ == decode_failure(text@),
{
    let realtime_start = match json::str_field(text, "realtime_start") {
        Some(v) => v,
        None => {
            return Err(failure_from_body(text));
        },
    };
    let realtime_end = match json::str_field(text, "realtime_end") {
        Some(v) => v,
        None => {
            return Err(failure_from_body(text));
        },
    };
    let order_by = json::str_field(text, "order_by");
    let sort_order = json::str_field(text, "sort_order");
    let count = match json::u64_field(text, "count") {
        Some(v) => match u64_to_usize(v) {
            Some(v) => Some(v),
            None => {
                return Err(failure_from_body(text));
            },
        },
        None => None,
    };
    let offset = match json::u64_field(text, "offset") {
        Some(v) => match u64_to_usize(v) {
            Some(v) => Some(v),
            None => {
                return Err(failure_from_body(text));
            },
        },
        None => None,
    };
    let limit = match json::u64_field(text, "limit") {
        Some(v) => match u64_to_usize(v) {
            Some(v) => Some(v),
            None => {
                return Err(failure_from_body(text));
            },
        },
        None => None,
    };
    let n = match json::arr_len(text, "sources") {
        Some(n) => n,
        None => {
            return Err(failure_from_body(text));
        },
    };
    let mut sources: Vec<Source> = Vec::new();
    let mut i: usize = 0;
    while i < n
        invariant
            i <= n,
            json::json_arr_len(text@, "sources"@) == Some(n),
            sources@.len() == i,
            forall|j: int| 0 <= j < i ==> #[trigger] source_item_ok(text@, j),
            forall|j: int| 0 <= j < i ==> source_item_matches(text@, j, #[trigger] sources@[j]),
        decreases n - i,
    {
        let id = match json::item_u64(text, "sources", i, "id") {
            Some(v) => match u64_to_usize(v) {
                Some(v) => v,
                None => {
                    proof {
                        assert(!source_item_ok(text@, i as int));
                        assert(!source_shape_ok(text@));
                    }
                    return Err(failure_from_body(text));
                },
            },
            None => {
                proof {
                    assert(!source_item_ok(text@, i as int));
                    assert(!source_shape_ok(text@));
                }
                return Err(failure_from_body(text));
            },
        };
        let realtime_start = match json::item_str(text, "sources", i, "realtime_start") {
            Some(v) => v,
            None => {
                proof {
                    assert(!source_item_ok(text@, i as int));
                    assert(!source_shape_ok(text@));
                }
                return Err(failure_from_body(text));
            },
        };
        let realtime_end = match json::item_str(text, "sources", i, "realtime_end") {
            Some(v) => v,
            None => {
                proof {
                    assert(!source_item_ok(text@, i as int));
                    assert(!source_shape_ok(text@));
                }
                return Err(failure_from_body(text));
            },
        };
        let name = match json::item_str(text, "sources", i, "name") {
            Some(v) => v,
            None => {
                proof {
                    assert(!source_item_ok(text@, i as int));
                    assert(!source_shape_ok(text@));
                }
                return Err(failure_from_body(text));
            },
        };
        let link = json::item_str(text, "sources", i, "link");
        let notes = json::item_str(text, "sources", i, "notes");
        sources.push(Source { id, realtime_start, realtime_end, name, link, notes });
        i = i + 1;
    }
    Ok(Response { realtime_start, realtime_end, order_by, sort_order, count, offset, limit, sources })
}

/// Argument builder for the source endpoint.
///
/// Each method appends one argument to the builder, which can then be
/// passed to the client to apply the arguments to a request.  The builder
/// does no validity checking of the arguments nor does it check for
/// duplicates.
pub struct Builder {
    option_string: String,
}

impl Builder {
    /// The query-string fragment accumulated so far.
    pub closed spec fn fragment(&self) -> Seq<char> {
        self.option_string@
    }

    /// An empty builder: no arguments set.
    pub fn new() -> (b: Builder)
        ensures
            b.fragment() == Seq::<char>::empty(),
    {
        Builder {
            option_string: String::new(),
        }
    }

    /// Returns the accumulated arguments as a URL-formatted fragment,
    /// consuming the builder.
    pub fn options(self) -> (r: String)
        ensures
            r@ == self.fragment(),
    {
        self.option_string
    }

    /// Adds a realtime_start argument (a date formatted as YYYY-MM-DD).
    pub fn realtime_start(&mut self, start_date: &str)
        ensures
            final(self).fragment() == old(self).fragment() + "&realtime_start="@ + start_date@,
    {
        self.option_string.append("&realtime_start=");
        self.option_string.append(start_date);
    }

    /// Adds a realtime_end argument (a date formatted as YYYY-MM-DD).
    pub fn realtime_end(&mut self, end_date: &str)
        ensures
            final(self).fragment() == old(self).fragment() + "&realtime_end="@ + end_date@,
    {
        self.option_string.append("&realtime_end=");
        self.option_string.append(end_date);
    }
}

} // verus!
