//! Get release dates for all releases of economic data: the response shape, its decoder, and the argument builder for the releases/dates endpoint.

use vstd::prelude::*;
use vstd::string::*;
use crate::json;
use crate::decode::{decode_failure, failure_from_body, opt_str_view, u64_to_usize, usize_field_ok, usize_item_ok};
use crate::fragment::{clamped, decimal_string, lemma_empty_fragment_is_silent, limit_fragment, spec_decimal};

verus! {

/// Response data structure for a collection of release dates.
#[derive(Clone, Debug, Default)]
pub struct Response {
    /// The realtime start of the request.
    pub realtime_start: String,
    /// The realtime end of the request.
    pub realtime_end: String,
    /// On what metric the results are ordered.
    pub order_by: String,
    /// Results are listed in ascending or descending order.
    pub sort_order: String,
    /// The number of results returned.
    pub count: usize,
    /// The first result returned.
    pub offset: usize,
    /// The maximum number of results requested.
    pub limit: usize,
    /// The release_dates returned by the query.
    pub release_dates: Vec<ReleaseDate>,
}

/// One release date.
#[derive(Clone, Debug, Default)]
pub struct ReleaseDate {
    /// The release id.
    pub release_id: usize,
    /// The release name.
    pub release_name: Option<String>,
    /// The date of the release.
    pub date: String,
}

/// Element `i` of the `release_dates` array carries every required field,
/// with the integer fields small enough to hold.
pub open spec fn release_date_item_ok(body: Seq<char>, i: int) -> bool {
    &&& usize_item_ok(body, "release_dates"@, i, "release_id"@)
    &&& json::json_item_str(body, "release_dates"@, i, "date"@) is Some
}

/// The decoded value `t` holds exactly the fields of element `i` of the
/// `release_dates` array.
pub open spec fn release_date_item_matches(body: Seq<char>, i: int, t: ReleaseDate) -> bool {
    &&& Some(t.release_id as u64) == json::json_item_u64(body, "release_dates"@, i, "release_id"@)
    &&& opt_str_view(t.release_name) == json::json_item_str(body, "release_dates"@, i, "release_name"@)
    &&& Some(t.date@) == json::json_item_str(body, "release_dates"@, i, "date"@)
}

/// The body matches the success shape of this endpoint.
pub open spec fn release_dates_shape_ok(body: Seq<char>) -> bool {
    &&& json::json_str_field(body, "realtime_start"@) is Some
    &&& json::json_str_field(body, "realtime_end"@) is Some
    &&& json::json_str_field(body, "order_by"@) is Some
    &&& json::json_str_field(body, "sort_order"@) is Some
    &&& usize_field_ok(body, "count"@)
    &&& usize_field_ok(body, "offset"@)
    &&& usize_field_ok(body, "limit"@)
    &&& json::json_arr_len(body, "release_dates"@) is Some
    &&& forall|i: int|
        0 <= i < json::json_arr_len(body, "release_dates"@)->Some_0 ==> #[trigger] release_date_item_ok(
            body,
            i,
        )
}

/// The decoded response `resp` holds exactly the fields of `body`.
pub open spec fn response_matches(body: Seq<char>, resp: Response) -> bool {
    &&& Some(resp.realtime_start@) == json::json_str_field(body, "realtime_start"@)
    &&& Some(resp.realtime_end@) == json::json_str_field(body, "realtime_end"@)
    &&& Some(resp.order_by@) == json::json_str_field(body, "order_by"@)
    &&& Some(resp.sort_order@) == json::json_str_field(body, "sort_order"@)
    &&& Some(resp.count as u64) == json::json_u64_field(body, "count"@)
    &&& Some(resp.offset as u64) == json::json_u64_field(body, "offset"@)
    &&& Some(resp.limit as u64) == json::json_u64_field(body, "limit"@)
    &&& resp.release_dates@.len() == json::json_arr_len(body, "release_dates"@)->Some_0
    &&& forall|i: int|
        0 <= i < resp.release_dates@.len() ==> release_date_item_matches(body, i, #[trigger] resp.release_dates@[i])
}

/// Decodes a response body of this endpoint: the success shape when the
/// body matches it, otherwise the failure that the dual-shape protocol
/// prescribes.
pub fn from_body(text: &str) -> (r: Result<Response, String>)
    ensures
        r is Ok <==> release_dates_shape_ok(text@),
        r matches Ok(resp) ==> response_matches(text@, resp),
        r matches Err(e) ==> e@ == decode_failure(text@),
{
    let realtime_start = match json::str_field(text, "realtime_start") {
        Some(v) => v,
        None => {
            return Err(failure_from_body(text));
        },
    };
    let realtime_end = match json::str_field(text, "realtime_end") {
        Some(v) => v,
        None => {
            return Err(failure_from_body(text));
        },
    };
    let order_by = match json::str_field(text, "order_by") {
        Some(v) => v,
        None => {
            return Err(failure_from_body(text));
        },
    };
    let sort_order = match json::str_field(text, "sort_order") {
        Some(v) => v,
        None => {
            return Err(failure_from_body(text));
        },
    };
    let count = match json::u64_field(text, "count") {
        Some(v) => match u64_to_usize(v) {
            Some(v) => v,
            None => {
                return Err(failure_from_body(text));
            },
        },
        None => {
            return Err(failure_from_body(text));
        },
    };
    let offset = match json::u64_field(text, "offset") {
        Some(v) => match u64_to_usize(v) {
            Some(v) => v,
            None => {
                return Err(failure_from_body(text));
            },
        },
        None => {
            return Err(failure_from_body(text));
        },
    };
    let limit = match json::u64_field(text, "limit") {
        Some(v) => match u64_to_usize(v) {
            Some(v) => v,
            None => {
                return Err(failure_from_body(text));
            },
        },
        None => {
            return Err(failure_from_body(text));
        },
    };
    let n = match json::arr_len(text, "release_dates") {
        Some(n) => n,
        None => {
            return Err(failure_from_body(text));
        },
    };
    let mut release_dates: Vec<ReleaseDate> = Vec::new();
    let mut i: usize = 0;
    while i < n
        invariant
            i <= n,
            json::json_arr_len(text@, "release_dates"@) == Some(n),
            release_dates@.len() == i,
            forall|j: int| 0 <= j < i ==> #[trigger] release_date_item_ok(text@, j),
            forall|j: int| 0 <= j < i ==> release_date_item_matches(text@, j, #[trigger] release_dates@[j]),
        decreases n - i,
    {
        let release_id = match json::item_u64(text, "release_dates", i, "release_id") {
            Some(v) => match u64_to_usize(v) {
                Some(v) => v,
                None => {
                    proof {
                        assert(!release_date_item_ok(text@, i as int));
                        assert(!release_dates_shape_ok(text@));
                    }
                    return Err(failure_from_body(text));
                },
            },
            None => {
                proof {
                    assert(!release_date_item_ok(text@, i as int));
                    assert(!release_dates_shape_ok(text@));
                }
                return Err(failure_from_body(text));
            },
        };
        let release_name = json::item_str(text, "release_dates", i, "release_name");
        let date = match json::item_str(text, "release_dates", i, "date") {
            Some(v) => v,
            None => {
                proof {
                    assert(!release_date_item_ok(text@, i as int));
                    assert(!release_dates_shape_ok(text@));
                }
                return Err(failure_from_body(text));
            },
        };
        release_dates.push(ReleaseDate { release_id, release_name, date });
        i = i + 1;
    }
    Ok(Response { realtime_start, realtime_end, order_by, sort_order, count, offset, limit, release_dates })
}


/// The display line of one releasedate.
pub open spec fn release_date_line(t: ReleaseDate) -> Seq<char> {
    "Release Date "@ + spec_decimal(t.release_id as nat) + ": "@ + t.date@
}

/// The display text of a whole response: one line per releasedate.
pub open spec fn release_dates_text(items: Seq<ReleaseDate>) -> Seq<char>
    decreases items.len(),
{
    if items.len() == 0 {
        Seq::<char>::empty()
    } else {
        release_dates_text(items.drop_last()) + release_date_line(items.last()) + "\n"@
    }
}

impl ReleaseDate {
    /// Renders the releasedate as its display line.
    pub fn display_string(&self) -> (r: String)
        ensures
            r@ == release_date_line(*self),
    {
        let mut s = String::from_str("Release Date ");
        let digits = decimal_string(self.release_id);
        s.append(digits.as_str());
        s.append(": ");
        s.append(self.date.as_str());
        proof {
            assert(s@ =~= release_date_line(*self));
        }
        s
    }
}

impl Response {
    /// Renders the response as one line per releasedate.
    pub fn display_string(&self) -> (r: String)
        ensures
            r@ == release_dates_text(self.release_dates@),
    {
        let mut out = String::new();
        let mut i: usize = 0;
        while i < self.release_dates.len()
            invariant
                i <= self.release_dates@.len(),
                out@ == release_dates_text(self.release_dates@.take(i as int)),
            decreases self.release_dates@.len() - i,
        {
            let line = self.release_dates[i].display_string();
            out.append(line.as_str());
            out.append("\n");
            proof {
                let cur = self.release_dates@.take(i + 1 as int);
                assert(cur.drop_last() =~= self.release_dates@.take(i as int));
                assert(cur.last() == self.release_dates@[i as int]);
            }
            i = i + 1;
        }
        proof {
            assert(self.release_dates@.take(self.release_dates@.len() as int) =~= self.release_dates@);
        }
        out
    }
}

/// The metrics the returned release dates can be ordered by.
pub enum OrderBy {
    /// Order by release date (the default; appends nothing).
    ReleaseDate,
    /// Order by release id.
    ReleaseId,
    /// Order by release name.
    ReleaseName,
}

/// The fragment the corresponding setter appends for each value.
pub open spec fn order_by_fragment(value: OrderBy) -> Seq<char> {
    match value {
        OrderBy::ReleaseDate => Seq::<char>::empty(),
        OrderBy::ReleaseId => "&order_by=release_id"@,
        OrderBy::ReleaseName => "&order_by=release_name"@,
    }
}

/// Selecting the default ordering leaves the fragment exactly as it was: the
/// request is indistinguishable from one that never set this parameter.
pub proof fn lemma_default_order_by_is_silent(s: Seq<char>)
    ensures
        s + order_by_fragment(OrderBy::ReleaseDate) == s,
{
    lemma_empty_fragment_is_silent(s);
}


/// Sort order of the results.
pub enum SortOrder {
    /// Results in ascending order.
    Ascending,
    /// Results in descending order (the default).
    Descending,
}

/// The fragment the corresponding setter appends for each value.
pub open spec fn sort_order_fragment(value: SortOrder) -> Seq<char> {
    match value {
        SortOrder::Ascending => "&sort_order=asc"@,
        SortOrder::Descending => Seq::<char>::empty(),
    }
}

/// Selecting the default value leaves the fragment exactly as it was:
/// the request is indistinguishable from one that never set this
/// parameter.
pub proof fn lemma_default_sort_order_is_silent(s: Seq<char>)
    ensures
        s + sort_order_fragment(SortOrder::Descending) == s,
{
    lemma_empty_fragment_is_silent(s);
}

/// Argument builder for the releases/dates endpoint.
///
/// Each method appends one argument to the builder, which can then be
/// passed to the client to apply the arguments to a request.  The builder
/// does no validity checking of the arguments nor does it check for
/// duplicates.
pub struct Builder {
    option_string: String,
}

impl Builder {
    /// The query-string fragment accumulated so far.
    pub closed spec fn fragment(&self) -> Seq<char> {
        self.option_string@
    }

    /// An empty builder: no arguments set.
    pub fn new() -> (b: Builder)
        ensures
            b.fragment() == Seq::<char>::empty(),
    {
        Builder {
            option_string: String::new(),
        }
    }

    /// Returns the accumulated arguments as a URL-formatted fragment,
    /// consuming the builder.
    pub fn build(self) -> (r: String)
        ensures
            r@ == self.fragment(),
    {
        self.option_string
    }

    /// Adds a realtime_start argument (a date formatted as YYYY-MM-DD).
    pub fn realtime_start(&mut self, start_date: &str)
        ensures
            final(self).fragment() == old(self).fragment() + "&realtime_start="@ + start_date@,
    {
        self.option_string.append("&realtime_start=");
        self.option_string.append(start_date);
    }

    /// Adds a realtime_end argument (a date formatted as YYYY-MM-DD).
    pub fn realtime_end(&mut self, end_date: &str)
        ensures
            final(self).fragment() == old(self).fragment() + "&realtime_end="@ + end_date@,
    {
        self.option_string.append("&realtime_end=");
        self.option_string.append(end_date);
    }

    /// Adds a limit argument: the maximum number of results to return.
    /// A request above 1000 is silently lowered to 1000.
    pub fn limit(&mut self, num_results: usize)
        ensures
            final(self).fragment() == old(self).fragment() + limit_fragment(
                num_results as nat,
                1000,
            ),
    {
        let capped: usize = if num_results > 1000 {
            1000
        } else {
            num_results
        };
        self.option_string.append("&limit=");
        let digits = decimal_string(capped);
        self.option_string.append(digits.as_str());
        proof {
            assert(capped as nat == clamped(num_results as nat, 1000));
            assert(self.option_string@ =~= old(self).fragment() + limit_fragment(
                num_results as nat,
                1000,
            ));
        }
    }

    /// Adds an offset argument: the first result to return.
    pub fn offset(&mut self, ofs: usize)
        ensures
            final(self).fragment() == old(self).fragment() + "&offset="@ + spec_decimal(
                ofs as nat,
            ),
    {
        self.option_string.append("&offset=");
        let digits = decimal_string(ofs);
        self.option_string.append(digits.as_str());
    }

    /// Adds an order_by argument: the metric to order the results by; the
    /// default metric appends nothing.
    pub fn order_by(&mut self, order: OrderBy)
        ensures
            final(self).fragment() == old(self).fragment() + order_by_fragment(order),
    {
        match order {
            OrderBy::ReleaseDate => {
                proof {
                    lemma_empty_fragment_is_silent(old(self).fragment());
                }
            },
            OrderBy::ReleaseId => self.option_string.append("&order_by=release_id"),
            OrderBy::ReleaseName => self.option_string.append("&order_by=release_name"),
        }
    }

    /// Adds a sort_order argument; descending order is the default and appends nothing.
    pub fn sort_order(&mut self, order: SortOrder)
        ensures
            final(self).fragment() == old(self).fragment() + sort_order_fragment(order),
    {
        match order {
            SortOrder::Ascending => self.option_string.append("&sort_order=asc"),
            _ => {
                proof {
                    lemma_empty_fragment_is_silent(old(self).fragment());
                }
            },
        }
    }

    /// Requests that release dates with no data also be returned.
    pub fn include_release_dates_with_no_data(&mut self)
        ensures
            final(self).fragment() == old(self).fragment() + "&include_release_dates_with_no_data=true"@,
    {
        self.option_string.append("&include_release_dates_with_no_data=true");
    }
}

} // verus!
