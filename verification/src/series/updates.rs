//! Get economic data series sorted by when observations were updated: the response shape, its decoder, and the argument builder for the series/updates endpoint.

use vstd::prelude::*;
use vstd::string::*;
use crate::json;
use crate::decode::{decode_failure, failure_from_body, u64_to_usize, i64_to_isize, usize_field_ok};
use crate::fragment::{clamped, decimal_string, lemma_empty_fragment_is_silent, limit_fragment, spec_decimal};

verus! {

/// Response data structure for recently updated series.
pub struct Response {
    /// The realtime start of the request.
    pub realtime_start: String,
    /// The realtime end of the request.
    pub realtime_end: String,
    /// The attribute the results were filtered by.
    pub filter_variable: String,
    /// The value of filter_variable the results were filtered by.
    pub filter_value: String,
    /// On what metric the results are ordered.
    pub order_by: String,
    /// Results are listed in ascending or descending order.
    pub sort_order: String,
    /// The number of results returned.
    pub count: usize,
    /// The first result returned.
    pub offset: usize,
    /// The maximum number of results requested.
    pub limit: usize,
    /// The seriess returned by the query.
    pub seriess: Vec<crate::series::Series>,
}

/// The body matches the success shape of this endpoint.
pub open spec fn series_updates_shape_ok(body: Seq<char>) -> bool {
    &&& json::json_str_field(body, "realtime_start"@) is Some
    &&& json::json_str_field(body, "realtime_end"@) is Some
    &&& json::json_str_field(body, "filter_variable"@) is Some
    &&& json::json_str_field(body, "filter_value"@) is Some
    &&& json::json_str_field(body, "order_by"@) is Some
    &&& json::json_str_field(body, "sort_order"@) is Some
    &&& usize_field_ok(body, "count"@)
    &&& usize_field_ok(body, "offset"@)
    &&& usize_field_ok(body, "limit"@)
    &&& json::json_arr_len(body, "seriess"@) is Some
    &&& forall|i: int|
        0 <= i < json::json_arr_len(body, "seriess"@)->Some_0 ==> #[trigger] crate::series::series_item_ok(
            body,
            i,
        )
}

/// The decoded response `resp` holds exactly the fields of `body`.
pub open spec fn response_matches(body: Seq<char>, resp: Response) -> bool {
    &&& Some(resp.realtime_start@) == json::json_str_field(body, "realtime_start"@)
    &&& Some(resp.realtime_end@) == json::json_str_field(body, "realtime_end"@)
    &&& Some(resp.filter_variable@) == json::json_str_field(body, "filter_variable"@)
    &&& Some(resp.filter_value@) == json::json_str_field(body, "filter_value"@)
    &&& Some(resp.order_by@) == json::json_str_field(body, "order_by"@)
    &&& Some(resp.sort_order@) == json::json_str_field(body, "sort_order"@)
    &&& Some(resp.count as u64) == json::json_u64_field(body, "count"@)
    &&& Some(resp.offset as u64) == json::json_u64_field(body, "offset"@)
    &&& Some(resp.limit as u64) == json::json_u64_field(body, "limit"@)
    &&& resp.seriess@.len() == json::json_arr_len(body, "seriess"@)->Some_0
    &&& forall|i: int|
        0 <= i < resp.seriess@.len() ==> crate::series::series_item_matches(body, i, #[trigger] resp.seriess@[i])
}

/// Decodes a response body of this endpoint: the success shape when the
/// body matches it, otherwise the failure that the dual-shape protocol
/// prescribes.
pub fn from_body(text: &str) -> (r: Result<Response, String>)
    ensures
        r is Ok <==> series_updates_shape_ok(text@),
        r matches Ok(resp) ==> response_matches(text@, resp),
        r matches Err(e) ==> e@ == decode_failure(text@),
{
    let realtime_start = match json::str_field(text, "realtime_start") {
        Some(v) => v,
        None => {
            return Err(failure_from_body(text));
        },
    };
    let realtime_end = match json::str_field(text, "realtime_end") {
        Some(v) => v,
        None => {
            return Err(failure_from_body(text));
        },
    };
    let filter_variable = match json::str_field(text, "filter_variable") {
        Some(v) => v,
        None => {
            return Err(failure_from_body(text));
        },
    };
    let filter_value = match json::str_field(text, "filter_value") {
        Some(v) => v,
        None => {
            return Err(failure_from_body(text));
        },
    };
    let order_by = match json::str_field(text, "order_by") {
        Some(v) => v,
        None => {
            return Err(failure_from_body(text));
        },
    };
    let sort_order = match json::str_field(text, "sort_order") {
        Some(v) => v,
        None => {
            return Err(failure_from_body(text));
        },
    };
    let count = match json::u64_field(text, "count") {
        Some(v) => match u64_to_usize(v) {
            Some(v) => v,
            None => {
                return Err(failure_from_body(text));
            },
        },
        None => {
            return Err(failure_from_body(text));
        },
    };
    let offset = match json::u64_field(text, "offset") {
        Some(v) => match u64_to_usize(v) {
            Some(v) => v,
            None => {
                return Err(failure_from_body(text));
            },
        },
        None => {
            return Err(failure_from_body(text));
        },
    };
    let limit = match json::u64_field(text, "limit") {
        Some(v) => match u64_to_usize(v) {
            Some(v) => v,
            None => {
                return Err(failure_from_body(text));
            },
        },
        None => {
            return Err(failure_from_body(text));
        },
    };
    let n = match json::arr_len(text, "seriess") {
        Some(n) => n,
        None => {
            return Err(failure_from_body(text));
        },
    };
    let mut seriess: Vec<crate::series::Series> = Vec::new();
    let mut i: usize = 0;
    while i < n
        invariant
            i <= n,
            json::json_arr_len(text@, "seriess"@) == Some(n),
            seriess@.len() == i,
            forall|j: int| 0 <= j < i ==> #[trigger] crate::series::series_item_ok(text@, j),
            forall|j: int| 0 <= j < i ==> crate::series::series_item_matches(text@, j, #[trigger] seriess@[j]),
        decreases n - i,
    {
        let id = match json::item_str(text, "seriess", i, "id") {
            Some(v) => v,
            None => {
                proof {
                    assert(!crate::series::series_item_ok(text@, i as int));
                    assert(!series_updates_shape_ok(text@));
                }
                return Err(failure_from_body(text));
            },
        };
        let realtime_start = match json::item_str(text, "seriess", i, "realtime_start") {
            Some(v) => v,
            None => {
                proof {
                    assert(!crate::series::series_item_ok(text@, i as int));
                    assert(!series_updates_shape_ok(text@));
                }
                return Err(failure_from_body(text));
            },
        };
        let realtime_end = match json::item_str(text, "seriess", i, "realtime_end") {
            Some(v) => v,
            None => {
                proof {
                    assert(!crate::series::series_item_ok(text@, i as int));
                    assert(!series_updates_shape_ok(text@));
                }
                return Err(failure_from_body(text));
            },
        };
        let title = match json::item_str(text, "seriess", i, "title") {
            Some(v) => v,
            None => {
                proof {
                    assert(!crate::series::series_item_ok(text@, i as int));
                    assert(!series_updates_shape_ok(text@));
                }
                return Err(failure_from_body(text));
            },
        };
        let observation_start = match json::item_str(text, "seriess", i, "observation_start") {
            Some(v) => v,
            None => {
                proof {
                    assert(!crate::series::series_item_ok(text@, i as int));
                    assert(!series_updates_shape_ok(text@));
                }
                return Err(failure_from_body(text));
            },
        };
        let observation_end = match json::item_str(text, "seriess", i, "observation_end") {
            Some(v) => v,
            None => {
                proof {
                    assert(!crate::series::series_item_ok(text@, i as int));
                    assert(!series_updates_shape_ok(text@));
                }
                return Err(failure_from_body(text));
            },
        };
        let frequency = match json::item_str(text, "seriess", i, "frequency") {
            Some(v) => v,
            None => {
                proof {
                    assert(!crate::series::series_item_ok(text@, i as int));
                    assert(!series_updates_shape_ok(text@));
                }
                return Err(failure_from_body(text));
            },
        };
        let frequency_short = match json::item_str(text, "seriess", i, "frequency_short") {
            Some(v) => v,
            None => {
                proof {
                    assert(!crate::series::series_item_ok(text@, i as int));
                    assert(!series_updates_shape_ok(text@));
                }
                return Err(failure_from_body(text));
            },
        };
        let units = match json::item_str(text, "seriess", i, "units") {
            Some(v) => v,
            None => {
                proof {
                    assert(!crate::series::series_item_ok(text@, i as int));
                    assert(!series_updates_shape_ok(text@));
                }
                return Err(failure_from_body(text));
            },
        };
        let units_short = match json::item_str(text, "seriess", i, "units_short") {
            Some(v) => v,
            None => {
                proof {
                    assert(!crate::series::series_item_ok(text@, i as int));
                    assert(!series_updates_shape_ok(text@));
                }
                return Err(failure_from_body(text));
            },
        };
        let seasonal_adjustment = match json::item_str(text, "seriess", i, "seasonal_adjustment") {
            Some(v) => v,
            None => {
                proof {
                    assert(!crate::series::series_item_ok(text@, i as int));
                    assert(!series_updates_shape_ok(text@));
                }
                return Err(failure_from_body(text));
            },
        };
        let seasonal_adjustment_short = match json::item_str(text, "seriess", i, "seasonal_adjustment_short") {
            Some(v) => v,
            None => {
                proof {
                    assert(!crate::series::series_item_ok(text@, i as int));
                    assert(!series_updates_shape_ok(text@));
                }
                return Err(failure_from_body(text));
            },
        };
        let last_updated = match json::item_str(text, "seriess", i, "last_updated") {
            Some(v) => v,
            None => {
                proof {
                    assert(!crate::series::series_item_ok(text@, i as int));
                    assert(!series_updates_shape_ok(text@));
                }
                return Err(failure_from_body(text));
            },
        };
        let popularity = match json::item_i64(text, "seriess", i, "popularity") {
            Some(v) => match i64_to_isize(v) {
                Some(v) => v,
                None => {
                    proof {
                    assert(!crate::series::series_item_ok(text@, i as int));
                    assert(!series_updates_shape_ok(text@));
                }
                return Err(failure_from_body(text));
                },
            },
            None => {
                proof {
                    assert(!crate::series::series_item_ok(text@, i as int));
                    assert(!series_updates_shape_ok(text@));
                }
                return Err(failure_from_body(text));
            },
        };
        let group_popularity = match json::item_i64(text, "seriess", i, "group_popularity") {
            Some(v) => match i64_to_isize(v) {
                Some(v) => Some(v),
                None => {
                    proof {
                    assert(!crate::series::series_item_ok(text@, i as int));
                    assert(!series_updates_shape_ok(text@));
                }
                return Err(failure_from_body(text));
                },
            },
            None => None,
        };
        let notes = json::item_str(text, "seriess", i, "notes");
        seriess.push(crate::series::Series { id, realtime_start, realtime_end, title, observation_start, observation_end, frequency, frequency_short, units, units_short, seasonal_adjustment, seasonal_adjustment_short, last_updated, popularity, group_popularity, notes });
        i = i + 1;
    }
    Ok(Response { realtime_start, realtime_end, filter_variable, filter_value, order_by, sort_order, count, offset, limit, seriess })
}

/// Which geographic kind of series to return.
pub enum FilterValue {
    /// Return only macroeconomic data series.
    Macro,
    /// Return only series for parts of the US.
    Regional,
    /// Return all series (the default).
    All,
}

/// The fragment the corresponding setter appends for each value.
pub open spec fn filter_value_fragment(value: FilterValue) -> Seq<char> {
    match value {
        FilterValue::Macro => "&filter_value=macro"@,
        FilterValue::Regional => "&filter_value=regional"@,
        FilterValue::All => Seq::<char>::empty(),
    }
}

/// Selecting the default value leaves the fragment exactly as it was:
/// the request is indistinguishable from one that never set this
/// parameter.
pub proof fn lemma_default_filter_value_is_silent(s: Seq<char>)
    ensures
        s + filter_value_fragment(FilterValue::All) == s,
{
    lemma_empty_fragment_is_silent(s);
}

/// Argument builder for the series/updates endpoint.
///
/// Each method appends one argument to the builder, which can then be
/// passed to the client to apply the arguments to a request.  The builder
/// does no validity checking of the arguments nor does it check for
/// duplicates.
pub struct Builder {
    option_string: String,
}

impl Builder {
    /// The query-string fragment accumulated so far.
    pub closed spec fn fragment(&self) -> Seq<char> {
        self.option_string@
    }

    /// An empty builder: no arguments set.
    pub fn new() -> (b: Builder)
        ensures
            b.fragment() == Seq::<char>::empty(),
    {
        Builder {
            option_string: String::new(),
        }
    }

    /// Returns the accumulated arguments as a URL-formatted fragment,
    /// consuming the builder.
    pub fn build(self) -> (r: String)
        ensures
            r@ == self.fragment(),
    {
        self.option_string
    }

    /// Adds a realtime_start argument (a date formatted as YYYY-MM-DD).
    pub fn realtime_start(&mut self, start_date: &str)
        ensures
            final(self).fragment() == old(self).fragment() + "&realtime_start="@ + start_date@,
    {
        self.option_string.append("&realtime_start=");
        self.option_string.append(start_date);
    }

    /// Adds a realtime_end argument (a date formatted as YYYY-MM-DD).
    pub fn realtime_end(&mut self, end_date: &str)
        ensures
            final(self).fragment() == old(self).fragment() + "&realtime_end="@ + end_date@,
    {
        self.option_string.append("&realtime_end=");
        self.option_string.append(end_date);
    }

    /// Adds a limit argument: the maximum number of results to return.
    /// A request above 1000 is silently lowered to 1000.
    pub fn limit(&mut self, num_results: usize)
        ensures
            final(self).fragment() == old(self).fragment() + limit_fragment(
                num_results as nat,
                1000,
            ),
    {
        let capped: usize = if num_results > 1000 {
            1000
        } else {
            num_results
        };
        self.option_string.append("&limit=");
        let digits = decimal_string(capped);
        self.option_string.append(digits.as_str());
        proof {
            assert(capped as nat == clamped(num_results as nat, 1000));
            assert(self.option_string@ =~= old(self).fragment() + limit_fragment(
                num_results as nat,
                1000,
            ));
        }
    }

    /// Adds an offset argument: the first result to return.
    pub fn offset(&mut self, ofs: usize)
        ensures
            final(self).fragment() == old(self).fragment() + "&offset="@ + spec_decimal(
                ofs as nat,
            ),
    {
        self.option_string.append("&offset=");
        let digits = decimal_string(ofs);
        self.option_string.append(digits.as_str());
    }

    /// Adds a filter_value argument: which geographic kind of series to return.
    pub fn filter_value(&mut self, value: FilterValue)
        ensures
            final(self).fragment() == old(self).fragment() + filter_value_fragment(value),
    {
        match value {
            FilterValue::Macro => self.option_string.append("&filter_value=macro"),
            FilterValue::Regional => self.option_string.append("&filter_value=regional"),
            _ => {
                proof {
                    lemma_empty_fragment_is_silent(old(self).fragment());
                }
            },
        }
    }

    /// Adds a start_time and end_time argument: the time range to return updates for (formatted as YYYYMMDDHhmm).
    pub fn time_range(&mut self, start_time: &str, end_time: &str)
        ensures
            final(self).fragment() == old(self).fragment() + "&start_time="@ + start_time@ + "&end_time="@ + end_time@,
    {
        self.option_string.append("&start_time=");
        self.option_string.append(start_time);
        self.option_string.append("&end_time=");
        self.option_string.append(end_time);
    }
}

} // verus!
