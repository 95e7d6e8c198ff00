//! Get an economic data series: the series response shape, its decoder, and the argument builder for the series endpoint.

pub mod categories;
pub mod observation;
pub mod release;
pub mod search;
pub mod tags;
pub mod updates;
pub mod vintagedates;

use vstd::prelude::*;
use vstd::string::*;
use crate::json;
use crate::decode::{decode_failure, failure_from_body, opt_str_view, opt_usize_u64, opt_isize_i64, u64_to_usize, i64_to_isize, isize_item_ok, opt_isize_item_ok, opt_usize_field_ok};

verus! {

/// Response data structure for a collection of series.
#[derive(Clone, Debug, Default)]
pub struct Response {
    /// The realtime start of the request.
    pub realtime_start: String,
    /// The realtime end of the request.
    pub realtime_end: String,
    /// On what metric the results are ordered.
    pub order_by: Option<String>,
    /// Results are listed in ascending or descending order.
    pub sort_order: Option<String>,
    /// The number of results returned.
    pub count: Option<usize>,
    /// The first result returned.
    pub offset: Option<usize>,
    /// The maximum number of results requested.
    pub limit: Option<usize>,
    /// The seriess returned by the query.
    pub seriess: Vec<Series>,
}

/// Information about one particular data series.
#[derive(Clone, Debug, Default)]
pub struct Series {
    /// The series id.
    pub id: String,
    /// The realtime start of the series.
    pub realtime_start: String,
    /// The realtime end of the series.
    pub realtime_end: String,
    /// The series title.
    pub title: String,
    /// The start of the observation period.
    pub observation_start: String,
    /// The end of the observation period.
    pub observation_end: String,
    /// The native frequency of the series.
    pub frequency: String,
    /// Short form of the frequency.
    pub frequency_short: String,
    /// The units of the series.
    pub units: String,
    /// Short form of the units.
    pub units_short: String,
    /// The seasonal adjustment of the series.
    pub seasonal_adjustment: String,
    /// Short form of the seasonal adjustment.
    pub seasonal_adjustment_short: String,
    /// When the series was last updated.
    pub last_updated: String,
    /// A popularity rating for the series.
    pub popularity: isize,
    /// A popularity rating for the series group.
    pub group_popularity: Option<isize>,
    /// Additional information about the series.
    pub notes: Option<String>,
}

/// Element `i` of the `seriess` array carries every required field,
/// with the integer fields small enough to hold.
pub open spec fn series_item_ok(body: Seq<char>, i: int) -> bool {
    &&& json::json_item_str(body, "seriess"@, i, "id"@) is Some
    &&& json::json_item_str(body, "seriess"@, i, "realtime_start"@) is Some
    &&& json::json_item_str(body, "seriess"@, i, "realtime_end"@) is Some
    &&& json::json_item_str(body, "seriess"@, i, "title"@) is Some
    &&& json::json_item_str(body, "seriess"@, i, "observation_start"@) is Some
    &&& json::json_item_str(body, "seriess"@, i, "observation_end"@) is Some
    &&& json::json_item_str(body, "seriess"@, i, "frequency"@) is Some
    &&& json::json_item_str(body, "seriess"@, i, "frequency_short"@) is Some
    &&& json::json_item_str(body, "seriess"@, i, "units"@) is Some
    &&& json::json_item_str(body, "seriess"@, i, "units_short"@) is Some
    &&& json::json_item_str(body, "seriess"@, i, "seasonal_adjustment"@) is Some
    &&& json::json_item_str(body, "seriess"@, i, "seasonal_adjustment_short"@) is Some
    &&& json::json_item_str(body, "seriess"@, i, "last_updated"@) is Some
    &&& isize_item_ok(body, "seriess"@, i, "popularity"@)
    &&& opt_isize_item_ok(body, "seriess"@, i, "group_popularity"@)
}

/// The decoded value `t` holds exactly the fields of element `i` of the
/// `seriess` array.
pub open spec fn series_item_matches(body: Seq<char>, i: int, t: Series) -> bool {
    &&& Some(t.id@) == json::json_item_str(body, "seriess"@, i, "id"@)
    &&& Some(t.realtime_start@) == json::json_item_str(body, "seriess"@, i, "realtime_start"@)
    &&& Some(t.realtime_end@) == json::json_item_str(body, "seriess"@, i, "realtime_end"@)
    &&& Some(t.title@) == json::json_item_str(body, "seriess"@, i, "title"@)
    &&& Some(t.observation_start@) == json::json_item_str(body, "seriess"@, i, "observation_start"@)
    &&& Some(t.observation_end@) == json::json_item_str(body, "seriess"@, i, "observation_end"@)
    &&& Some(t.frequency@) == json::json_item_str(body, "seriess"@, i, "frequency"@)
    &&& Some(t.frequency_short@) == json::json_item_str(body, "seriess"@, i, "frequency_short"@)
    &&& Some(t.units@) == json::json_item_str(body, "seriess"@, i, "units"@)
    &&& Some(t.units_short@) == json::json_item_str(body, "seriess"@, i, "units_short"@)
    &&& Some(t.seasonal_adjustment@) == json::json_item_str(body, "seriess"@, i, "seasonal_adjustment"@)
    &&& Some(t.seasonal_adjustment_short@) == json::json_item_str(body, "seriess"@, i, "seasonal_adjustment_short"@)
    &&& Some(t.last_updated@) == json::json_item_str(body, "seriess"@, i, "last_updated"@)
    &&& Some(t.popularity as i64) == json::json_item_i64(body, "seriess"@, i, "popularity"@)
    &&& opt_isize_i64(t.group_popularity) == json::json_item_i64(body, "seriess"@, i, "group_popularity"@)
    &&& opt_str_view(t.notes) == json::json_item_str(body, "seriess"@, i, "notes"@)
}

/// The body matches the success shape of this endpoint.
pub open spec fn series_shape_ok(body: Seq<char>) -> bool {
    &&& json::json_str_field(body, "realtime_start"@) is Some
    &&& json::json_str_field(body, "realtime_end"@) is Some
    &&& opt_usize_field_ok(body, "count"@)
    &&& opt_usize_field_ok(body, "offset"@)
    &&& opt_usize_field_ok(body, "limit"@)
    &&& json::json_arr_len(body, "seriess"@) is Some
    &&& forall|i: int|
        0 <= i < json::json_arr_len(body, "seriess"@)->Some_0 ==> #[trigger] series_item_ok(
            body,
            i,
        )
}

/// The decoded response `resp` holds exactly the fields of `body`.
pub open spec fn response_matches(body: Seq<char>, resp: Response) -> bool {
    &&& Some(resp.realtime_start@) == json::json_str_field(body, "realtime_start"@)
    &&& Some(resp.realtime_end@) == json::json_str_field(body, "realtime_end"@)
    &&& opt_str_view(resp.order_by) == json::json_str_field(body, "order_by"@)
    &&& opt_str_view(resp.sort_order) == json::json_str_field(body, "sort_order"@)
    &&& opt_usize_u64(resp.count) == json::json_u64_field(body, "count"@)
    &&& opt_usize_u64(resp.offset) == json::json_u64_field(body, "offset"@)
    &&& opt_usize_u64(resp.limit) == json::json_u64_field(body, "limit"@)
    &&& resp.seriess@.len() == json::json_arr_len(body, "seriess"@)->Some_0
    &&& forall|i: int|
        0 <= i < resp.seriess@.len() ==> series_item_matches(body, i, #[trigger] resp.seriess@[i])
}

/// Decodes a response body of this endpoint: the success shape when the
/// body matches it, otherwise the failure that the dual-shape protocol
/// prescribes.
pub fn from_body(text: &str) -> (r: Result<Response, String>)
    ensures
        r is Ok <==> series_shape_ok(text@),
        r matches Ok(resp) ==> response_matches(text@, resp),
        r matches Err(e) ==> e@ == decode_failure(text@),
{
    let realtime_start = match json::str_field(text, "realtime_start") {
        Some(v) => v,
        None => {
            return Err(failure_from_body(text));
        },
    };
    let realtime_end = match json::str_field(text, "realtime_end") {
        Some(v) => v,
        None => {
            return Err(failure_from_body(text));
        },
    };
    let order_by = json::str_field(text, "order_by");
    let sort_order = json::str_field(text, "sort_order");
    let count = match json::u64_field(text, "count") {
        Some(v) => match u64_to_usize(v) {
            Some(v) => Some(v),
            None => {
                return Err(failure_from_body(text));
            },
        },
        None => None,
    };
    let offset = match json::u64_field(text, "offset") {
        Some(v) => match u64_to_usize(v) {
            Some(v) => Some(v),
            None => {
                return Err(failure_from_body(text));
            },
        },
        None => None,
    };
    let limit = match json::u64_field(text, "limit") {
        Some(v) => match u64_to_usize(v) {
            Some(v) => Some(v),
            None => {
                return Err(failure_from_body(text));
            },
        },
        None => None,
    };
    let n = match json::arr_len(text, "seriess") {
        Some(n) => n,
        None => {
            return Err(failure_from_body(text));
        },
    };
    let mut seriess: Vec<Series> = Vec::new();
    let mut i: usize = 0;
    while i < n
        invariant
            i <= n,
            json::json_arr_len(text@, "seriess"@) == Some(n),
            seriess@.len() == i,
            forall|j: int| 0 <= j < i ==> #[trigger] series_item_ok(text@, j),
            forall|j: int| 0 <= j < i ==> series_item_matches(text@, j, #[trigger] seriess@[j]),
        decreases n - i,
    {
        let id = match json::item_str(text, "seriess", i, "id") {
            Some(v) => v,
            None => {
                proof {
                    assert(!series_item_ok(text@, i as int));
                    assert(!series_shape_ok(text@));
                }
                return Err(failure_from_body(text));
            },
        };
        let realtime_start = match json::item_str(text, "seriess", i, "realtime_start") {
            Some(v) => v,
            None => {
                proof {
                    assert(!series_item_ok(text@, i as int));
                    assert(!series_shape_ok(text@));
                }
                return Err(failure_from_body(text));
            },
        };
        let realtime_end = match json::item_str(text, "seriess", i, "realtime_end") {
            Some(v) => v,
            None => {
                proof {
                    assert(!series_item_ok(text@, i as int));
                    assert(!series_shape_ok(text@));
                }
                return Err(failure_from_body(text));
            },
        };
        let title = match json::item_str(text, "seriess", i, "title") {
            Some(v) => v,
            None => {
                proof {
                    assert(!series_item_ok(text@, i as int));
                    assert(!series_shape_ok(text@));
                }
                return Err(failure_from_body(text));
            },
        };
        let observation_start = match json::item_str(text, "seriess", i, "observation_start") {
            Some(v) => v,
            None => {
                proof {
                    assert(!series_item_ok(text@, i as int));
                    assert(!series_shape_ok(text@));
                }
                return Err(failure_from_body(text));
            },
        };
        let observation_end = match json::item_str(text, "seriess", i, "observation_end") {
            Some(v) => v,
            None => {
                proof {
                    assert(!series_item_ok(text@, i as int));
                    assert(!series_shape_ok(text@));
                }
                return Err(failure_from_body(text));
            },
        };
        let frequency = match json::item_str(text, "seriess", i, "frequency") {
            Some(v) => v,
            None => {
                proof {
                    assert(!series_item_ok(text@, i as int));
                    assert(!series_shape_ok(text@));
                }
                return Err(failure_from_body(text));
            },
        };
        let frequency_short = match json::item_str(text, "seriess", i, "frequency_short") {
            Some(v) => v,
            None => {
                proof {
                    assert(!series_item_ok(text@, i as int));
                    assert(!series_shape_ok(text@));
                }
                return Err(failure_from_body(text));
            },
        };
        let units = match json::item_str(text, "seriess", i, "units") {
            Some(v) => v,
            None => {
                proof {
                    assert(!series_item_ok(text@, i as int));
                    assert(!series_shape_ok(text@));
                }
                return Err(failure_from_body(text));
            },
        };
        let units_short = match json::item_str(text, "seriess", i, "units_short") {
            Some(v) => v,
            None => {
                proof {
                    assert(!series_item_ok(text@, i as int));
                    assert(!series_shape_ok(text@));
                }
                return Err(failure_from_body(text));
            },
        };
        let seasonal_adjustment = match json::item_str(text, "seriess", i, "seasonal_adjustment") {
            Some(v) => v,
            None => {
                proof {
                    assert(!series_item_ok(text@, i as int));
                    assert(!series_shape_ok(text@));
                }
                return Err(failure_from_body(text));
            },
        };
        let seasonal_adjustment_short = match json::item_str(text, "seriess", i, "seasonal_adjustment_short") {
            Some(v) => v,
            None => {
                proof {
                    assert(!series_item_ok(text@, i as int));
                    assert(!series_shape_ok(text@));
                }
                return Err(failure_from_body(text));
            },
        };
        let last_updated = match json::item_str(text, "seriess", i, "last_updated") {
            Some(v) => v,
            None => {
                proof {
                    assert(!series_item_ok(text@, i as int));
                    assert(!series_shape_ok(text@));
                }
                return Err(failure_from_body(text));
            },
        };
        let popularity = match json::item_i64(text, "seriess", i, "popularity") {
            Some(v) => match i64_to_isize(v) {
                Some(v) => v,
                None => {
                    proof {
                        assert(!series_item_ok(text@, i as int));
                        assert(!series_shape_ok(text@));
                    }
                    return Err(failure_from_body(text));
                },
            },
            None => {
                proof {
                    assert(!series_item_ok(text@, i as int));
                    assert(!series_shape_ok(text@));
                }
                return Err(failure_from_body(text));
            },
        };
        let group_popularity = match json::item_i64(text, "seriess", i, "group_popularity") {
            Some(v) => match i64_to_isize(v) {
                Some(v) => Some(v),
                None => {
                    proof {
                        assert(!series_item_ok(text@, i as int));
                        assert(!series_shape_ok(text@));
                    }
                    return Err(failure_from_body(text));
                },
            },
            None => None,
        };
        let notes = json::item_str(text, "seriess", i, "notes");
        seriess.push(Series { id, realtime_start, realtime_end, title, observation_start, observation_end, frequency, frequency_short, units, units_short, seasonal_adjustment, seasonal_adjustment_short, last_updated, popularity, group_popularity, notes });
        i = i + 1;
    }
    Ok(Response { realtime_start, realtime_end, order_by, sort_order, count, offset, limit, seriess })
}


/// The display line of one series.
pub open spec fn series_line(t: Series) -> Seq<char> {
    "Series "@ + t.id@ + ": "@ + t.title@
}

/// The display text of a whole response: one line per series.
pub open spec fn seriess_text(items: Seq<Series>) -> Seq<char>
    decreases items.len(),
{
    if items.len() == 0 {
        Seq::<char>::empty()
    } else {
        seriess_text(items.drop_last()) + series_line(items.last()) + "\n"@
    }
}

impl Series {
    /// Renders the series as its display line.
    pub fn display_string(&self) -> (r: String)
        ensures
            r@ == series_line(*self),
    {
        let mut s = String::from_str("Series ");
        s.append(self.id.as_str());
        s.append(": ");
        s.append(self.title.as_str());
        proof {
            assert(s@ =~= series_line(*self));
        }
        s
    }
}

impl Response {
    /// Renders the response as one line per series.
    pub fn display_string(&self) -> (r: String)
        ensures
            r@ == seriess_text(self.seriess@),
    {
        let mut out = String::new();
        let mut i: usize = 0;
        while i < self.seriess.len()
            invariant
                i <= self.seriess@.len(),
                out@ == seriess_text(self.seriess@.take(i as int)),
            decreases self.seriess@.len() - i,
        {
            let line = self.seriess[i].display_string();
            out.append(line.as_str());
            out.append("\n");
            proof {
                let cur = self.seriess@.take(i + 1 as int);
                assert(cur.drop_last() =~= self.seriess@.take(i as int));
                assert(cur.last() == self.seriess@[i as int]);
            }
            i = i + 1;
        }
        proof {
            assert(self.seriess@.take(self.seriess@.len() as int) =~= self.seriess@);
        }
        out
    }
}

/// Argument builder for the series endpoint.
///
/// Each method appends one argument to the builder, which can then be
/// passed to the client to apply the arguments to a request.  The builder
/// does no validity checking of the arguments nor does it check for
/// duplicates.
pub struct Builder {
    option_string: String,
}

impl Builder {
    /// The query-string fragment accumulated so far.
    pub closed spec fn fragment(&self) -> Seq<char> {
        self.option_string@
    }

    /// An empty builder: no arguments set.
    pub fn new() -> (b: Builder)
        ensures
            b.fragment() == Seq::<char>::empty(),
    {
        Builder {
            option_string: String::new(),
        }
    }

    /// Returns the accumulated arguments as a URL-formatted fragment,
    /// consuming the builder.
    pub fn build(self) -> (r: String)
        ensures
            r@ == self.fragment(),
    {
        self.option_string
    }

    /// Adds a realtime_start argument (a date formatted as YYYY-MM-DD).
    pub fn realtime_start(&mut self, start_date: &str)
        ensures
            final(self).fragment() == old(self).fragment() + "&realtime_start="@ + start_date@,
    {
        self.option_string.append("&realtime_start=");
        self.option_string.append(start_date);
    }

    /// Adds a realtime_end argument (a date formatted as YYYY-MM-DD).
    pub fn realtime_end(&mut self, end_date: &str)
        ensures
            final(self).fragment() == old(self).fragment() + "&realtime_end="@ + end_date@,
    {
        self.option_string.append("&realtime_end=");
        self.option_string.append(end_date);
    }
}

} // verus!
