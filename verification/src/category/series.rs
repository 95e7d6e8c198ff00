//! Get the series in a category: the response shape, its decoder, and the argument builder for the category/series endpoint.

use vstd::prelude::*;
use vstd::string::*;
use crate::json;
use crate::decode::{decode_failure, failure_from_body, opt_str_view, u64_to_usize, i64_to_isize, usize_field_ok, isize_item_ok};
use crate::fragment::{clamped, decimal_string, joined_with, lemma_empty_fragment_is_silent, limit_fragment, spec_decimal};

verus! {

/// Response data structure for the series in a category.
pub struct Response {
    /// The realtime start of the request.
    pub realtime_start: String,
    /// The realtime end of the request.
    pub realtime_end: String,
    /// On what metric the results are ordered.
    pub order_by: String,
    /// Results are listed in ascending or descending order.
    pub sort_order: String,
    /// The number of results returned.
    pub count: usize,
    /// The first result returned.
    pub offset: usize,
    /// The maximum number of results requested.
    pub limit: usize,
    /// The seriess returned by the query.
    pub seriess: Vec<Series>,
}

/// Information about one particular data series.
pub struct Series {
    /// The series id.
    pub id: String,
    /// The realtime start of the series.
    pub realtime_start: String,
    /// The realtime end of the series.
    pub realtime_end: String,
    /// The series title.
    pub title: String,
    /// The start of the observation period.
    pub observation_start: String,
    /// The end of the observation period.
    pub observation_end: String,
    /// The native frequency of the series.
    pub frequency: String,
    /// Short form of the frequency.
    pub frequency_short: String,
    /// The units of the series.
    pub units: String,
    /// Short form of the units.
    pub units_short: String,
    /// The seasonal adjustment of the series.
    pub seasonal_adjustment: String,
    /// Short form of the seasonal adjustment.
    pub seasonal_adjustment_short: String,
    /// When the series was last updated.
    pub last_updated: String,
    /// A popularity rating for the series.
    pub popularity: isize,
    /// A popularity rating for the series group.
    pub group_popularity: isize,
    /// Additional information about the series.
    pub notes: Option<String>,
}

/// Element `i` of the `seriess` array carries every required field,
/// with the integer fields small enough to hold.
pub open spec fn series_item_ok(body: Seq<char>, i: int) -> bool {
    &&& json::json_item_str(body, "seriess"@, i, "id"@) is Some
    &&& json::json_item_str(body, "seriess"@, i, "realtime_start"@) is Some
    &&& json::json_item_str(body, "seriess"@, i, "realtime_end"@) is Some
    &&& json::json_item_str(body, "seriess"@, i, "title"@) is Some
    &&& json::json_item_str(body, "seriess"@, i, "observation_start"@) is Some
    &&& json::json_item_str(body, "seriess"@, i, "observation_end"@) is Some
    &&& json::json_item_str(body, "seriess"@, i, "frequency"@) is Some
    &&& json::json_item_str(body, "seriess"@, i, "frequency_short"@) is Some
    &&& json::json_item_str(body, "seriess"@, i, "units"@) is Some
    &&& json::json_item_str(body, "seriess"@, i, "units_short"@) is Some
    &&& json::json_item_str(body, "seriess"@, i, "seasonal_adjustment"@) is Some
    &&& json::json_item_str(body, "seriess"@, i, "seasonal_adjustment_short"@) is Some
    &&& json::json_item_str(body, "seriess"@, i, "last_updated"@) is Some
    &&& isize_item_ok(body, "seriess"@, i, "popularity"@)
    &&& isize_item_ok(body, "seriess"@, i, "group_popularity"@)
}

/// The decoded value `t` holds exactly the fields of element `i` of the
/// `seriess` array.
pub open spec fn series_item_matches(body: Seq<char>, i: int, t: Series) -> bool {
    &&& Some(t.id@) == json::json_item_str(body, "seriess"@, i, "id"@)
    &&& Some(t.realtime_start@) == json::json_item_str(body, "seriess"@, i, "realtime_start"@)
    &&& Some(t.realtime_end@) == json::json_item_str(body, "seriess"@, i, "realtime_end"@)
    &&& Some(t.title@) == json::json_item_str(body, "seriess"@, i, "title"@)
    &&& Some(t.observation_start@) == json::json_item_str(body, "seriess"@, i, "observation_start"@)
    &&& Some(t.observation_end@) == json::json_item_str(body, "seriess"@, i, "observation_end"@)
    &&& Some(t.frequency@) == json::json_item_str(body, "seriess"@, i, "frequency"@)
    &&& Some(t.frequency_short@) == json::json_item_str(body, "seriess"@, i, "frequency_short"@)
    &&& Some(t.units@) == json::json_item_str(body, "seriess"@, i, "units"@)
    &&& Some(t.units_short@) == json::json_item_str(body, "seriess"@, i, "units_short"@)
    &&& Some(t.seasonal_adjustment@) == json::json_item_str(body, "seriess"@, i, "seasonal_adjustment"@)
    &&& Some(t.seasonal_adjustment_short@) == json::json_item_str(body, "seriess"@, i, "seasonal_adjustment_short"@)
    &&& Some(t.last_updated@) == json::json_item_str(body, "seriess"@, i, "last_updated"@)
    &&& Some(t.popularity as i64) == json::json_item_i64(body, "seriess"@, i, "popularity"@)
    &&& Some(t.group_popularity as i64) == json::json_item_i64(body, "seriess"@, i, "group_popularity"@)
    &&& opt_str_view(t.notes) == json::json_item_str(body, "seriess"@, i, "notes"@)
}

/// The body matches the success shape of this endpoint.
pub open spec fn category_series_shape_ok(body: Seq<char>) -> bool {
    &&& json::json_str_field(body, "realtime_start"@) is Some
    &&& json::json_str_field(body, "realtime_end"@) is Some
    &&& json::json_str_field(body, "order_by"@) is Some
    &&& json::json_str_field(body, "sort_order"@) is Some
    &&& usize_field_ok(body, "count"@)
    &&& usize_field_ok(body, "offset"@)
    &&& usize_field_ok(body, "limit"@)
    &&& json::json_arr_len(body, "seriess"@) is Some
    &&& forall|i: int|
        0 <= i < json::json_arr_len(body, "seriess"@)->Some_0 ==> #[trigger] series_item_ok(
            body,
            i,
        )
}

/// The decoded response `resp` holds exactly the fields of `body`.
pub open spec fn response_matches(body: Seq<char>, resp: Response) -> bool {
    &&& Some(resp.realtime_start@) == json::json_str_field(body, "realtime_start"@)
    &&& Some(resp.realtime_end@) == json::json_str_field(body, "realtime_end"@)
    &&& Some(resp.order_by@) == json::json_str_field(body, "order_by"@)
    &&& Some(resp.sort_order@) == json::json_str_field(body, "sort_order"@)
    &&& Some(resp.count as u64) == json::json_u64_field(body, "count"@)
    &&& Some(resp.offset as u64) == json::json_u64_field(body, "offset"@)
    &&& Some(resp.limit as u64) == json::json_u64_field(body, "limit"@)
    &&& resp.seriess@.len() == json::json_arr_len(body, "seriess"@)->Some_0
    &&& forall|i: int|
        0 <= i < resp.seriess@.len() ==> series_item_matches(body, i, #[trigger] resp.seriess@[i])
}

/// Decodes a response body of this endpoint: the success shape when the
/// body matches it, otherwise the failure that the dual-shape protocol
/// prescribes.
pub fn from_body(text: &str) -> (r: Result<Response, String>)
    ensures
        r is Ok <==> category_series_shape_ok(text@),
        r matches Ok(resp) ==> response_matches(text@, resp),
        r matches Err(e) ==> e@ == decode_failure(text@),
{
    let realtime_start = match json::str_field(text, "realtime_start") {
        Some(v) => v,
        None => {
            return Err(failure_from_body(text));
        },
    };
    let realtime_end = match json::str_field(text, "realtime_end") {
        Some(v) => v,
        None => {
            return Err(failure_from_body(text));
        },
    };
    let order_by = match json::str_field(text, "order_by") {
        Some(v) => v,
        None => {
            return Err(failure_from_body(text));
        },
    };
    let sort_order = match json::str_field(text, "sort_order") {
        Some(v) => v,
        None => {
            return Err(failure_from_body(text));
        },
    };
    let count = match json::u64_field(text, "count") {
        Some(v) => match u64_to_usize(v) {
            Some(v) => v,
            None => {
                return Err(failure_from_body(text));
            },
        },
        None => {
            return Err(failure_from_body(text));
        },
    };
    let offset = match json::u64_field(text, "offset") {
        Some(v) => match u64_to_usize(v) {
            Some(v) => v,
            None => {
                return Err(failure_from_body(text));
            },
        },
        None => {
            return Err(failure_from_body(text));
        },
    };
    let limit = match json::u64_field(text, "limit") {
        Some(v) => match u64_to_usize(v) {
            Some(v) => v,
            None => {
                return Err(failure_from_body(text));
            },
        },
        None => {
            return Err(failure_from_body(text));
        },
    };
    let n = match json::arr_len(text, "seriess") {
        Some(n) => n,
        None => {
            return Err(failure_from_body(text));
        },
    };
    let mut seriess: Vec<Series> = Vec::new();
    let mut i: usize = 0;
    while i < n
        invariant
            i <= n,
            json::json_arr_len(text@, "seriess"@) == Some(n),
            seriess@.len() == i,
            forall|j: int| 0 <= j < i ==> #[trigger] series_item_ok(text@, j),
            forall|j: int| 0 <= j < i ==> series_item_matches(text@, j, #[trigger] seriess@[j]),
        decreases n - i,
    {
        let id = match json::item_str(text, "seriess", i, "id") {
            Some(v) => v,
            None => {
                proof {
                    assert(!series_item_ok(text@, i as int));
                    assert(!category_series_shape_ok(text@));
                }
                return Err(failure_from_body(text));
            },
        };
        let realtime_start = match json::item_str(text, "seriess", i, "realtime_start") {
            Some(v) => v,
            None => {
                proof {
                    assert(!series_item_ok(text@, i as int));
                    assert(!category_series_shape_ok(text@));
                }
                return Err(failure_from_body(text));
            },
        };
        let realtime_end = match json::item_str(text, "seriess", i, "realtime_end") {
            Some(v) => v,
            None => {
                proof {
                    assert(!series_item_ok(text@, i as int));
                    assert(!category_series_shape_ok(text@));
                }
                return Err(failure_from_body(text));
            },
        };
        let title = match json::item_str(text, "seriess", i, "title") {
            Some(v) => v,
            None => {
                proof {
                    assert(!series_item_ok(text@, i as int));
                    assert(!category_series_shape_ok(text@));
                }
                return Err(failure_from_body(text));
            },
        };
        let observation_start = match json::item_str(text, "seriess", i, "observation_start") {
            Some(v) => v,
            None => {
                proof {
                    assert(!series_item_ok(text@, i as int));
                    assert(!category_series_shape_ok(text@));
                }
                return Err(failure_from_body(text));
            },
        };
        let observation_end = match json::item_str(text, "seriess", i, "observation_end") {
            Some(v) => v,
            None => {
                proof {
                    assert(!series_item_ok(text@, i as int));
                    assert(!category_series_shape_ok(text@));
                }
                return Err(failure_from_body(text));
            },
        };
        let frequency = match json::item_str(text, "seriess", i, "frequency") {
            Some(v) => v,
            None => {
                proof {
                    assert(!series_item_ok(text@, i as int));
                    assert(!category_series_shape_ok(text@));
                }
                return Err(failure_from_body(text));
            },
        };
        let frequency_short = match json::item_str(text, "seriess", i, "frequency_short") {
            Some(v) => v,
            None => {
                proof {
                    assert(!series_item_ok(text@, i as int));
                    assert(!category_series_shape_ok(text@));
                }
                return Err(failure_from_body(text));
            },
        };
        let units = match json::item_str(text, "seriess", i, "units") {
            Some(v) => v,
            None => {
                proof {
                    assert(!series_item_ok(text@, i as int));
                    assert(!category_series_shape_ok(text@));
                }
                return Err(failure_from_body(text));
            },
        };
        let units_short = match json::item_str(text, "seriess", i, "units_short") {
            Some(v) => v,
            None => {
                proof {
                    assert(!series_item_ok(text@, i as int));
                    assert(!category_series_shape_ok(text@));
                }
                return Err(failure_from_body(text));
            },
        };
        let seasonal_adjustment = match json::item_str(text, "seriess", i, "seasonal_adjustment") {
            Some(v) => v,
            None => {
                proof {
                    assert(!series_item_ok(text@, i as int));
                    assert(!category_series_shape_ok(text@));
                }
                return Err(failure_from_body(text));
            },
        };
        let seasonal_adjustment_short = match json::item_str(text, "seriess", i, "seasonal_adjustment_short") {
            Some(v) => v,
            None => {
                proof {
                    assert(!series_item_ok(text@, i as int));
                    assert(!category_series_shape_ok(text@));
                }
                return Err(failure_from_body(text));
            },
        };
        let last_updated = match json::item_str(text, "seriess", i, "last_updated") {
            Some(v) => v,
            None => {
                proof {
                    assert(!series_item_ok(text@, i as int));
                    assert(!category_series_shape_ok(text@));
                }
                return Err(failure_from_body(text));
            },
        };
        let popularity = match json::item_i64(text, "seriess", i, "popularity") {
            Some(v) => match i64_to_isize(v) {
                Some(v) => v,
                None => {
                    proof {
                        assert(!series_item_ok(text@, i as int));
                        assert(!category_series_shape_ok(text@));
                    }
                    return Err(failure_from_body(text));
                },
            },
            None => {
                proof {
                    assert(!series_item_ok(text@, i as int));
                    assert(!category_series_shape_ok(text@));
                }
                return Err(failure_from_body(text));
            },
        };
        let group_popularity = match json::item_i64(text, "seriess", i, "group_popularity") {
            Some(v) => match i64_to_isize(v) {
                Some(v) => v,
                None => {
                    proof {
                        assert(!series_item_ok(text@, i as int));
                        assert(!category_series_shape_ok(text@));
                    }
                    return Err(failure_from_body(text));
                },
            },
            None => {
                proof {
                    assert(!series_item_ok(text@, i as int));
                    assert(!category_series_shape_ok(text@));
                }
                return Err(failure_from_body(text));
            },
        };
        let notes = json::item_str(text, "seriess", i, "notes");
        seriess.push(Series { id, realtime_start, realtime_end, title, observation_start, observation_end, frequency, frequency_short, units, units_short, seasonal_adjustment, seasonal_adjustment_short, last_updated, popularity, group_popularity, notes });
        i = i + 1;
    }
    Ok(Response { realtime_start, realtime_end, order_by, sort_order, count, offset, limit, seriess })
}

/// The metrics the returned series can be ordered by.
pub enum OrderBy {
    /// Order by series id (the default; appends nothing).
    SeriesId,
    /// Order by title.
    Title,
    /// Order by units.
    Units,
    /// Order by frequency.
    Frequency,
    /// Order by seasonal adjustment.
    SeasonalAdjustment,
    /// Order by realtime start.
    RealtimeStart,
    /// Order by realtime end.
    RealtimeEnd,
    /// Order by last update.
    LastUpdated,
    /// Order by observation start.
    ObservationStart,
    /// Order by observation end.
    ObservationEnd,
    /// Order by popularity.
    Popularity,
    /// Order by group popularity.
    GroupPopularity,
}

/// The fragment the corresponding setter appends for each value.
pub open spec fn order_by_fragment(value: OrderBy) -> Seq<char> {
    match value {
        OrderBy::SeriesId => Seq::<char>::empty(),
        OrderBy::Title => "&order_by=title"@,
        OrderBy::Units => "&order_by=units"@,
        OrderBy::Frequency => "&order_by=frequency"@,
        OrderBy::SeasonalAdjustment => "&order_by=seasonal_adjustment"@,
        OrderBy::RealtimeStart => "&order_by=realtime_start"@,
        OrderBy::RealtimeEnd => "&order_by=realtime_end"@,
        OrderBy::LastUpdated => "&order_by=last_updated"@,
        OrderBy::ObservationStart => "&order_by=observation_start"@,
        OrderBy::ObservationEnd => "&order_by=observation_end"@,
        OrderBy::Popularity => "&order_by=popularity"@,
        OrderBy::GroupPopularity => "&order_by=group_popularity"@,
    }
}

/// Selecting the default ordering leaves the fragment exactly as it was: the
/// request is indistinguishable from one that never set this parameter.
pub proof fn lemma_default_order_by_is_silent(s: Seq<char>)
    ensures
        s + order_by_fragment(OrderBy::SeriesId) == s,
{
    lemma_empty_fragment_is_silent(s);
}


/// Sort order of the results.
pub enum SortOrder {
    /// Results in ascending order (the default).
    Ascending,
    /// Results in descending order.
    Descending,
}

/// The fragment the corresponding setter appends for each value.
pub open spec fn sort_order_fragment(value: SortOrder) -> Seq<char> {
    match value {
        SortOrder::Ascending => Seq::<char>::empty(),
        SortOrder::Descending => "&sort_order=desc"@,
    }
}

/// Selecting the default value leaves the fragment exactly as it was:
/// the request is indistinguishable from one that never set this
/// parameter.
pub proof fn lemma_default_sort_order_is_silent(s: Seq<char>)
    ensures
        s + sort_order_fragment(SortOrder::Ascending) == s,
{
    lemma_empty_fragment_is_silent(s);
}

/// The attributes the returned series can be filtered by.
pub enum FilterVariable {
    /// Filter results by frequency.
    Frequency,
    /// Filter results by units.
    Units,
    /// Filter results by seasonal adjustment.
    SeasonalAdjustment,
}

/// The fragment the corresponding setter appends for each value.
pub open spec fn filter_variable_fragment(value: FilterVariable) -> Seq<char> {
    match value {
        FilterVariable::Frequency => "&filter_variable=frequency"@,
        FilterVariable::Units => "&filter_variable=units"@,
        FilterVariable::SeasonalAdjustment => "&filter_variable=seasonal_adjustment"@,
    }
}


/// Argument builder for the category/series endpoint.
///
/// Each method appends one argument to the builder, which can then be
/// passed to the client to apply the arguments to a request.  The builder
/// does no validity checking of the arguments nor does it check for
/// duplicates.
pub struct Builder {
    option_string: String,
    include_tags: String,
    exclude_tags: String,
}

impl Builder {
    /// The query-string fragment accumulated so far, without the pending
    /// repeatable arguments.
    pub closed spec fn fragment(&self) -> Seq<char> {
        self.option_string@
    }

    /// The semicolon-joined tag names accumulated so far.
    pub closed spec fn tags(&self) -> Seq<char> {
        self.include_tags@
    }

    /// The semicolon-joined excluded tag names accumulated so far.
    pub closed spec fn excludes(&self) -> Seq<char> {
        self.exclude_tags@
    }

    /// An empty builder: no arguments set.
    pub fn new() -> (b: Builder)
        ensures
            b.fragment() == Seq::<char>::empty(),
            b.tags() == Seq::<char>::empty(),
            b.excludes() == Seq::<char>::empty(),
    {
        Builder {
            option_string: String::new(),
            include_tags: String::new(),
            exclude_tags: String::new(),
        }
    }

    /// Returns the accumulated arguments as a URL-formatted fragment,
    /// consuming the builder; pending tag names come first, then pending
    /// excluded tag names, each as one semicolon-joined argument.
    pub fn options(self) -> (r: String)
        ensures
            r@ == self.fragment() + (if self.tags().len() == 0 {
                Seq::<char>::empty()
            } else {
                "&tag_names="@ + self.tags()
            }) + (if self.excludes().len() == 0 {
                Seq::<char>::empty()
            } else {
                "&exclude_tag_names="@ + self.excludes()
            }),
    {
        let mut s = self.option_string;
        if !self.include_tags.as_str().is_empty() {
            s.append("&tag_names=");
            s.append(self.include_tags.as_str());
        }
        if !self.exclude_tags.as_str().is_empty() {
            s.append("&exclude_tag_names=");
            s.append(self.exclude_tags.as_str());
        }
        proof {
            assert(s@ =~= self.fragment() + (if self.tags().len() == 0 {
                Seq::<char>::empty()
            } else {
                "&tag_names="@ + self.tags()
            }) + (if self.excludes().len() == 0 {
                Seq::<char>::empty()
            } else {
                "&exclude_tag_names="@ + self.excludes()
            }));
        }
        s
    }

    /// Adds a realtime_start argument (a date formatted as YYYY-MM-DD).
    pub fn realtime_start(&mut self, start_date: &str)
        ensures
            final(self).fragment() == old(self).fragment() + "&realtime_start="@ + start_date@,
            final(self).tags() == old(self).tags(),
            final(self).excludes() == old(self).excludes(),
    {
        self.option_string.append("&realtime_start=");
        self.option_string.append(start_date);
    }

    /// Adds a realtime_end argument (a date formatted as YYYY-MM-DD).
    pub fn realtime_end(&mut self, end_date: &str)
        ensures
            final(self).fragment() == old(self).fragment() + "&realtime_end="@ + end_date@,
            final(self).tags() == old(self).tags(),
            final(self).excludes() == old(self).excludes(),
    {
        self.option_string.append("&realtime_end=");
        self.option_string.append(end_date);
    }

    /// Adds a limit argument: the maximum number of results to return.
    /// A request above 1000 is silently lowered to 1000.
    pub fn limit(&mut self, num_results: usize)
        ensures
            final(self).fragment() == old(self).fragment() + limit_fragment(
                num_results as nat,
                1000,
            ),
            final(self).tags() == old(self).tags(),
            final(self).excludes() == old(self).excludes(),
    {
        let capped: usize = if num_results > 1000 {
            1000
        } else {
            num_results
        };
        self.option_string.append("&limit=");
        let digits = decimal_string(capped);
        self.option_string.append(digits.as_str());
        proof {
            assert(capped as nat == clamped(num_results as nat, 1000));
            assert(self.option_string@ =~= old(self).fragment() + limit_fragment(
                num_results as nat,
                1000,
            ));
        }
    }

    /// Adds an offset argument: the first result to return.
    pub fn offset(&mut self, ofs: usize)
        ensures
            final(self).fragment() == old(self).fragment() + "&offset="@ + spec_decimal(
                ofs as nat,
            ),
            final(self).tags() == old(self).tags(),
            final(self).excludes() == old(self).excludes(),
    {
        self.option_string.append("&offset=");
        let digits = decimal_string(ofs);
        self.option_string.append(digits.as_str());
    }

    /// Adds an order_by argument: the metric to order the results by; the
    /// default metric appends nothing.
    pub fn order_by(&mut self, order: OrderBy)
        ensures
            final(self).fragment() == old(self).fragment() + order_by_fragment(order),
            final(self).tags() == old(self).tags(),
            final(self).excludes() == old(self).excludes(),
    {
        match order {
            OrderBy::SeriesId => {
                proof {
                    lemma_empty_fragment_is_silent(old(self).fragment());
                }
            },
            OrderBy::Title => self.option_string.append("&order_by=title"),
            OrderBy::Units => self.option_string.append("&order_by=units"),
            OrderBy::Frequency => self.option_string.append("&order_by=frequency"),
            OrderBy::SeasonalAdjustment => self.option_string.append("&order_by=seasonal_adjustment"),
            OrderBy::RealtimeStart => self.option_string.append("&order_by=realtime_start"),
            OrderBy::RealtimeEnd => self.option_string.append("&order_by=realtime_end"),
            OrderBy::LastUpdated => self.option_string.append("&order_by=last_updated"),
            OrderBy::ObservationStart => self.option_string.append("&order_by=observation_start"),
            OrderBy::ObservationEnd => self.option_string.append("&order_by=observation_end"),
            OrderBy::Popularity => self.option_string.append("&order_by=popularity"),
            OrderBy::GroupPopularity => self.option_string.append("&order_by=group_popularity"),
        }
    }

    /// Adds a sort_order argument; ascending order is the default and appends nothing.
    pub fn sort_order(&mut self, order: SortOrder)
        ensures
            final(self).fragment() == old(self).fragment() + sort_order_fragment(order),
            final(self).tags() == old(self).tags(),
            final(self).excludes() == old(self).excludes(),
    {
        match order {
            SortOrder::Descending => self.option_string.append("&sort_order=desc"),
            _ => {
                proof {
                    lemma_empty_fragment_is_silent(old(self).fragment());
                }
            },
        }
    }

    /// Adds a filter_variable argument: the attribute to filter results by.
    pub fn filter_variable(&mut self, var: FilterVariable)
        ensures
            final(self).fragment() == old(self).fragment() + filter_variable_fragment(var),
            final(self).tags() == old(self).tags(),
            final(self).excludes() == old(self).excludes(),
    {
        match var {
            FilterVariable::Frequency => self.option_string.append("&filter_variable=frequency"),
            FilterVariable::Units => self.option_string.append("&filter_variable=units"),
            FilterVariable::SeasonalAdjustment => self.option_string.append("&filter_variable=seasonal_adjustment"),
        }
    }

    /// Adds a filter_value argument: the value of filter_variable to filter results by.
    pub fn filter_value(&mut self, val: &str)
        ensures
            final(self).fragment() == old(self).fragment() + "&filter_value="@ + val@,
            final(self).tags() == old(self).tags(),
            final(self).excludes() == old(self).excludes(),
    {
        self.option_string.append("&filter_value=");
        self.option_string.append(val);
    }

    /// Adds a tag name to the semicolon-joined tag_names list: the first tag starts the list, every later tag is preceded by a semicolon.
    pub fn tag_name(&mut self, tag: &str)
        ensures
            final(self).fragment() == old(self).fragment(),
            final(self).tags() == joined_with(old(self).tags(), tag@),
            final(self).fragment() == old(self).fragment(),
            final(self).excludes() == old(self).excludes(),
    {
        if !self.include_tags.as_str().is_empty() {
            self.include_tags.append(";");
        }
        self.include_tags.append(tag);
        proof {
            assert(self.include_tags@ =~= joined_with(old(self).tags(), tag@));
        }
    }

    /// Adds a tag name to the semicolon-joined exclude_tag_names list; excluded tags never satisfy a tag_names requirement.
    pub fn exclude_tag(&mut self, tag: &str)
        ensures
            final(self).fragment() == old(self).fragment(),
            final(self).excludes() == joined_with(old(self).excludes(), tag@),
            final(self).fragment() == old(self).fragment(),
            final(self).tags() == old(self).tags(),
    {
        if !self.exclude_tags.as_str().is_empty() {
            self.exclude_tags.append(";");
        }
        self.exclude_tags.append(tag);
        proof {
            assert(self.exclude_tags@ =~= joined_with(old(self).excludes(), tag@));
        }
    }
}

} // verus!
