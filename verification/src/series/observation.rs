//! Get the observations or data values for an economic data series: the response shape, its decoder, and the argument builder for the series/observations endpoint.

use vstd::prelude::*;
use vstd::string::*;
use crate::json;
use crate::decode::{decode_failure, failure_from_body, u64_to_usize, usize_field_ok};
use crate::fragment::{clamped, comma_joined_with, decimal_string, lemma_empty_fragment_is_silent, limit_fragment, spec_decimal};

verus! {

/// Response data structure for the observations of a series.
#[derive(Clone, Debug, Default)]
pub struct Response {
    /// The realtime start of the request.
    pub realtime_start: String,
    /// The realtime end of the request.
    pub realtime_end: String,
    /// The start of the observation period.
    pub observation_start: String,
    /// The end of the observation period.
    pub observation_end: String,
    /// The units of the observations.
    pub units: String,
    /// The output type of the observations.
    pub output_type: usize,
    /// The file type of the response.
    pub file_type: String,
    /// On what metric the data are ordered.
    pub order_by: String,
    /// Results are listed in ascending or descending order.
    pub sort_order: String,
    /// The number of data points returned.
    pub count: usize,
    /// The first result returned.
    pub offset: usize,
    /// The maximum number of results requested.
    pub limit: usize,
    /// The observations returned by the query.
    pub observations: Vec<DataPoint>,
}

/// A single observation data point.
#[derive(Clone, Debug, Default)]
pub struct DataPoint {
    /// The realtime start of the data point.
    pub realtime_start: String,
    /// The realtime end of the data point.
    pub realtime_end: String,
    /// The date of the data point.
    pub date: String,
    /// The string-encoded value of the data point.
    pub value: String,
}

/// Element `i` of the `observations` array carries every required field,
/// with the integer fields small enough to hold.
pub open spec fn data_point_item_ok(body: Seq<char>, i: int) -> bool {
    &&& json::json_item_str(body, "observations"@, i, "realtime_start"@) is Some
    &&& json::json_item_str(body, "observations"@, i, "realtime_end"@) is Some
    &&& json::json_item_str(body, "observations"@, i, "date"@) is Some
    &&& json::json_item_str(body, "observations"@, i, "value"@) is Some
}

/// The decoded value `t` holds exactly the fields of element `i` of the
/// `observations` array.
pub open spec fn data_point_item_matches(body: Seq<char>, i: int, t: DataPoint) -> bool {
    &&& Some(t.realtime_start@) == json::json_item_str(body, "observations"@, i, "realtime_start"@)
    &&& Some(t.realtime_end@) == json::json_item_str(body, "observations"@, i, "realtime_end"@)
    &&& Some(t.date@) == json::json_item_str(body, "observations"@, i, "date"@)
    &&& Some(t.value@) == json::json_item_str(body, "observations"@, i, "value"@)
}

/// The body matches the success shape of this endpoint.
pub open spec fn observation_shape_ok(body: Seq<char>) -> bool {
    &&& json::json_str_field(body, "realtime_start"@) is Some
    &&& json::json_str_field(body, "realtime_end"@) is Some
    &&& json::json_str_field(body, "observation_start"@) is Some
    &&& json::json_str_field(body, "observation_end"@) is Some
    &&& json::json_str_field(body, "units"@) is Some
    &&& usize_field_ok(body, "output_type"@)
    &&& json::json_str_field(body, "file_type"@) is Some
    &&& json::json_str_field(body, "order_by"@) is Some
    &&& json::json_str_field(body, "sort_order"@) is Some
    &&& usize_field_ok(body, "count"@)
    &&& usize_field_ok(body, "offset"@)
    &&& usize_field_ok(body, "limit"@)
    &&& json::json_arr_len(body, "observations"@) is Some
    &&& forall|i: int|
        0 <= i < json::json_arr_len(body, "observations"@)->Some_0 ==> #[trigger] data_point_item_ok(
            body,
            i,
        )
}

/// The decoded response `resp` holds exactly the fields of `body`.
pub open spec fn response_matches(body: Seq<char>, resp: Response) -> bool {
    &&& Some(resp.realtime_start@) == json::json_str_field(body, "realtime_start"@)
    &&& Some(resp.realtime_end@) == json::json_str_field(body, "realtime_end"@)
    &&& Some(resp.observation_start@) == json::json_str_field(body, "observation_start"@)
    &&& Some(resp.observation_end@) == json::json_str_field(body, "observation_end"@)
    &&& Some(resp.units@) == json::json_str_field(body, "units"@)
    &&& Some(resp.output_type as u64) == json::json_u64_field(body, "output_type"@)
    &&& Some(resp.file_type@) == json::json_str_field(body, "file_type"@)
    &&& Some(resp.order_by@) == json::json_str_field(body, "order_by"@)
    &&& Some(resp.sort_order@) == json::json_str_field(body, "sort_order"@)
    &&& Some(resp.count as u64) == json::json_u64_field(body, "count"@)
    &&& Some(resp.offset as u64) == json::json_u64_field(body, "offset"@)
    &&& Some(resp.limit as u64) == json::json_u64_field(body, "limit"@)
    &&& resp.observations@.len() == json::json_arr_len(body, "observations"@)->Some_0
    &&& forall|i: int|
        0 <= i < resp.observations@.len() ==> data_point_item_matches(body, i, #[trigger] resp.observations@[i])
}

/// Decodes a response body of this endpoint: the success shape when the
/// body matches it, otherwise the failure that the dual-shape protocol
/// prescribes.
pub fn from_body(text: &str) -> (r: Result<Response, String>)
    ensures
        r is Ok <==> observation_shape_ok(text@),
        r matches Ok(resp) ==> response_matches(text@, resp),
        r matches Err(e) ==> e@ == decode_failure(text@),
{
    let realtime_start = match json::str_field(text, "realtime_start") {
        Some(v) => v,
        None => {
            return Err(failure_from_body(text));
        },
    };
    let realtime_end = match json::str_field(text, "realtime_end") {
        Some(v) => v,
        None => {
            return Err(failure_from_body(text));
        },
    };
    let observation_start = match json::str_field(text, "observation_start") {
        Some(v) => v,
        None => {
            return Err(failure_from_body(text));
        },
    };
    let observation_end = match json::str_field(text, "observation_end") {
        Some(v) => v,
        None => {
            return Err(failure_from_body(text));
        },
    };
    let units = match json::str_field(text, "units") {
        Some(v) => v,
        None => {
            return Err(failure_from_body(text));
        },
    };
    let output_type = match json::u64_field(text, "output_type") {
        Some(v) => match u64_to_usize(v) {
            Some(v) => v,
            None => {
                return Err(failure_from_body(text));
            },
        },
        None => {
            return Err(failure_from_body(text));
        },
    };
    let file_type = match json::str_field(text, "file_type") {
        Some(v) => v,
        None => {
            return Err(failure_from_body(text));
        },
    };
    let order_by = match json::str_field(text, "order_by") {
        Some(v) => v,
        None => {
            return Err(failure_from_body(text));
        },
    };
    let sort_order = match json::str_field(text, "sort_order") {
        Some(v) => v,
        None => {
            return Err(failure_from_body(text));
        },
    };
    let count = match json::u64_field(text, "count") {
        Some(v) => match u64_to_usize(v) {
            Some(v) => v,
            None => {
                return Err(failure_from_body(text));
            },
        },
        None => {
            return Err(failure_from_body(text));
        },
    };
    let offset = match json::u64_field(text, "offset") {
        Some(v) => match u64_to_usize(v) {
            Some(v) => v,
            None => {
                return Err(failure_from_body(text));
            },
        },
        None => {
            return Err(failure_from_body(text));
        },
    };
    let limit = match json::u64_field(text, "limit") {
        Some(v) => match u64_to_usize(v) {
            Some(v) => v,
            None => {
                return Err(failure_from_body(text));
            },
        },
        None => {
            return Err(failure_from_body(text));
        },
    };
    let n = match json::arr_len(text, "observations") {
        Some(n) => n,
        None => {
            return Err(failure_from_body(text));
        },
    };
    let mut observations: Vec<DataPoint> = Vec::new();
    let mut i: usize = 0;
    while i < n
        invariant
            i <= n,
            json::json_arr_len(text@, "observations"@) == Some(n),
            observations@.len() == i,
            forall|j: int| 0 <= j < i ==> #[trigger] data_point_item_ok(text@, j),
            forall|j: int| 0 <= j < i ==> data_point_item_matches(text@, j, #[trigger] observations@[j]),
        decreases n - i,
    {
        let realtime_start = match json::item_str(text, "observations", i, "realtime_start") {
            Some(v) => v,
            None => {
                proof {
                    assert(!data_point_item_ok(text@, i as int));
                    assert(!observation_shape_ok(text@));
                }
                return Err(failure_from_body(text));
            },
        };
        let realtime_end = match json::item_str(text, "observations", i, "realtime_end") {
            Some(v) => v,
            None => {
                proof {
                    assert(!data_point_item_ok(text@, i as int));
                    assert(!observation_shape_ok(text@));
                }
                return Err(failure_from_body(text));
            },
        };
        let date = match json::item_str(text, "observations", i, "date") {
            Some(v) => v,
            None => {
                proof {
                    assert(!data_point_item_ok(text@, i as int));
                    assert(!observation_shape_ok(text@));
                }
                return Err(failure_from_body(text));
            },
        };
        let value = match json::item_str(text, "observations", i, "value") {
            Some(v) => v,
            None => {
                proof {
                    assert(!data_point_item_ok(text@, i as int));
                    assert(!observation_shape_ok(text@));
                }
                return Err(failure_from_body(text));
            },
        };
        observations.push(DataPoint { realtime_start, realtime_end, date, value });
        i = i + 1;
    }
    Ok(Response { realtime_start, realtime_end, observation_start, observation_end, units, output_type, file_type, order_by, sort_order, count, offset, limit, observations })
}


/// The display line of one data point: `(<date>: <value>)`.
pub open spec fn data_point_line(t: DataPoint) -> Seq<char> {
    "("@ + t.date@ + ": "@ + t.value@ + ")"@
}

/// The display text of a whole response: one line per data point.
pub open spec fn observations_text(items: Seq<DataPoint>) -> Seq<char>
    decreases items.len(),
{
    if items.len() == 0 {
        Seq::<char>::empty()
    } else {
        observations_text(items.drop_last()) + data_point_line(items.last()) + "\n"@
    }
}

impl DataPoint {
    /// Renders the data point as `(<date>: <value>)`.
    pub fn display_string(&self) -> (r: String)
        ensures
            r@ == data_point_line(*self),
    {
        let mut s = String::from_str("(");
        s.append(self.date.as_str());
        s.append(": ");
        s.append(self.value.as_str());
        s.append(")");
        proof {
            assert(s@ =~= data_point_line(*self));
        }
        s
    }
}

impl Response {
    /// Renders the response as one line per data point.
    pub fn display_string(&self) -> (r: String)
        ensures
            r@ == observations_text(self.observations@),
    {
        let mut out = String::new();
        let mut i: usize = 0;
        while i < self.observations.len()
            invariant
                i <= self.observations@.len(),
                out@ == observations_text(self.observations@.take(i as int)),
            decreases self.observations@.len() - i,
        {
            let line = self.observations[i].display_string();
            out.append(line.as_str());
            out.append("\n");
            proof {
                let cur = self.observations@.take(i + 1 as int);
                assert(cur.drop_last() =~= self.observations@.take(i as int));
                assert(cur.last() == self.observations@[i as int]);
            }
            i = i + 1;
        }
        proof {
            assert(self.observations@.take(self.observations@.len() as int) =~= self.observations@);
        }
        out
    }
}

/// Sort order of the results.
pub enum SortOrder {
    /// Results in ascending order (the default).
    Ascending,
    /// Results in descending order.
    Descending,
}

/// The fragment the corresponding setter appends for each value.
pub open spec fn sort_order_fragment(value: SortOrder) -> Seq<char> {
    match value {
        SortOrder::Ascending => Seq::<char>::empty(),
        SortOrder::Descending => "&sort_order=desc"@,
    }
}

/// Selecting the default value leaves the fragment exactly as it was:
/// the request is indistinguishable from one that never set this
/// parameter.
pub proof fn lemma_default_sort_order_is_silent(s: Seq<char>)
    ensures
        s + sort_order_fragment(SortOrder::Ascending) == s,
{
    lemma_empty_fragment_is_silent(s);
}

/// Data transformations that can be applied to the observations.
pub enum Units {
    /// Linear: no transform applied (the default).
    LIN,
    /// Change: the period over period change of the observation.
    CHG,
    /// 1 year change: the year over year change of the observation.
    CH1,
    /// Percent change: the period over period percent change.
    PCH,
    /// 1 year percent change: the year over year percent change.
    PC1,
    /// Compounded annual rate of change.
    PCA,
    /// Continuously compounded rate of change.
    CCH,
    /// Continuously compounded annual rate of change.
    CCA,
    /// Natural log of the observation.
    LOG,
}

/// The fragment the corresponding setter appends for each value.
pub open spec fn units_fragment(value: Units) -> Seq<char> {
    match value {
        Units::LIN => Seq::<char>::empty(),
        Units::CHG => "&units=chg"@,
        Units::CH1 => "&units=ch1"@,
        Units::PCH => "&units=pch"@,
        Units::PC1 => "&units=pc1"@,
        Units::PCA => "&units=pca"@,
        Units::CCH => "&units=cch"@,
        Units::CCA => "&units=cca"@,
        Units::LOG => "&units=log"@,
    }
}

/// Selecting the default value leaves the fragment exactly as it was:
/// the request is indistinguishable from one that never set this
/// parameter.
pub proof fn lemma_default_units_is_silent(s: Seq<char>)
    ensures
        s + units_fragment(Units::LIN) == s,
{
    lemma_empty_fragment_is_silent(s);
}

/// The frequencies the observations can be aggregated to; it cannot exceed the native frequency of the series.
pub enum Frequency {
    /// Daily (fastest).
    D,
    /// Weekly.
    W,
    /// Bi-weekly.
    BW,
    /// Monthly.
    M,
    /// Quarterly.
    Q,
    /// Semi-annually.
    SA,
    /// Annual (slowest).
    A,
    /// Weekly, ending Friday.
    WEF,
    /// Weekly, ending Thursday.
    WETH,
    /// Weekly, ending Wednesday.
    WEW,
    /// Weekly, ending Tuesday.
    WETU,
    /// Weekly, ending Monday.
    WEM,
    /// Weekly, ending Sunday.
    WESU,
    /// Weekly, ending Saturday.
    WESA,
    /// Bi-weekly, ending Wednesday.
    BWEW,
    /// Bi-weekly, ending Monday.
    BWEM,
}

/// The fragment the corresponding setter appends for each value.
pub open spec fn frequency_fragment(value: Frequency) -> Seq<char> {
    match value {
        Frequency::D => "&frequency=d"@,
        Frequency::W => "&frequency=w"@,
        Frequency::BW => "&frequency=bw"@,
        Frequency::M => "&frequency=m"@,
        Frequency::Q => "&frequency=q"@,
        Frequency::SA => "&frequency=sa"@,
        Frequency::A => "&frequency=a"@,
        Frequency::WEF => "&frequency=wef"@,
        Frequency::WETH => "&frequency=weth"@,
        Frequency::WEW => "&frequency=wew"@,
        Frequency::WETU => "&frequency=wetu"@,
        Frequency::WEM => "&frequency=wem"@,
        Frequency::WESU => "&frequency=wesu"@,
        Frequency::WESA => "&frequency=wesa"@,
        Frequency::BWEW => "&frequency=bwew"@,
        Frequency::BWEM => "&frequency=bwem"@,
    }
}


/// How intermediate data points are aggregated when a lower frequency is requested.
pub enum AggregationMethod {
    /// Average: intermediate data points are averaged (the default).
    AVG,
    /// Sum: intermediate data points are summed.
    SUM,
    /// End of period: the final result in the period is returned.
    EOP,
}

/// The fragment the corresponding setter appends for each value.
pub open spec fn aggregation_method_fragment(value: AggregationMethod) -> Seq<char> {
    match value {
        AggregationMethod::AVG => Seq::<char>::empty(),
        AggregationMethod::SUM => "&aggregation_method=sum"@,
        AggregationMethod::EOP => "&aggregation_method=eop"@,
    }
}

/// Selecting the default value leaves the fragment exactly as it was:
/// the request is indistinguishable from one that never set this
/// parameter.
pub proof fn lemma_default_aggregation_method_is_silent(s: Seq<char>)
    ensures
        s + aggregation_method_fragment(AggregationMethod::AVG) == s,
{
    lemma_empty_fragment_is_silent(s);
}

/// The data output type.
pub enum OutputType {
    /// Observations by real-time period (the default).
    RT,
    /// Observations by vintage date, all observations.
    VDALL,
    /// Observations by vintage date, new and revised observations only.
    VDNEW,
    /// Observations, initial release only.
    INITIAL,
}

/// The fragment the corresponding setter appends for each value.
pub open spec fn output_type_fragment(value: OutputType) -> Seq<char> {
    match value {
        OutputType::RT => Seq::<char>::empty(),
        OutputType::VDALL => "&output_type=2"@,
        OutputType::VDNEW => "&output_type=3"@,
        OutputType::INITIAL => "&output_type=4"@,
    }
}

/// Selecting the default value leaves the fragment exactly as it was:
/// the request is indistinguishable from one that never set this
/// parameter.
pub proof fn lemma_default_output_type_is_silent(s: Seq<char>)
    ensures
        s + output_type_fragment(OutputType::RT) == s,
{
    lemma_empty_fragment_is_silent(s);
}

/// Argument builder for the series/observations endpoint.
///
/// Each method appends one argument to the builder, which can then be
/// passed to the client to apply the arguments to a request.  The builder
/// does no validity checking of the arguments nor does it check for
/// duplicates.
pub struct Builder {
    option_string: String,
    vintage_dates: String,
}

impl Builder {
    /// The query-string fragment accumulated so far, without the pending
    /// repeatable arguments.
    pub closed spec fn fragment(&self) -> Seq<char> {
        self.option_string@
    }

    /// The comma-joined vintage dates accumulated so far.
    pub closed spec fn dates(&self) -> Seq<char> {
        self.vintage_dates@
    }

    /// An empty builder: no arguments set.
    pub fn new() -> (b: Builder)
        ensures
            b.fragment() == Seq::<char>::empty(),
            b.dates() == Seq::<char>::empty(),
    {
        Builder {
            option_string: String::new(),
            vintage_dates: String::new(),
        }
    }

    /// Returns the accumulated arguments as a URL-formatted fragment,
    /// consuming the builder; pending vintage dates are appended last, as
    /// one comma-joined vintage_dates argument.
    pub fn build(self) -> (r: String)
        ensures
            r@ == if self.dates().len() == 0 {
                self.fragment()
            } else {
                self.fragment() + "&vintage_dates="@ + self.dates()
            },
    {
        let mut s = self.option_string;
        if !self.vintage_dates.as_str().is_empty() {
            s.append("&vintage_dates=");
            s.append(self.vintage_dates.as_str());
        }
        s
    }

    /// Adds a realtime_start argument (a date formatted as YYYY-MM-DD).
    pub fn realtime_start(&mut self, start_date: &str)
        ensures
            final(self).fragment() == old(self).fragment() + "&realtime_start="@ + start_date@,
            final(self).dates() == old(self).dates(),
    {
        self.option_string.append("&realtime_start=");
        self.option_string.append(start_date);
    }

    /// Adds a realtime_end argument (a date formatted as YYYY-MM-DD).
    pub fn realtime_end(&mut self, end_date: &str)
        ensures
            final(self).fragment() == old(self).fragment() + "&realtime_end="@ + end_date@,
            final(self).dates() == old(self).dates(),
    {
        self.option_string.append("&realtime_end=");
        self.option_string.append(end_date);
    }

    /// Adds a limit argument: the maximum number of results to return.
    /// A request above 1000000 is silently lowered to 1000000.
    pub fn limit(&mut self, num_points: usize)
        ensures
            final(self).fragment() == old(self).fragment() + limit_fragment(
                num_points as nat,
                1000000,
            ),
            final(self).dates() == old(self).dates(),
    {
        let capped: usize = if num_points > 1000000 {
            1000000
        } else {
            num_points
        };
        self.option_string.append("&limit=");
        let digits = decimal_string(capped);
        self.option_string.append(digits.as_str());
        proof {
            assert(capped as nat == clamped(num_points as nat, 1000000));
            assert(self.option_string@ =~= old(self).fragment() + limit_fragment(
                num_points as nat,
                1000000,
            ));
        }
    }

    /// Adds an offset argument: the first result to return.
    pub fn offset(&mut self, ofs: usize)
        ensures
            final(self).fragment() == old(self).fragment() + "&offset="@ + spec_decimal(
                ofs as nat,
            ),
            final(self).dates() == old(self).dates(),
    {
        self.option_string.append("&offset=");
        let digits = decimal_string(ofs);
        self.option_string.append(digits.as_str());
    }

    /// Adds a sort_order argument; ascending order is the default and appends nothing.
    pub fn sort_order(&mut self, order: SortOrder)
        ensures
            final(self).fragment() == old(self).fragment() + sort_order_fragment(order),
            final(self).dates() == old(self).dates(),
    {
        match order {
            SortOrder::Descending => self.option_string.append("&sort_order=desc"),
            _ => {
                proof {
                    lemma_empty_fragment_is_silent(old(self).fragment());
                }
            },
        }
    }

    /// Sets the start date for the returned data points (formatted as YYYY-MM-DD).
    pub fn observation_start(&mut self, start_date: &str)
        ensures
            final(self).fragment() == old(self).fragment() + "&observation_start="@ + start_date@,
            final(self).dates() == old(self).dates(),
    {
        self.option_string.append("&observation_start=");
        self.option_string.append(start_date);
    }

    /// Sets the end date for the returned data points (formatted as YYYY-MM-DD).
    pub fn observation_end(&mut self, end_date: &str)
        ensures
            final(self).fragment() == old(self).fragment() + "&observation_end="@ + end_date@,
            final(self).dates() == old(self).dates(),
    {
        self.option_string.append("&observation_end=");
        self.option_string.append(end_date);
    }

    /// Sets the units of the data series.
    pub fn units(&mut self, units: Units)
        ensures
            final(self).fragment() == old(self).fragment() + units_fragment(units),
            final(self).dates() == old(self).dates(),
    {
        match units {
            Units::CHG => self.option_string.append("&units=chg"),
            Units::CH1 => self.option_string.append("&units=ch1"),
            Units::PCH => self.option_string.append("&units=pch"),
            Units::PC1 => self.option_string.append("&units=pc1"),
            Units::PCA => self.option_string.append("&units=pca"),
            Units::CCH => self.option_string.append("&units=cch"),
            Units::CCA => self.option_string.append("&units=cca"),
            Units::LOG => self.option_string.append("&units=log"),
            _ => {
                proof {
                    lemma_empty_fragment_is_silent(old(self).fragment());
                }
            },
        }
    }

    /// Sets the frequency of the data series.
    pub fn frequency(&mut self, freq: Frequency)
        ensures
            final(self).fragment() == old(self).fragment() + frequency_fragment(freq),
            final(self).dates() == old(self).dates(),
    {
        match freq {
            Frequency::D => self.option_string.append("&frequency=d"),
            Frequency::W => self.option_string.append("&frequency=w"),
            Frequency::BW => self.option_string.append("&frequency=bw"),
            Frequency::M => self.option_string.append("&frequency=m"),
            Frequency::Q => self.option_string.append("&frequency=q"),
            Frequency::SA => self.option_string.append("&frequency=sa"),
            Frequency::A => self.option_string.append("&frequency=a"),
            Frequency::WEF => self.option_string.append("&frequency=wef"),
            Frequency::WETH => self.option_string.append("&frequency=weth"),
            Frequency::WEW => self.option_string.append("&frequency=wew"),
            Frequency::WETU => self.option_string.append("&frequency=wetu"),
            Frequency::WEM => self.option_string.append("&frequency=wem"),
            Frequency::WESU => self.option_string.append("&frequency=wesu"),
            Frequency::WESA => self.option_string.append("&frequency=wesa"),
            Frequency::BWEW => self.option_string.append("&frequency=bwew"),
            Frequency::BWEM => self.option_string.append("&frequency=bwem"),
        }
    }

    /// Sets the aggregation method used when a lower frequency is requested.
    pub fn aggregation_method(&mut self, method: AggregationMethod)
        ensures
            final(self).fragment() == old(self).fragment() + aggregation_method_fragment(method),
            final(self).dates() == old(self).dates(),
    {
        match method {
            AggregationMethod::SUM => self.option_string.append("&aggregation_method=sum"),
            AggregationMethod::EOP => self.option_string.append("&aggregation_method=eop"),
            _ => {
                proof {
                    lemma_empty_fragment_is_silent(old(self).fragment());
                }
            },
        }
    }

    /// Sets the data point output type.
    pub fn output_type(&mut self, otype: OutputType)
        ensures
            final(self).fragment() == old(self).fragment() + output_type_fragment(otype),
            final(self).dates() == old(self).dates(),
    {
        match otype {
            OutputType::VDALL => self.option_string.append("&output_type=2"),
            OutputType::VDNEW => self.option_string.append("&output_type=3"),
            OutputType::INITIAL => self.option_string.append("&output_type=4"),
            _ => {
                proof {
                    lemma_empty_fragment_is_silent(old(self).fragment());
                }
            },
        }
    }

    /// Adds a vintage date to the comma-joined vintage_dates list: the first date starts the list, every later date is preceded by a comma.
    pub fn vintage_date(&mut self, date: &str)
        ensures
            final(self).fragment() == old(self).fragment(),
            final(self).dates() == comma_joined_with(old(self).dates(), date@),
            final(self).fragment() == old(self).fragment(),
    {
        if !self.vintage_dates.as_str().is_empty() {
            self.vintage_dates.append(",");
        }
        self.vintage_dates.append(date);
        proof {
            assert(self.vintage_dates@ =~= comma_joined_with(old(self).dates(), date@));
        }
    }
}

} // verus!
