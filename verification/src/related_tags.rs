//! Get the related tags for one or more tags: the response shape, its decoder, and the argument builder for the related_tags endpoint.

use vstd::prelude::*;
use vstd::string::*;
use crate::json;
use crate::decode::{decode_failure, failure_from_body, opt_str_view, u64_to_usize, i64_to_isize, usize_field_ok, usize_item_ok, isize_item_ok};
use crate::error::{tag_name_required_error, tag_name_required_msg};
use crate::fragment::{clamped, decimal_string, encode_spaces, joined_with, lemma_empty_fragment_is_silent, limit_fragment, spec_decimal, spec_encode_spaces};

verus! {

/// Response data structure for a collection of related tags.
pub struct Response {
    /// The realtime start of the request.
    pub realtime_start: String,
    /// The realtime end of the request.
    pub realtime_end: String,
    /// On what metric the results are ordered.
    pub order_by: String,
    /// Results are listed in ascending or descending order.
    pub sort_order: String,
    /// The number of results returned.
    pub count: usize,
    /// The first result returned.
    pub offset: usize,
    /// The maximum number of results requested.
    pub limit: usize,
    /// The tags returned by the query.
    pub tags: Vec<Tag>,
}

/// Information about one particular tag.
pub struct Tag {
    /// The tag name.
    pub name: String,
    /// The group the tag belongs to.
    pub group_id: String,
    /// Additional information about the tag.
    pub notes: Option<String>,
    /// When the tag was created.
    pub created: String,
    /// A popularity rating for the tag.
    pub popularity: isize,
    /// The number of series with the tag.
    pub series_count: usize,
}

/// Element `i` of the `tags` array carries every required field,
/// with the integer fields small enough to hold.
pub open spec fn tag_item_ok(body: Seq<char>, i: int) -> bool {
    &&& json::json_item_str(body, "tags"@, i, "name"@) is Some
    &&& json::json_item_str(body, "tags"@, i, "group_id"@) is Some
    &&& json::json_item_str(body, "tags"@, i, "created"@) is Some
    &&& isize_item_ok(body, "tags"@, i, "popularity"@)
    &&& usize_item_ok(body, "tags"@, i, "series_count"@)
}

/// The decoded value `t` holds exactly the fields of element `i` of the
/// `tags` array.
pub open spec fn tag_item_matches(body: Seq<char>, i: int, t: Tag) -> bool {
    &&& Some(t.name@) == json::json_item_str(body, "tags"@, i, "name"@)
    &&& Some(t.group_id@) == json::json_item_str(body, "tags"@, i, "group_id"@)
    &&& opt_str_view(t.notes) == json::json_item_str(body, "tags"@, i, "notes"@)
    &&& Some(t.created@) == json::json_item_str(body, "tags"@, i, "created"@)
    &&& Some(t.popularity as i64) == json::json_item_i64(body, "tags"@, i, "popularity"@)
    &&& Some(t.series_count as u64) == json::json_item_u64(body, "tags"@, i, "series_count"@)
}

/// The body matches the success shape of this endpoint.
pub open spec fn related_tags_shape_ok(body: Seq<char>) -> bool {
    &&& json::json_str_field(body, "realtime_start"@) is Some
    &&& json::json_str_field(body, "realtime_end"@) is Some
    &&& json::json_str_field(body, "order_by"@) is Some
    &&& json::json_str_field(body, "sort_order"@) is Some
    &&& usize_field_ok(body, "count"@)
    &&& usize_field_ok(body, "offset"@)
    &&& usize_field_ok(body, "limit"@)
    &&& json::json_arr_len(body, "tags"@) is Some
    &&& forall|i: int|
        0 <= i < json::json_arr_len(body, "tags"@)->Some_0 ==> #[trigger] tag_item_ok(
            body,
            i,
        )
}

/// The decoded response `resp` holds exactly the fields of `body`.
pub open spec fn response_matches(body: Seq<char>, resp: Response) -> bool {
    &&& Some(resp.realtime_start@) == json::json_str_field(body, "realtime_start"@)
    &&& Some(resp.realtime_end@) == json::json_str_field(body, "realtime_end"@)
    &&& Some(resp.order_by@) == json::json_str_field(body, "order_by"@)
    &&& Some(resp.sort_order@) == json::json_str_field(body, "sort_order"@)
    &&& Some(resp.count as u64) == json::json_u64_field(body, "count"@)
    &&& Some(resp.offset as u64) == json::json_u64_field(body, "offset"@)
    &&& Some(resp.limit as u64) == json::json_u64_field(body, "limit"@)
    &&& resp.tags@.len() == json::json_arr_len(body, "tags"@)->Some_0
    &&& forall|i: int|
        0 <= i < resp.tags@.len() ==> tag_item_matches(body, i, #[trigger] resp.tags@[i])
}

/// Decodes a response body of this endpoint: the success shape when the
/// body matches it, otherwise the failure that the dual-shape protocol
/// prescribes.
pub fn from_body(text: &str) -> (r: Result<Response, String>)
    ensures
        r is Ok <==> related_tags_shape_ok(text@),
        r matches Ok(resp) ==> response_matches(text@, resp),
        r matches Err(e) ==> e@ == decode_failure(text@),
{
    let realtime_start = match json::str_field(text, "realtime_start") {
        Some(v) => v,
        None => {
            return Err(failure_from_body(text));
        },
    };
    let realtime_end = match json::str_field(text, "realtime_end") {
        Some(v) => v,
        None => {
            return Err(failure_from_body(text));
        },
    };
    let order_by = match json::str_field(text, "order_by") {
        Some(v) => v,
        None => {
            return Err(failure_from_body(text));
        },
    };
    let sort_order = match json::str_field(text, "sort_order") {
        Some(v) => v,
        None => {
            return Err(failure_from_body(text));
        },
    };
    let count = match json::u64_field(text, "count") {
        Some(v) => match u64_to_usize(v) {
            Some(v) => v,
            None => {
                return Err(failure_from_body(text));
            },
        },
        None => {
            return Err(failure_from_body(text));
        },
    };
    let offset = match json::u64_field(text, "offset") {
        Some(v) => match u64_to_usize(v) {
            Some(v) => v,
            None => {
                return Err(failure_from_body(text));
            },
        },
        None => {
            return Err(failure_from_body(text));
        },
    };
    let limit = match json::u64_field(text, "limit") {
        Some(v) => match u64_to_usize(v) {
            Some(v) => v,
            None => {
                return Err(failure_from_body(text));
            },
        },
        None => {
            return Err(failure_from_body(text));
        },
    };
    let n = match json::arr_len(text, "tags") {
        Some(n) => n,
        None => {
            return Err(failure_from_body(text));
        },
    };
    let mut tags: Vec<Tag> = Vec::new();
    let mut i: usize = 0;
    while i < n
        invariant
            i <= n,
            json::json_arr_len(text@, "tags"@) == Some(n),
            tags@.len() == i,
            forall|j: int| 0 <= j < i ==> #[trigger] tag_item_ok(text@, j),
            forall|j: int| 0 <= j < i ==> tag_item_matches(text@, j, #[trigger] tags@[j]),
        decreases n - i,
    {
        let name = match json::item_str(text, "tags", i, "name") {
            Some(v) => v,
            None => {
                proof {
                    assert(!tag_item_ok(text@, i as int));
                    assert(!related_tags_shape_ok(text@));
                }
                return Err(failure_from_body(text));
            },
        };
        let group_id = match json::item_str(text, "tags", i, "group_id") {
            Some(v) => v,
            None => {
                proof {
                    assert(!tag_item_ok(text@, i as int));
                    assert(!related_tags_shape_ok(text@));
                }
                return Err(failure_from_body(text));
            },
        };
        let notes = json::item_str(text, "tags", i, "notes");
        let created = match json::item_str(text, "tags", i, "created") {
            Some(v) => v,
            None => {
                proof {
                    assert(!tag_item_ok(text@, i as int));
                    assert(!related_tags_shape_ok(text@));
                }
                return Err(failure_from_body(text));
            },
        };
        let popularity = match json::item_i64(text, "tags", i, "popularity") {
            Some(v) => match i64_to_isize(v) {
                Some(v) => v,
                None => {
                    proof {
                        assert(!tag_item_ok(text@, i as int));
                        assert(!related_tags_shape_ok(text@));
                    }
                    return Err(failure_from_body(text));
                },
            },
            None => {
                proof {
                    assert(!tag_item_ok(text@, i as int));
                    assert(!related_tags_shape_ok(text@));
                }
                return Err(failure_from_body(text));
            },
        };
        let series_count = match json::item_u64(text, "tags", i, "series_count") {
            Some(v) => match u64_to_usize(v) {
                Some(v) => v,
                None => {
                    proof {
                        assert(!tag_item_ok(text@, i as int));
                        assert(!related_tags_shape_ok(text@));
                    }
                    return Err(failure_from_body(text));
                },
            },
            None => {
                proof {
                    assert(!tag_item_ok(text@, i as int));
                    assert(!related_tags_shape_ok(text@));
                }
                return Err(failure_from_body(text));
            },
        };
        tags.push(Tag { name, group_id, notes, created, popularity, series_count });
        i = i + 1;
    }
    Ok(Response { realtime_start, realtime_end, order_by, sort_order, count, offset, limit, tags })
}

/// The metrics the returned tags can be ordered by.
pub enum OrderBy {
    /// Order by the number of series with the tag (the default; appends nothing).
    SeriesCount,
    /// Order by tag popularity.
    Popularity,
    /// Order by creation date.
    Created,
    /// Order by tag name.
    Name,
    /// Order by tag group.
    GroupId,
}

/// The fragment the corresponding setter appends for each value.
pub open spec fn order_by_fragment(value: OrderBy) -> Seq<char> {
    match value {
        OrderBy::SeriesCount => Seq::<char>::empty(),
        OrderBy::Popularity => "&order_by=popularity"@,
        OrderBy::Created => "&order_by=created"@,
        OrderBy::Name => "&order_by=name"@,
        OrderBy::GroupId => "&order_by=group_id"@,
    }
}

/// Selecting the default ordering leaves the fragment exactly as it was: the
/// request is indistinguishable from one that never set this parameter.
pub proof fn lemma_default_order_by_is_silent(s: Seq<char>)
    ensures
        s + order_by_fragment(OrderBy::SeriesCount) == s,
{
    lemma_empty_fragment_is_silent(s);
}


/// Sort order of the results.
pub enum SortOrder {
    /// Results in ascending order (the default).
    Ascending,
    /// Results in descending order.
    Descending,
}

/// The fragment the corresponding setter appends for each value.
pub open spec fn sort_order_fragment(value: SortOrder) -> Seq<char> {
    match value {
        SortOrder::Ascending => Seq::<char>::empty(),
        SortOrder::Descending => "&sort_order=desc"@,
    }
}

/// Selecting the default value leaves the fragment exactly as it was:
/// the request is indistinguishable from one that never set this
/// parameter.
pub proof fn lemma_default_sort_order_is_silent(s: Seq<char>)
    ensures
        s + sort_order_fragment(SortOrder::Ascending) == s,
{
    lemma_empty_fragment_is_silent(s);
}

/// The tag groups a tag can belong to.
pub enum TagGroupId {
    /// Frequency.
    Frequency,
    /// General or concept.
    General,
    /// Geography.
    Geography,
    /// Geography type.
    GeographyType,
    /// Release.
    Release,
    /// Seasonal adjustment.
    SeasonalAdjustment,
    /// Source.
    Source,
}

/// The fragment the corresponding setter appends for each value.
pub open spec fn tag_group_id_fragment(value: TagGroupId) -> Seq<char> {
    match value {
        TagGroupId::Frequency => "&tag_group_id=freq"@,
        TagGroupId::General => "&tag_group_id=gen"@,
        TagGroupId::Geography => "&tag_group_id=geo"@,
        TagGroupId::GeographyType => "&tag_group_id=geot"@,
        TagGroupId::Release => "&tag_group_id=rls"@,
        TagGroupId::SeasonalAdjustment => "&tag_group_id=seas"@,
        TagGroupId::Source => "&tag_group_id=src"@,
    }
}


/// Argument builder for the related_tags endpoint.
///
/// Each method appends one argument to the builder, which can then be
/// passed to the client to apply the arguments to a request.  The builder
/// does no validity checking of the arguments nor does it check for
/// duplicates.
pub struct Builder {
    option_string: String,
    tag_names: String,
    exclude_tags: String,
}

impl Builder {
    /// The query-string fragment accumulated so far, without the pending
    /// repeatable arguments.
    pub closed spec fn fragment(&self) -> Seq<char> {
        self.option_string@
    }

    /// The semicolon-joined tag names accumulated so far.
    pub closed spec fn tags(&self) -> Seq<char> {
        self.tag_names@
    }

    /// The semicolon-joined excluded tag names accumulated so far.
    pub closed spec fn excludes(&self) -> Seq<char> {
        self.exclude_tags@
    }

    /// An empty builder: no arguments set.
    pub fn new() -> (b: Builder)
        ensures
            b.fragment() == Seq::<char>::empty(),
            b.tags() == Seq::<char>::empty(),
            b.excludes() == Seq::<char>::empty(),
    {
        Builder {
            option_string: String::new(),
            tag_names: String::new(),
            exclude_tags: String::new(),
        }
    }

    /// Returns the accumulated arguments as a URL-formatted fragment,
    /// consuming the builder.  At least one tag name is required: when
    /// none was added the builder fails with the validation error, and
    /// excluded tag names alone do not satisfy the requirement.  Pending
    /// tag names come first, then pending excluded tag names, each as one
    /// semicolon-joined argument.
    pub fn options(self) -> (r: Result<String, String>)
        ensures
            r is Ok <==> self.tags().len() > 0,
            r matches Ok(s) ==> s@ == self.fragment() + "&tag_names="@ + self.tags() + (
            if self.excludes().len() == 0 {
                Seq::<char>::empty()
            } else {
                "&exclude_tag_names="@ + self.excludes()
            }),
            r matches Err(e) ==> e@ == tag_name_required_msg(),
    {
        if self.tag_names.as_str().is_empty() {
            return Err(tag_name_required_error());
        }
        let mut s = self.option_string;
        s.append("&tag_names=");
        s.append(self.tag_names.as_str());
        if !self.exclude_tags.as_str().is_empty() {
            s.append("&exclude_tag_names=");
            s.append(self.exclude_tags.as_str());
        }
        proof {
            assert(s@ =~= self.fragment() + "&tag_names="@ + self.tags() + (
            if self.excludes().len() == 0 {
                Seq::<char>::empty()
            } else {
                "&exclude_tag_names="@ + self.excludes()
            }));
        }
        Ok(s)
    }

    /// Adds a realtime_start argument (a date formatted as YYYY-MM-DD).
    pub fn realtime_start(&mut self, start_date: &str)
        ensures
            final(self).fragment() == old(self).fragment() + "&realtime_start="@ + start_date@,
            final(self).tags() == old(self).tags(),
            final(self).excludes() == old(self).excludes(),
    {
        self.option_string.append("&realtime_start=");
        self.option_string.append(start_date);
    }

    /// Adds a realtime_end argument (a date formatted as YYYY-MM-DD).
    pub fn realtime_end(&mut self, end_date: &str)
        ensures
            final(self).fragment() == old(self).fragment() + "&realtime_end="@ + end_date@,
            final(self).tags() == old(self).tags(),
            final(self).excludes() == old(self).excludes(),
    {
        self.option_string.append("&realtime_end=");
        self.option_string.append(end_date);
    }

    /// Adds a tag name to the semicolon-joined tag_names list: the first tag starts the list, every later tag is preceded by a semicolon.
    pub fn tag_name(&mut self, tag: &str)
        ensures
            final(self).fragment() == old(self).fragment(),
            final(self).tags() == joined_with(old(self).tags(), tag@),
            final(self).fragment() == old(self).fragment(),
            final(self).excludes() == old(self).excludes(),
    {
        if !self.tag_names.as_str().is_empty() {
            self.tag_names.append(";");
        }
        self.tag_names.append(tag);
        proof {
            assert(self.tag_names@ =~= joined_with(old(self).tags(), tag@));
        }
    }

    /// Adds a tag name to the semicolon-joined exclude_tag_names list; excluded tags never satisfy a tag_names requirement.
    pub fn exclude_tag(&mut self, tag: &str)
        ensures
            final(self).fragment() == old(self).fragment(),
            final(self).excludes() == joined_with(old(self).excludes(), tag@),
            final(self).fragment() == old(self).fragment(),
            final(self).tags() == old(self).tags(),
    {
        if !self.exclude_tags.as_str().is_empty() {
            self.exclude_tags.append(";");
        }
        self.exclude_tags.append(tag);
        proof {
            assert(self.exclude_tags@ =~= joined_with(old(self).excludes(), tag@));
        }
    }

    /// Adds a tag_group_id argument to filter tags by group.
    pub fn tag_group_id(&mut self, id: TagGroupId)
        ensures
            final(self).fragment() == old(self).fragment() + tag_group_id_fragment(id),
            final(self).tags() == old(self).tags(),
            final(self).excludes() == old(self).excludes(),
    {
        match id {
            TagGroupId::Frequency => self.option_string.append("&tag_group_id=freq"),
            TagGroupId::General => self.option_string.append("&tag_group_id=gen"),
            TagGroupId::Geography => self.option_string.append("&tag_group_id=geo"),
            TagGroupId::GeographyType => self.option_string.append("&tag_group_id=geot"),
            TagGroupId::Release => self.option_string.append("&tag_group_id=rls"),
            TagGroupId::SeasonalAdjustment => self.option_string.append("&tag_group_id=seas"),
            TagGroupId::Source => self.option_string.append("&tag_group_id=src"),
        }
    }

    /// Adds a tag_search_text argument to filter tags by the words they contain.
    /// Spaces in the argument are encoded as `%20`.
    pub fn search_text(&mut self, search_string: &str)
        ensures
            final(self).fragment() == old(self).fragment() + "&tag_search_text="@ + spec_encode_spaces(search_string@),
            final(self).tags() == old(self).tags(),
            final(self).excludes() == old(self).excludes(),
    {
        let encoded = encode_spaces(search_string);
        self.option_string.append("&tag_search_text=");
        self.option_string.append(encoded.as_str());
    }

    /// Adds a limit argument: the maximum number of results to return.
    /// A request above 1000 is silently lowered to 1000.
    pub fn limit(&mut self, num_results: usize)
        ensures
            final(self).fragment() == old(self).fragment() + limit_fragment(
                num_results as nat,
                1000,
            ),
            final(self).tags() == old(self).tags(),
            final(self).excludes() == old(self).excludes(),
    {
        let capped: usize = if num_results > 1000 {
            1000
        } else {
            num_results
        };
        self.option_string.append("&limit=");
        let digits = decimal_string(capped);
        self.option_string.append(digits.as_str());
        proof {
            assert(capped as nat == clamped(num_results as nat, 1000));
            assert(self.option_string@ =~= old(self).fragment() + limit_fragment(
                num_results as nat,
                1000,
            ));
        }
    }

    /// Adds an offset argument: the first result to return.
    pub fn offset(&mut self, ofs: usize)
        ensures
            final(self).fragment() == old(self).fragment() + "&offset="@ + spec_decimal(
                ofs as nat,
            ),
            final(self).tags() == old(self).tags(),
            final(self).excludes() == old(self).excludes(),
    {
        self.option_string.append("&offset=");
        let digits = decimal_string(ofs);
        self.option_string.append(digits.as_str());
    }

    /// Adds an order_by argument: the metric to order the results by; the
    /// default metric appends nothing.
    pub fn order_by(&mut self, order: OrderBy)
        ensures
            final(self).fragment() == old(self).fragment() + order_by_fragment(order),
            final(self).tags() == old(self).tags(),
            final(self).excludes() == old(self).excludes(),
    {
        match order {
            OrderBy::SeriesCount => {
                proof {
                    lemma_empty_fragment_is_silent(old(self).fragment());
                }
            },
            OrderBy::Popularity => self.option_string.append("&order_by=popularity"),
            OrderBy::Created => self.option_string.append("&order_by=created"),
            OrderBy::Name => self.option_string.append("&order_by=name"),
            OrderBy::GroupId => self.option_string.append("&order_by=group_id"),
        }
    }

    /// Adds a sort_order argument; ascending order is the default and appends nothing.
    pub fn sort_order(&mut self, order: SortOrder)
        ensures
            final(self).fragment() == old(self).fragment() + sort_order_fragment(order),
            final(self).tags() == old(self).tags(),
            final(self).excludes() == old(self).excludes(),
    {
        match order {
            SortOrder::Descending => self.option_string.append("&sort_order=desc"),
            _ => {
                proof {
                    lemma_empty_fragment_is_silent(old(self).fragment());
                }
            },
        }
    }
}

} // verus!
