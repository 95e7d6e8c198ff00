//! Get the related tags for one or more tags within a release: the argument builder for the release/related_tags endpoint.

use vstd::prelude::*;
use vstd::string::*;
use crate::error::{tag_name_required_error, tag_name_required_msg};
use crate::fragment::{clamped, decimal_string, encode_spaces, joined_with, lemma_empty_fragment_is_silent, limit_fragment, spec_decimal, spec_encode_spaces};

verus! {

/// The metrics the returned tags can be ordered by.
pub enum OrderBy {
    /// Order by the number of series with the tag (the default; appends nothing).
    SeriesCount,
    /// Order by tag popularity.
    Popularity,
    /// Order by creation date.
    Created,
    /// Order by tag name.
    Name,
    /// Order by tag group.
    GroupId,
}

/// The fragment the corresponding setter appends for each value.
pub open spec fn order_by_fragment(value: OrderBy) -> Seq<char> {
    match value {
        OrderBy::SeriesCount => Seq::<char>::empty(),
        OrderBy::Popularity => "&order_by=popularity"@,
        OrderBy::Created => "&order_by=created"@,
        OrderBy::Name => "&order_by=name"@,
        OrderBy::GroupId => "&order_by=group_id"@,
    }
}

/// Selecting the default ordering leaves the fragment exactly as it was: the
/// request is indistinguishable from one that never set this parameter.
pub proof fn lemma_default_order_by_is_silent(s: Seq<char>)
    ensures
        s + order_by_fragment(OrderBy::SeriesCount) == s,
{
    lemma_empty_fragment_is_silent(s);
}


/// Sort order of the results.
pub enum SortOrder {
    /// Results in ascending order (the default).
    Ascending,
    /// Results in descending order.
    Descending,
}

/// The fragment the corresponding setter appends for each value.
pub open spec fn sort_order_fragment(value: SortOrder) -> Seq<char> {
    match value {
        SortOrder::Ascending => Seq::<char>::empty(),
        SortOrder::Descending => "&sort_order=desc"@,
    }
}

/// Selecting the default value leaves the fragment exactly as it was:
/// the request is indistinguishable from one that never set this
/// parameter.
pub proof fn lemma_default_sort_order_is_silent(s: Seq<char>)
    ensures
        s + sort_order_fragment(SortOrder::Ascending) == s,
{
    lemma_empty_fragment_is_silent(s);
}

/// The tag groups a tag can belong to.
pub enum TagGroupId {
    /// Frequency.
    Frequency,
    /// General or concept.
    General,
    /// Geography.
    Geography,
    /// Geography type.
    GeographyType,
    /// Release.
    Release,
    /// Seasonal adjustment.
    SeasonalAdjustment,
    /// Source.
    Source,
}

/// The fragment the corresponding setter appends for each value.
pub open spec fn tag_group_id_fragment(value: TagGroupId) -> Seq<char> {
    match value {
        TagGroupId::Frequency => "&tag_group_id=freq"@,
        TagGroupId::General => "&tag_group_id=gen"@,
        TagGroupId::Geography => "&tag_group_id=geo"@,
        TagGroupId::GeographyType => "&tag_group_id=geot"@,
        TagGroupId::Release => "&tag_group_id=rls"@,
        TagGroupId::SeasonalAdjustment => "&tag_group_id=seas"@,
        TagGroupId::Source => "&tag_group_id=src"@,
    }
}


/// Argument builder for the release/related_tags endpoint.
///
/// Each method appends one argument to the builder, which can then be
/// passed to the client to apply the arguments to a request.  The builder
/// does no validity checking of the arguments nor does it check for
/// duplicates.
pub struct Builder {
    option_string: String,
    tag_names: String,
    exclude_tags: String,
}

impl Builder {
    /// The query-string fragment accumulated so far, without the pending
    /// repeatable arguments.
    pub closed spec fn fragment(&self) -> Seq<char> {
        self.option_string@
    }

    /// The semicolon-joined tag names accumulated so far.
    pub closed spec fn tags(&self) -> Seq<char> {
        self.tag_names@
    }

    /// The semicolon-joined excluded tag names accumulated so far.
    pub closed spec fn excludes(&self) -> Seq<char> {
        self.exclude_tags@
    }

    /// An empty builder: no arguments set.
    pub fn new() -> (b: Builder)
        ensures
            b.fragment() == Seq::<char>::empty(),
            b.tags() == Seq::<char>::empty(),
            b.excludes() == Seq::<char>::empty(),
    {
        Builder {
            option_string: String::new(),
            tag_names: String::new(),
            exclude_tags: String::new(),
        }
    }

    /// Returns the accumulated arguments as a URL-formatted fragment,
    /// consuming the builder.  At least one tag name is required: when
    /// none was added the builder fails with the validation error, and
    /// excluded tag names alone do not satisfy the requirement.  Pending
    /// tag names come first, then pending excluded tag names, each as one
    /// semicolon-joined argument.
    pub fn build(self) -> (r: Result<String, String>)
        ensures
            r is Ok <==> self.tags().len() > 0,
            r matches Ok(s) ==> s@ == self.fragment() + "&tag_names="@ + self.tags() + (
            if self.excludes().len() == 0 {
                Seq::<char>::empty()
            } else {
                "&exclude_tag_names="@ + self.excludes()
            }),
            r matches Err(e) ==> e@ == tag_name_required_msg(),
    {
        if self.tag_names.as_str().is_empty() {
            return Err(tag_name_required_error());
        }
        let mut s = self.option_string;
        s.append("&tag_names=");
        s.append(self.tag_names.as_str());
        if !self.exclude_tags.as_str().is_empty() {
            s.append("&exclude_tag_names=");
            s.append(self.exclude_tags.as_str());
        }
        proof {
            assert(s@ =~= self.fragment() + "&tag_names="@ + self.tags() + (
            if self.excludes().len() == 0 {
                Seq::<char>::empty()
            } else {
                "&exclude_tag_names="@ + self.excludes()
            }));
        }
        Ok(s)
    }

    /// Adds a realtime_start argument (a date formatted as YYYY-MM-DD).
    pub fn realtime_start(&mut self, start_date: &str)
        ensures
            final(self).fragment() == old(self).fragment() + "&realtime_start="@ + start_date@,
            final(self).tags() == old(self).tags(),
            final(self).excludes() == old(self).excludes(),
    {
        self.option_string.append("&realtime_start=");
        self.option_string.append(start_date);
    }

    /// Adds a realtime_end argument (a date formatted as YYYY-MM-DD).
    pub fn realtime_end(&mut self, end_date: &str)
        ensures
            final(self).fragment() == old(self).fragment() + "&realtime_end="@ + end_date@,
            final(self).tags() == old(self).tags(),
            final(self).excludes() == old(self).excludes(),
    {
        self.option_string.append("&realtime_end=");
        self.option_string.append(end_date);
    }

    /// Adds a tag name to the semicolon-joined tag_names list: the first tag starts the list, every later tag is preceded by a semicolon.
    pub fn tag_name(&mut self, tag: &str)
        ensures
            final(self).fragment() == old(self).fragment(),
            final(self).tags() == joined_with(old(self).tags(), tag@),
            final(self).fragment() == old(self).fragment(),
            final(self).excludes() == old(self).excludes(),
    {
        if !self.tag_names.as_str().is_empty() {
            self.tag_names.append(";");
        }
        self.tag_names.append(tag);
        proof {
            assert(self.tag_names@ =~= joined_with(old(self).tags(), tag@));
        }
    }

    /// Adds a tag name to the semicolon-joined exclude_tag_names list; excluded tags never satisfy a tag_names requirement.
    pub fn exclude_tag(&mut self, tag: &str)
        ensures
            final(self).fragment() == old(self).fragment(),
            final(self).excludes() == joined_with(old(self).excludes(), tag@),
            final(self).fragment() == old(self).fragment(),
            final(self).tags() == old(self).tags(),
    {
        if !self.exclude_tags.as_str().is_empty() {
            self.exclude_tags.append(";");
        }
        self.exclude_tags.append(tag);
        proof {
            assert(self.exclude_tags@ =~= joined_with(old(self).excludes(), tag@));
        }
    }

    /// Adds a tag_group_id argument to filter tags by group.
    pub fn tag_group_id(&mut self, id: TagGroupId)
        ensures
            final(self).fragment() == old(self).fragment() + tag_group_id_fragment(id),
            final(self).tags() == old(self).tags(),
            final(self).excludes() == old(self).excludes(),
    {
        match id {
            TagGroupId::Frequency => self.option_string.append("&tag_group_id=freq"),
            TagGroupId::General => self.option_string.append("&tag_group_id=gen"),
            TagGroupId::Geography => self.option_string.append("&tag_group_id=geo"),
            TagGroupId::GeographyType => self.option_string.append("&tag_group_id=geot"),
            TagGroupId::Release => self.option_string.append("&tag_group_id=rls"),
            TagGroupId::SeasonalAdjustment => self.option_string.append("&tag_group_id=seas"),
            TagGroupId::Source => self.option_string.append("&tag_group_id=src"),
        }
    }

    /// Adds a tag_search_text argument to filter tags by the words they contain.
    /// Spaces in the argument are encoded as `%20`.
    pub fn search_text(&mut self, search_string: &str)
        ensures
            final(self).fragment() == old(self).fragment() + "&tag_search_text="@ + spec_encode_spaces(search_string@),
            final(self).tags() == old(self).tags(),
            final(self).excludes() == old(self).excludes(),
    {
        let encoded = encode_spaces(search_string);
        self.option_string.append("&tag_search_text=");
        self.option_string.append(encoded.as_str());
    }

    /// Adds a limit argument: the maximum number of results to return.
    /// A request above 1000 is silently lowered to 1000.
    pub fn limit(&mut self, num_results: usize)
        ensures
            final(self).fragment() == old(self).fragment() + limit_fragment(
                num_results as nat,
                1000,
            ),
            final(self).tags() == old(self).tags(),
            final(self).excludes() == old(self).excludes(),
    {
        let capped: usize = if num_results > 1000 {
            1000
        } else {
            num_results
        };
        self.option_string.append("&limit=");
        let digits = decimal_string(capped);
        self.option_string.append(digits.as_str());
        proof {
            assert(capped as nat == clamped(num_results as nat, 1000));
            assert(self.option_string@ =~= old(self).fragment() + limit_fragment(
                num_results as nat,
                1000,
            ));
        }
    }

    /// Adds an offset argument: the first result to return.
    pub fn offset(&mut self, ofs: usize)
        ensures
            final(self).fragment() == old(self).fragment() + "&offset="@ + spec_decimal(
                ofs as nat,
            ),
            final(self).tags() == old(self).tags(),
            final(self).excludes() == old(self).excludes(),
    {
        self.option_string.append("&offset=");
        let digits = decimal_string(ofs);
        self.option_string.append(digits.as_str());
    }

    /// Adds an order_by argument: the metric to order the results by; the
    /// default metric appends nothing.
    pub fn order_by(&mut self, order: OrderBy)
        ensures
            final(self).fragment() == old(self).fragment() + order_by_fragment(order),
            final(self).tags() == old(self).tags(),
            final(self).excludes() == old(self).excludes(),
    {
        match order {
            OrderBy::SeriesCount => {
                proof {
                    lemma_empty_fragment_is_silent(old(self).fragment());
                }
            },
            OrderBy::Popularity => self.option_string.append("&order_by=popularity"),
            OrderBy::Created => self.option_string.append("&order_by=created"),
            OrderBy::Name => self.option_string.append("&order_by=name"),
            OrderBy::GroupId => self.option_string.append("&order_by=group_id"),
        }
    }

    /// Adds a sort_order argument; ascending order is the default and appends nothing.
    pub fn sort_order(&mut self, order: SortOrder)
        ensures
            final(self).fragment() == old(self).fragment() + sort_order_fragment(order),
            final(self).tags() == old(self).tags(),
            final(self).excludes() == old(self).excludes(),
    {
        match order {
            SortOrder::Descending => self.option_string.append("&sort_order=desc"),
            _ => {
                proof {
                    lemma_empty_fragment_is_silent(old(self).fragment());
                }
            },
        }
    }
}

} // verus!
