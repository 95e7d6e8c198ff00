//! Behaviour of the argument builders: fragment accumulation, clamping,
//! defaults, repeatable fields, and the required-tag validation.

const TAG_REQUIRED: &str = "At least one tag must be specified using the tag_name() function of the related_tags::Builder.";

#[test]
fn fragment_is_append_log_in_call_order() {
    let mut b = fred_rs::tags::Builder::new();
    b.realtime_start("2000-01-01");
    b.limit(5);
    assert_eq!(b.build(), "&realtime_start=2000-01-01&limit=5");

    let mut only_start = fred_rs::tags::Builder::new();
    only_start.realtime_start("2000-01-01");
    let mut only_limit = fred_rs::tags::Builder::new();
    only_limit.limit(5);
    assert_eq!(
        format!("{}{}", only_start.build(), only_limit.build()),
        "&realtime_start=2000-01-01&limit=5"
    );
}

#[test]
fn default_sort_order_is_silent() {
    let mut with_default = fred_rs::tags::Builder::new();
    with_default.limit(5);
    with_default.sort_order(fred_rs::tags::SortOrder::Ascending);
    let mut without = fred_rs::tags::Builder::new();
    without.limit(5);
    assert_eq!(with_default.build(), without.build());

    let mut explicit = fred_rs::tags::Builder::new();
    explicit.sort_order(fred_rs::tags::SortOrder::Descending);
    assert_eq!(explicit.build(), "&sort_order=desc");
}

use fred_rs::series::observation::{AggregationMethod, OutputType, Units};

#[test]
fn default_units_aggregation_and_output_type_are_silent() {
    let mut b = fred_rs::series::observation::Builder::new();
    b.units(Units::LIN);
    b.aggregation_method(AggregationMethod::AVG);
    b.output_type(OutputType::RT);
    b.sort_order(fred_rs::series::observation::SortOrder::Ascending);
    assert_eq!(b.build(), "");

    let mut b = fred_rs::series::observation::Builder::new();
    b.units(Units::PCH);
    b.aggregation_method(AggregationMethod::EOP);
    b.output_type(OutputType::VDALL);
    assert_eq!(b.build(), "&units=pch&aggregation_method=eop&output_type=2");
}

#[test]
fn default_search_type_and_filter_value_are_silent() {
    let mut b = fred_rs::series::search::Builder::new();
    b.search_type(fred_rs::series::search::SearchType::FullText);
    assert_eq!(b.options(), "");

    let mut b = fred_rs::series::search::Builder::new();
    b.search_type(fred_rs::series::search::SearchType::SeriesId);
    assert_eq!(b.options(), "&search_type=series_id");

    let mut b = fred_rs::series::updates::Builder::new();
    b.filter_value(fred_rs::series::updates::FilterValue::All);
    assert_eq!(b.build(), "");

    let mut b = fred_rs::series::updates::Builder::new();
    b.filter_value(fred_rs::series::updates::FilterValue::Regional);
    assert_eq!(b.build(), "&filter_value=regional");
}

#[test]
fn releases_dates_descending_is_the_silent_default() {
    let mut b = fred_rs::releases::dates::Builder::new();
    b.sort_order(fred_rs::releases::dates::SortOrder::Descending);
    assert_eq!(b.build(), "");
    let mut b = fred_rs::releases::dates::Builder::new();
    b.sort_order(fred_rs::releases::dates::SortOrder::Ascending);
    assert_eq!(b.build(), "&sort_order=asc");
}

#[test]
fn limit_clamps_to_the_ceiling() {
    let mut b = fred_rs::tags::Builder::new();
    b.limit(5000);
    assert_eq!(b.build(), "&limit=1000");

    let mut b = fred_rs::tags::Builder::new();
    b.limit(500);
    assert_eq!(b.build(), "&limit=500");

    let mut at_ceiling = fred_rs::tags::Builder::new();
    at_ceiling.limit(1000);
    assert_eq!(at_ceiling.build(), "&limit=1000");
}

#[test]
fn limit_ceilings_differ_by_endpoint() {
    let mut b = fred_rs::series::vintagedates::Builder::new();
    b.limit(20000);
    assert_eq!(b.options(), "&limit=10000");

    let mut b = fred_rs::series::observation::Builder::new();
    b.limit(2000000);
    assert_eq!(b.build(), "&limit=1000000");

    let mut b = fred_rs::series::observation::Builder::new();
    b.limit(123456);
    assert_eq!(b.build(), "&limit=123456");
}

#[test]
fn offset_renders_in_decimal() {
    let mut b = fred_rs::sources::Builder::new();
    b.offset(0);
    assert_eq!(b.options(), "&offset=0");
    let mut b = fred_rs::sources::Builder::new();
    b.offset(usize::MAX);
    assert_eq!(b.options(), format!("&offset={}", usize::MAX));
}

#[test]
fn tag_names_join_with_semicolons_in_call_order() {
    let mut b = fred_rs::related_tags::Builder::new();
    b.tag_name("usa");
    b.tag_name("gdp");
    assert_eq!(b.options().unwrap(), "&tag_names=usa;gdp");
}

#[test]
fn one_tag_has_no_separator() {
    let mut b = fred_rs::related_tags::Builder::new();
    b.tag_name("usa");
    assert_eq!(b.options().unwrap(), "&tag_names=usa");
}

#[test]
fn include_list_comes_before_exclude_list() {
    let mut b = fred_rs::related_tags::Builder::new();
    b.exclude_tag("discontinued");
    b.tag_name("usa");
    b.exclude_tag("annual");
    b.limit(5);
    assert_eq!(
        b.options().unwrap(),
        "&limit=5&tag_names=usa&exclude_tag_names=discontinued;annual"
    );
}

#[test]
fn finalize_without_tags_fails_with_the_validation_error() {
    let b = fred_rs::related_tags::Builder::new();
    assert_eq!(b.options(), Err(String::from(TAG_REQUIRED)));

    let mut b = fred_rs::category::related_tags::Builder::new();
    b.limit(5);
    assert_eq!(b.options(), Err(String::from(TAG_REQUIRED)));

    let b = fred_rs::tags::series::Builder::new();
    assert_eq!(b.options(), Err(String::from(TAG_REQUIRED)));

    let b = fred_rs::release::related_tags::Builder::new();
    assert_eq!(b.build(), Err(String::from(TAG_REQUIRED)));

    let b = fred_rs::series::search::related_tags::Builder::new();
    assert_eq!(b.build(), Err(String::from(TAG_REQUIRED)));
}

#[test]
fn one_inclusion_call_satisfies_the_requirement() {
    let mut b = fred_rs::category::related_tags::Builder::new();
    b.tag_name("usa");
    assert_eq!(b.options().unwrap(), "&tag_names=usa");
}

#[test]
fn exclusion_does_not_satisfy_the_inclusion_requirement() {
    let mut b = fred_rs::category::related_tags::Builder::new();
    b.exclude_tag("usa");
    assert_eq!(b.options(), Err(String::from(TAG_REQUIRED)));

    let mut b = fred_rs::tags::series::Builder::new();
    b.exclude_tag("usa");
    b.limit(5);
    assert_eq!(b.options(), Err(String::from(TAG_REQUIRED)));
}

#[test]
fn optional_tags_are_appended_only_when_present() {
    let mut b = fred_rs::tags::Builder::new();
    b.limit(5);
    assert_eq!(b.build(), "&limit=5");

    let mut b = fred_rs::tags::Builder::new();
    b.limit(5);
    b.tag_name("usa");
    b.tag_name("gdp");
    assert_eq!(b.build(), "&limit=5&tag_names=usa;gdp");
}

#[test]
fn search_builder_appends_includes_then_excludes() {
    let mut b = fred_rs::series::search::Builder::new();
    b.limit(5);
    b.exclude_tag("discontinued");
    b.tag_name("usa");
    assert_eq!(
        b.options(),
        "&limit=5&tag_names=usa&exclude_tag_names=discontinued"
    );
}

#[test]
fn vintage_dates_join_with_commas() {
    let mut b = fred_rs::series::observation::Builder::new();
    b.vintage_date("2000-01-01");
    b.vintage_date("2001-01-01");
    b.limit(5);
    assert_eq!(b.build(), "&limit=5&vintage_dates=2000-01-01,2001-01-01");
}

#[test]
fn tag_search_text_encodes_spaces() {
    let mut b = fred_rs::category::related_tags::Builder::new();
    b.tag_name("usa");
    b.search_text("real gdp");
    assert_eq!(
        b.options().unwrap(),
        "&tag_search_text=real%20gdp&tag_names=usa"
    );
}

#[test]
fn tags_search_text_passes_through_verbatim() {
    let mut b = fred_rs::tags::Builder::new();
    b.search_text("monetary index");
    assert_eq!(b.build(), "&search_text=monetary index");
}

#[test]
fn enumeration_tokens_are_the_documented_ones() {
    let mut b = fred_rs::tags::Builder::new();
    b.tag_group_id(fred_rs::tags::TagGroupId::Geography);
    b.order_by(fred_rs::tags::OrderBy::Popularity);
    assert_eq!(b.build(), "&tag_group_id=geo&order_by=popularity");

    let mut b = fred_rs::sources::Builder::new();
    b.order_by(fred_rs::sources::OrderBy::Name);
    assert_eq!(b.options(), "&order_by=name");

    let mut b = fred_rs::releases::dates::Builder::new();
    b.order_by(fred_rs::releases::dates::OrderBy::ReleaseName);
    assert_eq!(b.build(), "&order_by=release_name");

    let mut b = fred_rs::releases::dates::Builder::new();
    b.order_by(fred_rs::releases::dates::OrderBy::ReleaseId);
    assert_eq!(b.build(), "&order_by=release_id");

    let mut b = fred_rs::series::observation::Builder::new();
    b.frequency(fred_rs::series::observation::Frequency::Q);
    assert_eq!(b.build(), "&frequency=q");

    let mut b = fred_rs::series::observation::Builder::new();
    b.frequency(fred_rs::series::observation::Frequency::WETU);
    assert_eq!(b.build(), "&frequency=wetu");
}

#[test]
fn default_order_by_is_silent() {
    let mut b = fred_rs::tags::Builder::new();
    b.order_by(fred_rs::tags::OrderBy::SeriesCount);
    assert_eq!(b.build(), "");

    let mut b = fred_rs::related_tags::Builder::new();
    b.tag_name("usa");
    b.order_by(fred_rs::related_tags::OrderBy::SeriesCount);
    assert_eq!(b.options().unwrap(), "&tag_names=usa");

    let mut b = fred_rs::sources::Builder::new();
    b.order_by(fred_rs::sources::OrderBy::SourceId);
    assert_eq!(b.options(), "");

    let mut b = fred_rs::source::releases::Builder::new();
    b.order_by(fred_rs::source::releases::OrderBy::ReleaseId);
    assert_eq!(b.options(), "");

    let mut b = fred_rs::category::series::Builder::new();
    b.order_by(fred_rs::category::series::OrderBy::SeriesId);
    assert_eq!(b.options(), "");

    let mut b = fred_rs::releases::dates::Builder::new();
    b.order_by(fred_rs::releases::dates::OrderBy::ReleaseDate);
    assert_eq!(b.build(), "");
}

#[test]
fn search_order_by_always_emits_its_token() {
    let mut b = fred_rs::series::search::Builder::new();
    b.order_by(fred_rs::series::search::OrderBy::SearchRank);
    assert_eq!(b.options(), "&order_by=search_rank");

    let mut b = fred_rs::tags::series::Builder::new();
    b.tag_name("usa");
    b.order_by(fred_rs::tags::series::OrderBy::SeriesId);
    assert_eq!(b.options().unwrap(), "&order_by=series_id&tag_names=usa");
}

#[test]
fn updates_time_range_appends_both_bounds() {
    let mut b = fred_rs::series::updates::Builder::new();
    b.time_range("201901010000", "201901312359");
    assert_eq!(
        b.build(),
        "&start_time=201901010000&end_time=201901312359"
    );
}

#[test]
fn tables_builder_arguments() {
    let mut b = fred_rs::release::tables::Builder::new();
    b.element_id(12886);
    b.include_observation_values();
    b.observation_date("2005-01-01");
    assert_eq!(
        b.options(),
        "&element_id=12886&include_observation_values=true&observation_date=2005-01-01"
    );
}

#[test]
fn an_untouched_builder_emits_nothing() {
    assert_eq!(fred_rs::tags::Builder::new().build(), "");
    assert_eq!(fred_rs::sources::Builder::new().options(), "");
    assert_eq!(fred_rs::series::observation::Builder::new().build(), "");
}
