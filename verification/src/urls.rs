//! Construction of the request URLs: one function per endpoint, each
//! formatting the fixed path, the required positional identifiers, the API
//! key and the `file_type=json` marker.  The optional arguments of a builder
//! are appended by the caller after the fact.

use vstd::prelude::*;
use vstd::string::*;
use crate::fragment::{decimal_string, encode_spaces, spec_decimal, spec_encode_spaces};

verus! {

/// The fixed base URL of the FRED API.
pub fn fred_base_url() -> (r: &'static str)
    ensures
        r@ == "https://api.stlouisfed.org/fred/"@,
{
    "https://api.stlouisfed.org/fred/"
}

/// The URL of the series endpoint, without optional arguments.
pub fn series_url(base: &str, series_id: &str, api_key: &str) -> (r: String)
    ensures
        r@ == base@ + "series?series_id="@ + series_id@ + "&api_key="@ + api_key@ + "&file_type=json"@,
{
    let mut s = String::from_str(base);
    s.append("series?series_id=");
    s.append(series_id);
    s.append("&api_key=");
    s.append(api_key);
    s.append("&file_type=json");
    s
}

/// The URL of the series/categories endpoint, without optional arguments.
pub fn series_categories_url(base: &str, series_id: &str, api_key: &str) -> (r: String)
    ensures
        r@ == base@ + "series/categories?series_id="@ + series_id@ + "&api_key="@ + api_key@ + "&file_type=json"@,
{
    let mut s = String::from_str(base);
    s.append("series/categories?series_id=");
    s.append(series_id);
    s.append("&api_key=");
    s.append(api_key);
    s.append("&file_type=json");
    s
}

/// The URL of the series/observations endpoint, without optional arguments.
pub fn series_observation_url(base: &str, series_id: &str, api_key: &str) -> (r: String)
    ensures
        r@ == base@ + "series/observations?series_id="@ + series_id@ + "&api_key="@ + api_key@ + "&file_type=json"@,
{
    let mut s = String::from_str(base);
    s.append("series/observations?series_id=");
    s.append(series_id);
    s.append("&api_key=");
    s.append(api_key);
    s.append("&file_type=json");
    s
}

/// The URL of the series/release endpoint, without optional arguments.
pub fn series_release_url(base: &str, series_id: &str, api_key: &str) -> (r: String)
    ensures
        r@ == base@ + "series/release?series_id="@ + series_id@ + "&api_key="@ + api_key@ + "&file_type=json"@,
{
    let mut s = String::from_str(base);
    s.append("series/release?series_id=");
    s.append(series_id);
    s.append("&api_key=");
    s.append(api_key);
    s.append("&file_type=json");
    s
}

/// The URL of the series/tags endpoint, without optional arguments.
pub fn series_tags_url(base: &str, series_id: &str, api_key: &str) -> (r: String)
    ensures
        r@ == base@ + "series/tags?series_id="@ + series_id@ + "&api_key="@ + api_key@ + "&file_type=json"@,
{
    let mut s = String::from_str(base);
    s.append("series/tags?series_id=");
    s.append(series_id);
    s.append("&api_key=");
    s.append(api_key);
    s.append("&file_type=json");
    s
}

/// The URL of the series/updates endpoint, without optional arguments.
pub fn series_updates_url(base: &str, api_key: &str) -> (r: String)
    ensures
        r@ == base@ + "series/updates?api_key="@ + api_key@ + "&file_type=json"@,
{
    let mut s = String::from_str(base);
    s.append("series/updates?api_key=");
    s.append(api_key);
    s.append("&file_type=json");
    s
}

/// The URL of the series/vintagedates endpoint, without optional arguments.
pub fn series_vintagedates_url(base: &str, series_id: &str, api_key: &str) -> (r: String)
    ensures
        r@ == base@ + "series/vintagedates?series_id="@ + series_id@ + "&api_key="@ + api_key@ + "&file_type=json"@,
{
    let mut s = String::from_str(base);
    s.append("series/vintagedates?series_id=");
    s.append(series_id);
    s.append("&api_key=");
    s.append(api_key);
    s.append("&file_type=json");
    s
}

/// The URL of the series/search endpoint, without optional arguments.
pub fn series_search_url(base: &str, search_text: &str, api_key: &str) -> (r: String)
    ensures
        r@ == base@ + "series/search?search_text="@ + spec_encode_spaces(search_text@) + "&api_key="@ + api_key@
            + "&file_type=json"@,
{
    let encoded = encode_spaces(search_text);
    let mut s = String::from_str(base);
    s.append("series/search?search_text=");
    s.append(encoded.as_str());
    s.append("&api_key=");
    s.append(api_key);
    s.append("&file_type=json");
    s
}

/// The URL of the series/search/tags endpoint, without optional arguments.
pub fn series_search_tags_url(base: &str, series_search_text: &str, api_key: &str) -> (r: String)
    ensures
        r@ == base@ + "series/search/tags?series_search_text="@ + spec_encode_spaces(series_search_text@) + "&api_key="@ + api_key@
            + "&file_type=json"@,
{
    let encoded = encode_spaces(series_search_text);
    let mut s = String::from_str(base);
    s.append("series/search/tags?series_search_text=");
    s.append(encoded.as_str());
    s.append("&api_key=");
    s.append(api_key);
    s.append("&file_type=json");
    s
}

/// The URL of the series/search/related_tags endpoint, without optional arguments.
pub fn series_search_related_tags_url(base: &str, series_search_text: &str, api_key: &str) -> (r: String)
    ensures
        r@ == base@ + "series/search/related_tags?series_search_text="@ + spec_encode_spaces(series_search_text@) + "&api_key="@ + api_key@
            + "&file_type=json"@,
{
    let encoded = encode_spaces(series_search_text);
    let mut s = String::from_str(base);
    s.append("series/search/related_tags?series_search_text=");
    s.append(encoded.as_str());
    s.append("&api_key=");
    s.append(api_key);
    s.append("&file_type=json");
    s
}

/// The URL of the tags endpoint, without optional arguments.
pub fn tags_url(base: &str, api_key: &str) -> (r: String)
    ensures
        r@ == base@ + "tags?api_key="@ + api_key@ + "&file_type=json"@,
{
    let mut s = String::from_str(base);
    s.append("tags?api_key=");
    s.append(api_key);
    s.append("&file_type=json");
    s
}

/// The URL of the tags/series endpoint, without optional arguments.
pub fn tags_series_url(base: &str, api_key: &str) -> (r: String)
    ensures
        r@ == base@ + "tags/series?api_key="@ + api_key@ + "&file_type=json"@,
{
    let mut s = String::from_str(base);
    s.append("tags/series?api_key=");
    s.append(api_key);
    s.append("&file_type=json");
    s
}

/// The URL of the related_tags endpoint, without optional arguments.
pub fn related_tags_url(base: &str, api_key: &str) -> (r: String)
    ensures
        r@ == base@ + "related_tags?api_key="@ + api_key@ + "&file_type=json"@,
{
    let mut s = String::from_str(base);
    s.append("related_tags?api_key=");
    s.append(api_key);
    s.append("&file_type=json");
    s
}

/// The URL of the sources endpoint, without optional arguments.
pub fn sources_url(base: &str, api_key: &str) -> (r: String)
    ensures
        r@ == base@ + "sources?api_key="@ + api_key@ + "&file_type=json"@,
{
    let mut s = String::from_str(base);
    s.append("sources?api_key=");
    s.append(api_key);
    s.append("&file_type=json");
    s
}

/// The URL of the source endpoint, without optional arguments.
pub fn source_url(base: &str, source_id: usize, api_key: &str) -> (r: String)
    ensures
        r@ == base@ + "source?source_id="@ + spec_decimal(source_id as nat) + "&api_key="@ + api_key@
            + "&file_type=json"@,
{
    let mut s = String::from_str(base);
    s.append("source?source_id=");
    let digits = decimal_string(source_id);
    s.append(digits.as_str());
    s.append("&api_key=");
    s.append(api_key);
    s.append("&file_type=json");
    s
}

/// The URL of the source/releases endpoint, without optional arguments.
pub fn source_releases_url(base: &str, source_id: usize, api_key: &str) -> (r: String)
    ensures
        r@ == base@ + "source/releases?source_id="@ + spec_decimal(source_id as nat) + "&api_key="@ + api_key@
            + "&file_type=json"@,
{
    let mut s = String::from_str(base);
    s.append("source/releases?source_id=");
    let digits = decimal_string(source_id);
    s.append(digits.as_str());
    s.append("&api_key=");
    s.append(api_key);
    s.append("&file_type=json");
    s
}

/// The URL of the category endpoint, without optional arguments.
pub fn category_url(base: &str, category_id: usize, api_key: &str) -> (r: String)
    ensures
        r@ == base@ + "category?category_id="@ + spec_decimal(category_id as nat) + "&api_key="@ + api_key@
            + "&file_type=json"@,
{
    let mut s = String::from_str(base);
    s.append("category?category_id=");
    let digits = decimal_string(category_id);
    s.append(digits.as_str());
    s.append("&api_key=");
    s.append(api_key);
    s.append("&file_type=json");
    s
}

/// The URL of the category/children endpoint, without optional arguments.
pub fn category_children_url(base: &str, category_id: usize, api_key: &str) -> (r: String)
    ensures
        r@ == base@ + "category/children?category_id="@ + spec_decimal(category_id as nat) + "&api_key="@ + api_key@
            + "&file_type=json"@,
{
    let mut s = String::from_str(base);
    s.append("category/children?category_id=");
    let digits = decimal_string(category_id);
    s.append(digits.as_str());
    s.append("&api_key=");
    s.append(api_key);
    s.append("&file_type=json");
    s
}

/// The URL of the category/related endpoint, without optional arguments.
pub fn category_related_url(base: &str, category_id: usize, api_key: &str) -> (r: String)
    ensures
        r@ == base@ + "category/related?category_id="@ + spec_decimal(category_id as nat) + "&api_key="@ + api_key@
            + "&file_type=json"@,
{
    let mut s = String::from_str(base);
    s.append("category/related?category_id=");
    let digits = decimal_string(category_id);
    s.append(digits.as_str());
    s.append("&api_key=");
    s.append(api_key);
    s.append("&file_type=json");
    s
}

/// The URL of the category/series endpoint, without optional arguments.
pub fn category_series_url(base: &str, category_id: usize, api_key: &str) -> (r: String)
    ensures
        r@ == base@ + "category/series?category_id="@ + spec_decimal(category_id as nat) + "&api_key="@ + api_key@
            + "&file_type=json"@,
{
    let mut s = String::from_str(base);
    s.append("category/series?category_id=");
    let digits = decimal_string(category_id);
    s.append(digits.as_str());
    s.append("&api_key=");
    s.append(api_key);
    s.append("&file_type=json");
    s
}

/// The URL of the category/tags endpoint, without optional arguments.
pub fn category_tags_url(base: &str, category_id: usize, api_key: &str) -> (r: String)
    ensures
        r@ == base@ + "category/tags?category_id="@ + spec_decimal(category_id as nat) + "&api_key="@ + api_key@
            + "&file_type=json"@,
{
    let mut s = String::from_str(base);
    s.append("category/tags?category_id=");
    let digits = decimal_string(category_id);
    s.append(digits.as_str());
    s.append("&api_key=");
    s.append(api_key);
    s.append("&file_type=json");
    s
}

/// The URL of the category/related_tags endpoint, without optional arguments.
pub fn category_related_tags_url(base: &str, category_id: usize, api_key: &str) -> (r: String)
    ensures
        r@ == base@ + "category/related_tags?category_id="@ + spec_decimal(category_id as nat) + "&api_key="@ + api_key@
            + "&file_type=json"@,
{
    let mut s = String::from_str(base);
    s.append("category/related_tags?category_id=");
    let digits = decimal_string(category_id);
    s.append(digits.as_str());
    s.append("&api_key=");
    s.append(api_key);
    s.append("&file_type=json");
    s
}

/// The URL of the releases endpoint, without optional arguments.
pub fn releases_url(base: &str, api_key: &str) -> (r: String)
    ensures
        r@ == base@ + "releases?api_key="@ + api_key@ + "&file_type=json"@,
{
    let mut s = String::from_str(base);
    s.append("releases?api_key=");
    s.append(api_key);
    s.append("&file_type=json");
    s
}

/// The URL of the releases/dates endpoint, without optional arguments.
pub fn releases_dates_url(base: &str, api_key: &str) -> (r: String)
    ensures
        r@ == base@ + "releases/dates?api_key="@ + api_key@ + "&file_type=json"@,
{
    let mut s = String::from_str(base);
    s.append("releases/dates?api_key=");
    s.append(api_key);
    s.append("&file_type=json");
    s
}

/// The URL of the release endpoint, without optional arguments.
pub fn release_url(base: &str, release_id: usize, api_key: &str) -> (r: String)
    ensures
        r@ == base@ + "release?release_id="@ + spec_decimal(release_id as nat) + "&api_key="@ + api_key@
            + "&file_type=json"@,
{
    let mut s = String::from_str(base);
    s.append("release?release_id=");
    let digits = decimal_string(release_id);
    s.append(digits.as_str());
    s.append("&api_key=");
    s.append(api_key);
    s.append("&file_type=json");
    s
}

/// The URL of the release/series endpoint, without optional arguments.
pub fn release_series_url(base: &str, release_id: usize, api_key: &str) -> (r: String)
    ensures
        r@ == base@ + "release/series?release_id="@ + spec_decimal(release_id as nat) + "&api_key="@ + api_key@
            + "&file_type=json"@,
{
    let mut s = String::from_str(base);
    s.append("release/series?release_id=");
    let digits = decimal_string(release_id);
    s.append(digits.as_str());
    s.append("&api_key=");
    s.append(api_key);
    s.append("&file_type=json");
    s
}

/// The URL of the release/sources endpoint, without optional arguments.
pub fn release_sources_url(base: &str, release_id: usize, api_key: &str) -> (r: String)
    ensures
        r@ == base@ + "release/sources?release_id="@ + spec_decimal(release_id as nat) + "&api_key="@ + api_key@
            + "&file_type=json"@,
{
    let mut s = String::from_str(base);
    s.append("release/sources?release_id=");
    let digits = decimal_string(release_id);
    s.append(digits.as_str());
    s.append("&api_key=");
    s.append(api_key);
    s.append("&file_type=json");
    s
}

/// The URL of the release/tags endpoint, without optional arguments.
pub fn release_tags_url(base: &str, release_id: usize, api_key: &str) -> (r: String)
    ensures
        r@ == base@ + "release/tags?release_id="@ + spec_decimal(release_id as nat) + "&api_key="@ + api_key@
            + "&file_type=json"@,
{
    let mut s = String::from_str(base);
    s.append("release/tags?release_id=");
    let digits = decimal_string(release_id);
    s.append(digits.as_str());
    s.append("&api_key=");
    s.append(api_key);
    s.append("&file_type=json");
    s
}

/// The URL of the release/related_tags endpoint, without optional arguments.
pub fn release_related_tags_url(base: &str, release_id: usize, api_key: &str) -> (r: String)
    ensures
        r@ == base@ + "release/related_tags?release_id="@ + spec_decimal(release_id as nat) + "&api_key="@ + api_key@
            + "&file_type=json"@,
{
    let mut s = String::from_str(base);
    s.append("release/related_tags?release_id=");
    let digits = decimal_string(release_id);
    s.append(digits.as_str());
    s.append("&api_key=");
    s.append(api_key);
    s.append("&file_type=json");
    s
}

/// The URL of the release/tables endpoint, without optional arguments.
pub fn release_tables_url(base: &str, release_id: usize, api_key: &str) -> (r: String)
    ensures
        r@ == base@ + "release/tables?release_id="@ + spec_decimal(release_id as nat) + "&api_key="@ + api_key@
            + "&file_type=json"@,
{
    let mut s = String::from_str(base);
    s.append("release/tables?release_id=");
    let digits = decimal_string(release_id);
    s.append(digits.as_str());
    s.append("&api_key=");
    s.append(api_key);
    s.append("&file_type=json");
    s
}

} // verus!
