//! URL construction for the endpoints: fixed path, positional identifiers,
//! API key and the JSON format marker.

#[test]
fn base_url_is_fixed() {
    assert_eq!(fred_rs::urls::fred_base_url(), "https://api.stlouisfed.org/fred/");
}

#[test]
fn series_url_substitutes_the_series_id() {
    let url = fred_rs::urls::series_url("https://api.stlouisfed.org/fred/", "GNPCA", "abc123");
    assert_eq!(
        url,
        "https://api.stlouisfed.org/fred/series?series_id=GNPCA&api_key=abc123&file_type=json"
    );
}

#[test]
fn observation_url_uses_the_observations_path() {
    let url = fred_rs::urls::series_observation_url("b/", "UNRATE", "k");
    assert_eq!(
        url,
        "b/series/observations?series_id=UNRATE&api_key=k&file_type=json"
    );
}

#[test]
fn category_url_renders_the_id_in_decimal() {
    let url = fred_rs::urls::category_url("b/", 125, "k");
    assert_eq!(url, "b/category?category_id=125&api_key=k&file_type=json");
}

#[test]
fn search_urls_encode_spaces_in_the_search_text() {
    let url = fred_rs::urls::series_search_url("b/", "monetary index", "k");
    assert_eq!(
        url,
        "b/series/search?search_text=monetary%20index&api_key=k&file_type=json"
    );
    let url = fred_rs::urls::series_search_tags_url("b/", "monetary index", "k");
    assert_eq!(
        url,
        "b/series/search/tags?series_search_text=monetary%20index&api_key=k&file_type=json"
    );
    let url = fred_rs::urls::series_search_related_tags_url("b/", "a b c", "k");
    assert_eq!(
        url,
        "b/series/search/related_tags?series_search_text=a%20b%20c&api_key=k&file_type=json"
    );
}

#[test]
fn urls_without_positional_arguments_hold_only_the_key() {
    assert_eq!(
        fred_rs::urls::tags_url("b/", "k"),
        "b/tags?api_key=k&file_type=json"
    );
    assert_eq!(
        fred_rs::urls::releases_url("b/", "k"),
        "b/releases?api_key=k&file_type=json"
    );
    assert_eq!(
        fred_rs::urls::releases_dates_url("b/", "k"),
        "b/releases/dates?api_key=k&file_type=json"
    );
    assert_eq!(
        fred_rs::urls::sources_url("b/", "k"),
        "b/sources?api_key=k&file_type=json"
    );
    assert_eq!(
        fred_rs::urls::tags_series_url("b/", "k"),
        "b/tags/series?api_key=k&file_type=json"
    );
    assert_eq!(
        fred_rs::urls::related_tags_url("b/", "k"),
        "b/related_tags?api_key=k&file_type=json"
    );
    assert_eq!(
        fred_rs::urls::series_updates_url("b/", "k"),
        "b/series/updates?api_key=k&file_type=json"
    );
}

#[test]
fn release_and_source_urls_substitute_numeric_ids() {
    assert_eq!(
        fred_rs::urls::release_url("b/", 9, "k"),
        "b/release?release_id=9&api_key=k&file_type=json"
    );
    assert_eq!(
        fred_rs::urls::release_tables_url("b/", 53, "k"),
        "b/release/tables?release_id=53&api_key=k&file_type=json"
    );
    assert_eq!(
        fred_rs::urls::source_releases_url("b/", 1, "k"),
        "b/source/releases?source_id=1&api_key=k&file_type=json"
    );
    assert_eq!(
        fred_rs::urls::category_related_tags_url("b/", 125, "k"),
        "b/category/related_tags?category_id=125&api_key=k&file_type=json"
    );
}

#[test]
fn a_builder_fragment_appends_cleanly_to_a_url() {
    let mut b = fred_rs::series::observation::Builder::new();
    b.observation_start("2000-01-01");
    b.limit(5);
    let mut url = fred_rs::urls::series_observation_url(
        "https://api.stlouisfed.org/fred/",
        "GNPCA",
        "k",
    );
    url.push_str(&b.build());
    assert_eq!(
        url,
        "https://api.stlouisfed.org/fred/series/observations?series_id=GNPCA&api_key=k&file_type=json&observation_start=2000-01-01&limit=5"
    );
}
