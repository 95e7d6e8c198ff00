//! The dual-shape response decoding: success shapes, the shared error
//! envelope, and the two failure fallbacks.

#[test]
fn category_success_body_decodes_with_all_fields() {
    let body = r#"{"categories":[
        {"id":125,"name":"Trade Balance","parent_id":13},
        {"id":13,"name":"U.S. Trade & International Transactions","parent_id":0,"notes":"BEA data"}
    ]}"#;
    let resp = fred_rs::category::from_body(body).unwrap();
    assert_eq!(resp.categories.len(), 2);
    assert_eq!(resp.categories[0].id, 125);
    assert_eq!(resp.categories[0].name, "Trade Balance");
    assert_eq!(resp.categories[0].parent_id, 13);
    assert!(resp.categories[0].notes.is_none());
    assert_eq!(resp.categories[1].notes.as_deref(), Some("BEA data"));
}

#[test]
fn tags_success_body_decodes_with_all_fields() {
    let body = r#"{
        "realtime_start":"2020-01-01","realtime_end":"2020-12-31",
        "order_by":"series_count","sort_order":"desc",
        "count":2,"offset":0,"limit":1000,
        "tags":[
            {"name":"nation","group_id":"geot","notes":"Country Level","created":"2012-02-27 10:18:19-06","popularity":100,"series_count":105200},
            {"name":"oecd","group_id":"src","notes":null,"created":"2012-02-27 10:18:19-06","popularity":-3,"series_count":64090}
        ]
    }"#;
    let resp = fred_rs::tags::from_body(body).unwrap();
    assert_eq!(resp.realtime_start, "2020-01-01");
    assert_eq!(resp.realtime_end, "2020-12-31");
    assert_eq!(resp.order_by, "series_count");
    assert_eq!(resp.sort_order, "desc");
    assert_eq!(resp.count, 2);
    assert_eq!(resp.offset, 0);
    assert_eq!(resp.limit, 1000);
    assert_eq!(resp.tags.len(), 2);
    assert_eq!(resp.tags[0].name, "nation");
    assert_eq!(resp.tags[0].group_id, "geot");
    assert_eq!(resp.tags[0].notes.as_deref(), Some("Country Level"));
    assert_eq!(resp.tags[0].popularity, 100);
    assert_eq!(resp.tags[0].series_count, 105200);
    assert!(resp.tags[1].notes.is_none());
    assert_eq!(resp.tags[1].popularity, -3);
}

#[test]
fn series_success_body_decodes_optional_fields() {
    let body = r#"{
        "realtime_start":"2020-01-01","realtime_end":"2020-12-31",
        "seriess":[{
            "id":"GNPCA","realtime_start":"2020-01-01","realtime_end":"2020-12-31",
            "title":"Real Gross National Product","observation_start":"1929-01-01",
            "observation_end":"2019-01-01","frequency":"Annual","frequency_short":"A",
            "units":"Billions of Chained 2012 Dollars","units_short":"Bil. of Chn. 2012 $",
            "seasonal_adjustment":"Not Seasonally Adjusted","seasonal_adjustment_short":"NSA",
            "last_updated":"2020-03-26 07:41:01-05","popularity":12
        }]
    }"#;
    let resp = fred_rs::series::from_body(body).unwrap();
    assert!(resp.order_by.is_none());
    assert!(resp.count.is_none());
    assert_eq!(resp.seriess.len(), 1);
    let s = &resp.seriess[0];
    assert_eq!(s.id, "GNPCA");
    assert_eq!(s.title, "Real Gross National Product");
    assert_eq!(s.popularity, 12);
    assert!(s.group_popularity.is_none());
    assert!(s.notes.is_none());
}

#[test]
fn observation_success_body_decodes() {
    let body = r#"{
        "realtime_start":"2020-01-01","realtime_end":"2020-12-31",
        "observation_start":"1776-07-04","observation_end":"9999-12-31",
        "units":"lin","output_type":1,"file_type":"json",
        "order_by":"observation_date","sort_order":"asc",
        "count":1,"offset":0,"limit":100000,
        "observations":[
            {"realtime_start":"2020-01-01","realtime_end":"2020-12-31","date":"1929-01-01","value":"1120.076"}
        ]
    }"#;
    let resp = fred_rs::series::observation::from_body(body).unwrap();
    assert_eq!(resp.output_type, 1);
    assert_eq!(resp.file_type, "json");
    assert_eq!(resp.observations.len(), 1);
    assert_eq!(resp.observations[0].date, "1929-01-01");
    assert_eq!(resp.observations[0].value, "1120.076");
}

#[test]
fn vintagedates_success_body_decodes_plain_strings() {
    let body = r#"{
        "realtime_start":"1776-07-04","realtime_end":"9999-12-31",
        "order_by":"vintage_date","sort_order":"asc",
        "count":3,"offset":0,"limit":10000,
        "vintage_dates":["1958-12-21","1959-02-19","1959-07-19"]
    }"#;
    let resp = fred_rs::series::vintagedates::from_body(body).unwrap();
    assert_eq!(resp.vintage_dates.len(), 3);
    assert_eq!(resp.vintage_dates[0], "1958-12-21");
    assert_eq!(resp.vintage_dates[2], "1959-07-19");
}

#[test]
fn release_success_body_decodes_booleans_and_links() {
    let body = r#"{
        "realtime_start":"2020-01-01","realtime_end":"2020-12-31",
        "releases":[
            {"id":9,"realtime_start":"2020-01-01","realtime_end":"2020-12-31","name":"Advance Monthly Sales","press_release":true,"link":"http://www.census.gov/retail/"},
            {"id":10,"realtime_start":"2020-01-01","realtime_end":"2020-12-31","name":"Consumer Price Index","press_release":false}
        ]
    }"#;
    let resp = fred_rs::release::from_body(body).unwrap();
    assert_eq!(resp.releases.len(), 2);
    assert!(resp.releases[0].press_release);
    assert_eq!(
        resp.releases[0].link.as_deref(),
        Some("http://www.census.gov/retail/")
    );
    assert!(!resp.releases[1].press_release);
    assert!(resp.releases[1].link.is_none());
}

#[test]
fn release_dates_success_body_decodes() {
    let body = r#"{
        "realtime_start":"2020-01-01","realtime_end":"2020-12-31",
        "order_by":"release_date","sort_order":"desc",
        "count":1,"offset":0,"limit":1000,
        "release_dates":[{"release_id":9,"release_name":"Advance Monthly Sales","date":"2020-06-16"}]
    }"#;
    let resp = fred_rs::releases::dates::from_body(body).unwrap();
    assert_eq!(resp.release_dates.len(), 1);
    assert_eq!(resp.release_dates[0].release_id, 9);
    assert_eq!(
        resp.release_dates[0].release_name.as_deref(),
        Some("Advance Monthly Sales")
    );
    assert_eq!(resp.release_dates[0].date, "2020-06-16");
}

#[test]
fn source_success_body_decodes() {
    let body = r#"{
        "realtime_start":"2020-01-01","realtime_end":"2020-12-31",
        "sources":[{"id":1,"realtime_start":"2020-01-01","realtime_end":"2020-12-31","name":"Board of Governors","link":"http://www.federalreserve.gov/"}]
    }"#;
    let resp = fred_rs::source::from_body(body).unwrap();
    assert_eq!(resp.sources.len(), 1);
    assert_eq!(resp.sources[0].id, 1);
    assert_eq!(resp.sources[0].name, "Board of Governors");
    assert!(resp.sources[0].notes.is_none());
}

#[test]
fn release_sources_success_body_decodes() {
    let body = r#"{
        "realtime_start":"2020-01-01","realtime_end":"2020-12-31",
        "sources":[{"id":18,"realtime_start":"2020-01-01","realtime_end":"2020-12-31","name":"U.S. Department of Commerce"}]
    }"#;
    let resp = fred_rs::release::sources::from_body(body).unwrap();
    assert_eq!(resp.sources.len(), 1);
    assert_eq!(resp.sources[0].id, 18);
}

#[test]
fn series_categories_success_body_decodes() {
    let body = r#"{"categories":[{"id":95,"name":"Monthly Rates","parent_id":15}]}"#;
    let resp = fred_rs::series::categories::from_body(body).unwrap();
    assert_eq!(resp.categories.len(), 1);
    assert_eq!(resp.categories[0].id, 95);
    assert_eq!(resp.categories[0].name, "Monthly Rates");
}

#[test]
fn series_updates_success_body_decodes() {
    let body = r#"{
        "realtime_start":"2020-01-01","realtime_end":"2020-12-31",
        "filter_variable":"geography","filter_value":"all",
        "order_by":"last_updated","sort_order":"desc",
        "count":1,"offset":0,"limit":100,
        "seriess":[{
            "id":"PPIITM","realtime_start":"2020-01-01","realtime_end":"2020-12-31",
            "title":"Producer Price Index","observation_start":"1947-04-01",
            "observation_end":"2020-05-01","frequency":"Monthly","frequency_short":"M",
            "units":"Index 1982=100","units_short":"Index 1982=100",
            "seasonal_adjustment":"Seasonally Adjusted","seasonal_adjustment_short":"SA",
            "last_updated":"2020-06-11 07:48:02-05","popularity":52,"group_popularity":54
        }]
    }"#;
    let resp = fred_rs::series::updates::from_body(body).unwrap();
    assert_eq!(resp.filter_variable, "geography");
    assert_eq!(resp.seriess.len(), 1);
    assert_eq!(resp.seriess[0].id, "PPIITM");
    assert_eq!(resp.seriess[0].group_popularity, Some(54));
}

#[test]
fn related_tags_success_body_decodes() {
    let body = r#"{
        "realtime_start":"2020-01-01","realtime_end":"2020-12-31",
        "order_by":"series_count","sort_order":"desc",
        "count":1,"offset":0,"limit":1000,
        "tags":[{"name":"usa","group_id":"geo","notes":"United States","created":"2012-02-27 10:18:19-06","popularity":100,"series_count":100000}]
    }"#;
    let resp = fred_rs::related_tags::from_body(body).unwrap();
    assert_eq!(resp.tags.len(), 1);
    assert_eq!(resp.tags[0].name, "usa");
}

#[test]
fn category_series_success_body_decodes() {
    let body = r#"{
        "realtime_start":"2020-01-01","realtime_end":"2020-12-31",
        "order_by":"series_id","sort_order":"asc",
        "count":1,"offset":0,"limit":1000,
        "seriess":[{
            "id":"BOPBCA","realtime_start":"2020-01-01","realtime_end":"2020-12-31",
            "title":"Balance on Current Account","observation_start":"1960-01-01",
            "observation_end":"2014-01-01","frequency":"Annual","frequency_short":"A",
            "units":"Billions of Dollars","units_short":"Bil. of $",
            "seasonal_adjustment":"Not Seasonally Adjusted","seasonal_adjustment_short":"NSA",
            "last_updated":"2014-06-18 08:41:28-05","popularity":10,"group_popularity":12
        }]
    }"#;
    let resp = fred_rs::category::series::from_body(body).unwrap();
    assert_eq!(resp.seriess.len(), 1);
    assert_eq!(resp.seriess[0].group_popularity, 12);
}

#[test]
fn error_envelope_becomes_a_formatted_failure() {
    let body = r#"{"error_code":400,"error_message":"Bad Request.  The value for variable api_key is not registered."}"#;
    let err = fred_rs::category::from_body(body).unwrap_err();
    assert_eq!(
        err,
        "ERROR 400: Bad Request.  The value for variable api_key is not registered."
    );
    let err = fred_rs::tags::from_body(body).unwrap_err();
    assert_eq!(
        err,
        "ERROR 400: Bad Request.  The value for variable api_key is not registered."
    );
}

#[test]
fn success_shape_wins_over_a_stray_error_field() {
    let body = r#"{"categories":[],"error_code":400,"error_message":"ignored"}"#;
    let resp = fred_rs::category::from_body(body).unwrap();
    assert_eq!(resp.categories.len(), 0);
}

#[test]
fn invalid_json_surfaces_the_parser_message() {
    let body = "this is not json";
    let err = fred_rs::category::from_body(body).unwrap_err();
    let expected = serde_json::from_str::<serde_json::Value>(body)
        .unwrap_err()
        .to_string();
    assert_eq!(err, expected);
}

#[test]
fn wrong_shape_without_envelope_reports_a_mismatch() {
    let body = r#"{"something":"else"}"#;
    let err = fred_rs::category::from_body(body).unwrap_err();
    assert_eq!(
        err,
        "response body matches neither the expected shape nor the error envelope"
    );
}

#[test]
fn missing_item_field_rejects_the_body() {
    let body = r#"{"categories":[{"id":125,"parent_id":13}]}"#;
    assert!(fred_rs::category::from_body(body).is_err());
}
