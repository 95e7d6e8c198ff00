//! Rendering of responses as display text, one line per item.

#[test]
fn data_points_render_as_date_value_pairs() {
    let body = r#"{
        "realtime_start":"2020-01-01","realtime_end":"2020-12-31",
        "observation_start":"1776-07-04","observation_end":"9999-12-31",
        "units":"lin","output_type":1,"file_type":"json",
        "order_by":"observation_date","sort_order":"asc",
        "count":2,"offset":0,"limit":100000,
        "observations":[
            {"realtime_start":"2020-01-01","realtime_end":"2020-12-31","date":"1929-01-01","value":"1120.076"},
            {"realtime_start":"2020-01-01","realtime_end":"2020-12-31","date":"1930-01-01","value":"1025.091"}
        ]
    }"#;
    let resp = fred_rs::series::observation::from_body(body).unwrap();
    assert_eq!(resp.observations[0].display_string(), "(1929-01-01: 1120.076)");
    assert_eq!(
        resp.display_string(),
        "(1929-01-01: 1120.076)\n(1930-01-01: 1025.091)\n"
    );
}

#[test]
fn tags_render_one_per_line() {
    let body = r#"{
        "realtime_start":"2020-01-01","realtime_end":"2020-12-31",
        "order_by":"series_count","sort_order":"desc",
        "count":2,"offset":0,"limit":1000,
        "tags":[
            {"name":"nation","group_id":"geot","created":"2012-02-27","popularity":100,"series_count":105200},
            {"name":"usa","group_id":"geo","created":"2012-02-27","popularity":100,"series_count":100000}
        ]
    }"#;
    let resp = fred_rs::tags::from_body(body).unwrap();
    assert_eq!(resp.tags[1].display_string(), "Tag usa");
    assert_eq!(resp.display_string(), "Tag nation\nTag usa\n");
}

#[test]
fn series_render_with_id_and_title() {
    let body = r#"{
        "realtime_start":"2020-01-01","realtime_end":"2020-12-31",
        "seriess":[{
            "id":"GNPCA","realtime_start":"2020-01-01","realtime_end":"2020-12-31",
            "title":"Real Gross National Product","observation_start":"1929-01-01",
            "observation_end":"2019-01-01","frequency":"Annual","frequency_short":"A",
            "units":"Billions","units_short":"Bil.",
            "seasonal_adjustment":"Not Seasonally Adjusted","seasonal_adjustment_short":"NSA",
            "last_updated":"2020-03-26","popularity":12
        }]
    }"#;
    let resp = fred_rs::series::from_body(body).unwrap();
    assert_eq!(
        resp.display_string(),
        "Series GNPCA: Real Gross National Product\n"
    );
}

#[test]
fn release_dates_render_with_numeric_ids() {
    let body = r#"{
        "realtime_start":"2020-01-01","realtime_end":"2020-12-31",
        "order_by":"release_date","sort_order":"desc",
        "count":1,"offset":0,"limit":1000,
        "release_dates":[{"release_id":9,"release_name":"Advance Monthly Sales","date":"2020-06-16"}]
    }"#;
    let resp = fred_rs::releases::dates::from_body(body).unwrap();
    assert_eq!(
        resp.release_dates[0].display_string(),
        "Release Date 9: 2020-06-16"
    );
    assert_eq!(resp.display_string(), "Release Date 9: 2020-06-16\n");
}
