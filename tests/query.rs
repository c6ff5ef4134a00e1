use solaredge::query::{encode_query, join_commas, QueryPair};
use solaredge::{
    AccountSortBy, AccountsList, Date, DateTimeRange, MeterType, MetersDateTimeRange, SiteEnergy,
    SiteImage, SitePowerDetails, SiteSortBy, SiteStatus, SiteStorageData, SitesList, SortOrder,
    TimeUnit,
};

fn pairs_text(pairs: &[QueryPair]) -> Vec<(String, String)> {
    pairs.iter().map(|p| (p.key.clone(), join_commas(&p.parts))).collect()
}

#[test]
fn absent_fields_are_left_out() {
    let p = SitesList::default();
    assert!(p.query_pairs().is_empty());
    assert_eq!(encode_query(&p.query_pairs()), "");
    let p = SiteImage { hash: Some(7), ..Default::default() };
    assert_eq!(pairs_text(&p.query_pairs()), vec![("hash".to_string(), "7".to_string())]);
}

#[test]
fn present_fields_appear_once_in_order() {
    let p = SitesList {
        size: Some(32),
        sort_order: Some(SortOrder::Ascending),
        status: Some(&[SiteStatus::Active, SiteStatus::Pending]),
        search_text: Some("bbb"),
        ..Default::default()
    };
    assert_eq!(
        pairs_text(&p.query_pairs()),
        vec![
            ("size".to_string(), "32".to_string()),
            ("searchText".to_string(), "bbb".to_string()),
            ("sortOrder".to_string(), "ASC".to_string()),
            ("status".to_string(), "Active,Pending".to_string()),
        ]
    );
    assert_eq!(encode_query(&p.query_pairs()), "size=32&searchText=bbb&sortOrder=ASC&status=Active,Pending");
}

#[test]
fn comma_list_value() {
    let p = SitesList { status: Some(&[SiteStatus::Active, SiteStatus::Pending]), ..Default::default() };
    let pairs = p.query_pairs();
    assert_eq!(pairs.len(), 1);
    assert_eq!(join_commas(&pairs[0].parts), "Active,Pending");
    assert_eq!(encode_query(&pairs), "status=Active,Pending");
}

#[test]
fn all_site_list_fields() {
    let p = SitesList {
        size: Some(100),
        start_index: Some(0),
        search_text: Some("Main St"),
        sort_property: Some(SiteSortBy::InstallationDate),
        sort_order: Some(SortOrder::Descending),
        status: Some(&[SiteStatus::All]),
    };
    assert_eq!(
        encode_query(&p.query_pairs()),
        "size=100&startIndex=0&searchText=Main+St&sortProperty=InstallationDate&sortOrder=DESC&status=All"
    );
}

#[test]
fn dates_in_queries() {
    let p = SiteEnergy {
        start_date: Date::new(2021, 8, 10).unwrap(),
        end_date: Date::new(2021, 8, 12).unwrap(),
        time_unit: Some(TimeUnit::QuarterOfAnHour),
    };
    assert_eq!(
        encode_query(&p.query_pairs()),
        "startDate=2021-08-10&endDate=2021-08-12&timeUnit=QUARTER_OF_AN_HOUR"
    );
    let p = DateTimeRange {
        start_time: Date::new(2021, 8, 10).unwrap().midnight(),
        end_time: Date::new(2021, 8, 12).unwrap().midnight(),
    };
    assert_eq!(
        encode_query(&p.query_pairs()),
        "startTime=2021-08-10+00%3A00%3A00&endTime=2021-08-12+00%3A00%3A00"
    );
}

#[test]
fn meter_lists() {
    let start = Date::new(2021, 8, 10).unwrap().midnight();
    let end = Date::new(2021, 8, 11).unwrap().midnight();
    let p = SitePowerDetails { start_time: start, end_time: end, meters: Some(&[MeterType::FeedIn, MeterType::Purchased]) };
    let pairs = p.query_pairs();
    assert_eq!(pairs.len(), 3);
    assert_eq!(pairs[2].key, "meters");
    assert_eq!(join_commas(&pairs[2].parts), "FeedIn,Purchased");
    let p = MetersDateTimeRange { start_time: start, end_time: end, time_unit: None, meters: None };
    assert_eq!(p.query_pairs().len(), 2);
}

#[test]
fn serial_lists_encode_each_serial() {
    let start = Date::new(2021, 8, 10).unwrap().midnight();
    let serials = vec!["A 1".to_string(), "B/2".to_string()];
    let p = SiteStorageData { start_time: start, end_time: start, serials: Some(&serials) };
    let q = encode_query(&p.query_pairs());
    assert!(q.ends_with("&serials=A+1,B%2F2"));
}

#[test]
fn accounts_list_query() {
    let p = AccountsList {
        size: Some(8),
        sort_property: Some(AccountSortBy::Name),
        ..Default::default()
    };
    assert_eq!(encode_query(&p.query_pairs()), "size=8&sortProperty=Name");
}

#[test]
fn form_encoding_of_keys_and_parts() {
    let pairs = vec![
        QueryPair { key: "a b".to_string(), parts: vec!["x&y".to_string(), "é".to_string()] },
        QueryPair { key: "k".to_string(), parts: vec!["*-._".to_string()] },
    ];
    assert_eq!(encode_query(&pairs), "a+b=x%26y,%C3%A9&k=*-._");
}
