use solaredge::client::join_site_ids;
use solaredge::error::error_for_status;
use solaredge::{ApiKeyPlacement, Client, Date, DateTimeRange, Error, SitesList, SortOrder};

#[test]
fn site_request_with_header_key() {
    let c = Client::new("KEY");
    let r = c.site_details_request(32).unwrap();
    assert_eq!(r.url, "https://monitoringapi.solaredge.com/site/32/details.json");
    assert_eq!(r.headers, vec![("X-API-Key".to_string(), "KEY".to_string())]);
}

#[test]
fn key_in_query_comes_last() {
    let c = Client::new_with_base_url("https://monitoringapi.solaredge.com", "K Y", ApiKeyPlacement::Query);
    let r = c.version_current_request().unwrap();
    assert_eq!(r.url, "https://monitoringapi.solaredge.com/version/current.json?api_key=K+Y");
    assert!(r.headers.is_empty());
    let p = SitesList { size: Some(32), sort_order: Some(SortOrder::Ascending), ..Default::default() };
    let r = c.sites_list_request(&p).unwrap();
    assert_eq!(r.url, "https://monitoringapi.solaredge.com/sites/list.json?size=32&sortOrder=ASC&api_key=K+Y");
}

#[test]
fn bulk_paths_join_ids() {
    assert_eq!(join_site_ids(&[]), "");
    assert_eq!(join_site_ids(&[7]), "7");
    assert_eq!(join_site_ids(&[1, 22, 18446744073709551615]), "1,22,18446744073709551615");
    let c = Client::new("KEY");
    let r = c.site_overview_bulk_request(&[1, 2]).unwrap();
    assert_eq!(r.url, "https://monitoringapi.solaredge.com/sites/1,2/overview.json");
}

#[test]
fn serial_numbers_are_percent_encoded() {
    let c = Client::new("KEY");
    let r = c.equipment_changelog_request(5, "7F1/23+4 x").unwrap();
    assert_eq!(r.url, "https://monitoringapi.solaredge.com/equipment/5/7F1%2F23%2B4%20x/changeLog.json");
    let range = DateTimeRange {
        start_time: Date::new(2021, 8, 10).unwrap().midnight(),
        end_time: Date::new(2021, 8, 12).unwrap().midnight(),
    };
    let r = c.equipment_data_request(5, "7F123456-00", &range).unwrap();
    assert_eq!(
        r.url,
        "https://monitoringapi.solaredge.com/equipment/5/7F123456%2D00/data.json?startTime=2021-08-10+00%3A00%3A00&endTime=2021-08-12+00%3A00%3A00"
    );
}

#[test]
fn image_paths() {
    let c = Client::new("KEY");
    let r = c.site_installer_image_request(3).unwrap();
    assert_eq!(r.url, "https://monitoringapi.solaredge.com/site/3/installerImage/image.jpg");
    let p = solaredge::SiteImage { max_width: Some(640), ..Default::default() };
    let r = c.site_image_request(3, &p).unwrap();
    assert_eq!(r.url, "https://monitoringapi.solaredge.com/site/3/siteImage/image.jpg?maxWidth=640");
}

#[test]
fn bad_base_url_is_an_error() {
    let c = Client::new_with_base_url("not a url", "KEY", ApiKeyPlacement::Header);
    assert!(c.site_details_request(1).is_err());
}

#[test]
fn forbidden_is_an_api_error() {
    let r = error_for_status::<String>(403, b"Forbidden".to_vec());
    match r {
        Err(Error::Api(status, body)) => {
            assert_eq!(status, 403);
            assert_eq!(body, b"Forbidden".to_vec());
        },
        _ => panic!("expected an API error"),
    }
}

#[test]
fn status_classes() {
    assert_eq!(error_for_status::<String>(200, b"{}".to_vec()).ok(), Some(b"{}".to_vec()));
    assert_eq!(error_for_status::<String>(304, vec![]).ok(), Some(vec![]));
    assert!(matches!(error_for_status::<String>(400, vec![]), Err(Error::Api(400, _))));
    assert!(matches!(error_for_status::<String>(599, vec![]), Err(Error::Api(599, _))));
    assert!(error_for_status::<String>(399, vec![]).is_ok());
    assert!(error_for_status::<String>(600, vec![]).is_ok());
}
