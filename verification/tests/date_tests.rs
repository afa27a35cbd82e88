use awattar_api::{date_query_range, AwattarZone, CivilDate, MAX_YEAR};

#[test]
fn test_zone_constants() {
    assert_eq!(
        AwattarZone::Austria.api_endpoint(),
        "https://api.awattar.at/v1/marketdata"
    );
    assert_eq!(
        AwattarZone::Germany.api_endpoint(),
        "https://api.awattar.de/v1/marketdata"
    );
    assert_eq!(AwattarZone::Austria.timezone(), "Europe/Vienna");
    assert_eq!(AwattarZone::Germany.timezone(), "Europe/Berlin");
}

#[test]
fn test_from_ymd_validity() {
    assert!(CivilDate::from_ymd(2022, 8, 1).is_some());
    assert!(CivilDate::from_ymd(2024, 2, 29).is_some());
    assert!(CivilDate::from_ymd(2023, 2, 29).is_none());
    assert!(CivilDate::from_ymd(2000, 2, 29).is_some());
    assert!(CivilDate::from_ymd(1900, 2, 29).is_none());
    assert!(CivilDate::from_ymd(2022, 2, 30).is_none());
    assert!(CivilDate::from_ymd(2022, 4, 31).is_none());
    assert!(CivilDate::from_ymd(2022, 13, 1).is_none());
    assert!(CivilDate::from_ymd(2022, 0, 1).is_none());
    assert!(CivilDate::from_ymd(2022, 6, 0).is_none());
    assert!(CivilDate::from_ymd(0, 6, 15).is_none());
}

#[test]
fn test_next_day() {
    let next = |y: i32, m: u8, d: u8| {
        CivilDate::from_ymd(y, m, d).unwrap().next_day().unwrap()
    };
    assert_eq!(next(2022, 8, 1), CivilDate { year: 2022, month: 8, day: 2 });
    assert_eq!(next(2022, 6, 30), CivilDate { year: 2022, month: 7, day: 1 });
    assert_eq!(next(2024, 2, 28), CivilDate { year: 2024, month: 2, day: 29 });
    assert_eq!(next(2023, 2, 28), CivilDate { year: 2023, month: 3, day: 1 });
    assert_eq!(next(2022, 12, 31), CivilDate { year: 2023, month: 1, day: 1 });
    let last = CivilDate { year: MAX_YEAR, month: 12, day: 31 };
    assert!(last.next_day().is_none());
}

#[test]
fn test_date_query_range_full_day() {
    // 2022-08-01 00:00 in Vienna is CEST (UTC+2): 2022-07-31T22:00:00Z.
    let date = CivilDate { year: 2022, month: 8, day: 1 };
    let (start, end) = date_query_range(AwattarZone::Austria, date).unwrap();
    assert_eq!(start, 1659304800000);
    assert_eq!(end, 1659391200000);
    assert_eq!(end - start, 24 * 3600000);

    // Germany shares the offsets on that date.
    let (start_de, end_de) = date_query_range(AwattarZone::Germany, date).unwrap();
    assert_eq!(start_de, 1659304800000);
    assert_eq!(end_de, 1659391200000);
}

#[test]
fn test_date_query_range_dst_spring() {
    // 2022-03-27 is the switch to daylight-saving time: a 23-hour local day.
    let date = CivilDate { year: 2022, month: 3, day: 27 };
    let (start, end) = date_query_range(AwattarZone::Austria, date).unwrap();
    assert_eq!(start, 1648335600000);
    assert_eq!(end, 1648418400000);
    assert_eq!(end - start, 23 * 3600000);
}

#[test]
fn test_date_query_range_dst_fall() {
    // 2022-10-30 is the switch back to standard time: a 25-hour local day.
    let date = CivilDate { year: 2022, month: 10, day: 30 };
    let (start, end) = date_query_range(AwattarZone::Germany, date).unwrap();
    assert_eq!(start, 1667080800000);
    assert_eq!(end, 1667170800000);
    assert_eq!(end - start, 25 * 3600000);
}

#[test]
fn test_date_query_range_rejects_invalid_date() {
    let bad = CivilDate { year: 2022, month: 2, day: 30 };
    assert!(date_query_range(AwattarZone::Austria, bad).is_none());
    let last = CivilDate { year: MAX_YEAR, month: 12, day: 31 };
    assert!(date_query_range(AwattarZone::Austria, last).is_none());
}
