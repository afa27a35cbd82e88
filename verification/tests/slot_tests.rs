use awattar_api::{AwattarDataItem, AwattarError, PriceSlot};

fn item(start: i64, end: i64, marketprice: f32, unit: &str) -> AwattarDataItem {
    AwattarDataItem {
        start_timestamp: start,
        end_timestamp: end,
        marketprice_cents: (marketprice * 100.0) as i32,
        unit: unit.to_owned(),
    }
}

#[test]
fn test_priceslot_from_item() {
    let item = item(1428591600000, 1428595200000, 42.09, "Eur/MWh");

    let slot = PriceSlot::from_item(&item).unwrap();

    assert_eq!(slot.start(), 1428591600000);
    assert_eq!(slot.end(), 1428595200000);
    assert_eq!(slot.price_cents_per_mwh(), 4209);
}

#[test]
fn test_priceslot_from_item_negative() {
    let item = item(0, 0, -42.09, "Eur/MWh");

    let slot = PriceSlot::from_item(&item).unwrap();

    assert_eq!(slot.price_cents_per_mwh(), -4209);
}

#[test]
fn test_priceslot_from_item_unsupported_unit() {
    let item = item(1428591600000, 1428595200000, 42.09, "ct/kWh");

    match PriceSlot::from_item(&item) {
        Err(AwattarError::UnsupportedResponse(unit)) => assert_eq!(unit, "ct/kWh"),
        other => panic!("expected UnsupportedResponse, got {:?}", other),
    }
}

#[test]
fn test_price_per_kwh_truncates_toward_zero() {
    let cases: Vec<(i32, i32)> = vec![
        (42090, 42),
        (-42090, -42),
        (999, 0),
        (-999, 0),
        (4209, 4),
        (-4209, -4),
        (1000, 1),
        (-1000, -1),
        (0, 0),
    ];
    for (cents_per_mwh, expected_per_kwh) in cases {
        let item = AwattarDataItem {
            start_timestamp: 0,
            end_timestamp: 3600000,
            marketprice_cents: cents_per_mwh,
            unit: "Eur/MWh".to_owned(),
        };
        let slot = PriceSlot::from_item(&item).unwrap();
        assert_eq!(slot.price_per_kwh(), expected_per_kwh);
    }
}
