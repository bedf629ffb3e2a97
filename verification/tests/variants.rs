use lib::data_type::DataType;
use lib::types::{date_time, DATE_TIME_TYPE_ID};
use lib::variant::{Variant, VariantData, VariantType};

// 2024-01-01 00:00:00 UTC as a UA_DateTime.
const NEW_YEAR_2024: i64 = 133_485_408_000_000_000;

fn scalar_date_time(ticks: i64) -> Variant {
    Variant::from_parts(VariantType::Named(date_time()), 0, VariantData::DateTime(ticks))
        .expect("consistent parts")
}

#[test]
fn date_time_type_is_named_by_node_13() {
    assert_eq!(date_time().type_id(), 13);
    assert_eq!(DATE_TIME_TYPE_ID, 13);
    assert_eq!(date_time(), DataType::from_type_id(13));
    assert_eq!(date_time().type_node_id().identifier(), 13);
    assert_eq!(date_time().type_node_id().namespace_index(), 0);
}

#[test]
fn new_variant_is_empty() {
    let variant = Variant::new();
    assert_eq!(variant.variant_type(), VariantType::Empty);
    assert_eq!(variant.array_length(), 0);
    assert_eq!(variant.data(), VariantData::Null);
    assert!(!variant.has_scalar_type(&date_time()));
    assert!(!variant.has_scalar_type(&DataType::from_type_id(12)));
    assert_eq!(variant.into_date_time(), None);
}

#[test]
fn scalar_date_time_is_read() {
    let variant = scalar_date_time(NEW_YEAR_2024);
    assert!(variant.has_scalar_type(&date_time()));
    assert!(!variant.has_scalar_type(&DataType::from_type_id(12)));
    assert_eq!(variant.into_date_time(), Some(NEW_YEAR_2024));
}

#[test]
fn negative_date_time_is_read() {
    assert_eq!(scalar_date_time(-1).into_date_time(), Some(-1));
    assert_eq!(scalar_date_time(i64::MIN).into_date_time(), Some(i64::MIN));
}

#[test]
fn date_time_array_is_not_a_scalar() {
    let variant =
        Variant::from_parts(VariantType::Named(date_time()), 3, VariantData::DateTime(5)).unwrap();
    assert!(!variant.has_scalar_type(&date_time()));
    assert_eq!(variant.into_date_time(), None);
}

#[test]
fn empty_array_is_not_a_scalar() {
    let variant =
        Variant::from_parts(VariantType::Named(date_time()), 0, VariantData::EmptyArray).unwrap();
    assert!(!variant.has_scalar_type(&date_time()));
    assert_eq!(variant.into_date_time(), None);
}

#[test]
fn other_scalar_type_gives_no_date_time() {
    let string_type = DataType::from_type_id(12);
    let variant =
        Variant::from_parts(VariantType::Named(string_type), 0, VariantData::Unread).unwrap();
    assert!(variant.has_scalar_type(&string_type));
    assert!(!variant.has_scalar_type(&date_time()));
    assert_eq!(variant.into_date_time(), None);

    let variant = Variant::from_parts(VariantType::Unnamed, 0, VariantData::Unread).unwrap();
    assert!(!variant.has_scalar_type(&date_time()));
    assert_eq!(variant.into_date_time(), None);
}

#[test]
fn inconsistent_parts_are_refused() {
    // DateTime data under another type.
    assert!(Variant::from_parts(VariantType::Unnamed, 0, VariantData::DateTime(1)).is_none());
    assert!(Variant::from_parts(
        VariantType::Named(DataType::from_type_id(12)),
        0,
        VariantData::DateTime(1)
    )
    .is_none());
    // A DateTime variant whose values the library would not read.
    assert!(Variant::from_parts(VariantType::Named(date_time()), 0, VariantData::Unread).is_none());
    // Null data under the DateTime type is fine: nothing is there to read.
    assert!(Variant::from_parts(VariantType::Named(date_time()), 0, VariantData::Null).is_some());
}
