use eipscanne_rs::cip::path::PathData;

#[test]
fn test_path_data_into_u16_u8_variant() {
    let data = PathData::FormatAsU8(42);
    let value: u16 = data.into();
    assert_eq!(value, 42u16);
}

#[test]
fn test_path_data_into_u16_u16_variant() {
    let data = PathData::FormatAsU16(4242);
    let value: u16 = data.into();
    assert_eq!(value, 4242u16);
}

#[test]
fn test_path_data_ref_into_u16_u8_variant() {
    let data = PathData::FormatAsU8(42);
    let value: u16 = (&data).into();
    assert_eq!(value, 42u16);
}

#[test]
fn test_path_data_ref_into_u16_u16_variant() {
    let data = PathData::FormatAsU16(4242);
    let value: u16 = (&data).into();
    assert_eq!(value, 4242u16);
}
