use eipscanne_rs::cip::identity::{
    DeviceType, IdentityResponse, IdentityStatusBits, Revision, VendorId,
};
use eipscanne_rs::cip::message::data::CipDataOpt;
use eipscanne_rs::cip::message::response::{
    MessageRouterResponse, ResponseData, ResponseStatusCode,
};
use eipscanne_rs::cip::message::shared::{ServiceCode, ServiceContainer};
use eipscanne_rs::cip::types::{CipByte, CipShortString};
use eipscanne_rs::eip::command::{CommandSpecificData, EnIpCommand, EncapsStatusCode, RRPacketData};
use eipscanne_rs::eip::packet::{EnIpPacketDescription, EncapsulationHeader};
use eipscanne_rs::object_assembly::{RequestObjectAssembly, ResponseObjectAssembly};

#[test]
fn test_deserialize_device_type() {
    let generic_device_type_bytes: Vec<CipByte> = vec![0x2b, 0x00];
    let generic_device_type = DeviceType::of_code(u16::from_le_bytes([
        generic_device_type_bytes[0],
        generic_device_type_bytes[1],
    ]));
    let expected_generic_device_type = DeviceType::GenericDevice;
    assert_eq!(expected_generic_device_type, generic_device_type);

    let unknown_device_type_bytes: Vec<CipByte> = vec![0x4b, 0x00];
    let unknown_device_type = DeviceType::of_code(u16::from_le_bytes([
        unknown_device_type_bytes[0],
        unknown_device_type_bytes[1],
    ]));
    let expected_unknown_device_type = DeviceType::Unknown(0x4b);
    assert_eq!(expected_unknown_device_type, unknown_device_type);
}

#[test]
fn test_serialize_new_identity_request() {
    // Send RR Data (0x006f), length 26, session 6; item count 2, null
    // address item, unconnected data item of length 10; then a
    // get-attributes-all request for Identity class 1 instance 1, path
    // size 4 words.
    let expected_identity_byte_array: Vec<CipByte> = vec![
        0x6f, 0x00, 0x1a, 0x00, 0x06, 0x00, 0x00, 0x00, 0x00, 0x00, 0x00, 0x00, 0x00, 0x00, 0x00,
        0x00, 0x00, 0x00, 0x00, 0x00, 0x00, 0x00, 0x00, 0x00, 0x00, 0x00, 0x00, 0x00, 0x00, 0x00,
        0x02, 0x00, 0x00, 0x00, 0x00, 0x00, 0xb2, 0x00, 0x0a, 0x00, 0x01, 0x04, 0x21, 0x00, 0x01,
        0x00, 0x25, 0x00, 0x01, 0x00,
    ];

    // create an empty packet
    let identity_request_packet = RequestObjectAssembly::new_identity(0x6);

    let mut identity_byte_array: Vec<u8> = Vec::new();
    identity_request_packet.write(&mut identity_byte_array);

    assert_eq!(expected_identity_byte_array, identity_byte_array);
}

#[test]
fn test_deserialize_just_cip_identity_response() {
    // Vendor Teknic (0x01a8), generic device (0x002b), product code 1,
    // revision 2.93, status 0, serial 0x01ff3d32, product name "ClearLink".
    let identity_response_bytes: Vec<u8> = vec![
        0xa8, 0x01, 0x2b, 0x00, 0x01, 0x00, 0x02, 0x5d, 0x00, 0x00, 0x32, 0x3d, 0xff, 0x01, 0x09,
        0x43, 0x6c, 0x65, 0x61, 0x72, 0x4c, 0x69, 0x6e, 0x6b,
    ];

    let (cip_identity_response, _) = IdentityResponse::read(&identity_response_bytes, 0).unwrap();

    let expected_cip_identity_response = IdentityResponse {
        vendor_id: VendorId::TeknicInc,
        device_type: DeviceType::GenericDevice,
        product_code: 0x1,
        revision: Revision { major: 2, minor: 93 },
        status: IdentityStatusBits::new(
            false, false, false, false, 0x0, false, false, false, false, 0x0,
        )
        .into(),
        serial_number: 0x01ff3d32,
        product_name: CipShortString::from("ClearLink".to_string()),
    };

    assert_eq!(expected_cip_identity_response, cip_identity_response);
}

#[test]
fn test_deserialize_cip_identity_response() {
    let message_router_response_length: u16 = 28;

    let identity_response_bytes: Vec<u8> = vec![
        0x81, 0x00, 0x00, 0x00, 0xa8, 0x01, 0x2b, 0x00, 0x01, 0x00, 0x02, 0x5d, 0x00, 0x00, 0x32,
        0x3d, 0xff, 0x01, 0x09, 0x43, 0x6c, 0x65, 0x61, 0x72, 0x4c, 0x69, 0x6e, 0x6b,
    ];

    let (cip_identity_response, _) = MessageRouterResponse::<IdentityResponse>::read(
        &identity_response_bytes,
        0,
        message_router_response_length,
    )
    .unwrap();

    let expected_cip_identity_response = MessageRouterResponse {
        service_container: ServiceContainer::new(ServiceCode::GetAttributeAll, true),
        response_data: ResponseData {
            status: ResponseStatusCode::Success,
            additional_status_size: 0x0,
            data: CipDataOpt::Typed(IdentityResponse {
                vendor_id: VendorId::TeknicInc,
                device_type: DeviceType::GenericDevice,
                product_code: 0x1,
                revision: Revision { major: 2, minor: 93 },
                status: IdentityStatusBits::new(
                    false, false, false, false, 0x0, false, false, false, false, 0x0,
                )
                .into(),
                serial_number: 0x01ff3d32,
                product_name: CipShortString::from("ClearLink".to_string()),
            }),
        },
    };

    assert_eq!(expected_cip_identity_response, cip_identity_response);
}

#[test]
fn test_deserialize_full_identity_response() {
    // Send RR Data (0x006f), length 44, session 6; unconnected data item of
    // length 28; then a get-attributes-all response carrying the ClearLink
    // identity attributes.
    let identity_response_bytes: Vec<u8> = vec![
        0x6f, 0x00, 0x2c, 0x00, 0x06, 0x00, 0x00, 0x00, 0x00, 0x00, 0x00, 0x00, 0x00, 0x00, 0x00,
        0x00, 0x00, 0x00, 0x00, 0x00, 0x00, 0x00, 0x00, 0x00, 0x00, 0x00, 0x00, 0x00, 0x00, 0x00,
        0x02, 0x00, 0x00, 0x00, 0x00, 0x00, 0xb2, 0x00, 0x1c, 0x00, 0x81, 0x00, 0x00, 0x00, 0xa8,
        0x01, 0x2b, 0x00, 0x01, 0x00, 0x02, 0x5d, 0x00, 0x00, 0x32, 0x3d, 0xff, 0x01, 0x09, 0x43,
        0x6c, 0x65, 0x61, 0x72, 0x4c, 0x69, 0x6e, 0x6b,
    ];

    let (identity_response, _) =
        ResponseObjectAssembly::<IdentityResponse>::read(&identity_response_bytes, 0).unwrap();

    let expected_identity_response = ResponseObjectAssembly {
        packet_description: EnIpPacketDescription {
            header: EncapsulationHeader {
                command: EnIpCommand::SendRrData,
                length: Some(44),
                session_handle: 0x06,
                status_code: EncapsStatusCode::Success,
                sender_context: [0x00; 8],
                options: 0x00,
            },
            command_specific_data: CommandSpecificData::SendRrData(RRPacketData::test_with_size(
                0x0,
                0x0,
                Some(28),
            )),
        },
        cip_message: Some(MessageRouterResponse {
            service_container: ServiceContainer::new(ServiceCode::GetAttributeAll, true).into(),
            response_data: ResponseData {
                status: ResponseStatusCode::Success,
                additional_status_size: 0x0,
                data: CipDataOpt::Typed(IdentityResponse {
                    vendor_id: VendorId::TeknicInc,
                    device_type: DeviceType::GenericDevice,
                    product_code: 0x1,
                    revision: Revision { major: 2, minor: 93 },
                    status: IdentityStatusBits::new(
                        false, false, false, false, 0x0, false, false, false, false, 0x0,
                    )
                    .into(),
                    serial_number: 0x01ff3d32,
                    product_name: CipShortString::from("ClearLink".to_string()),
                }),
            },
        }),
    };

    assert_eq!(expected_identity_response, identity_response);
}
