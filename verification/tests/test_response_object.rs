use eipscanne_rs::cip::identity::{
    DeviceType, IdentityResponse, IdentityStatusBits, Revision, VendorId,
};
use eipscanne_rs::cip::message::data::CipDataOpt;
use eipscanne_rs::cip::message::response::{
    MessageRouterResponse, ResponseData, ResponseStatusCode,
};
use eipscanne_rs::cip::message::shared::{ServiceCode, ServiceContainer};
use eipscanne_rs::cip::types::CipShortString;
use eipscanne_rs::eip::command::{CommandSpecificData, EnIpCommand, EncapsStatusCode, RRPacketData};
use eipscanne_rs::eip::packet::{EnIpPacketDescription, EncapsulationHeader};
use eipscanne_rs::object_assembly::ResponseObjectAssembly;

#[test]
fn test_serialize_rr_data() {
    let rr_data =
        CommandSpecificData::SendRrData(RRPacketData::test_with_size(0x0, 0x0, Some(28)));

    let mut rr_data_byte_array: Vec<u8> = Vec::new();
    rr_data.write(&mut rr_data_byte_array, 0);

    let expected_rr_data_bytes: Vec<u8> = vec![
        0x00, 0x00, 0x00, 0x00, 0x00, 0x00, 0x02, 0x00, 0x00, 0x00, 0x00, 0x00, 0xb2, 0x00, 0x1c,
        0x00,
    ];

    assert_eq!(expected_rr_data_bytes, rr_data_byte_array);
}

#[test]
fn test_serialize_generic_response() {
    // Send RR Data (0x006f), length 44, session 6; unconnected data item of
    // length 28; then a get-attributes-all response carrying the ClearLink
    // identity attributes as a typed payload.
    let identity_response = ResponseObjectAssembly {
        packet_description: EnIpPacketDescription {
            header: EncapsulationHeader {
                command: EnIpCommand::SendRrData,
                length: Some(44),
                session_handle: 0x06,
                status_code: EncapsStatusCode::Success,
                sender_context: [0x00; 8],
                options: 0x00,
            },
            command_specific_data: CommandSpecificData::SendRrData(RRPacketData::test_with_size(
                0x0, 0x0, None,
            )),
        },
        cip_message: Some(MessageRouterResponse {
            service_container: ServiceContainer::new(ServiceCode::GetAttributeAll, true).into(),
            response_data: ResponseData {
                status: ResponseStatusCode::Success,
                additional_status_size: 0x0,
                data: CipDataOpt::Typed(IdentityResponse {
                    vendor_id: VendorId::TeknicInc,
                    device_type: DeviceType::GenericDevice,
                    product_code: 0x1,
                    revision: Revision { major: 2, minor: 93 },
                    status: IdentityStatusBits::new(
                        false, false, false, false, 0x0, false, false, false, false, 0x0,
                    )
                    .into(),
                    serial_number: 0x01ff3d32,
                    product_name: CipShortString::from("ClearLink".to_string()),
                }),
            },
        }),
    };

    let mut identity_response_byte_array: Vec<u8> = Vec::new();
    identity_response.write(&mut identity_response_byte_array);

    let expected_identity_response_bytes: Vec<u8> = vec![
        0x6f, 0x00, 0x2c, 0x00, 0x06, 0x00, 0x00, 0x00, 0x00, 0x00, 0x00, 0x00, 0x00, 0x00, 0x00,
        0x00, 0x00, 0x00, 0x00, 0x00, 0x00, 0x00, 0x00, 0x00, 0x00, 0x00, 0x00, 0x00, 0x00, 0x00,
        0x02, 0x00, 0x00, 0x00, 0x00, 0x00, 0xb2, 0x00, 0x1c, 0x00, 0x81, 0x00, 0x00, 0x00, 0xa8,
        0x01, 0x2b, 0x00, 0x01, 0x00, 0x02, 0x5d, 0x00, 0x00, 0x32, 0x3d, 0xff, 0x01, 0x09, 0x43,
        0x6c, 0x65, 0x61, 0x72, 0x4c, 0x69, 0x6e, 0x6b,
    ];

    assert_eq!(expected_identity_response_bytes, identity_response_byte_array);
}
