use eipscanne_rs::cip::message::request::{MessageRouterRequest, RequestData};
use eipscanne_rs::cip::message::shared::{ServiceCode, ServiceContainer};
use eipscanne_rs::cip::path::CipPath;
use eipscanne_rs::cip::types::CipByte;
use eipscanne_rs::eip::command::{
    CommandSpecificData, EnIpCommand, EncapsStatusCode, RRPacketData, RegisterData,
};
use eipscanne_rs::eip::packet::{EnIpPacketDescription, EncapsulationHeader};
use eipscanne_rs::object_assembly::RequestObjectAssembly;

#[test]
fn test_deserialize_cip_identity_request() {
    // Send RR Data (0x006f), length 26, session 6; item count 2, null
    // address item, unconnected data item of length 10; then a
    // get-attributes-all request for Identity class 1 instance 1.
    let identity_request_byte_array: Vec<CipByte> = vec![
        0x6f, 0x00, 0x1a, 0x00, 0x06, 0x00, 0x00, 0x00, 0x00, 0x00, 0x00, 0x00, 0x00, 0x00, 0x00,
        0x00, 0x00, 0x00, 0x00, 0x00, 0x00, 0x00, 0x00, 0x00, 0x00, 0x00, 0x00, 0x00, 0x00, 0x00,
        0x02, 0x00, 0x00, 0x00, 0x00, 0x00, 0xb2, 0x00, 0x0a, 0x00, 0x01, 0x04, 0x21, 0x00, 0x01,
        0x00, 0x25, 0x00, 0x01, 0x00,
    ];

    let (cip_identity_request, _) =
        RequestObjectAssembly::<u8>::read(&identity_request_byte_array, 0).unwrap();

    let expected_identity_packet = RequestObjectAssembly {
        packet_description: EnIpPacketDescription {
            header: EncapsulationHeader {
                command: EnIpCommand::SendRrData,
                length: Some(26),
                session_handle: 0x06,
                status_code: EncapsStatusCode::Success,
                sender_context: [0x00; 8],
                options: 0x00,
            },
            command_specific_data: CommandSpecificData::SendRrData(RRPacketData::test_with_size(
                0x0,
                0x0,
                Some(10),
            )),
        },
        cip_message: Some(MessageRouterRequest {
            service_container: ServiceContainer::new(ServiceCode::GetAttributeAll, false),
            request_data: RequestData::new(Some(0x4), CipPath::new(0x1, 0x1), None),
        }),
    };

    assert_eq!(expected_identity_packet, cip_identity_request);
}

#[test]
fn test_deserialize_registration_request() {
    let registration_request_byte_array: Vec<CipByte> = vec![
        0x65, 0x00, 0x04, 0x00, 0x00, 0x00, 0x00, 0x00, 0x00, 0x00, 0x00, 0x00, 0x00, 0x00, 0x00,
        0x00, 0x00, 0x00, 0x00, 0x00, 0x00, 0x00, 0x00, 0x00, 0x01, 0x00, 0x00, 0x00,
    ];

    let (registration_request, _) =
        RequestObjectAssembly::<u8>::read(&registration_request_byte_array, 0).unwrap();

    let expected_identity_packet = RequestObjectAssembly::<u8> {
        packet_description: EnIpPacketDescription {
            header: EncapsulationHeader {
                command: EnIpCommand::RegisterSession,
                length: Some(4),
                session_handle: 0x00,
                status_code: EncapsStatusCode::Success,
                sender_context: [0x00; 8],
                options: 0x00,
            },
            command_specific_data: CommandSpecificData::RegisterSession(RegisterData {
                protocol_version: 1,
                option_flags: 0x00,
            }),
        },
        cip_message: None,
    };

    assert_eq!(expected_identity_packet, registration_request);
}
