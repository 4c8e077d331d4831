use eipscanne_rs::cip::types::CipByte;
use eipscanne_rs::eip::command::{CommandSpecificData, EnIpCommand, EncapsStatusCode, RegisterData};
use eipscanne_rs::eip::packet::{EnIpPacketDescription, EncapsulationHeader};
use eipscanne_rs::object_assembly::ResponseObjectAssembly;

#[test]
fn test_serialize_register_session_request() {
    // Encapsulation header: Register Session (0x0065), length 4, session 0,
    // success, zero context, no options; payload: protocol version 1, no
    // option flags.
    let expected_byte_array: Vec<CipByte> = vec![
        0x65, 0x00, 0x04, 0x00, 0x00, 0x00, 0x00, 0x00, 0x00, 0x00, 0x00, 0x00, 0x00, 0x00, 0x00,
        0x00, 0x00, 0x00, 0x00, 0x00, 0x00, 0x00, 0x00, 0x00, 0x01, 0x00, 0x00, 0x00,
    ];

    // create an empty packet
    let registration_packet = EnIpPacketDescription::new_registration_description();

    // Write into a byte array; no CIP message follows a registration.
    let mut registration_byte_array: Vec<u8> = Vec::new();
    registration_packet.write(&mut registration_byte_array, 0);

    assert_eq!(expected_byte_array, registration_byte_array);
}

#[test]
fn test_deserialize_register_session_response_packet_description() {
    let raw_response: Vec<CipByte> = vec![
        0x65, 0x00, 0x04, 0x00, 0x06, 0x00, 0x00, 0x00, 0x00, 0x00, 0x00, 0x00, 0x00, 0x00, 0x00,
        0x00, 0x00, 0x00, 0x00, 0x00, 0x00, 0x00, 0x00, 0x00, 0x01, 0x00, 0x00, 0x00,
    ];

    let (session_response, _) = EnIpPacketDescription::read(&raw_response, 0).unwrap();

    let expected_session_header = EncapsulationHeader {
        command: EnIpCommand::RegisterSession,
        length: Some(0x04),
        session_handle: 0x006,
        status_code: EncapsStatusCode::Success,
        sender_context: [0x00; 8],
        options: 0x00,
    };

    assert_eq!(expected_session_header, session_response.header);

    let expected_packet_description = CommandSpecificData::RegisterSession(RegisterData {
        protocol_version: 0x1,
        option_flags: 0x00,
    });

    assert_eq!(
        expected_packet_description,
        session_response.command_specific_data
    );

    let expected_packet = EnIpPacketDescription {
        header: expected_session_header,
        command_specific_data: expected_packet_description,
    };

    assert_eq!(expected_packet, session_response);
}

#[test]
fn test_deserialize_register_session_response() {
    let raw_response: Vec<CipByte> = vec![
        0x65, 0x00, 0x04, 0x00, 0x06, 0x00, 0x00, 0x00, 0x00, 0x00, 0x00, 0x00, 0x00, 0x00, 0x00,
        0x00, 0x00, 0x00, 0x00, 0x00, 0x00, 0x00, 0x00, 0x00, 0x01, 0x00, 0x00, 0x00,
    ];

    let (session_response_object, _) =
        ResponseObjectAssembly::<u8>::read(&raw_response, 0).unwrap();

    let expected_session_header = EncapsulationHeader {
        command: EnIpCommand::RegisterSession,
        length: Some(0x04),
        session_handle: 0x006,
        status_code: EncapsStatusCode::Success,
        sender_context: [0x00; 8],
        options: 0x00,
    };

    assert_eq!(
        expected_session_header,
        session_response_object.packet_description.header
    );

    let expected_packet_description = CommandSpecificData::RegisterSession(RegisterData {
        protocol_version: 0x1,
        option_flags: 0x00,
    });

    assert_eq!(
        expected_packet_description,
        session_response_object.packet_description.command_specific_data
    );

    let expected_packet = EnIpPacketDescription {
        header: expected_session_header,
        command_specific_data: expected_packet_description,
    };

    assert_eq!(expected_packet, session_response_object.packet_description);
}

#[test]
fn test_serialize_unregister_session_request() {
    // Encapsulation header: Unregister Session (0x0066), length 0,
    // session 6, success, zero context, no options; empty payload.
    let expected_byte_array: Vec<CipByte> = vec![
        0x66, 0x00, 0x00, 0x00, 0x06, 0x00, 0x00, 0x00, 0x00, 0x00, 0x00, 0x00, 0x00, 0x00, 0x00,
        0x00, 0x00, 0x00, 0x00, 0x00, 0x00, 0x00, 0x00, 0x00,
    ];

    // create an empty packet
    let unregistration_packet = EnIpPacketDescription::new_unregistration_description(0x6);

    let mut unregistration_byte_array: Vec<u8> = Vec::new();
    unregistration_packet.write(&mut unregistration_byte_array, 0);

    assert_eq!(expected_byte_array, unregistration_byte_array);
}
