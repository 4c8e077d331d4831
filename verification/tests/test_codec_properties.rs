use eipscanne_rs::cip::message::data::CipDataOpt;
use eipscanne_rs::cip::message::response::{MessageRouterResponse, ResponseData, ResponseStatusCode};
use eipscanne_rs::cip::message::shared::{ServiceCode, ServiceContainer};
use eipscanne_rs::cip::identity::{IdentityResponse, IdentityStatus, IdentityStatusBits};
use eipscanne_rs::cip::path::{
    CipPath, LogicalPathSegment, LogicalSegmentFormat, LogicalSegmentType, PathData, SegmentType,
};
use eipscanne_rs::cip::message::request::MessageRouterRequest;
use eipscanne_rs::cip::types::CipShortString;
use eipscanne_rs::codec::CodecError;
use eipscanne_rs::eip::command::CommandSpecificData;
use eipscanne_rs::eip::description::CommonPacketDescriptor;
use eipscanne_rs::eip::packet::EncapsulationHeader;
use eipscanne_rs::object_assembly::{RequestObjectAssembly, ResponseObjectAssembly};

#[test]
fn test_service_container_byte_roundtrip_all_codes() {
    // All 128 service codes, known or unknown, with either response bit:
    // unpacking and repacking reproduces the byte.
    for b in 0..=255u8 {
        let container = ServiceContainer::of_byte(b);
        assert_eq!(b, container.byte());
        let repacked = ServiceContainer::new(container.service, container.response);
        assert_eq!(b, repacked.byte());
    }
}

#[test]
fn test_unknown_service_code_fallback() {
    // An unrecognized service code decodes without error into the unknown
    // variant carrying the raw value, and re-encodes to the original byte.
    let container = ServiceContainer::of_byte(0x7F);
    assert_eq!(
        ServiceContainer {
            service: ServiceCode::Unknown(0x7F),
            response: false
        },
        container
    );
    assert_eq!(0x7F, container.byte());

    let response_container = ServiceContainer::of_byte(0xFF);
    assert_eq!(
        ServiceContainer {
            service: ServiceCode::Unknown(0x7F),
            response: true
        },
        response_container
    );
    assert_eq!(0xFF, response_container.byte());
}

#[test]
fn test_response_bit_must_be_set() {
    // The same bytes parse as a request, but a response decode fails fast.
    let raw: Vec<u8> = vec![0x01, 0x00, 0x00, 0x00, 0x04];
    let result = MessageRouterResponse::<u8>::read(&raw, 0, raw.len() as u16);
    assert_eq!(Err(CodecError::ResponseBitNotSet(0x01)), result.map(|(_, n)| n));
}

#[test]
fn test_unknown_command_fails_decode() {
    let mut raw: Vec<u8> = vec![0x00; 24];
    raw[0] = 0x99;
    let result = EncapsulationHeader::read(&raw, 0);
    assert_eq!(Err(CodecError::UnknownCommand(0x99)), result.map(|(_, n)| n));
}

#[test]
fn test_unknown_encapsulation_status_fails_decode() {
    let mut raw: Vec<u8> = vec![0x00; 24];
    raw[0] = 0x65;
    raw[8] = 0x05;
    let result = EncapsulationHeader::read(&raw, 0);
    assert_eq!(
        Err(CodecError::UnknownEncapsStatus(0x05)),
        result.map(|(_, n)| n)
    );
}

#[test]
fn test_unknown_item_id_fails_decode() {
    let raw: Vec<u8> = vec![0x03, 0x00, 0x00, 0x00];
    let result = CommonPacketDescriptor::read(&raw, 0);
    assert_eq!(Err(CodecError::UnknownItemId(0x03)), result.map(|(_, n)| n));
}

#[test]
fn test_unknown_segment_format_fails_decode() {
    // Format bits 0b10 name neither the 8-bit nor the 16-bit data format.
    let raw: Vec<u8> = vec![0x22, 0x01];
    let result = LogicalPathSegment::read(&raw, 0);
    assert_eq!(
        Err(CodecError::UnknownSegmentFormat(0x02)),
        result.map(|(_, n)| n)
    );
}

#[test]
fn test_unknown_response_status_fails_decode() {
    let raw: Vec<u8> = vec![0x81, 0x00, 0x07, 0x00];
    let result = MessageRouterResponse::<u8>::read(&raw, 0, raw.len() as u16);
    assert_eq!(
        Err(CodecError::UnknownResponseStatus(0x07)),
        result.map(|(_, n)| n)
    );
}

#[test]
fn test_truncated_header_fails_decode() {
    let raw: Vec<u8> = vec![0x65, 0x00];
    let result = EncapsulationHeader::read(&raw, 0);
    assert_eq!(Err(CodecError::Truncated), result.map(|(_, n)| n));
}

#[test]
fn test_truncated_identity_name_fails_decode() {
    // The name's length byte says nine bytes but only one follows.
    let raw: Vec<u8> = vec![
        0xa8, 0x01, 0x2b, 0x00, 0x01, 0x00, 0x02, 0x5d, 0x00, 0x00, 0x32, 0x3d, 0xff, 0x01, 0x09,
        0x43,
    ];
    let result = IdentityResponse::read(&raw, 0);
    assert_eq!(Err(CodecError::Truncated), result.map(|(_, n)| n));
}

#[test]
fn test_identity_request_roundtrip() {
    // Encode, decode, re-encode: the decoded frame carries the computed
    // lengths and re-encodes to the same bytes.
    let request = RequestObjectAssembly::new_identity(0x6);
    let mut encoded: Vec<u8> = Vec::new();
    request.write(&mut encoded);

    let (decoded, consumed) = RequestObjectAssembly::<u8>::read(&encoded, 0).unwrap();
    assert_eq!(encoded.len(), consumed);
    assert_eq!(Some(26), decoded.packet_description.header.length);
    let decoded_message = decoded.cip_message.as_ref().unwrap();
    assert_eq!(4, decoded_message.request_data.total_word_size);

    let mut reencoded: Vec<u8> = Vec::new();
    decoded.write(&mut reencoded);
    assert_eq!(encoded, reencoded);
}

#[test]
fn test_registration_request_roundtrip() {
    let request = RequestObjectAssembly::<u8>::new_registration();
    let mut encoded: Vec<u8> = Vec::new();
    request.write(&mut encoded);

    let (decoded, consumed) = RequestObjectAssembly::<u8>::read(&encoded, 0).unwrap();
    assert_eq!(encoded.len(), consumed);
    assert!(decoded.cip_message.is_none());

    let mut reencoded: Vec<u8> = Vec::new();
    decoded.write(&mut reencoded);
    assert_eq!(encoded, reencoded);
}

#[test]
fn test_unregistration_request_roundtrip() {
    let request = RequestObjectAssembly::<u8>::new_unregistration(0x77);
    let mut encoded: Vec<u8> = Vec::new();
    request.write(&mut encoded);
    assert_eq!(24, encoded.len());

    let (decoded, consumed) = RequestObjectAssembly::<u8>::read(&encoded, 0).unwrap();
    assert_eq!(encoded.len(), consumed);
    assert_eq!(0x77, decoded.packet_description.header.session_handle);

    let mut reencoded: Vec<u8> = Vec::new();
    decoded.write(&mut reencoded);
    assert_eq!(encoded, reencoded);
}

#[test]
fn test_service_request_with_payload_roundtrip() {
    // A set-attribute-single request carrying one payload byte.
    let request = RequestObjectAssembly::new_service_request(
        0x9,
        CipPath::new_full(0x4, 0x70, 0x3),
        ServiceCode::SetAttributeSingle,
        Some(0xABu8),
    );
    let mut encoded: Vec<u8> = Vec::new();
    request.write(&mut encoded);

    let (decoded, consumed) = RequestObjectAssembly::<u8>::read(&encoded, 0).unwrap();
    assert_eq!(encoded.len(), consumed);
    // The decoded payload holds the same bytes the typed payload wrote
    // (payload equality is byte equality), and the placeholder word size
    // comes back as the measured count: three 8-bit segments, three words.
    let decoded_message = decoded.cip_message.as_ref().unwrap();
    let built_message = request.cip_message.as_ref().unwrap();
    assert_eq!(
        built_message.request_data.additional_data,
        decoded_message.request_data.additional_data
    );
    assert_eq!(3, decoded_message.request_data.total_word_size);
    assert_eq!(built_message.service_container, decoded_message.service_container);
    assert_eq!(built_message.request_data.cip_path, decoded_message.request_data.cip_path);

    let mut reencoded: Vec<u8> = Vec::new();
    decoded.write(&mut reencoded);
    assert_eq!(encoded, reencoded);
}

#[test]
fn test_response_roundtrip_empty_payload() {
    let response = ResponseObjectAssembly::<u8> {
        packet_description: eipscanne_rs::eip::packet::EnIpPacketDescription::new_cip_description(
            0x6, 0,
        ),
        cip_message: Some(MessageRouterResponse {
            service_container: ServiceContainer::new(ServiceCode::GetAttributeAll, true),
            response_data: ResponseData {
                status: ResponseStatusCode::Success,
                additional_status_size: 0,
                data: CipDataOpt::Raw(vec![]),
            },
        }),
    };
    let mut encoded: Vec<u8> = Vec::new();
    response.write(&mut encoded);

    let (decoded, consumed) = ResponseObjectAssembly::<u8>::read(&encoded, 0).unwrap();
    assert_eq!(encoded.len(), consumed);
    assert_eq!(response.cip_message, decoded.cip_message);

    let mut reencoded: Vec<u8> = Vec::new();
    decoded.write(&mut reencoded);
    assert_eq!(encoded, reencoded);
}

#[test]
fn test_header_length_counts_bytes_after_header() {
    // The header's length field equals the byte count of everything written
    // after the 24-byte header.
    let frames: Vec<Vec<u8>> = vec![
        {
            let mut out = Vec::new();
            RequestObjectAssembly::<u8>::new_registration().write(&mut out);
            out
        },
        {
            let mut out = Vec::new();
            RequestObjectAssembly::<u8>::new_unregistration(0x1).write(&mut out);
            out
        },
        {
            let mut out = Vec::new();
            RequestObjectAssembly::new_identity(0x6).write(&mut out);
            out
        },
    ];
    for frame in frames {
        let declared = u16::from_le_bytes([frame[2], frame[3]]) as usize;
        assert_eq!(frame.len() - 24, declared);
    }
}

#[test]
fn test_word_size_byte_matches_path_bytes() {
    // The declared word-size byte equals the serialized path's byte count
    // divided by two: 8 bytes -> 4 words, 6 bytes -> 3 words.
    let mut sixteen_bit: Vec<u8> = Vec::new();
    MessageRouterRequest::new(ServiceCode::GetAttributeAll, CipPath::new(0x1, 0x1))
        .write(&mut sixteen_bit);
    assert_eq!(4, sixteen_bit[1]);
    assert_eq!(2 + 8, sixteen_bit.len());

    let mut eight_bit: Vec<u8> = Vec::new();
    MessageRouterRequest::new(ServiceCode::GetAttributeSingle, CipPath::new_full(0x1, 0x2, 0x3))
        .write(&mut eight_bit);
    assert_eq!(3, eight_bit[1]);
    assert_eq!(2 + 6, eight_bit.len());
}

#[test]
fn test_unknown_segment_kind_roundtrip() {
    // An unrecognized logical-segment kind is carried through decode and
    // re-encode rather than rejected.
    let segment = LogicalPathSegment::new_u8(LogicalSegmentType::Unknown(7), 0x9);
    let mut encoded: Vec<u8> = Vec::new();
    segment.write(&mut encoded);

    let (decoded, consumed) = LogicalPathSegment::read(&encoded, 0).unwrap();
    assert_eq!(encoded.len(), consumed);
    assert_eq!(segment, decoded);
    assert_eq!(
        LogicalSegmentType::Unknown(7),
        decoded.path_definition.logical_segment_type
    );

    let mut reencoded: Vec<u8> = Vec::new();
    decoded.write(&mut reencoded);
    assert_eq!(encoded, reencoded);
}

#[test]
fn test_segment_descriptor_bytes() {
    // 16-bit class segment packs to 0x21, 8-bit attribute segment to 0x30.
    let class_segment = LogicalPathSegment::new_u16(LogicalSegmentType::ClassId, 0x1);
    assert_eq!(0x21, class_segment.path_definition.byte());
    assert_eq!(
        LogicalSegmentFormat::FormatAsU16,
        class_segment.path_definition.logical_segment_format
    );
    assert_eq!(SegmentType::LogicalSegment, class_segment.path_definition.segment_type);
    assert_eq!(PathData::FormatAsU16(0x1), class_segment.data);

    let attribute_segment = LogicalPathSegment::new_u8(LogicalSegmentType::AttributeId, 0x3);
    assert_eq!(0x30, attribute_segment.path_definition.byte());
}

#[test]
fn test_payload_equality_is_byte_equality() {
    // A raw buffer equals a typed payload exactly when the typed payload
    // serializes to those bytes.
    assert_eq!(CipDataOpt::<u8>::Raw(vec![0x7]), CipDataOpt::Typed(0x7u8));
    assert_ne!(CipDataOpt::<u8>::Raw(vec![0x8]), CipDataOpt::Typed(0x7u8));
    assert_eq!(CipDataOpt::<u8>::Raw(vec![0x7]), CipDataOpt::Raw(vec![0x7]));
}

#[test]
fn test_null_address_item_always_writes_zero_length() {
    // The null address item's length is written as zero even when a stray
    // length is stored in it.
    let rr_data = CommandSpecificData::SendRrData(eipscanne_rs::eip::command::RRPacketData {
        interface_handle: 0,
        timeout: 0,
        empty_data_packet: CommonPacketDescriptor {
            type_id: eipscanne_rs::eip::description::CommonPacketItemId::NullAddr,
            packet_length: Some(7),
        },
        unconnected_data_packet: CommonPacketDescriptor {
            type_id: eipscanne_rs::eip::description::CommonPacketItemId::UnconnectedMessage,
            packet_length: Some(28),
        },
    });

    let mut encoded: Vec<u8> = Vec::new();
    rr_data.write(&mut encoded, 0);
    assert_eq!(
        vec![
            0x00, 0x00, 0x00, 0x00, 0x00, 0x00, 0x02, 0x00, 0x00, 0x00, 0x00, 0x00, 0xb2, 0x00,
            0x1c, 0x00,
        ],
        encoded
    );
}

#[test]
fn test_short_string_bytes() {
    let name = CipShortString::from("ClearLink".to_string());
    assert_eq!(b"ClearLink".to_vec(), name.to_bytes());

    let mut encoded: Vec<u8> = Vec::new();
    name.write(&mut encoded);
    assert_eq!(
        vec![0x09, 0x43, 0x6c, 0x65, 0x61, 0x72, 0x4c, 0x69, 0x6e, 0x6b],
        encoded
    );
}

#[test]
fn test_identity_status_bits_roundtrip() {
    let bits = IdentityStatusBits::new(
        true, false, true, false, 0x5, false, true, false, true, 0xA,
    );
    let status: IdentityStatus = bits.into();
    let unpacked: IdentityStatusBits = status.into();
    assert_eq!(bits, unpacked);
}
