use eipscanne_rs::cip::message::data::CipDataOpt;
use eipscanne_rs::cip::message::request::{MessageRouterRequest, RequestData};
use eipscanne_rs::cip::message::response::{MessageRouterResponse, ResponseData, ResponseStatusCode};
use eipscanne_rs::cip::message::shared::{ServiceCode, ServiceContainer};
use eipscanne_rs::cip::path::CipPath;
use eipscanne_rs::cip::types::CipByte;

#[test]
fn test_serialize_service_container() {
    let expected_byte_array: Vec<CipByte> = vec![0x01];

    let service_container_bits = ServiceContainer::new(ServiceCode::GetAttributeAll, false);
    let service_container = ServiceContainer::from(service_container_bits);

    let mut service_container_bytes: Vec<u8> = Vec::new();
    service_container_bytes.push(service_container.byte());

    assert_eq!(expected_byte_array, service_container_bytes);
}

#[test]
fn test_deserialize_request_service_container() {
    let expected_service_container = ServiceContainer::new(ServiceCode::GetAttributeAll, false);

    let raw_byte_array: Vec<CipByte> = vec![0x1];

    let deserialized_service_container = ServiceContainer::of_byte(raw_byte_array[0]);

    assert_eq!(expected_service_container, deserialized_service_container);
}

#[test]
fn test_deserialize_response_service_container() {
    let expected_service_container = ServiceContainer::new(ServiceCode::Reset, true);

    let raw_byte_array: Vec<CipByte> = vec![0b10000101];

    let deserialized_service_container = ServiceContainer::of_byte(raw_byte_array[0]);

    assert_eq!(expected_service_container, deserialized_service_container);
}

#[test]
fn test_serialize_get_attributes_all_request() {
    // Service: Get Attributes All (request), path: Identity class 0x0001,
    // instance 0x0001, as two 16-bit logical segments; path size 4 words.
    let expected_byte_array: Vec<CipByte> =
        vec![0x01, 0x04, 0x21, 0x00, 0x01, 0x00, 0x25, 0x00, 0x01, 0x00];

    let message_router_request =
        MessageRouterRequest::new(ServiceCode::GetAttributeAll, CipPath::new(0x1, 0x1));

    let mut message_router_bytes: Vec<u8> = Vec::new();
    message_router_request.write(&mut message_router_bytes);

    assert_eq!(expected_byte_array, message_router_bytes);
}

#[test]
fn test_deserialize_empty_response() {
    let raw_byte_array: Vec<CipByte> = vec![0x81, 0x00, 0x00, 0x00, 0x04];

    let (message_router_response, _) =
        MessageRouterResponse::<u8>::read(&raw_byte_array, 0, raw_byte_array.len() as u16).unwrap();

    let expected_message_router_response = MessageRouterResponse {
        service_container: ServiceContainer::from(ServiceContainer::new(
            ServiceCode::GetAttributeAll,
            true,
        )),
        response_data: ResponseData {
            status: ResponseStatusCode::Success,
            additional_status_size: 0x0,
            data: CipDataOpt::Typed(0x4u8),
        },
    };

    assert_eq!(expected_message_router_response, message_router_response);
}

#[test]
fn test_message_cip_path_byte_size() {
    let message_router_request = MessageRouterRequest::<u8> {
        service_container: ServiceContainer::from(ServiceContainer::new(
            ServiceCode::GetAttributeAll,
            false,
        )),
        request_data: RequestData::new(None, CipPath::new(0x1, 0x1), None),
    };

    let mut tmp_output_buffer: Vec<u8> = Vec::new();
    message_router_request.write(&mut tmp_output_buffer);

    assert_eq!(10, tmp_output_buffer.len());
}

#[test]
fn test_message_cip_path_request_byte_size() {
    let message_router_request =
        MessageRouterRequest::new(ServiceCode::GetAttributeAll, CipPath::new(0x1, 0x1));

    let mut tmp_output_buffer: Vec<u8> = Vec::new();
    message_router_request.write(&mut tmp_output_buffer);

    assert_eq!(10, tmp_output_buffer.len());
}

#[test]
fn test_message_cip_full_path_request_bytes() {
    // Service: Get Attribute Single (request), path: Assembly class 0x04,
    // instance 0x70, attribute 3, as three 8-bit logical segments; path
    // size 3 words.
    let expected_byte_array = vec![0x0e, 0x03, 0x20, 0x04, 0x24, 0x70, 0x30, 0x03];

    let message_router_request = MessageRouterRequest::new(
        ServiceCode::GetAttributeSingle,
        CipPath::new_full(0x4, 0x70, 0x3),
    );

    let mut tmp_output_buffer: Vec<u8> = Vec::new();
    message_router_request.write(&mut tmp_output_buffer);

    assert_eq!(expected_byte_array, tmp_output_buffer);
}

#[test]
fn test_message_cip_full_path_request_byte_size() {
    let message_router_request = MessageRouterRequest::new(
        ServiceCode::GetAttributeSingle,
        CipPath::new_full(0x1, 0x2, 0x3),
    );

    let mut tmp_output_buffer: Vec<u8> = Vec::new();
    message_router_request.write(&mut tmp_output_buffer);

    assert_eq!(8, tmp_output_buffer.len());
}
