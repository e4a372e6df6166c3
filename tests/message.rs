use azure_sphere::message::map_content_type;
use azure_sphere::message::map_message_result;
use azure_sphere::message::map_message_result_to_result;
use azure_sphere::message::ContentType;
use azure_sphere::message::IotHubMessage;
use azure_sphere::message::MessageResult;

#[test]
fn get_string_on_byte_message_is_invalid_type() {
    let m = IotHubMessage::from_bytearray(&[1, 2, 3]).unwrap();
    assert_eq!(m.get_string(), Err(MessageResult::InvalidType));
    assert_eq!(m.get_bytes(), Ok(vec![1, 2, 3]));
    assert_eq!(m.get_content_type(), ContentType::ByteArray);
}

#[test]
fn get_bytes_on_text_message_is_invalid_type() {
    let m = IotHubMessage::from_string("{\"temperature\":28.3}").unwrap();
    assert_eq!(m.get_bytes(), Err(MessageResult::InvalidType));
    assert_eq!(m.get_string(), Ok(String::from("{\"temperature\":28.3}")));
    assert_eq!(m.get_content_type(), ContentType::String);
}

#[test]
fn empty_contents_are_kept() {
    let b = IotHubMessage::from_bytearray(&[]).unwrap();
    assert_eq!(b.get_bytes(), Ok(vec![]));
    let t = IotHubMessage::from_string("").unwrap();
    assert_eq!(t.get_string(), Ok(String::new()));
}

#[test]
fn text_with_nul_is_refused() {
    assert!(matches!(IotHubMessage::from_string("a\0b"), Err(MessageResult::InvalidArg)));
}

#[test]
fn properties_set_get_and_override() {
    let mut m = IotHubMessage::from_string("x").unwrap();
    assert_eq!(m.get_property("color"), Err(()));
    assert_eq!(m.set_property("color", "red"), Ok(()));
    assert_eq!(m.set_property("size", "big"), Ok(()));
    assert_eq!(m.get_property("color"), Ok(String::from("red")));
    assert_eq!(m.set_property("color", "blue"), Ok(()));
    assert_eq!(m.get_property("color"), Ok(String::from("blue")));
    assert_eq!(m.get_property("size"), Ok(String::from("big")));
    assert_eq!(m.property_count(), 3);
    assert_eq!(m.property_at(2), (String::from("color"), String::from("blue")));
}

#[test]
fn bad_properties_are_refused() {
    let mut m = IotHubMessage::from_bytearray(&[0]).unwrap();
    assert_eq!(m.set_property("", "v"), Err(MessageResult::InvalidArg));
    assert_eq!(m.set_property("k\0", "v"), Err(MessageResult::InvalidArg));
    assert_eq!(m.set_property("k", "v\0"), Err(MessageResult::InvalidArg));
    assert_eq!(m.get_property("k"), Err(()));
    assert_eq!(m.property_count(), 0);
}

#[test]
fn system_properties() {
    let mut m = IotHubMessage::from_string("x").unwrap();
    assert_eq!(m.get_message_id(), Err(()));
    assert_eq!(m.get_correlation_id(), Err(()));
    assert_eq!(m.get_content_type_system_property(), Err(()));
    assert_eq!(m.get_content_encoding_system_property(), Err(()));
    assert_eq!(m.set_message_id("id-1"), Ok(()));
    assert_eq!(m.set_correlation_id("corr-2"), Ok(()));
    assert_eq!(m.set_content_type_system_property("application/json"), Ok(()));
    assert_eq!(m.set_content_encoding_system_property("utf-8"), Ok(()));
    assert_eq!(m.get_message_id(), Ok(String::from("id-1")));
    assert_eq!(m.get_correlation_id(), Ok(String::from("corr-2")));
    assert_eq!(m.get_content_type_system_property(), Ok(String::from("application/json")));
    assert_eq!(m.get_content_encoding_system_property(), Ok(String::from("utf-8")));
    assert_eq!(m.set_message_id("bad\0"), Err(MessageResult::InvalidArg));
    assert_eq!(m.get_message_id(), Ok(String::from("id-1")));
}

#[test]
fn clone_is_deep_and_independent() {
    let mut m = IotHubMessage::from_bytearray(&[9, 8]).unwrap();
    m.set_property("a", "1").unwrap();
    m.set_message_id("m").unwrap();
    let mut c = m.clone().unwrap();
    assert_eq!(c.get_bytes(), Ok(vec![9, 8]));
    assert_eq!(c.get_property("a"), Ok(String::from("1")));
    assert_eq!(c.get_message_id(), Ok(String::from("m")));
    c.set_property("a", "2").unwrap();
    assert_eq!(m.get_property("a"), Ok(String::from("1")));
    assert_eq!(c.get_property("a"), Ok(String::from("2")));
}

#[test]
fn message_result_codes() {
    assert_eq!(map_message_result(0), MessageResult::Success);
    assert_eq!(map_message_result(1), MessageResult::InvalidArg);
    assert_eq!(map_message_result(2), MessageResult::InvalidType);
    assert_eq!(map_message_result(3), MessageResult::Error);
    assert_eq!(map_message_result(77), MessageResult::Error);
    assert_eq!(map_message_result_to_result(0), Ok(()));
    assert_eq!(map_message_result_to_result(2), Err(MessageResult::InvalidType));
    assert_eq!(map_message_result_to_result(9), Err(MessageResult::Error));
    assert_eq!(map_content_type(0), ContentType::ByteArray);
    assert_eq!(map_content_type(1), ContentType::String);
    assert_eq!(map_content_type(2), ContentType::Unkown);
    assert_eq!(map_content_type(5), ContentType::Unkown);
}
