use azure_sphere::client::default_message_disposition;
use azure_sphere::client::IotHubDeviceClient;
use azure_sphere::client_ll::decode_device_twin;
use azure_sphere::client_ll::decode_method_name;
use azure_sphere::client_ll::disposition_code;
use azure_sphere::client_ll::map_confirmation_result;
use azure_sphere::client_ll::map_connection_status_code;
use azure_sphere::client_ll::map_device_twin_update_state;
use azure_sphere::client_ll::map_retry_policy;
use azure_sphere::client_ll::retry_policy_code;
use azure_sphere::client_ll::CallbackId;
use azure_sphere::client_ll::ClientResult;
use azure_sphere::client_ll::ClientRetryPolicy;
use azure_sphere::client_ll::ConfirmationResult;
use azure_sphere::client_ll::ConnectionStatus;
use azure_sphere::client_ll::ConnectionStatusReason;
use azure_sphere::client_ll::DeviceTwinUpdateState;
use azure_sphere::client_ll::IotHubDeviceClientLowLevel;
use azure_sphere::client_ll::MessageDisposition;
use azure_sphere::message::IotHubMessage;

#[test]
fn client_result_codes() {
    assert_eq!(IotHubDeviceClientLowLevel::map_client_result(0), Ok(()));
    assert_eq!(IotHubDeviceClientLowLevel::map_client_result(1), Err(ClientResult::InvalidArg));
    assert_eq!(IotHubDeviceClientLowLevel::map_client_result(2), Err(ClientResult::Error));
    assert_eq!(IotHubDeviceClientLowLevel::map_client_result(3), Err(ClientResult::InvalidSize));
    assert_eq!(IotHubDeviceClientLowLevel::map_client_result(4), Err(ClientResult::IndefiniteTime));
    assert_eq!(IotHubDeviceClientLowLevel::map_client_result(42), Err(ClientResult::Error));
}

#[test]
fn connection_status_reason_codes() {
    let expected = [
        ConnectionStatusReason::ExpiredSasToken,
        ConnectionStatusReason::DeviceDisabled,
        ConnectionStatusReason::BadCredential,
        ConnectionStatusReason::RetryExpired,
        ConnectionStatusReason::NoNetwork,
        ConnectionStatusReason::CommunicationError,
        ConnectionStatusReason::ConnectionOk,
        ConnectionStatusReason::NoPingResponse,
    ];
    for (code, reason) in expected.iter().enumerate() {
        assert_eq!(IotHubDeviceClientLowLevel::map_connection_status(code as u32), *reason);
    }
    assert_eq!(IotHubDeviceClientLowLevel::map_connection_status(8), ConnectionStatusReason::UnknownError);
    assert_eq!(IotHubDeviceClientLowLevel::map_connection_status(200), ConnectionStatusReason::UnknownError);
    assert_eq!(map_connection_status_code(0), ConnectionStatus::Authenticated);
    assert_eq!(map_connection_status_code(1), ConnectionStatus::Unauthenticated);
    assert_eq!(map_connection_status_code(7), ConnectionStatus::Unauthenticated);
}

#[test]
fn dispositions_are_relayed_without_substitution() {
    assert_eq!(disposition_code(MessageDisposition::Accepted), 0);
    assert_eq!(disposition_code(MessageDisposition::Rejected), 1);
    assert_eq!(disposition_code(MessageDisposition::Abandoned), 2);
    assert_eq!(default_message_disposition(), MessageDisposition::Accepted);
}

#[test]
fn confirmation_and_twin_codes() {
    assert_eq!(map_confirmation_result(0), ConfirmationResult::Success);
    assert_eq!(map_confirmation_result(1), ConfirmationResult::BecauseDestroy);
    assert_eq!(map_confirmation_result(2), ConfirmationResult::MessageTimeout);
    assert_eq!(map_confirmation_result(3), ConfirmationResult::Error);
    assert_eq!(map_confirmation_result(11), ConfirmationResult::Error);
    assert_eq!(map_device_twin_update_state(0), DeviceTwinUpdateState::Complete);
    assert_eq!(map_device_twin_update_state(1), DeviceTwinUpdateState::Partial);
    assert_eq!(map_device_twin_update_state(3), DeviceTwinUpdateState::Partial);
}

#[test]
fn retry_policy_codes() {
    assert_eq!(retry_policy_code(ClientRetryPolicy::NoRetry), Ok(0));
    assert_eq!(retry_policy_code(ClientRetryPolicy::Immediate), Ok(1));
    assert_eq!(retry_policy_code(ClientRetryPolicy::Interval), Err(ClientResult::Error));
    assert_eq!(retry_policy_code(ClientRetryPolicy::LinearBackoff), Ok(3));
    assert_eq!(retry_policy_code(ClientRetryPolicy::ExponentialBackoff), Ok(4));
    assert_eq!(retry_policy_code(ClientRetryPolicy::ExponentialBackoffWithJitter), Ok(5));
    assert_eq!(retry_policy_code(ClientRetryPolicy::Random), Ok(6));
    assert_eq!(map_retry_policy(0), Ok(ClientRetryPolicy::NoRetry));
    assert_eq!(map_retry_policy(2), Err(ClientResult::Error));
    assert_eq!(map_retry_policy(6), Ok(ClientRetryPolicy::Random));
    assert_eq!(map_retry_policy(7), Err(ClientResult::Error));
}

#[test]
fn zero_handle_is_no_client() {
    assert!(IotHubDeviceClientLowLevel::from_handle(0).is_none());
    let c = IotHubDeviceClientLowLevel::from_handle(17).unwrap();
    assert_eq!(c.handle(), 17);
    assert_eq!(c.message_callback(), None);
    assert_eq!(c.retry_policy(), (ClientRetryPolicy::ExponentialBackoffWithJitter, 0));
}

#[test]
fn new_message_callback_replaces_the_old_one() {
    let ll = IotHubDeviceClientLowLevel::from_handle(5).unwrap();
    let mut client = IotHubDeviceClient::new(ll).unwrap();
    assert_eq!(client.client.message_callback(), Some(CallbackId::Default));
    assert_eq!(client.client.device_twin_callback(), Some(CallbackId::Default));
    assert_eq!(client.set_message_callback(CallbackId::User(1)), Some(CallbackId::Default));
    assert_eq!(client.client.message_callback(), Some(CallbackId::User(1)));
    assert_eq!(client.set_message_callback(CallbackId::User(2)), Some(CallbackId::User(1)));
    assert_eq!(client.client.message_callback(), Some(CallbackId::User(2)));
    assert_eq!(client.set_device_method_callback(CallbackId::User(3)), None);
    assert_eq!(client.set_connection_status_callback(CallbackId::User(4)), None);
    assert_eq!(client.client.message_callback(), Some(CallbackId::User(2)));
    assert_eq!(client.client.device_method_callback(), Some(CallbackId::User(3)));
    assert_eq!(client.client.connection_status_callback(), Some(CallbackId::User(4)));
    assert_eq!(client.set_device_twin_callback(CallbackId::Adapter), Some(CallbackId::Default));
    assert_eq!(client.do_work(), 5);
}

#[test]
fn retry_policy_round_trip() {
    let mut c = IotHubDeviceClientLowLevel::from_handle(1).unwrap();
    assert_eq!(c.set_retry_policy(ClientRetryPolicy::LinearBackoff, 30), Ok(()));
    assert_eq!(c.retry_policy(), (ClientRetryPolicy::LinearBackoff, 30));
    assert_eq!(c.set_retry_policy(ClientRetryPolicy::Interval, 5), Err(ClientResult::Error));
    assert_eq!(c.retry_policy(), (ClientRetryPolicy::LinearBackoff, 30));
}

#[test]
fn retry_policy_read_from_the_transport() {
    let mut c = IotHubDeviceClientLowLevel::from_handle(1).unwrap();
    assert_eq!(c.get_retry_policy(0, 6, 40), Ok((ClientRetryPolicy::Random, 40)));
    assert_eq!(c.retry_policy(), (ClientRetryPolicy::Random, 40));
    assert_eq!(c.get_retry_policy(1, 3, 9), Err(ClientResult::InvalidArg));
    assert_eq!(c.get_retry_policy(3, 3, 9), Err(ClientResult::InvalidSize));
    assert_eq!(c.get_retry_policy(4, 3, 9), Err(ClientResult::IndefiniteTime));
    assert_eq!(c.get_retry_policy(77, 3, 9), Err(ClientResult::Error));
    assert_eq!(c.get_retry_policy(0, 2, 9), Err(ClientResult::Error));
    assert_eq!(c.get_retry_policy(0, 12, 9), Err(ClientResult::Error));
    assert_eq!(c.retry_policy(), (ClientRetryPolicy::Random, 40));
    let mut d = IotHubDeviceClient::new(c).unwrap();
    assert_eq!(d.get_retry_policy(0, 0, 0), Ok((ClientRetryPolicy::NoRetry, 0)));
}

#[test]
fn send_then_confirm_returns_the_message_once() {
    let mut c = IotHubDeviceClientLowLevel::from_handle(3).unwrap();
    let first = c.send_event_async(IotHubMessage::from_string("one").unwrap()).unwrap();
    let second = c.send_event_async(IotHubMessage::from_bytearray(&[2]).unwrap()).unwrap();
    assert_ne!(first, second);
    let back = c.confirm_send(second).unwrap();
    assert_eq!(back.get_bytes(), Ok(vec![2]));
    assert!(c.confirm_send(second).is_none());
    let back = c.confirm_send(first).unwrap();
    assert_eq!(back.get_string(), Ok(String::from("one")));
    assert!(c.confirm_send(first).is_none());
    assert!(c.confirm_send(999).is_none());
}

#[test]
fn reported_state_contexts() {
    let mut c = IotHubDeviceClientLowLevel::from_handle(3).unwrap();
    let ctx = c.send_reported_state().unwrap();
    let next = c.send_reported_state().unwrap();
    assert_ne!(ctx, next);
    assert!(c.confirm_reported_state(ctx));
    assert!(!c.confirm_reported_state(ctx));
}

#[test]
fn device_twin_payload_is_copied_with_its_state() {
    let buffer = vec![b'{', b'}'];
    let (state, payload) = decode_device_twin(0, &buffer);
    assert_eq!(state, DeviceTwinUpdateState::Complete);
    assert_eq!(payload, buffer);
    let (state, payload) = decode_device_twin(1, &[]);
    assert_eq!(state, DeviceTwinUpdateState::Partial);
    assert!(payload.is_empty());
}

#[test]
fn method_names_are_decoded_or_refused() {
    assert_eq!(decode_method_name(b"displayAlert"), Ok(String::from("displayAlert")));
    assert_eq!(decode_method_name("héllo".as_bytes()), Ok(String::from("héllo")));
    assert_eq!(decode_method_name(&[0xff, 0xfe]), Err(()));
}
