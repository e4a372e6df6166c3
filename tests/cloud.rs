use azure_sphere::azureiot::IoTResult;
use azure_sphere::client_ll::ConnectionStatus as HubStatus;
use azure_sphere::client_ll::ConnectionStatusReason;
use azure_sphere::client_ll::DeviceTwinUpdateState;
use azure_sphere::cloud::azureiot_to_cloud_result;
use azure_sphere::connection::ConnectionSetup;
use azure_sphere::connection::SetupAction;
use azure_sphere::connection::SetupOutcome;
use azure_sphere::cloud::Cloud;
use azure_sphere::cloud::CloudData;
use azure_sphere::cloud::CloudNotification;
use azure_sphere::cloud::CloudResult;
use azure_sphere::datetime::build_utc_datetime;
use azure_sphere::datetime::format_utc_datetime;
use azure_sphere::datetime::UtcDateTime;
use azure_sphere::provisioning::create_from_device_auth;
use azure_sphere::provisioning::create_with_device_auth_provisioning;
use azure_sphere::provisioning::IotHubClientResult;
use azure_sphere::provisioning::ProvDeviceResult;
use azure_sphere::provisioning::ProvReturnValue;
use azure_sphere::security::map_security_type;
use azure_sphere::security::security_type_code;
use azure_sphere::security::IotHubSecurityFactory;
use azure_sphere::security::SecurityType;

#[test]
fn display_alert_is_answered_and_shown() {
    let mut d = CloudData::new();
    let (code, body) = d.device_method_callback_handler(String::from("displayAlert"), b"Fire!".to_vec());
    assert_eq!(code, 200);
    assert_eq!(body, b"\"Alert message displayed successfully.\"".to_vec());
    let n = d.take_notifications();
    assert_eq!(n.len(), 1);
    assert!(matches!(&n[0], CloudNotification::DisplayAlert(s) if s == "Fire!"));
    assert!(d.take_notifications().is_empty());
}

#[test]
fn display_alert_with_bad_utf8() {
    let mut d = CloudData::new();
    let (code, _) = d.device_method_callback_handler(String::from("displayAlert"), vec![0xc3, 0x28]);
    assert_eq!(code, 200);
    let n = d.take_notifications();
    assert!(matches!(&n[0], CloudNotification::DisplayAlert(s) if s == "Failed to convert alert to utf8"));
}

#[test]
fn unknown_method_is_ignored() {
    let mut d = CloudData::new();
    let (code, body) = d.device_method_callback_handler(String::from("reboot"), vec![]);
    assert_eq!(code, -1);
    assert_eq!(body, b"{}".to_vec());
    assert!(d.take_notifications().is_empty());
}

#[test]
fn desired_twin_setting_is_applied_and_acked() {
    let mut d = CloudData::new();
    d.device_twin_callback_handler(
        "{\"desired\":{\"thermometerTelemetryUploadEnabled\":true,\"$version\":7},\"reported\":{}}",
    );
    assert_eq!(d.last_acked_version(), 7);
    let n = d.take_notifications();
    assert_eq!(n.len(), 1);
    assert!(matches!(
        n[0],
        CloudNotification::TelemetryUploadEnabledChanged { upload_enabled: true, from_cloud: true }
    ));
}

#[test]
fn partial_twin_at_root_without_version() {
    let mut d = CloudData::new();
    d.device_twin_callback_handler("{\"thermometerTelemetryUploadEnabled\":\"yes\"}");
    assert_eq!(d.last_acked_version(), 0);
    let n = d.take_notifications();
    assert!(matches!(
        n[0],
        CloudNotification::TelemetryUploadEnabledChanged { upload_enabled: false, from_cloud: true }
    ));
}

#[test]
fn twin_without_setting_or_not_json_changes_nothing() {
    let mut d = CloudData::new();
    d.device_twin_callback_handler("{\"desired\":{\"other\":1,\"$version\":3}}");
    d.device_twin_callback_handler("not json");
    assert_eq!(d.last_acked_version(), 0);
    assert!(d.take_notifications().is_empty());
}

#[test]
fn cloud_results() {
    assert_eq!(azureiot_to_cloud_result(Ok(())), Ok(()));
    assert_eq!(azureiot_to_cloud_result(Err(IoTResult::NoNetwork)), Err(CloudResult::NoNetwork));
    assert_eq!(azureiot_to_cloud_result(Err(IoTResult::OtherFailure)), Err(CloudResult::OtherFailure));
}

#[test]
fn cloud_forwards_handlers() {
    let mut cloud = Cloud::new(String::from("hub.example"), 1, 2);
    assert_eq!(cloud.fd_list(), vec![1, 2]);
    assert_eq!(cloud.send_telemetry("{}", false), Err(CloudResult::NoNetwork));
    assert_eq!(cloud.do_work(), None);
    assert_eq!(cloud.send_telemetry("{}", true), Err(CloudResult::OtherFailure));
    assert_eq!(cloud.azureiot().connection().model_id(), "dtmi:com:example:azuresphere:thermometer;1");
    cloud.on_connection_status(HubStatus::Authenticated, ConnectionStatusReason::ConnectionOk);
    cloud.on_device_twin(
        DeviceTwinUpdateState::Complete,
        b"{\"desired\":{\"thermometerTelemetryUploadEnabled\":false,\"$version\":2}}".to_vec(),
    );
    let (code, _) = cloud.on_device_method(String::from("displayAlert"), b"hi".to_vec());
    assert_eq!(code, 200);
    let n = cloud.take_notifications();
    assert_eq!(n.len(), 3);
    assert!(matches!(n[0], CloudNotification::ConnectionChanged(true)));
    assert!(matches!(
        n[1],
        CloudNotification::TelemetryUploadEnabledChanged { upload_enabled: false, from_cloud: true }
    ));
    assert!(matches!(&n[2], CloudNotification::DisplayAlert(s) if s == "hi"));
    assert_eq!(cloud.data().last_acked_version(), 2);
    assert_eq!(cloud.drain_events().len(), 1);
}

#[test]
fn utc_timestamps() {
    assert_eq!(build_utc_datetime(0), Some(String::from("1970-01-01T00:00:00Z")));
    assert_eq!(build_utc_datetime(1_700_000_000), Some(String::from("2023-11-14T22:13:20Z")));
    assert_eq!(build_utc_datetime(-1), Some(String::from("1969-12-31T23:59:59Z")));
    assert_eq!(build_utc_datetime(i64::MAX), None);
    assert_eq!(build_utc_datetime(253_402_300_799), Some(String::from("9999-12-31T23:59:59Z")));
    assert_eq!(build_utc_datetime(253_402_300_800), Some(String::from("10000-01-01T00:00:00Z")));
    assert_eq!(build_utc_datetime(-62_167_219_200), Some(String::from("0000-01-01T00:00:00Z")));
    assert_eq!(build_utc_datetime(-62_167_219_201), Some(String::from("-001-12-31T23:59:59Z")));
    assert_eq!(Cloud::build_utc_datetime(86_399), Some(String::from("1970-01-01T23:59:59Z")));
    let t = UtcDateTime { year: 7, month: 3, day: 4, hour: 5, minute: 6, second: 9 };
    assert_eq!(format_utc_datetime(t), "0007-03-04T05:06:09Z");
    let t = UtcDateTime { year: -5, month: 12, day: 31, hour: 23, minute: 59, second: 59 };
    assert_eq!(format_utc_datetime(t), "-005-12-31T23:59:59Z");
}

#[test]
fn provisioning_results() {
    let ok = create_with_device_auth_provisioning(0, 0, 0, 12).unwrap();
    assert_eq!(ok.handle(), 12);
    assert_eq!(create_with_device_auth_provisioning(0, 0, 0, 0).err(), Some(ProvReturnValue::GenericError));
    assert_eq!(create_with_device_auth_provisioning(1, 0, 0, 0).err(), Some(ProvReturnValue::InvalidParam));
    assert_eq!(create_with_device_auth_provisioning(2, 0, 0, 0).err(), Some(ProvReturnValue::NetworkNotReady));
    assert_eq!(create_with_device_auth_provisioning(3, 0, 0, 0).err(), Some(ProvReturnValue::DeviceAuthNotReady));
    assert_eq!(
        create_with_device_auth_provisioning(4, 8, 0, 0).err(),
        Some(ProvReturnValue::ProvDeviceError(ProvDeviceResult::Timeout))
    );
    assert_eq!(
        create_with_device_auth_provisioning(4, 0, 0, 0).err(),
        Some(ProvReturnValue::ProvDeviceError(ProvDeviceResult::Error))
    );
    assert_eq!(
        create_with_device_auth_provisioning(5, 0, 3, 0).err(),
        Some(ProvReturnValue::IotHubClientError(IotHubClientResult::InvalidSize))
    );
    assert_eq!(create_with_device_auth_provisioning(6, 0, 0, 5).err(), Some(ProvReturnValue::GenericError));
    assert_eq!(create_with_device_auth_provisioning(40, 0, 0, 5).err(), Some(ProvReturnValue::GenericError));
    assert!(create_from_device_auth(0).is_none());
    assert_eq!(create_from_device_auth(8).unwrap().handle(), 8);
}

#[test]
fn security_types() {
    assert_eq!(security_type_code(SecurityType::X509), 2);
    assert_eq!(security_type_code(SecurityType::Unknown), 0);
    assert_eq!(map_security_type(4), SecurityType::SymmetricKey);
    assert_eq!(map_security_type(9), SecurityType::Unknown);
    assert!(IotHubSecurityFactory::from_init_result(0).is_ok());
    assert_eq!(IotHubSecurityFactory::from_init_result(123).err(), Some(123));
}

#[test]
fn cloud_sends_once_connected() {
    let mut cloud = Cloud::new(String::from("hub.example"), 1, 2);
    let mut setup: ConnectionSetup = cloud.connection_timer_event(true).unwrap();
    loop {
        let outcome = match setup.next_action() {
            SetupAction::CheckReadyToConnect => SetupOutcome::Ready(true),
            SetupAction::InitSecurity(_) => SetupOutcome::SecurityInitialized(0),
            SetupAction::CreateFromDeviceAuth(_) => SetupOutcome::ClientCreated(31),
            SetupAction::Finished => break,
            _ => SetupOutcome::OptionSet(0),
        };
        setup.advance(outcome);
    }
    assert_eq!(cloud.connection_status_callback(setup.finish()), 1);
    assert_eq!(cloud.do_work(), Some(31));
    assert_eq!(cloud.send_telemetry("{\"temperature\"=28.3}", true), Err(CloudResult::OtherFailure));
    cloud.on_connection_status(HubStatus::Authenticated, ConnectionStatusReason::ConnectionOk);
    assert_eq!(cloud.send_telemetry("{\"temperature\"=28.3}", true), Ok(0));
    assert_eq!(cloud.send_telemetry("{\"temperature\"=28.4}", true), Ok(1));
    cloud.on_send_confirmation(1, azure_sphere::client_ll::ConfirmationResult::MessageTimeout);
    let events = cloud.drain_events();
    assert_eq!(events.len(), 2);
    assert!(matches!(
        &events[1],
        azure_sphere::events::IotHubEvent::MessageConfirmation { message, .. }
            if message.get_string() == Ok(String::from("{\"temperature\"=28.4}"))
    ));
}

#[test]
fn cloud_delivers_native_callbacks_by_slot() {
    let mut cloud = Cloud::new(String::from("hub.example"), 1, 2);
    assert_eq!(cloud.deliver_device_method(b"displayAlert", b"x"), (-1, vec![]));
    assert!(!cloud.deliver_device_twin(0, b"{}"));
    let mut setup: ConnectionSetup = cloud.connection_timer_event(true).unwrap();
    loop {
        let outcome = match setup.next_action() {
            SetupAction::CheckReadyToConnect => SetupOutcome::Ready(true),
            SetupAction::InitSecurity(_) => SetupOutcome::SecurityInitialized(0),
            SetupAction::CreateFromDeviceAuth(_) => SetupOutcome::ClientCreated(5),
            SetupAction::Finished => break,
            _ => SetupOutcome::OptionSet(0),
        };
        setup.advance(outcome);
    }
    assert_eq!(cloud.complete_connection_attempt(setup), 1);
    assert!(cloud.deliver_connection_status(0, 6));
    assert!(cloud.deliver_device_twin(
        1,
        b"{\"thermometerTelemetryUploadEnabled\":true,\"$version\":4}"
    ));
    assert_eq!(cloud.data().last_acked_version(), 4);
    let (code, body) = cloud.deliver_device_method(b"displayAlert", b"hot");
    assert_eq!(code, 200);
    assert_eq!(body, b"\"Alert message displayed successfully.\"".to_vec());
    assert_eq!(cloud.deliver_device_method(&[0xff], b"hot"), (-1, vec![]));
    assert_eq!(cloud.deliver_device_method(b"other", b""), (-1, b"{}".to_vec()));
    assert_eq!(cloud.deliver_message(None), Some(1));
    let n = cloud.take_notifications();
    assert_eq!(n.len(), 3);
    assert!(matches!(n[0], CloudNotification::ConnectionChanged(true)));
    assert!(matches!(&n[2], CloudNotification::DisplayAlert(s) if s == "hot"));
}
