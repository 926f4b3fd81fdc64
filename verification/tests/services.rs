use embedded_services::cfu;
use embedded_services::debug_service_messages::{
    DebugError, DebugRequest, DebugResponse, DEBUG_CMD_GET_MSGS, STD_DEBUG_BUF_SIZE,
};
use embedded_services::keyboard::BroadcastConfig;
use embedded_services::power::policy::action::{self, DeviceState, State as ActionState, StateKind as ActionKind};
use embedded_services::power::policy::charger::{ChargerError, State as ChargerState};
use embedded_services::power::policy::device::state_machine::{Attached, Detached, Kind, Sink, Source};
use embedded_services::power::policy::device::{
    Device as PowerDevice, ResponseData as DeviceRequestResponse, State, StateKind,
};
use embedded_services::power::policy::policy::{self, ResponseData};
use embedded_services::power::policy::{DeviceId as PowerDeviceId, Error as PolicyError, PowerCapability};
use embedded_services::relay::mctp::{MessageSerializationError, SerializableMessage};
use embedded_services::transport::{endpoint_list_index, Endpoint, External, Internal, ENDPOINT_LIST_COUNT};
use embedded_services::type_c::controller::{find_node_by_port, lookup_controller, ContextToken, Device};
use embedded_services::type_c::ucsi::UsciOpcode;
use embedded_services::type_c::{ControllerId, GlobalPortId, LocalPortId, PdError};

#[test]
fn controller_port_lookups() {
    let ports = [GlobalPortId(4), GlobalPortId(7), GlobalPortId(2)];
    let controller = Device::new(ControllerId(1), &ports);
    assert_eq!(controller.id(), ControllerId(1));
    assert_eq!(controller.num_ports(), 3);
    assert_eq!(controller.lookup_global_port(LocalPortId(1)), Ok(GlobalPortId(7)));
    assert_eq!(controller.lookup_global_port(LocalPortId(3)), Err(PdError::InvalidParams));
    assert_eq!(controller.lookup_local_port(GlobalPortId(2)), Ok(LocalPortId(2)));
    assert_eq!(controller.lookup_local_port(GlobalPortId(9)), Err(PdError::InvalidParams));
    assert!(controller.has_port(GlobalPortId(4)));
    assert!(!controller.has_port(GlobalPortId(5)));
    for local in 0..3u8 {
        let global = controller.lookup_global_port(LocalPortId(local)).unwrap();
        assert_eq!(controller.lookup_local_port(global), Ok(LocalPortId(local)));
    }
}

#[test]
fn controller_with_repeated_port_finds_first() {
    let ports = [GlobalPortId(3), GlobalPortId(3)];
    let controller = Device::new(ControllerId(0), &ports);
    assert_eq!(controller.lookup_local_port(GlobalPortId(3)), Ok(LocalPortId(0)));
}

#[test]
fn registered_controllers_are_found_by_id_and_port() {
    let ports_a = [GlobalPortId(0), GlobalPortId(1)];
    let ports_b = [GlobalPortId(2)];
    let ports_c = [GlobalPortId(2), GlobalPortId(3)];
    let a = Device::new(ControllerId(0), &ports_a);
    let b = Device::new(ControllerId(1), &ports_b);
    let c = Device::new(ControllerId(1), &ports_c);
    let registered = [&a, &b, &c];
    assert_eq!(lookup_controller(&registered, ControllerId(0)).unwrap().num_ports(), 2);
    // The first controller registered with an ID is the one found
    assert_eq!(lookup_controller(&registered, ControllerId(1)).unwrap().num_ports(), 1);
    assert!(matches!(lookup_controller(&registered, ControllerId(2)), Err(PdError::InvalidController)));
    assert_eq!(find_node_by_port(&registered, GlobalPortId(1)).unwrap().id(), ControllerId(0));
    assert_eq!(find_node_by_port(&registered, GlobalPortId(2)).unwrap().num_ports(), 1);
    assert_eq!(find_node_by_port(&registered, GlobalPortId(3)).unwrap().num_ports(), 2);
    assert!(matches!(find_node_by_port(&registered, GlobalPortId(4)), Err(PdError::InvalidPort)));
    assert!(matches!(find_node_by_port(&[], GlobalPortId(0)), Err(PdError::InvalidPort)));
}

#[test]
fn context_tokens_are_created_once() {
    let mut created = false;
    assert!(ContextToken::create(&mut created).is_some());
    assert!(created);
    assert!(ContextToken::create(&mut created).is_none());
    let mut created = false;
    assert!(cfu::ContextToken::create(&mut created).is_some());
    assert!(cfu::ContextToken::create(&mut created).is_none());
    let mut created = false;
    assert!(policy::ContextToken::create(&mut created).is_some());
    assert!(policy::ContextToken::create(&mut created).is_none());
}

#[test]
fn power_capability_orders_by_power() {
    let a = PowerCapability { voltage_mv: 5000, current_ma: 3000 };
    let b = PowerCapability { voltage_mv: 20000, current_ma: 750 };
    let c = PowerCapability { voltage_mv: 9000, current_ma: 3000 };
    assert_eq!(a.max_power_mw(), 15000);
    assert_eq!(b.max_power_mw(), 15000);
    assert_eq!(c.max_power_mw(), 27000);
    assert_eq!(PowerCapability { voltage_mv: 65535, current_ma: 65535 }.max_power_mw(), 4294836);
    assert_eq!(PowerCapability { voltage_mv: 999, current_ma: 1 }.max_power_mw(), 0);
    assert_eq!(a.partial_cmp(&b), Some(std::cmp::Ordering::Equal));
    assert!(a < c);
    assert!(c > b);
    assert!(a <= b && a >= b);
}

#[test]
fn power_policy_data() {
    assert_eq!(State::Sink(PowerCapability { voltage_mv: 5000, current_ma: 500 }).kind(), StateKind::Sink);
    assert_eq!(State::Detached.kind(), StateKind::Detached);
    assert_eq!(Detached::kind(), StateKind::Detached);
    assert_eq!(Attached::kind(), StateKind::Attached);
    assert_eq!(Source::kind(), StateKind::Source);
    assert_eq!(Sink::kind(), StateKind::Sink);
    assert_eq!(ResponseData::Complete.complete_or_err(), Ok(()));
    assert_eq!(PolicyError::from(ChargerError::BusError), PolicyError::Bus);
    assert_eq!(PolicyError::from(ChargerError::Timeout), PolicyError::Failed);
    assert_eq!(PolicyError::from(ChargerError::InvalidState(ChargerState::Idle)), PolicyError::Failed);
}

#[test]
fn power_device_state_machines() {
    let cap = PowerCapability { voltage_mv: 5000, current_ma: 1500 };
    let mut device = PowerDevice::new(PowerDeviceId(4));
    assert_eq!(device.id(), PowerDeviceId(4));
    assert_eq!(device.state(), State::Detached);
    assert_eq!(device.sink_capability(), None);
    assert!(!device.is_sink());
    assert!(matches!(
        device.try_device_state_machine::<Attached>(),
        Err(PolicyError::InvalidState(StateKind::Attached, StateKind::Detached))
    ));
    assert!(matches!(
        device.try_policy_state_machine::<Sink>(),
        Err(PolicyError::InvalidState(StateKind::Sink, StateKind::Detached))
    ));

    // Device side: attach and announce a sink capability
    let detached = device.try_device_state_machine::<Detached>().ok().unwrap();
    let (attached, request) = detached.attach(&mut device);
    assert_eq!(request, policy::RequestData::NotifyAttached);
    assert_eq!(device.state(), State::Attached);
    assert_eq!(
        attached.notify_sink_power_capability(&mut device, Some(cap)),
        policy::RequestData::NotifyConsumerCapability(Some(cap))
    );
    assert_eq!(device.sink_capability(), Some(cap));
    assert_eq!(
        attached.request_source_power_capability(cap),
        policy::RequestData::RequestProviderCapability(cap)
    );

    // Policy side: a failed connect changes nothing, a completed one does
    let policy_side = device.try_policy_state_machine::<Attached>().ok().unwrap();
    assert!(matches!(
        policy_side.connect_sink(&mut device, cap, Err(PolicyError::Timeout)),
        Err(PolicyError::Timeout)
    ));
    assert_eq!(device.state(), State::Attached);
    let policy_side = device.try_policy_state_machine::<Attached>().ok().unwrap();
    let sink = policy_side.connect_sink(&mut device, cap, Ok(DeviceRequestResponse::Complete)).ok().unwrap();
    assert_eq!(device.state(), State::Sink(cap));
    assert!(device.is_sink());
    assert!(sink.disconnect(Ok(DeviceRequestResponse::Complete)).is_ok());
    // The policy's disconnect leaves the state to the device side
    assert_eq!(device.state(), State::Sink(cap));

    // Device side: disconnect and detach
    let sinking = device.try_device_state_machine::<Sink>().ok().unwrap();
    let (_, request) = sinking.disconnect(&mut device);
    assert_eq!(request, policy::RequestData::NotifyDisconnect);
    assert_eq!(device.state(), State::Attached);
    let policy_side = device.try_policy_state_machine::<Attached>().ok().unwrap();
    let _source = policy_side.connect_source(&mut device, cap, Ok(DeviceRequestResponse::Complete)).ok().unwrap();
    assert_eq!(device.state(), State::Source(cap));
    let (_, request) = device.try_device_state_machine::<Source>().ok().unwrap().detach(&mut device);
    assert_eq!(request, policy::RequestData::NotifyDetached);
    assert_eq!(device.state(), State::Detached);
    assert_eq!(device.sink_capability(), Some(cap));
}

#[test]
fn debug_messages_round_trip() {
    let mut log = [0u8; STD_DEBUG_BUF_SIZE];
    for (i, b) in log.iter_mut().enumerate() {
        *b = i as u8;
    }
    let response = DebugResponse::DebugGetMsgsResponse { debug_buf: log };
    let mut buffer = [0xeeu8; STD_DEBUG_BUF_SIZE + 2];
    assert_eq!(response.discriminant(), DEBUG_CMD_GET_MSGS);
    assert_eq!(response.serialize(&mut buffer), Ok(STD_DEBUG_BUF_SIZE));
    assert_eq!(&buffer[..STD_DEBUG_BUF_SIZE], &log[..]);
    assert_eq!(&buffer[STD_DEBUG_BUF_SIZE..], &[0xee, 0xee]);
    assert!(DebugResponse::deserialize(DEBUG_CMD_GET_MSGS, &buffer) == Ok(response));
    assert!(
        DebugResponse::deserialize(DEBUG_CMD_GET_MSGS, &buffer[..10]) == Err(MessageSerializationError::BufferTooSmall)
    );
    assert!(
        DebugResponse::deserialize(2, &buffer) == Err(MessageSerializationError::UnknownMessageDiscriminant(2))
    );
    let mut small = [0u8; 10];
    assert_eq!(response.serialize(&mut small), Err(MessageSerializationError::BufferTooSmall));
    assert_eq!(small, [0u8; 10]);

    let request = DebugRequest::DebugGetMsgsRequest;
    assert_eq!(request.discriminant(), 1);
    assert_eq!(request.serialize(&mut small), Ok(0));
    assert_eq!(DebugRequest::deserialize(1, &[]), Ok(DebugRequest::DebugGetMsgsRequest));
    assert_eq!(
        DebugRequest::deserialize(7, &[]),
        Err(MessageSerializationError::UnknownMessageDiscriminant(7))
    );
    assert_eq!(DebugError::UnspecifiedFailure.discriminant(), 1);
    assert_eq!(DebugError::UnspecifiedFailure.serialize(&mut small), Ok(0));
    assert!(DebugError::deserialize(1, &[]).is_err());
}

#[test]
fn endpoints_route_to_their_lists() {
    assert_eq!(Endpoint::from(Internal::Hid), Endpoint::Internal(Internal::Hid));
    assert_eq!(Endpoint::from(External::Host), Endpoint::External(External::Host));
    assert_eq!(endpoint_list_index(External::Host.into()), 0);
    assert_eq!(endpoint_list_index(Internal::Security.into()), 14);
    assert_eq!(
        endpoint_list_index(Internal::Oem(3).into()),
        endpoint_list_index(Internal::Oem(-9).into())
    );
    assert_ne!(
        endpoint_list_index(Internal::Oem(3).into()),
        endpoint_list_index(External::Oem(3).into())
    );
    assert_ne!(endpoint_list_index(Internal::Debug.into()), endpoint_list_index(External::Debug.into()));
    assert_eq!(endpoint_list_index(Internal::Oem(0).into()), ENDPOINT_LIST_COUNT - 1);
}

#[test]
fn keyboard_broadcast_config() {
    let mut config = BroadcastConfig::default();
    assert!(!config.broadcast_hid() && !config.broadcast_host());
    config.enable_broadcast_host();
    assert!(config.broadcast_host() && !config.broadcast_hid());
    config.enable_broadcast_hid();
    assert!(config.broadcast_host() && config.broadcast_hid());
}

#[test]
fn usci_opcode_numbers() {
    assert_eq!(u8::from(UsciOpcode::PpmReset), 0x01);
    assert_eq!(u8::from(UsciOpcode::GetAttentionVdo), 0x16);
    assert_eq!(u8::from(UsciOpcode::GetCamCs), 0x18);
    assert_eq!(u8::from(UsciOpcode::ChunkingSupport), 0x1f);
    assert_eq!(u8::from(UsciOpcode::SetUsb), 0x21);
    assert_eq!(u8::from(UsciOpcode::GetLpmPpmInfo), 0x22);
}

#[test]
fn power_actions_follow_the_device_state() {
    let cap = PowerCapability { voltage_mv: 5000, current_ma: 3000 };
    let other = PowerCapability { voltage_mv: 9000, current_ma: 2000 };
    let mut device = DeviceState::new();
    assert_eq!(device.device_action().kind(), ActionKind::Detached);
    assert_eq!(device.policy_action().kind(), ActionKind::Detached);

    // Device side: attach and announce a consumer capability
    let detached = match device.device_action() {
        action::device::AnyState::Detached(d) => d,
        _ => unreachable!(),
    };
    let (idle, request) = detached.attach(&mut device);
    assert_eq!(request, policy::RequestData::NotifyAttached);
    assert_eq!(device.state, ActionState::Idle);
    assert_eq!(
        idle.notify_consumer_power_capability(&mut device, Some(cap)),
        policy::RequestData::NotifyConsumerCapability(Some(cap))
    );
    assert_eq!(device.consumer_capability, Some(cap));
    assert_eq!(
        idle.request_provider_power_capability(&device, cap),
        Some(policy::RequestData::RequestProviderCapability(cap))
    );

    // Policy side: connect as a provider; a repeated request for the same power asks nothing
    let policy_idle = match device.policy_action() {
        action::policy::AnyState::Idle(p) => p,
        _ => unreachable!(),
    };
    let provider = policy_idle.connect_provider(&mut device, cap, Ok(DeviceRequestResponse::Complete)).ok().unwrap();
    assert_eq!(device.state, ActionState::ConnectedProvider(cap));
    assert_eq!(provider.power_capability(&device), cap);
    let provider_side = match device.device_action() {
        action::device::AnyState::ConnectedProvider(d) => d,
        _ => unreachable!(),
    };
    assert_eq!(provider_side.request_provider_power_capability(&device, cap), None);
    assert_eq!(
        provider_side.request_provider_power_capability(&device, other),
        Some(policy::RequestData::RequestProviderCapability(other))
    );

    // A failed disconnect of a provider puts the device into recovery and keeps its state
    assert!(matches!(provider.disconnect(&mut device, Err(PolicyError::Timeout)), Err(PolicyError::Timeout)));
    assert_eq!(device.state, ActionState::ConnectedProvider(cap));
    assert!(device.in_recovery);
    let provider = match device.policy_action() {
        action::policy::AnyState::ConnectedProvider(p) => p,
        _ => unreachable!(),
    };
    let idle_policy = provider.disconnect(&mut device, Ok(DeviceRequestResponse::Complete)).ok().unwrap();
    assert_eq!(device.state, ActionState::Idle);
    assert!(!device.in_recovery);
    let _consumer = idle_policy.connect_consumer(&mut device, other, Ok(DeviceRequestResponse::Complete)).ok().unwrap();
    assert_eq!(device.state, ActionState::ConnectedConsumer(other));
    assert_eq!(device.provider_capability(), None);

    // Device side: detach forgets the consumer capability
    let consumer_side = match device.device_action() {
        action::device::AnyState::ConnectedConsumer(d) => d,
        _ => unreachable!(),
    };
    let (_, request) = consumer_side.detach(&mut device);
    assert_eq!(request, policy::RequestData::NotifyDetached);
    assert_eq!(device, DeviceState::new());
}
