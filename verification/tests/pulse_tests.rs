use rs_pamixer::device::{Device, DeviceType, SinkInfo, SinkState, SourceInfo, SourceState};
use rs_pamixer::pulse::{
    connect_step, default_lookup, lookup_result, loopback_args, mirror_plan, mirror_sink_name,
    mute_request, null_sink_args, operation_outcome, operation_pending, volume_request, ConnectStep,
    ContextState, Lookup, ModuleInfo, Operation, OperationState, PulseError, ServerInfo,
};
use rs_pamixer::volume::{ChannelVolumes, VOLUME_MAX};

fn device(index: u32, name: &str, volumes: Vec<u32>) -> Device {
    Device::from_sink_info(&SinkInfo {
        index,
        name: Some(name.to_string()),
        description: None,
        state: SinkState::Running,
        volume: ChannelVolumes::new(volumes),
        mute: false,
    })
}

fn source(index: u32) -> Device {
    Device::from_source_info(&SourceInfo {
        index,
        name: Some("mic".to_string()),
        description: None,
        state: SourceState::Idle,
        volume: ChannelVolumes::new(vec![100]),
        mute: false,
    })
}

#[test]
fn lookup_takes_the_first_device() {
    let found = vec![device(4, "a", vec![1]), device(5, "b", vec![1])];
    let d = lookup_result(Lookup::SinkIndex(4), found).unwrap();
    assert_eq!(d.index, 4);
    assert_eq!(d.name, "a");
}

#[test]
fn lookup_errors_name_the_device() {
    let cases = [
        (Lookup::SinkIndex(7), "Sink 7 not found"),
        (Lookup::SinkName("foo".to_string()), "Sink 'foo' not found"),
        (Lookup::SourceIndex(0), "Source 0 not found"),
        (Lookup::SourceName("bar".to_string()), "Source 'bar' not found"),
    ];
    for (lookup, message) in cases {
        let e = lookup_result(lookup, vec![]).unwrap_err();
        assert!(matches!(e, PulseError::NotFound(_)));
        assert_eq!(e.message(), message);
    }
}

#[test]
fn default_lookup_needs_a_name() {
    let info = ServerInfo::from_names(&Some("speakers".to_string()), &None);
    assert_eq!(info.default_sink_name, "speakers");
    assert_eq!(info.default_source_name, "");
    match default_lookup(&info, DeviceType::Sink) {
        Ok(Lookup::SinkName(n)) => assert_eq!(n, "speakers"),
        other => panic!("unexpected {:?}", other),
    }
    let e = default_lookup(&info, DeviceType::Source).unwrap_err();
    assert!(matches!(e, PulseError::NoDefaultSource));
    assert_eq!(e.message(), "No default source found");
    let info = ServerInfo::from_names(&None, &Some("mic".to_string()));
    let e = default_lookup(&info, DeviceType::Sink).unwrap_err();
    assert!(matches!(e, PulseError::NoDefaultSink));
    assert_eq!(e.message(), "No default sink found");
    match default_lookup(&info, DeviceType::Source) {
        Ok(Lookup::SourceName(n)) => assert_eq!(n, "mic"),
        other => panic!("unexpected {:?}", other),
    }
}

#[test]
fn connecting_waits_until_ready_or_failed() {
    assert!(matches!(connect_step(ContextState::Ready), ConnectStep::Ready));
    for s in [
        ContextState::Unconnected,
        ContextState::Connecting,
        ContextState::Authorizing,
        ContextState::SettingName,
    ] {
        assert!(matches!(connect_step(s), ConnectStep::Wait));
    }
    match connect_step(ContextState::Failed) {
        ConnectStep::Fail(e) => assert_eq!(e.message(), "Failed to connect to PulseAudio"),
        _ => panic!("expected failure"),
    }
    match connect_step(ContextState::Terminated) {
        ConnectStep::Fail(e) => assert_eq!(e.message(), "Connection to PulseAudio terminated"),
        _ => panic!("expected failure"),
    }
}

#[test]
fn only_running_operations_are_pending() {
    assert!(operation_pending(OperationState::Running));
    assert!(!operation_pending(OperationState::Done));
    assert!(!operation_pending(OperationState::Cancelled));
}

#[test]
fn refused_requests_give_their_messages() {
    let cases = [
        (Operation::SetSinkVolume, "Failed to set volume: Failed to set sink volume"),
        (Operation::SetSourceVolume, "Failed to set volume: Failed to set source volume"),
        (Operation::SetSinkMute, "Failed to set mute: Failed to set sink mute"),
        (Operation::SetSourceMute, "Failed to set mute: Failed to set source mute"),
        (Operation::MoveSinkInput, "Failed to move sink input: Failed to move sink input"),
        (Operation::UnloadModule, "Failed to unload module: Failed to unload module"),
    ];
    for (op, message) in cases {
        assert!(operation_outcome(op, true).is_ok());
        let e = operation_outcome(op, false).unwrap_err();
        assert_eq!(e.message(), message);
    }
}

#[test]
fn volume_request_sets_every_channel() {
    let d = device(2, "a", vec![1, 2, 3]);
    let r = volume_request(&d, 40000);
    assert_eq!(r.device_type, DeviceType::Sink);
    assert_eq!(r.index, 2);
    assert_eq!(r.volume.values, vec![40000, 40000, 40000]);
    assert_eq!(r.volume.avg(), 40000);
    assert_eq!(r.operation(), Operation::SetSinkVolume);
}

#[test]
fn volume_request_caps_at_max() {
    let d = source(8);
    let r = volume_request(&d, u32::MAX);
    assert_eq!(r.volume.values, vec![VOLUME_MAX]);
    assert_eq!(r.device_type, DeviceType::Source);
    assert_eq!(r.operation(), Operation::SetSourceVolume);
}

#[test]
fn mute_request_targets_the_device() {
    let r = mute_request(&device(6, "a", vec![1]), true);
    assert_eq!((r.device_type, r.index, r.mute), (DeviceType::Sink, 6, true));
    assert_eq!(r.operation(), Operation::SetSinkMute);
    let r = mute_request(&source(1), false);
    assert_eq!(r.operation(), Operation::SetSourceMute);
    assert!(!r.mute);
}

#[test]
fn mirror_names_and_arguments() {
    assert_eq!(mirror_sink_name(42), "rs_mirror_42");
    assert_eq!(
        null_sink_args("rs_mirror_42"),
        "sink_name=rs_mirror_42 rate=48000 sink_properties=device.description=\"rs_mirror_42\""
    );
    assert_eq!(loopback_args("alsa_out", "rs_mirror_42"), "sink=alsa_out source=rs_mirror_42.monitor");
}

#[test]
fn mirror_plan_loads_null_sink_then_loopbacks() {
    let targets = vec!["hdmi".to_string(), "usb".to_string()];
    let plan = mirror_plan(&targets, "m");
    assert_eq!(plan.len(), 3);
    assert_eq!(plan[0].name, "module-null-sink");
    assert_eq!(plan[0].args, "sink_name=m rate=48000 sink_properties=device.description=\"m\"");
    assert_eq!(plan[1].name, "module-loopback");
    assert_eq!(plan[1].args, "sink=hdmi source=m.monitor");
    assert_eq!(plan[2].name, "module-loopback");
    assert_eq!(plan[2].args, "sink=usb source=m.monitor");
    assert_eq!(mirror_plan(&vec![], "m").len(), 1);
}

#[test]
fn module_info_and_line() {
    let m = ModuleInfo::from_fields(21, &Some("module-loopback".to_string()), &None);
    assert_eq!(m.index, 21);
    assert_eq!(m.name, "module-loopback");
    assert_eq!(m.argument, "");
    assert_eq!(m.list_line(), "21 \"module-loopback\" \"\"");
}
