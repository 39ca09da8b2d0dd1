use rs_pamixer::device::{
    convert_sink_state, convert_source_state, Device, DeviceState, DeviceType, SinkInfo, SinkInput,
    SinkInputInfo, SinkState, SourceInfo, SourceState,
};
use rs_pamixer::volume::ChannelVolumes;

fn sink(name: Option<&str>, state: SinkState, volumes: Vec<u32>, mute: bool) -> SinkInfo {
    SinkInfo {
        index: 3,
        name: name.map(|s| s.to_string()),
        description: Some("Built-in Audio".to_string()),
        state,
        volume: ChannelVolumes::new(volumes),
        mute,
    }
}

#[test]
fn device_from_sink_info() {
    let d = Device::from_sink_info(&sink(Some("alsa_output"), SinkState::Running, vec![32768, 32768], true));
    assert_eq!(d.index, 3);
    assert_eq!(d.device_type, DeviceType::Sink);
    assert_eq!(d.name, "alsa_output");
    assert_eq!(d.description, "Built-in Audio");
    assert_eq!(d.state, DeviceState::Running);
    assert_eq!(d.volume.values, vec![32768, 32768]);
    assert_eq!(d.volume_avg, 32768);
    assert_eq!(d.volume_percent, 50);
    assert!(d.mute);
}

#[test]
fn missing_names_become_empty() {
    let mut info = sink(None, SinkState::Idle, vec![65536, 0], false);
    info.description = None;
    let d = Device::from_sink_info(&info);
    assert_eq!(d.name, "");
    assert_eq!(d.description, "");
    assert_eq!(d.volume_avg, 32768);
    assert_eq!(d.volume_percent, 50);
}

#[test]
fn device_from_source_info() {
    let info = SourceInfo {
        index: 9,
        name: Some("mic".to_string()),
        description: None,
        state: SourceState::Suspended,
        volume: ChannelVolumes::new(vec![655]),
        mute: false,
    };
    let d = Device::from_source_info(&info);
    assert_eq!(d.index, 9);
    assert_eq!(d.device_type, DeviceType::Source);
    assert_eq!(d.state, DeviceState::Suspended);
    assert_eq!(d.volume_avg, 655);
    assert_eq!(d.volume_percent, 0);
}

#[test]
fn states_convert() {
    assert_eq!(convert_sink_state(SinkState::Running), DeviceState::Running);
    assert_eq!(convert_sink_state(SinkState::Idle), DeviceState::Idle);
    assert_eq!(convert_sink_state(SinkState::Suspended), DeviceState::Suspended);
    assert_eq!(convert_sink_state(SinkState::Invalid), DeviceState::Invalid);
    assert_eq!(convert_source_state(SourceState::Running), DeviceState::Running);
    assert_eq!(convert_source_state(SourceState::Idle), DeviceState::Idle);
    assert_eq!(convert_source_state(SourceState::Suspended), DeviceState::Suspended);
    assert_eq!(convert_source_state(SourceState::Invalid), DeviceState::Invalid);
}

#[test]
fn state_strings() {
    let mut d = Device::from_sink_info(&sink(Some("s"), SinkState::Running, vec![1], false));
    assert_eq!(d.state_string(), "Running");
    d.state = DeviceState::Idle;
    assert_eq!(d.state_string(), "Idle");
    d.state = DeviceState::Suspended;
    assert_eq!(d.state_string(), "Suspended");
    d.state = DeviceState::Invalid;
    assert_eq!(d.state_string(), "Invalid state");
}

#[test]
fn device_lines() {
    let d = Device::from_sink_info(&sink(Some("alsa_output"), SinkState::Idle, vec![1], false));
    assert_eq!(d.list_line(), "3 \"alsa_output\" \"Idle\" \"Built-in Audio\"");
    assert_eq!(d.default_line(), "3 \"alsa_output\" \"Built-in Audio\"");
    let c = d.clone();
    assert_eq!(c.list_line(), d.list_line());
}

#[test]
fn sink_input_from_info_and_line() {
    let s = SinkInput::from_sink_input_info(&SinkInputInfo {
        index: 12,
        name: Some("Firefox".to_string()),
        sink: 3,
        mute: false,
    });
    assert_eq!(s.index, 12);
    assert_eq!(s.name, "Firefox");
    assert_eq!(s.sink_index, 3);
    assert!(!s.mute);
    assert_eq!(s.list_line(), "12 \"Firefox\" -> sink 3");
    let s = SinkInput::from_sink_input_info(&SinkInputInfo { index: 1, name: None, sink: 0, mute: true });
    assert_eq!(s.name, "");
    assert!(s.mute);
}
