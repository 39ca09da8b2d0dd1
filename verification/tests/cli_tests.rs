use rs_pamixer::cli::{
    device_action, device_query, mirror_report, move_report, plan_command, report_line,
    unload_module_report, unload_modules_report, validate_options, CliError, Command, Conflict,
    DeviceAction, DeviceQuery, Flag, Listing, Options,
};
use rs_pamixer::device::{Device, SinkInfo, SinkState};
use rs_pamixer::pulse::Lookup;
use rs_pamixer::device::DeviceType;
use rs_pamixer::volume::{ChannelVolumes, VOLUME_NORM};

fn options() -> Options {
    Options {
        sink: None,
        source: None,
        default_source: false,
        get_volume: false,
        get_volume_human: false,
        set_volume: None,
        increase: None,
        decrease: None,
        toggle_mute: false,
        mute: false,
        allow_boost: false,
        set_limit: None,
        unmute: false,
        get_mute: false,
        list_sinks: false,
        list_sources: false,
        get_default_sink: false,
        list_sink_inputs: false,
        move_sink_input: None,
        mirror: None,
        unload_module: None,
        unload_mirror: None,
        list_modules: false,
        version: false,
    }
}

fn give(o: &mut Options, f: Flag) {
    match f {
        Flag::SetVolume => o.set_volume = Some(10),
        Flag::Increase => o.increase = Some(10),
        Flag::Decrease => o.decrease = Some(10),
        Flag::ToggleMute => o.toggle_mute = true,
        Flag::Mute => o.mute = true,
        Flag::Unmute => o.unmute = true,
        Flag::Sink => o.sink = Some("1".to_string()),
        Flag::Source => o.source = Some("2".to_string()),
        Flag::DefaultSource => o.default_source = true,
        Flag::GetVolume => o.get_volume = true,
        Flag::GetVolumeHuman => o.get_volume_human = true,
        Flag::GetMute => o.get_mute = true,
        Flag::ListSinks => o.list_sinks = true,
        Flag::ListSources => o.list_sources = true,
        Flag::GetDefaultSink => o.get_default_sink = true,
    }
}

fn device(volume: u32, mute: bool) -> Device {
    Device::from_sink_info(&SinkInfo {
        index: 1,
        name: Some("out".to_string()),
        description: None,
        state: SinkState::Running,
        volume: ChannelVolumes::new(vec![volume, volume]),
        mute,
    })
}

const RULES: [(Flag, Flag, &str); 19] = [
    (Flag::SetVolume, Flag::Increase, "Conflicting options 'set-volume' and 'increase'"),
    (Flag::SetVolume, Flag::Decrease, "Conflicting options 'set-volume' and 'decrease'"),
    (Flag::Decrease, Flag::Increase, "Conflicting options 'decrease' and 'increase'"),
    (Flag::ToggleMute, Flag::Mute, "Conflicting options 'toggle-mute' and 'mute'"),
    (Flag::ToggleMute, Flag::Unmute, "Conflicting options 'toggle-mute' and 'unmute'"),
    (Flag::Unmute, Flag::Mute, "Conflicting options 'unmute' and 'mute'"),
    (Flag::Sink, Flag::Source, "Conflicting options 'sink' and 'source'"),
    (Flag::Sink, Flag::DefaultSource, "Conflicting options 'sink' and 'default-source'"),
    (Flag::GetVolume, Flag::ListSinks, "Conflicting options 'get-volume' and 'list-sinks'"),
    (Flag::GetVolume, Flag::ListSources, "Conflicting options 'get-volume' and 'list-sources'"),
    (Flag::GetVolume, Flag::GetVolumeHuman, "Conflicting options 'get-volume' and 'get-volume-human'"),
    (Flag::GetVolume, Flag::GetDefaultSink, "Conflicting options 'get-volume' and 'get-default-sink'"),
    (Flag::GetVolumeHuman, Flag::ListSinks, "Conflicting options 'get-volume-human' and 'list-sinks'"),
    (Flag::GetVolumeHuman, Flag::ListSources, "Conflicting options 'get-volume-human' and 'list-sources'"),
    (Flag::GetVolumeHuman, Flag::GetMute, "Conflicting options 'get-volume-human' and 'get-mute'"),
    (Flag::GetVolumeHuman, Flag::GetDefaultSink, "Conflicting options 'get-volume-human' and 'get-default-sink'"),
    (Flag::GetMute, Flag::ListSinks, "Conflicting options 'get-mute' and 'list-sinks'"),
    (Flag::GetMute, Flag::ListSources, "Conflicting options 'get-mute' and 'list-sources'"),
    (Flag::GetMute, Flag::GetDefaultSink, "Conflicting options 'get-mute' and 'get-default-sink'"),
];

#[test]
fn each_conflicting_pair_is_reported() {
    for (a, b, message) in RULES {
        let mut o = options();
        give(&mut o, a);
        give(&mut o, b);
        let c = validate_options(&o).unwrap_err();
        assert_eq!(c, Conflict { first: a, second: b });
        assert_eq!(c.message(), message);
    }
}

#[test]
fn single_options_do_not_conflict() {
    for (a, b, _) in RULES {
        for f in [a, b] {
            let mut o = options();
            give(&mut o, f);
            assert!(validate_options(&o).is_ok());
        }
    }
    assert!(validate_options(&options()).is_ok());
}

#[test]
fn the_first_conflict_in_order_is_reported() {
    let mut o = options();
    o.get_mute = true;
    o.list_sinks = true;
    o.toggle_mute = true;
    o.mute = true;
    let c = validate_options(&o).unwrap_err();
    assert_eq!(c, Conflict { first: Flag::ToggleMute, second: Flag::Mute });
}

#[test]
fn version_comes_before_conflicts() {
    let mut o = options();
    o.version = true;
    o.mute = true;
    o.unmute = true;
    assert!(matches!(plan_command(&o), Ok(Command::Version)));
    o.version = false;
    match plan_command(&o) {
        Err(e @ CliError::Conflict(_)) => assert_eq!(e.message(), "Conflicting options 'unmute' and 'mute'"),
        other => panic!("unexpected {:?}", other),
    }
}

#[test]
fn listings_come_before_other_commands() {
    let mut o = options();
    o.list_sources = true;
    o.list_modules = true;
    o.move_sink_input = Some(vec![1, 2]);
    match plan_command(&o) {
        Ok(Command::List(l)) => assert_eq!(
            l,
            Listing { sinks: false, sources: true, sink_inputs: false, modules: true, default_sink: false }
        ),
        other => panic!("unexpected {:?}", other),
    }
}

#[test]
fn move_then_mirror_then_unload() {
    let mut o = options();
    o.move_sink_input = Some(vec![5, 6]);
    o.mirror = Some(vec![1, 2]);
    assert!(matches!(plan_command(&o), Ok(Command::MoveSinkInput { input: 5, sink: 6 })));
    o.move_sink_input = None;
    o.unload_module = Some(4);
    match plan_command(&o) {
        Ok(Command::Mirror { input, sinks }) => {
            assert_eq!(input, 1);
            assert_eq!(sinks, vec![2]);
        }
        other => panic!("unexpected {:?}", other),
    }
    o.mirror = None;
    o.unload_mirror = Some("3, 4,x".to_string());
    match plan_command(&o) {
        Ok(Command::UnloadModules(m)) => assert_eq!(m, vec![3, 4]),
        other => panic!("unexpected {:?}", other),
    }
    o.unload_mirror = None;
    assert!(matches!(plan_command(&o), Ok(Command::UnloadModule(4))));
}

#[test]
fn mirror_needs_two_indices() {
    let mut o = options();
    o.mirror = Some(vec![1]);
    match plan_command(&o) {
        Err(e @ CliError::MirrorArguments) => assert_eq!(
            e.message(),
            "--mirror requires at least 2 arguments: INPUT_INDEX SINK_INDEX [SINK_INDEX...]"
        ),
        other => panic!("unexpected {:?}", other),
    }
    o.mirror = Some(vec![1, 2, 3]);
    match plan_command(&o) {
        Ok(Command::Mirror { input, sinks }) => {
            assert_eq!(input, 1);
            assert_eq!(sinks, vec![2, 3]);
        }
        other => panic!("unexpected {:?}", other),
    }
}

#[test]
fn device_selection() {
    let mut o = options();
    assert!(matches!(device_query(&o), DeviceQuery::DefaultSink));
    o.sink = Some("3".to_string());
    assert!(matches!(device_query(&o), DeviceQuery::SinkByIndex(3)));
    o.sink = Some("speakers".to_string());
    match device_query(&o) {
        DeviceQuery::SinkByName(n) => assert_eq!(n, "speakers"),
        other => panic!("unexpected {:?}", other),
    }
    o.sink = None;
    o.source = Some("+2".to_string());
    assert!(matches!(device_query(&o), DeviceQuery::SourceByIndex(2)));
    o.source = Some("-2".to_string());
    match device_query(&o) {
        DeviceQuery::SourceByName(n) => assert_eq!(n, "-2"),
        other => panic!("unexpected {:?}", other),
    }
    o.default_source = true;
    assert!(matches!(device_query(&o), DeviceQuery::DefaultSource));
    assert!(matches!(plan_command(&o), Ok(Command::Device(DeviceQuery::DefaultSource))));
}

#[test]
fn queries_name_their_lookup() {
    assert!(matches!(DeviceQuery::SinkByIndex(4).direct_lookup(), Ok(Lookup::SinkIndex(4))));
    assert!(matches!(DeviceQuery::SourceByIndex(5).direct_lookup(), Ok(Lookup::SourceIndex(5))));
    match DeviceQuery::SinkByName("a".to_string()).direct_lookup() {
        Ok(Lookup::SinkName(n)) => assert_eq!(n, "a"),
        other => panic!("unexpected {:?}", other),
    }
    match DeviceQuery::SourceByName("b".to_string()).direct_lookup() {
        Ok(Lookup::SourceName(n)) => assert_eq!(n, "b"),
        other => panic!("unexpected {:?}", other),
    }
    assert!(matches!(DeviceQuery::DefaultSink.direct_lookup(), Err(DeviceType::Sink)));
    assert!(matches!(DeviceQuery::DefaultSource.direct_lookup(), Err(DeviceType::Source)));
}

#[test]
fn set_volume_is_capped_without_boost() {
    let d = device(VOLUME_NORM, false);
    let mut o = options();
    o.set_volume = Some(150);
    assert!(matches!(device_action(&o, &d), DeviceAction::SetVolume(v) if v == VOLUME_NORM));
    o.allow_boost = true;
    assert!(matches!(device_action(&o, &d), DeviceAction::SetVolume(98304)));
    o.set_volume = Some(-20);
    assert!(matches!(device_action(&o, &d), DeviceAction::SetVolume(0)));
    o.set_volume = Some(50);
    assert!(matches!(device_action(&o, &d), DeviceAction::SetVolume(32768)));
}

#[test]
fn increase_and_decrease_adjust() {
    let d = device(VOLUME_NORM, false);
    let mut o = options();
    o.increase = Some(5);
    assert!(matches!(
        device_action(&o, &d),
        DeviceAction::AdjustVolume { delta: 5, allow_boost: false }
    ));
    o.increase = None;
    o.decrease = Some(7);
    o.allow_boost = true;
    assert!(matches!(
        device_action(&o, &d),
        DeviceAction::AdjustVolume { delta: -7, allow_boost: true }
    ));
    o.decrease = Some(-7);
    assert!(matches!(device_action(&o, &d), DeviceAction::AdjustVolume { delta: 0, .. }));
}

#[test]
fn limit_only_lowers() {
    let mut o = options();
    o.set_limit = Some(50);
    assert!(matches!(device_action(&o, &device(VOLUME_NORM, false)), DeviceAction::SetVolume(32768)));
    assert!(matches!(device_action(&o, &device(32768, false)), DeviceAction::Nothing));
    assert!(matches!(device_action(&o, &device(100, false)), DeviceAction::Nothing));
    o.set_limit = Some(-1);
    assert!(matches!(device_action(&o, &device(1, false)), DeviceAction::SetVolume(0)));
}

#[test]
fn mute_actions() {
    let mut o = options();
    o.toggle_mute = true;
    assert!(matches!(device_action(&o, &device(1, true)), DeviceAction::SetMute(false)));
    assert!(matches!(device_action(&o, &device(1, false)), DeviceAction::SetMute(true)));
    o.toggle_mute = false;
    o.mute = true;
    assert!(matches!(device_action(&o, &device(1, true)), DeviceAction::SetMute(true)));
    o.mute = false;
    o.unmute = true;
    assert!(matches!(device_action(&o, &device(1, true)), DeviceAction::SetMute(false)));
}

#[test]
fn volume_reports() {
    let d = device(32768, true);
    let mut o = options();
    assert!(report_line(&o, &d).is_none());
    assert!(matches!(device_action(&o, &d), DeviceAction::Nothing));
    o.get_volume = true;
    assert_eq!(report_line(&o, &d).unwrap(), "50");
    o.get_mute = true;
    assert_eq!(report_line(&o, &d).unwrap(), "true 50");
    o.get_volume = false;
    assert_eq!(report_line(&o, &d).unwrap(), "true");
    o.get_mute = false;
    o.get_volume_human = true;
    assert_eq!(report_line(&o, &d).unwrap(), "muted");
    assert_eq!(report_line(&o, &device(32768, false)).unwrap(), "50%");
    match device_action(&o, &d) {
        DeviceAction::Print(s) => assert_eq!(s, "muted"),
        other => panic!("unexpected {:?}", other),
    }
}

#[test]
fn command_reports() {
    assert_eq!(move_report(3, 4), "Moved sink input 3 to sink 4");
    assert_eq!(unload_module_report(17), "Unloaded module 17");
    assert_eq!(unload_modules_report(&vec![1, 2]), "Unloaded modules: [1, 2]");
    let (first, second) = mirror_report("rs_mirror_9", &vec![1, 2], &vec![30, 31, 32]);
    assert_eq!(first, "Created mirror sink 'rs_mirror_9' routing to sinks: [1, 2]");
    assert_eq!(second, "Module indices: 30,31,32 (use --unload-mirror with these indices to cleanup)");
}

#[test]
fn mirror_cleanup_reads_back_the_reported_indices() {
    let modules = vec![30u32, 31, 4294967295];
    let (_, second) = mirror_report("m", &vec![1], &modules);
    let listed = second
        .strip_prefix("Module indices: ")
        .unwrap()
        .strip_suffix(" (use --unload-mirror with these indices to cleanup)")
        .unwrap()
        .to_string();
    let mut o = options();
    o.unload_mirror = Some(listed);
    match plan_command(&o) {
        Ok(Command::UnloadModules(m)) => assert_eq!(m, modules),
        other => panic!("unexpected {:?}", other),
    }
}

#[test]
fn a_listed_index_selects_that_device() {
    let d = device(1, false);
    let line = d.list_line();
    let index = line.split(' ').next().unwrap().to_string();
    let mut o = options();
    o.sink = Some(index.clone());
    assert!(matches!(device_query(&o), DeviceQuery::SinkByIndex(1)));
    o.sink = None;
    o.source = Some(index);
    assert!(matches!(device_query(&o), DeviceQuery::SourceByIndex(1)));
}

#[test]
fn toggling_twice_restores_the_mute_state() {
    let mut o = options();
    o.toggle_mute = true;
    for start in [true, false] {
        let first = match device_action(&o, &device(1, start)) {
            DeviceAction::SetMute(m) => m,
            other => panic!("unexpected {:?}", other),
        };
        assert!(matches!(device_action(&o, &device(1, first)), DeviceAction::SetMute(m) if m == start));
    }
}
