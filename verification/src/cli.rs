//! The command line: which options conflict, what a command line asks for,
//! and what the mixer reports back.

use vstd::prelude::*;

verus! {

/// The options of the command line.
#[derive(Debug)]
pub struct Options {
    /// Choose a different sink than the default
    pub sink: Option<String>,
    /// Choose a different source than the default
    pub source: Option<String>,
    /// Select the default source
    pub default_source: bool,
    /// Get the current volume
    pub get_volume: bool,
    /// Get the current volume percentage or "muted"
    pub get_volume_human: bool,
    /// Set the volume
    pub set_volume: Option<i32>,
    /// Increase the volume
    pub increase: Option<i32>,
    /// Decrease the volume
    pub decrease: Option<i32>,
    /// Switch between mute and unmute
    pub toggle_mute: bool,
    /// Set mute
    pub mute: bool,
    /// Allow volume to go above 100%
    pub allow_boost: bool,
    /// Set a limit for the volume
    pub set_limit: Option<i32>,
    /// Unset mute
    pub unmute: bool,
    /// Display true if the volume is mute, false otherwise
    pub get_mute: bool,
    /// List the sinks
    pub list_sinks: bool,
    /// List the sources
    pub list_sources: bool,
    /// Print the default sink
    pub get_default_sink: bool,
    /// List sink inputs (application audio streams)
    pub list_sink_inputs: bool,
    /// Move a sink input to a different sink (routing)
    pub move_sink_input: Option<Vec<u32>>,
    /// Mirror a sink input to multiple sinks
    pub mirror: Option<Vec<u32>>,
    /// Unload a module by index (for cleanup)
    pub unload_module: Option<u32>,
    /// Unload multiple modules (for mirror cleanup) - comma-separated indices
    pub unload_mirror: Option<String>,
    /// List loaded modules
    pub list_modules: bool,
    /// Print version info
    pub version: bool,
}

/// An option that can conflict with another.
#[derive(Debug, Clone, Copy, PartialEq, Eq, Structural)]
pub enum Flag {
    SetVolume,
    Increase,
    Decrease,
    ToggleMute,
    Mute,
    Unmute,
    Sink,
    Source,
    DefaultSource,
    GetVolume,
    GetVolumeHuman,
    GetMute,
    ListSinks,
    ListSources,
    GetDefaultSink,
}

/// Whether the command line gives an option.
pub open spec fn flag_given(o: &Options, f: Flag) -> bool {
    match f {
        Flag::SetVolume => o.set_volume is Some,
        Flag::Increase => o.increase is Some,
        Flag::Decrease => o.decrease is Some,
        Flag::ToggleMute => o.toggle_mute,
        Flag::Mute => o.mute,
        Flag::Unmute => o.unmute,
        Flag::Sink => o.sink is Some,
        Flag::Source => o.source is Some,
        Flag::DefaultSource => o.default_source,
        Flag::GetVolume => o.get_volume,
        Flag::GetVolumeHuman => o.get_volume_human,
        Flag::GetMute => o.get_mute,
        Flag::ListSinks => o.list_sinks,
        Flag::ListSources => o.list_sources,
        Flag::GetDefaultSink => o.get_default_sink,
    }
}

/// Whether the command line gives an option.
pub fn flag_is_given(o: &Options, f: Flag) -> (b: bool)
    ensures
        b == flag_given(o, f),
{
    match f {
        Flag::SetVolume => o.set_volume.is_some(),
        Flag::Increase => o.increase.is_some(),
        Flag::Decrease => o.decrease.is_some(),
        Flag::ToggleMute => o.toggle_mute,
        Flag::Mute => o.mute,
        Flag::Unmute => o.unmute,
        Flag::Sink => o.sink.is_some(),
        Flag::Source => o.source.is_some(),
        Flag::DefaultSource => o.default_source,
        Flag::GetVolume => o.get_volume,
        Flag::GetVolumeHuman => o.get_volume_human,
        Flag::GetMute => o.get_mute,
        Flag::ListSinks => o.list_sinks,
        Flag::ListSources => o.list_sources,
        Flag::GetDefaultSink => o.get_default_sink,
    }
}

/// Two options that may not be given together.
#[derive(Debug, Clone, Copy, PartialEq, Eq, Structural)]
pub struct Conflict {
    pub first: Flag,
    pub second: Flag,
}

/// The pairs of options that may not be given together, in the order in
/// which they are checked.
pub open spec fn conflict_rules() -> Seq<Conflict> {
    seq![
        Conflict { first: Flag::SetVolume, second: Flag::Increase },
        Conflict { first: Flag::SetVolume, second: Flag::Decrease },
        Conflict { first: Flag::Decrease, second: Flag::Increase },
        Conflict { first: Flag::ToggleMute, second: Flag::Mute },
        Conflict { first: Flag::ToggleMute, second: Flag::Unmute },
        Conflict { first: Flag::Unmute, second: Flag::Mute },
        Conflict { first: Flag::Sink, second: Flag::Source },
        Conflict { first: Flag::Sink, second: Flag::DefaultSource },
        Conflict { first: Flag::GetVolume, second: Flag::ListSinks },
        Conflict { first: Flag::GetVolume, second: Flag::ListSources },
        Conflict { first: Flag::GetVolume, second: Flag::GetVolumeHuman },
        Conflict { first: Flag::GetVolume, second: Flag::GetDefaultSink },
        Conflict { first: Flag::GetVolumeHuman, second: Flag::ListSinks },
        Conflict { first: Flag::GetVolumeHuman, second: Flag::ListSources },
        Conflict { first: Flag::GetVolumeHuman, second: Flag::GetMute },
        Conflict { first: Flag::GetVolumeHuman, second: Flag::GetDefaultSink },
        Conflict { first: Flag::GetMute, second: Flag::ListSinks },
        Conflict { first: Flag::GetMute, second: Flag::ListSources },
        Conflict { first: Flag::GetMute, second: Flag::GetDefaultSink },
    ]
}

/// Whether the command line gives both options of a pair.
pub open spec fn conflict_holds(o: &Options, c: Conflict) -> bool {
    flag_given(o, c.first) && flag_given(o, c.second)
}

/// The first pair of options, from the `i`-th rule on, that the command line
/// gives together.
pub open spec fn first_conflict_from(o: &Options, i: nat) -> Option<Conflict>
    decreases conflict_rules().len() - i,
{
    if i >= conflict_rules().len() {
        None
    } else if conflict_holds(o, conflict_rules()[i as int]) {
        Some(conflict_rules()[i as int])
    } else {
        first_conflict_from(o, i + 1)
    }
}

/// The first pair of conflicting options that the command line gives.
pub open spec fn first_conflict(o: &Options) -> Option<Conflict> {
    first_conflict_from(o, 0)
}

fn conflict_rule_list() -> (v: Vec<Conflict>)
    ensures
        v@ == conflict_rules(),
{
    let mut v: Vec<Conflict> = Vec::new();
    v.push(Conflict { first: Flag::SetVolume, second: Flag::Increase });
    v.push(Conflict { first: Flag::SetVolume, second: Flag::Decrease });
    v.push(Conflict { first: Flag::Decrease, second: Flag::Increase });
    v.push(Conflict { first: Flag::ToggleMute, second: Flag::Mute });
    v.push(Conflict { first: Flag::ToggleMute, second: Flag::Unmute });
    v.push(Conflict { first: Flag::Unmute, second: Flag::Mute });
    v.push(Conflict { first: Flag::Sink, second: Flag::Source });
    v.push(Conflict { first: Flag::Sink, second: Flag::DefaultSource });
    v.push(Conflict { first: Flag::GetVolume, second: Flag::ListSinks });
    v.push(Conflict { first: Flag::GetVolume, second: Flag::ListSources });
    v.push(Conflict { first: Flag::GetVolume, second: Flag::GetVolumeHuman });
    v.push(Conflict { first: Flag::GetVolume, second: Flag::GetDefaultSink });
    v.push(Conflict { first: Flag::GetVolumeHuman, second: Flag::ListSinks });
    v.push(Conflict { first: Flag::GetVolumeHuman, second: Flag::ListSources });
    v.push(Conflict { first: Flag::GetVolumeHuman, second: Flag::GetMute });
    v.push(Conflict { first: Flag::GetVolumeHuman, second: Flag::GetDefaultSink });
    v.push(Conflict { first: Flag::GetMute, second: Flag::ListSinks });
    v.push(Conflict { first: Flag::GetMute, second: Flag::ListSources });
    v.push(Conflict { first: Flag::GetMute, second: Flag::GetDefaultSink });
    assert(v@ =~= conflict_rules());
    v
}

/// Checks that no two conflicting options are given together; the error
/// names the first conflicting pair, in the order of `conflict_rules`.
pub fn validate_options(o: &Options) -> (r: Result<(), Conflict>)
    ensures
        r == (match first_conflict(o) {
            None => Ok::<(), Conflict>(()),
            Some(c) => Err(c),
        }),
{
    let rules = conflict_rule_list();
    let mut i: usize = 0;
    while i < rules.len()
        invariant
            i <= rules.len(),
            rules@ == conflict_rules(),
            first_conflict(o) == first_conflict_from(o, i as nat),
        decreases rules.len() - i,
    {
        let c = rules[i];
        if flag_is_given(o, c.first) && flag_is_given(o, c.second) {
            return Err(c);
        }
        i = i + 1;
    }
    Ok(())
}

proof fn lemma_first_conflict_from(o: &Options, i: nat)
    ensures
        first_conflict_from(o, i) is None <==> forall|k: int|
            i <= k < conflict_rules().len() ==> !conflict_holds(o, #[trigger] conflict_rules()[k]),
        first_conflict_from(o, i) matches Some(c) ==> conflict_holds(o, c),
    decreases conflict_rules().len() - i,
{
    if i < conflict_rules().len() {
        lemma_first_conflict_from(o, i + 1);
    }
}

/// The options are accepted exactly when no pair of conflicting options is
/// given together, and a reported conflict is one the command line gives.
pub proof fn lemma_validate_accepts_exactly(o: &Options)
    ensures
        first_conflict(o) is None <==> forall|k: int|
            0 <= k < conflict_rules().len() ==> !conflict_holds(o, #[trigger] conflict_rules()[k]),
        first_conflict(o) matches Some(c) ==> flag_given(o, c.first) && flag_given(o, c.second),
{
    lemma_first_conflict_from(o, 0);
}

/// The name of an option on the command line.
pub open spec fn flag_name_spec(f: Flag) -> Seq<char> {
    match f {
        Flag::SetVolume => "set-volume"@,
        Flag::Increase => "increase"@,
        Flag::Decrease => "decrease"@,
        Flag::ToggleMute => "toggle-mute"@,
        Flag::Mute => "mute"@,
        Flag::Unmute => "unmute"@,
        Flag::Sink => "sink"@,
        Flag::Source => "source"@,
        Flag::DefaultSource => "default-source"@,
        Flag::GetVolume => "get-volume"@,
        Flag::GetVolumeHuman => "get-volume-human"@,
        Flag::GetMute => "get-mute"@,
        Flag::ListSinks => "list-sinks"@,
        Flag::ListSources => "list-sources"@,
        Flag::GetDefaultSink => "get-default-sink"@,
    }
}

/// The name of an option on the command line.
pub fn flag_name(f: Flag) -> (s: &'static str)
    ensures
        s@ == flag_name_spec(f),
{
    match f {
        Flag::SetVolume => "set-volume",
        Flag::Increase => "increase",
        Flag::Decrease => "decrease",
        Flag::ToggleMute => "toggle-mute",
        Flag::Mute => "mute",
        Flag::Unmute => "unmute",
        Flag::Sink => "sink",
        Flag::Source => "source",
        Flag::DefaultSource => "default-source",
        Flag::GetVolume => "get-volume",
        Flag::GetVolumeHuman => "get-volume-human",
        Flag::GetMute => "get-mute",
        Flag::ListSinks => "list-sinks",
        Flag::ListSources => "list-sources",
        Flag::GetDefaultSink => "get-default-sink",
    }
}

/// The message that reports a conflict.
pub open spec fn conflict_text(c: Conflict) -> Seq<char> {
    "Conflicting options '"@ + flag_name_spec(c.first) + "' and '"@ + flag_name_spec(c.second)
        + "'"@
}

impl Conflict {
    /// The message that reports this conflict.
    pub fn message(&self) -> (s: String)
        ensures
            s@ == conflict_text(*self),
    {
        let mut s = String::from_str("Conflicting options '");
        s.append(flag_name(self.first));
        s.append("' and '");
        s.append(flag_name(self.second));
        s.append("'");
        s
    }
}

} // verus!

verus! {

/// Whether the command line asks for any listing.
pub open spec fn wants_listing(o: &Options) -> bool {
    o.list_sinks || o.list_sources || o.list_sink_inputs || o.get_default_sink || o.list_modules
}

/// The listings a command line asks for.
#[derive(Debug, Clone, Copy, PartialEq, Eq, Structural)]
pub struct Listing {
    pub sinks: bool,
    pub sources: bool,
    pub sink_inputs: bool,
    pub modules: bool,
    pub default_sink: bool,
}

/// The device a command line works on.
#[derive(Debug)]
pub enum DeviceQuery {
    SinkByIndex(u32),
    SinkByName(String),
    DefaultSource,
    SourceByIndex(u32),
    SourceByName(String),
    DefaultSink,
}

/// What a command line asks the mixer to do.
#[derive(Debug)]
pub enum Command {
    /// Print the version.
    Version,
    /// Print listings.
    List(Listing),
    /// Move a sink input to a sink.
    MoveSinkInput { input: u32, sink: u32 },
    /// Mirror a sink input to the sinks with the given indices.
    Mirror { input: u32, sinks: Vec<u32> },
    /// Unload the modules with the given indices, in order.
    UnloadModules(Vec<u32>),
    /// Unload one module.
    UnloadModule(u32),
    /// Work on one device.
    Device(DeviceQuery),
}

/// What is wrong with a command line.
#[derive(Debug)]
pub enum CliError {
    /// Two options that may not be given together are.
    Conflict(Conflict),
    /// `--mirror` was given fewer than two indices.
    MirrorArguments,
}

impl CliError {
    /// The message that reports this error.
    pub fn message(&self) -> (s: String)
        ensures
            s@ == cli_error_text(*self),
    {
        match self {
            CliError::Conflict(c) => c.message(),
            CliError::MirrorArguments => String::from_str(
                "--mirror requires at least 2 arguments: INPUT_INDEX SINK_INDEX [SINK_INDEX...]",
            ),
        }
    }
}

/// The message of a command line error.
pub open spec fn cli_error_text(e: CliError) -> Seq<char> {
    match e {
        CliError::Conflict(c) => conflict_text(c),
        CliError::MirrorArguments => "--mirror requires at least 2 arguments: INPUT_INDEX SINK_INDEX [SINK_INDEX...]"@,
    }
}

/// Whether `q` is the device that the command line selects: a sink given by
/// index (when its text reads as a number) or by name, else the default
/// source when asked for, else a source given by index or name, else the
/// default sink.
pub open spec fn selects_device(o: &Options, q: DeviceQuery) -> bool {
    match o.sink {
        Some(n) => match crate::text::parse_u32_spec(n@) {
            Some(i) => q == DeviceQuery::SinkByIndex(i),
            None => q matches DeviceQuery::SinkByName(m) && m@ == n@,
        },
        None => if o.default_source {
            q == DeviceQuery::DefaultSource
        } else {
            match o.source {
                Some(n) => match crate::text::parse_u32_spec(n@) {
                    Some(i) => q == DeviceQuery::SourceByIndex(i),
                    None => q matches DeviceQuery::SourceByName(m) && m@ == n@,
                },
                None => q == DeviceQuery::DefaultSink,
            }
        },
    }
}

/// The device the command line selects.
pub fn device_query(o: &Options) -> (q: DeviceQuery)
    ensures
        selects_device(o, q),
{
    match &o.sink {
        Some(n) => match crate::text::parse_u32(n.as_str()) {
            Some(i) => DeviceQuery::SinkByIndex(i),
            None => DeviceQuery::SinkByName(n.clone()),
        },
        None => if o.default_source {
            DeviceQuery::DefaultSource
        } else {
            match &o.source {
                Some(n) => match crate::text::parse_u32(n.as_str()) {
                    Some(i) => DeviceQuery::SourceByIndex(i),
                    None => DeviceQuery::SourceByName(n.clone()),
                },
                None => DeviceQuery::DefaultSink,
            }
        },
    }
}

impl DeviceQuery {
    /// The lookup this query names, or, for a default device, its type.
    pub fn direct_lookup(&self) -> (r: Result<crate::pulse::Lookup, crate::device::DeviceType>)
        ensures
            match *self {
                DeviceQuery::SinkByIndex(i) => r == Ok::<crate::pulse::Lookup, crate::device::DeviceType>(crate::pulse::Lookup::SinkIndex(i)),
                DeviceQuery::SinkByName(n) => r matches Ok(crate::pulse::Lookup::SinkName(m)) && m@ == n@,
                DeviceQuery::DefaultSource => r == Err::<crate::pulse::Lookup, crate::device::DeviceType>(crate::device::DeviceType::Source),
                DeviceQuery::SourceByIndex(i) => r == Ok::<crate::pulse::Lookup, crate::device::DeviceType>(crate::pulse::Lookup::SourceIndex(i)),
                DeviceQuery::SourceByName(n) => r matches Ok(crate::pulse::Lookup::SourceName(m)) && m@ == n@,
                DeviceQuery::DefaultSink => r == Err::<crate::pulse::Lookup, crate::device::DeviceType>(crate::device::DeviceType::Sink),
            },
    {
        match self {
            DeviceQuery::SinkByIndex(i) => Ok(crate::pulse::Lookup::SinkIndex(*i)),
            DeviceQuery::SinkByName(n) => Ok(crate::pulse::Lookup::SinkName(n.clone())),
            DeviceQuery::DefaultSource => Err(crate::device::DeviceType::Source),
            DeviceQuery::SourceByIndex(i) => Ok(crate::pulse::Lookup::SourceIndex(*i)),
            DeviceQuery::SourceByName(n) => Ok(crate::pulse::Lookup::SourceName(n.clone())),
            DeviceQuery::DefaultSink => Err(crate::device::DeviceType::Sink),
        }
    }
}

/// Whether the command line, once checked, goes on to move a sink input.
pub open spec fn reaches_move(o: &Options) -> bool {
    !o.version && first_conflict(o) is None && !wants_listing(o) && o.move_sink_input is Some
}

/// Whether `r` is what the command line asks for.
pub open spec fn plans(o: &Options, r: Result<Command, CliError>) -> bool {
    if o.version {
        r matches Ok(Command::Version)
    } else if first_conflict(o) is Some {
        r == Err::<Command, CliError>(CliError::Conflict(first_conflict(o)->0))
    } else if wants_listing(o) {
        r == Ok::<Command, CliError>(
            Command::List(
                Listing {
                    sinks: o.list_sinks,
                    sources: o.list_sources,
                    sink_inputs: o.list_sink_inputs,
                    modules: o.list_modules,
                    default_sink: o.get_default_sink,
                },
            ),
        )
    } else if o.move_sink_input is Some {
        let v = o.move_sink_input->0;
        r == Ok::<Command, CliError>(Command::MoveSinkInput { input: v@[0], sink: v@[1] })
    } else if o.mirror is Some {
        let v = o.mirror->0;
        if v@.len() < 2 {
            r == Err::<Command, CliError>(CliError::MirrorArguments)
        } else {
            r matches Ok(Command::Mirror { input, sinks }) && input == v@[0] && sinks@ == v@.skip(1)
        }
    } else if o.unload_mirror is Some {
        r matches Ok(Command::UnloadModules(m)) && m@ == crate::text::index_list_spec(
            o.unload_mirror->0@,
        )
    } else if o.unload_module is Some {
        r == Ok::<Command, CliError>(Command::UnloadModule(o.unload_module->0))
    } else {
        r matches Ok(Command::Device(q)) && selects_device(o, q)
    }
}

/// Decides what the command line asks for: the version first, then the
/// check for conflicting options, then listings, moving a sink input,
/// mirroring, unloading modules, and last the work on one device.
pub fn plan_command(o: &Options) -> (r: Result<Command, CliError>)
    requires
        reaches_move(o) ==> o.move_sink_input->0@.len() >= 2,
    ensures
        plans(o, r),
{
    if o.version {
        return Ok(Command::Version);
    }
    match validate_options(o) {
        Err(c) => {
            return Err(CliError::Conflict(c));
        },
        Ok(()) => {},
    }
    if o.list_sinks || o.list_sources || o.list_sink_inputs || o.get_default_sink
        || o.list_modules {
        return Ok(
            Command::List(
                Listing {
                    sinks: o.list_sinks,
                    sources: o.list_sources,
                    sink_inputs: o.list_sink_inputs,
                    modules: o.list_modules,
                    default_sink: o.get_default_sink,
                },
            ),
        );
    }
    if let Some(v) = &o.move_sink_input {
        return Ok(Command::MoveSinkInput { input: v[0], sink: v[1] });
    }
    if let Some(v) = &o.mirror {
        if v.len() < 2 {
            return Err(CliError::MirrorArguments);
        }
        let mut sinks: Vec<u32> = Vec::new();
        let mut i: usize = 1;
        while i < v.len()
            invariant
                1 <= i <= v.len(),
                sinks@ == v@.subrange(1, i as int),
            decreases v.len() - i,
        {
            sinks.push(v[i]);
            assert(v@.subrange(1, i + 1) =~= v@.subrange(1, i as int).push(v@[i as int]));
            i = i + 1;
        }
        assert(v@.subrange(1, v.len() as int) =~= v@.skip(1));
        return Ok(Command::Mirror { input: v[0], sinks });
    }
    if let Some(s) = &o.unload_mirror {
        return Ok(Command::UnloadModules(crate::text::parse_index_list(s.as_str())));
    }
    if let Some(m) = o.unload_module {
        return Ok(Command::UnloadModule(m));
    }
    Ok(Command::Device(device_query(o)))
}

} // verus!

verus! {

/// What to do with the selected device.
#[derive(Debug)]
pub enum DeviceAction {
    /// Set every channel to this volume.
    SetVolume(u32),
    /// Change the volume by this many percent (negative to lower it) with
    /// gamma correction, then cap it at 100% unless boosting is allowed.
    AdjustVolume { delta: i32, allow_boost: bool },
    /// Mute or unmute.
    SetMute(bool),
    /// Print this line.
    Print(String),
    /// Nothing.
    Nothing,
}

/// `v`, or zero when it is negative.
pub open spec fn non_negative(v: i32) -> i32 {
    if v < 0 {
        0
    } else {
        v
    }
}

/// The text of a boolean.
pub open spec fn bool_text(b: bool) -> Seq<char> {
    if b {
        "true"@
    } else {
        "false"@
    }
}

/// The line a volume query prints, if any: mute state and percentage,
/// percentage alone, the percentage with `%` or `muted`, or the mute state.
pub open spec fn report_text(o: &Options, d: &crate::device::Device) -> Option<Seq<char>> {
    if o.get_volume && o.get_mute {
        Some(bool_text(d.mute) + " "@ + crate::text::signed_decimal(d.volume_percent as int))
    } else if o.get_volume {
        Some(crate::text::signed_decimal(d.volume_percent as int))
    } else if o.get_volume_human {
        if d.mute {
            Some("muted"@)
        } else {
            Some(crate::text::signed_decimal(d.volume_percent as int) + "%"@)
        }
    } else if o.get_mute {
        Some(bool_text(d.mute))
    } else {
        None
    }
}

/// Whether `a` is what the command line asks of the device `d`: set, raise
/// or lower the volume; else bring it down to a limit; else mute, unmute or
/// toggle; else report.
pub open spec fn acts_on_device(o: &Options, d: &crate::device::Device, a: DeviceAction) -> bool {
    if o.set_volume is Some {
        a == DeviceAction::SetVolume(
            if !o.allow_boost && crate::volume::volume_of_percent(
                non_negative(o.set_volume->0),
            ) > crate::volume::VOLUME_NORM {
                crate::volume::VOLUME_NORM
            } else {
                crate::volume::volume_of_percent(non_negative(o.set_volume->0))
            },
        )
    } else if o.increase is Some {
        a == DeviceAction::AdjustVolume {
            delta: non_negative(o.increase->0),
            allow_boost: o.allow_boost,
        }
    } else if o.decrease is Some {
        a == DeviceAction::AdjustVolume {
            delta: (-non_negative(o.decrease->0)) as i32,
            allow_boost: o.allow_boost,
        }
    } else if o.set_limit is Some {
        let limit = crate::volume::volume_of_percent(non_negative(o.set_limit->0));
        if d.volume_avg > limit {
            a == DeviceAction::SetVolume(limit)
        } else {
            a == DeviceAction::Nothing
        }
    } else if o.toggle_mute || o.mute || o.unmute {
        a == DeviceAction::SetMute(
            if o.toggle_mute {
                !d.mute
            } else {
                o.mute
            },
        )
    } else {
        match report_text(o, d) {
            Some(t) => a matches DeviceAction::Print(s) && s@ == t,
            None => a == DeviceAction::Nothing,
        }
    }
}

fn bool_str(b: bool) -> (s: &'static str)
    ensures
        s@ == bool_text(b),
{
    if b {
        "true"
    } else {
        "false"
    }
}

/// The line a volume query prints, if any.
pub fn report_line(o: &Options, d: &crate::device::Device) -> (r: Option<String>)
    ensures
        match report_text(o, d) {
            Some(t) => r matches Some(s) && s@ == t,
            None => r is None,
        },
{
    if o.get_volume && o.get_mute {
        let mut s = String::from_str(bool_str(d.mute));
        s.append(" ");
        let p = crate::text::i32_to_decimal(d.volume_percent);
        s.append(p.as_str());
        Some(s)
    } else if o.get_volume {
        Some(crate::text::i32_to_decimal(d.volume_percent))
    } else if o.get_volume_human {
        if d.mute {
            Some(String::from_str("muted"))
        } else {
            let mut s = crate::text::i32_to_decimal(d.volume_percent);
            s.append("%");
            Some(s)
        }
    } else if o.get_mute {
        Some(String::from_str(bool_str(d.mute)))
    } else {
        None
    }
}

/// Decides what to do with the selected device.
pub fn device_action(o: &Options, d: &crate::device::Device) -> (a: DeviceAction)
    ensures
        acts_on_device(o, d, a),
{
    if let Some(v) = o.set_volume {
        let v = if v < 0 { 0 } else { v };
        let vol = crate::volume::percent_to_volume(v);
        DeviceAction::SetVolume(crate::volume::limit_boost(vol, o.allow_boost))
    } else if let Some(v) = o.increase {
        let v = if v < 0 { 0 } else { v };
        DeviceAction::AdjustVolume { delta: v, allow_boost: o.allow_boost }
    } else if let Some(v) = o.decrease {
        let v = if v < 0 { 0 } else { v };
        DeviceAction::AdjustVolume { delta: -v, allow_boost: o.allow_boost }
    } else if let Some(l) = o.set_limit {
        let l = if l < 0 { 0 } else { l };
        let limit = crate::volume::percent_to_volume(l);
        if d.volume_avg > limit {
            DeviceAction::SetVolume(limit)
        } else {
            DeviceAction::Nothing
        }
    } else if o.toggle_mute || o.mute || o.unmute {
        DeviceAction::SetMute(
            if o.toggle_mute {
                !d.mute
            } else {
                o.mute
            },
        )
    } else {
        match report_line(o, d) {
            Some(s) => DeviceAction::Print(s),
            None => DeviceAction::Nothing,
        }
    }
}

/// The message after a sink input was moved.
pub open spec fn move_report_text(input: u32, sink: u32) -> Seq<char> {
    "Moved sink input "@ + crate::text::decimal(input as nat) + " to sink "@
        + crate::text::decimal(sink as nat)
}

/// The message after a sink input was moved.
pub fn move_report(input: u32, sink: u32) -> (s: String)
    ensures
        s@ == move_report_text(input, sink),
{
    let mut s = String::from_str("Moved sink input ");
    let a = crate::text::u32_to_decimal(input);
    s.append(a.as_str());
    s.append(" to sink ");
    let b = crate::text::u32_to_decimal(sink);
    s.append(b.as_str());
    s
}

/// The two lines after a mirror was made: its sink and targets, then the
/// modules to unload to undo it, written so that `--unload-mirror` reads
/// them back.
pub open spec fn mirror_report_text(name: Seq<char>, sinks: Seq<u32>, modules: Seq<u32>) -> (
    Seq<char>,
    Seq<char>,
) {
    (
        "Created mirror sink '"@ + name + "' routing to sinks: "@ + crate::text::debug_list_spec(
            sinks,
        ),
        "Module indices: "@ + crate::text::join_decimal_spec(modules, seq![','])
            + " (use --unload-mirror with these indices to cleanup)"@,
    )
}

/// The two lines after a mirror was made.
pub fn mirror_report(name: &str, sinks: &Vec<u32>, modules: &Vec<u32>) -> (r: (String, String))
    ensures
        (r.0@, r.1@) == mirror_report_text(name@, sinks@, modules@),
{
    let mut first = String::from_str("Created mirror sink '");
    first.append(name);
    first.append("' routing to sinks: ");
    let list = crate::text::debug_list(sinks);
    first.append(list.as_str());
    let mut second = String::from_str("Module indices: ");
    let joined = crate::text::join_decimal(modules, ",");
    second.append(joined.as_str());
    second.append(" (use --unload-mirror with these indices to cleanup)");
    proof {
        reveal_strlit(",");
    }
    assert(","@ =~= seq![',']);
    (first, second)
}

/// The message after several modules were unloaded.
pub open spec fn unload_modules_report_text(modules: Seq<u32>) -> Seq<char> {
    "Unloaded modules: "@ + crate::text::debug_list_spec(modules)
}

/// The message after several modules were unloaded.
pub fn unload_modules_report(modules: &Vec<u32>) -> (s: String)
    ensures
        s@ == unload_modules_report_text(modules@),
{
    let mut s = String::from_str("Unloaded modules: ");
    let list = crate::text::debug_list(modules);
    s.append(list.as_str());
    s
}

/// The message after one module was unloaded.
pub open spec fn unload_module_report_text(module: u32) -> Seq<char> {
    "Unloaded module "@ + crate::text::decimal(module as nat)
}

/// The message after one module was unloaded.
pub fn unload_module_report(module: u32) -> (s: String)
    ensures
        s@ == unload_module_report_text(module),
{
    let mut s = String::from_str("Unloaded module ");
    let d = crate::text::u32_to_decimal(module);
    s.append(d.as_str());
    s
}

} // verus!

verus! {

/// Handing `--unload-mirror` the module list that a mirror reported reads
/// back exactly the modules that the mirror loaded, in order.
pub proof fn lemma_mirror_cleanup_round_trip(
    o: &Options,
    name: Seq<char>,
    sinks: Seq<u32>,
    modules: Seq<u32>,
    r: Result<Command, CliError>,
)
    requires
        o.unload_mirror is Some,
        mirror_report_text(name, sinks, modules).1 == "Module indices: "@ + o.unload_mirror->0@
            + " (use --unload-mirror with these indices to cleanup)"@,
        !o.version,
        first_conflict(o) is None,
        !wants_listing(o),
        o.move_sink_input is None,
        o.mirror is None,
        plans(o, r),
    ensures
        r matches Ok(Command::UnloadModules(m)) && m@ == modules,
{
    let s = o.unload_mirror->0@;
    let j = crate::text::join_decimal_spec(modules, seq![',']);
    let pre = "Module indices: "@;
    let post = " (use --unload-mirror with these indices to cleanup)"@;
    let x = pre + j + post;
    let y = pre + s + post;
    assert(x == y);
    assert(x.len() == y.len());
    assert(s.len() == j.len());
    assert forall|i: int| 0 <= i < s.len() implies s[i] == j[i] by {
        assert(x[pre.len() + i] == j[i]);
        assert(y[pre.len() + i] == s[i]);
    }
    assert(s =~= j);
    crate::text::lemma_index_list_round_trip(modules);
}

/// A sink given on the command line by the index that its listing shows is
/// selected by that index.
pub proof fn lemma_listed_index_selects_sink(o: &Options, index: u32, q: DeviceQuery)
    requires
        o.sink is Some,
        o.sink->0@ == crate::text::decimal(index as nat),
        selects_device(o, q),
    ensures
        q == DeviceQuery::SinkByIndex(index),
{
    crate::text::lemma_parse_decimal(index);
}

/// A source given on the command line by the index that its listing shows
/// is selected by that index, when no sink and not the default source is
/// asked for.
pub proof fn lemma_listed_index_selects_source(o: &Options, index: u32, q: DeviceQuery)
    requires
        o.sink is None,
        !o.default_source,
        o.source is Some,
        o.source->0@ == crate::text::decimal(index as nat),
        selects_device(o, q),
    ensures
        q == DeviceQuery::SourceByIndex(index),
{
    crate::text::lemma_parse_decimal(index);
}

/// Without `--allow-boost`, setting the volume never goes above 100%.
pub proof fn lemma_set_volume_capped_without_boost(
    o: &Options,
    d: &crate::device::Device,
    a: DeviceAction,
)
    requires
        acts_on_device(o, d, a),
        o.set_volume is Some,
        !o.allow_boost,
    ensures
        a matches DeviceAction::SetVolume(v) && v <= crate::volume::VOLUME_NORM,
{
}

/// A volume limit only ever lowers the volume, to the limit itself, and
/// leaves a volume at or below the limit alone.
pub proof fn lemma_limit_only_lowers(o: &Options, d: &crate::device::Device, a: DeviceAction)
    requires
        acts_on_device(o, d, a),
        o.set_volume is None,
        o.increase is None,
        o.decrease is None,
        o.set_limit is Some,
    ensures
        a matches DeviceAction::SetVolume(v) ==> v < d.volume_avg && v
            == crate::volume::volume_of_percent(non_negative(o.set_limit->0)),
        a is Nothing <==> d.volume_avg <= crate::volume::volume_of_percent(
            non_negative(o.set_limit->0),
        ),
        a is SetVolume || a is Nothing,
{
}

/// Toggling the mute state twice gives back the state a device started in.
pub proof fn lemma_toggle_twice_restores(
    o: &Options,
    d1: &crate::device::Device,
    a1: DeviceAction,
    d2: &crate::device::Device,
    a2: DeviceAction,
)
    requires
        o.toggle_mute,
        o.set_volume is None,
        o.increase is None,
        o.decrease is None,
        o.set_limit is None,
        acts_on_device(o, d1, a1),
        a1 matches DeviceAction::SetMute(m) && d2.mute == m,
        acts_on_device(o, d2, a2),
    ensures
        a2 == DeviceAction::SetMute(d1.mute),
{
}

} // verus!

verus! {

/// `--increase v` (without `--set-volume`) raises the volume by the
/// non-negative part of `v` percent and carries `--allow-boost` through
/// unchanged, so a boosted raise above 100% is kept.
pub proof fn lemma_increase_carries_boost(o: &Options, d: &crate::device::Device, a: DeviceAction)
    requires
        acts_on_device(o, d, a),
        o.set_volume is None,
        o.increase is Some,
    ensures
        a == (DeviceAction::AdjustVolume {
            delta: if o.increase->0 < 0 { 0 } else { o.increase->0 },
            allow_boost: o.allow_boost,
        }),
{
}

/// `--decrease v` (without `--set-volume` or `--increase`) lowers the volume
/// by the non-negative part of `v` percent and carries `--allow-boost`
/// through unchanged.
pub proof fn lemma_decrease_carries_boost(o: &Options, d: &crate::device::Device, a: DeviceAction)
    requires
        acts_on_device(o, d, a),
        o.set_volume is None,
        o.increase is None,
        o.decrease is Some,
    ensures
        a == (DeviceAction::AdjustVolume {
            delta: if o.decrease->0 < 0 { 0 } else { (0 - o.decrease->0) as i32 },
            allow_boost: o.allow_boost,
        }),
{
}

/// `--set-volume p` sets `p` percent of the normal volume (65536), rounded
/// down, with a negative `p` taken as zero; without `--allow-boost` the
/// volume is capped at 100%, and only then: a percentage at or below 100 is
/// set as is.
pub proof fn lemma_set_volume_is_the_percentage(
    o: &Options,
    d: &crate::device::Device,
    a: DeviceAction,
)
    requires
        acts_on_device(o, d, a),
        o.set_volume is Some,
    ensures
        o.set_volume->0 < 0 ==> a == DeviceAction::SetVolume(0),
        0 <= o.set_volume->0 <= 6553599 ==> a == DeviceAction::SetVolume(
            if !o.allow_boost && o.set_volume->0 * 65536 / 100 > 65536 {
                65536u32
            } else {
                (o.set_volume->0 * 65536 / 100) as u32
            },
        ),
        0 <= o.set_volume->0 <= 100 ==> a == DeviceAction::SetVolume(
            (o.set_volume->0 * 65536 / 100) as u32,
        ),
        o.allow_boost ==> a == DeviceAction::SetVolume(
            crate::volume::volume_of_percent(if o.set_volume->0 < 0 { 0 } else { o.set_volume->0 }),
        ),
{
    let p = o.set_volume->0;
    if 0 <= p <= 6553599 {
        assert(0 <= p * 65536 / 100 <= 4294966640) by (nonlinear_arith)
            requires
                0 <= p <= 6553599,
        ;
    }
    if 0 <= p <= 100 {
        assert(p * 65536 / 100 <= 65536) by (nonlinear_arith)
            requires
                0 <= p <= 100,
        ;
    }
}

/// Without `--toggle-mute`, `--mute` always asks for muting and `--unmute`
/// for unmuting, whatever the device's current state; `--toggle-mute` asks
/// for the opposite of the current state.
pub proof fn lemma_mute_options(o: &Options, d: &crate::device::Device, a: DeviceAction)
    requires
        acts_on_device(o, d, a),
        o.set_volume is None,
        o.increase is None,
        o.decrease is None,
        o.set_limit is None,
    ensures
        !o.toggle_mute && o.mute ==> a == DeviceAction::SetMute(true),
        !o.toggle_mute && !o.mute && o.unmute ==> a == DeviceAction::SetMute(false),
        o.toggle_mute ==> a == DeviceAction::SetMute(!d.mute),
{
}

/// Which device a command line selects: a given sink wins (by index when its
/// text is a decimal number, else by name); without one, `--default-source`
/// selects the default source whether or not `--source` is given; then a
/// given source; and with none of these, the default sink.
pub proof fn lemma_device_selection(o: &Options, q: DeviceQuery)
    requires
        selects_device(o, q),
    ensures
        o.sink is Some ==> (q is SinkByIndex || (q matches DeviceQuery::SinkByName(m) && m@
            == o.sink->0@)),
        o.sink is None && o.default_source ==> q == DeviceQuery::DefaultSource,
        o.sink is None && !o.default_source && o.source is Some ==> (q is SourceByIndex || (
        q matches DeviceQuery::SourceByName(m) && m@ == o.source->0@)),
        o.sink is None && !o.default_source && o.source is None ==> q
            == DeviceQuery::DefaultSink,
        forall|i: u32|
            o.sink is Some && o.sink->0@ == crate::text::decimal(i as nat) ==> q
                == DeviceQuery::SinkByIndex(i),
{
    assert forall|i: u32|
        o.sink is Some && o.sink->0@ == crate::text::decimal(i as nat) implies q
            == DeviceQuery::SinkByIndex(i) by {
        crate::text::lemma_parse_decimal(i);
    }
}

/// Whether a command line gives any of the conflicting pairs of options:
/// set-volume with increase or decrease, increase with decrease, two of
/// toggle-mute, mute and unmute, sink with source or default-source, and
/// two of the query options get-volume, get-volume-human, get-mute and the
/// listings list-sinks, list-sources, get-default-sink, except get-volume
/// with get-mute and the listings among themselves.
pub open spec fn gives_conflicting_options(o: &Options) -> bool {
    let sv = o.set_volume is Some;
    let inc = o.increase is Some;
    let dec = o.decrease is Some;
    let gv = o.get_volume;
    let gvh = o.get_volume_human;
    let gm = o.get_mute;
    let ls = o.list_sinks;
    let lsr = o.list_sources;
    let gds = o.get_default_sink;
    ||| sv && inc
    ||| sv && dec
    ||| dec && inc
    ||| o.toggle_mute && o.mute
    ||| o.toggle_mute && o.unmute
    ||| o.unmute && o.mute
    ||| o.sink is Some && o.source is Some
    ||| o.sink is Some && o.default_source
    ||| gv && (ls || lsr || gvh || gds)
    ||| gvh && (ls || lsr || gm || gds)
    ||| gm && (ls || lsr || gds)
}

/// The options are rejected exactly when they give one of the conflicting
/// pairs; in particular `--get-volume --get-mute` is accepted. A rejection
/// names two options that are both given.
pub proof fn lemma_conflicts_are_exactly(o: &Options)
    ensures
        first_conflict(o) is None <==> !gives_conflicting_options(o),
        first_conflict(o) matches Some(c) ==> c.first != c.second,
        (o.get_volume && o.get_mute && !o.get_volume_human && !o.list_sinks && !o.list_sources
            && !o.get_default_sink && o.set_volume is None && o.increase is None
            && o.decrease is None && !o.toggle_mute && !o.mute && !o.unmute && o.sink is None)
            ==> first_conflict(o) is None,
{
    reveal_with_fuel(first_conflict_from, 20);
    lemma_validate_accepts_exactly(o);
}

} // verus!

verus! {

/// `--set-limit l` (with no volume option) lowers a device louder than `l`
/// percent (a negative `l` taken as zero) to exactly that volume, and leaves
/// a device at or below it alone.
pub proof fn lemma_limit_lowers_to_the_limit(o: &Options, d: &crate::device::Device, a: DeviceAction)
    requires
        acts_on_device(o, d, a),
        o.set_volume is None,
        o.increase is None,
        o.decrease is None,
        o.set_limit is Some,
        0 <= o.set_limit->0 <= 6553599,
    ensures
        d.volume_avg > o.set_limit->0 * 65536 / 100 ==> a == DeviceAction::SetVolume(
            (o.set_limit->0 * 65536 / 100) as u32,
        ),
        d.volume_avg <= o.set_limit->0 * 65536 / 100 ==> a == DeviceAction::Nothing,
{
    let l = o.set_limit->0;
    assert(0 <= l * 65536 / 100 <= 4294966640) by (nonlinear_arith)
        requires
            0 <= l <= 6553599,
    ;
}

/// With no option that changes the device, the line printed is: the mute
/// state (`true`/`false`), a space and the percentage for `--get-volume
/// --get-mute`; the percentage for `--get-volume`; `muted`, or the
/// percentage followed by `%`, for `--get-volume-human`; the mute state for
/// `--get-mute`; and nothing otherwise.
pub proof fn lemma_report_lines(o: &Options, d: &crate::device::Device, a: DeviceAction)
    requires
        acts_on_device(o, d, a),
        o.set_volume is None,
        o.increase is None,
        o.decrease is None,
        o.set_limit is None,
        !o.toggle_mute,
        !o.mute,
        !o.unmute,
    ensures
        o.get_volume && o.get_mute ==> (a matches DeviceAction::Print(s) && s@ == (if d.mute {
            "true"@
        } else {
            "false"@
        }) + " "@ + crate::text::signed_decimal(d.volume_percent as int)),
        o.get_volume && !o.get_mute ==> (a matches DeviceAction::Print(s) && s@
            == crate::text::signed_decimal(d.volume_percent as int)),
        !o.get_volume && o.get_volume_human && d.mute ==> (a matches DeviceAction::Print(s) && s@
            == "muted"@),
        !o.get_volume && o.get_volume_human && !d.mute ==> (a matches DeviceAction::Print(s) && s@
            == crate::text::signed_decimal(d.volume_percent as int) + "%"@),
        !o.get_volume && !o.get_volume_human && o.get_mute ==> (a matches DeviceAction::Print(s)
            && s@ == (if d.mute {
            "true"@
        } else {
            "false"@
        })),
        !o.get_volume && !o.get_volume_human && !o.get_mute ==> a == DeviceAction::Nothing,
{
}

/// Whether a command line asks for neither the version nor a listing and
/// gives no conflicting options.
pub open spec fn past_listings(o: &Options) -> bool {
    !o.version && !gives_conflicting_options(o) && !(o.list_sinks || o.list_sources
        || o.list_sink_inputs || o.get_default_sink || o.list_modules)
}

/// The order in which a command line is served: `--version` first, then a
/// rejection of conflicting options, then the listings (exactly those asked
/// for), then moving a sink input, then mirroring (which needs an input and
/// at least one sink), then unloading a list of modules, then one module,
/// and last the work on one device.
pub proof fn lemma_command_order(o: &Options, r: Result<Command, CliError>)
    requires
        plans(o, r),
    ensures
        o.version ==> r matches Ok(Command::Version),
        !o.version && gives_conflicting_options(o) ==> r matches Err(CliError::Conflict(_)),
        !o.version && !gives_conflicting_options(o) && (o.list_sinks || o.list_sources
            || o.list_sink_inputs || o.get_default_sink || o.list_modules) ==> r
            == Ok::<Command, CliError>(
            Command::List(
                Listing {
                    sinks: o.list_sinks,
                    sources: o.list_sources,
                    sink_inputs: o.list_sink_inputs,
                    modules: o.list_modules,
                    default_sink: o.get_default_sink,
                },
            ),
        ),
        past_listings(o) && o.move_sink_input is Some ==> r == Ok::<Command, CliError>(
            Command::MoveSinkInput {
                input: o.move_sink_input->0@[0],
                sink: o.move_sink_input->0@[1],
            },
        ),
        past_listings(o) && o.move_sink_input is None && o.mirror is Some && o.mirror->0@.len()
            < 2 ==> r matches Err(CliError::MirrorArguments),
        past_listings(o) && o.move_sink_input is None && o.mirror is Some && o.mirror->0@.len()
            >= 2 ==> (r matches Ok(Command::Mirror { input, sinks }) && input == o.mirror->0@[0]
            && sinks@ == o.mirror->0@.subrange(1, o.mirror->0@.len() as int)),
        past_listings(o) && o.move_sink_input is None && o.mirror is None && o.unload_mirror is Some
            ==> r matches Ok(Command::UnloadModules(_)),
        past_listings(o) && o.move_sink_input is None && o.mirror is None && o.unload_mirror is None
            && o.unload_module is Some ==> r == Ok::<Command, CliError>(
            Command::UnloadModule(o.unload_module->0),
        ),
        past_listings(o) && o.move_sink_input is None && o.mirror is None && o.unload_mirror is None
            && o.unload_module is None ==> r matches Ok(Command::Device(_)),
{
    lemma_conflicts_are_exactly(o);
    if o.mirror is Some {
        let v = o.mirror->0@;
        assert(v.skip(1) =~= v.subrange(1, v.len() as int));
    }
}

} // verus!
