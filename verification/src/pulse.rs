//! The decisions the mixer takes around its requests to the sound server:
//! which request to send, what an answer means, and what to report.

use vstd::prelude::*;

use crate::device::{text_or_empty, string_or_empty, spaced_quoted, push_spaced_quoted, Device, DeviceType};
use crate::text::{decimal, u32_to_decimal};
use crate::volume::{clamp_volume, ChannelVolumes, VOLUME_MAX, CHANNELS_MAX};

verus! {

/// Server information (default sink/source names)
#[derive(Debug, Clone)]
pub struct ServerInfo {
    pub default_sink_name: String,
    pub default_source_name: String,
}

/// Module information
#[derive(Debug, Clone)]
pub struct ModuleInfo {
    pub index: u32,
    pub name: String,
    pub argument: String,
}

impl ServerInfo {
    /// Server information from the default names the server reports; a
    /// missing name becomes empty.
    pub fn from_names(sink: &Option<String>, source: &Option<String>) -> (info: ServerInfo)
        ensures
            info.default_sink_name@ == text_or_empty(*sink),
            info.default_source_name@ == text_or_empty(*source),
    {
        ServerInfo {
            default_sink_name: string_or_empty(sink),
            default_source_name: string_or_empty(source),
        }
    }
}

/// The line that lists a module: index, quoted name and quoted argument.
pub open spec fn module_line_spec(m: &ModuleInfo) -> Seq<char> {
    decimal(m.index as nat) + spaced_quoted(m.name@) + spaced_quoted(m.argument@)
}

impl ModuleInfo {
    /// Module information from what the server reports; a missing name or
    /// argument becomes empty.
    pub fn from_fields(index: u32, name: &Option<String>, argument: &Option<String>) -> (m: ModuleInfo)
        ensures
            m.index == index,
            m.name@ == text_or_empty(*name),
            m.argument@ == text_or_empty(*argument),
    {
        ModuleInfo { index, name: string_or_empty(name), argument: string_or_empty(argument) }
    }

    /// The line that lists this module.
    pub fn list_line(&self) -> (s: String)
        ensures
            s@ == module_line_spec(self),
    {
        let mut s = u32_to_decimal(self.index);
        push_spaced_quoted(&mut s, self.name.as_str());
        push_spaced_quoted(&mut s, self.argument.as_str());
        s
    }
}

/// A device looked up by index or by name.
#[derive(Debug)]
pub enum Lookup {
    SinkIndex(u32),
    SinkName(String),
    SourceIndex(u32),
    SourceName(String),
}

/// A request whose outcome the server reports as success or failure.
#[derive(Debug, Clone, Copy, PartialEq, Eq, Structural)]
pub enum Operation {
    SetSinkVolume,
    SetSourceVolume,
    SetSinkMute,
    SetSourceMute,
    MoveSinkInput,
    UnloadModule,
}

/// What can go wrong in talking to the sound server.
#[derive(Debug)]
pub enum PulseError {
    /// The device looked up does not exist.
    NotFound(Lookup),
    /// The server names no default sink.
    NoDefaultSink,
    /// The server names no default source.
    NoDefaultSource,
    /// The connection failed.
    ConnectFailed,
    /// The connection was terminated.
    ConnectTerminated,
    /// The server refused a request.
    OperationFailed(Operation),
}

/// `t` between single quotes.
pub open spec fn single_quoted(t: Seq<char>) -> Seq<char> {
    seq!['\''] + t + seq!['\'']
}

/// The message of a failed lookup.
pub open spec fn not_found_text(l: Lookup) -> Seq<char> {
    match l {
        Lookup::SinkIndex(i) => "Sink "@ + decimal(i as nat) + " not found"@,
        Lookup::SinkName(n) => "Sink "@ + single_quoted(n@) + " not found"@,
        Lookup::SourceIndex(i) => "Source "@ + decimal(i as nat) + " not found"@,
        Lookup::SourceName(n) => "Source "@ + single_quoted(n@) + " not found"@,
    }
}

/// The message of a refused request.
pub open spec fn operation_failed_text(op: Operation) -> Seq<char> {
    match op {
        Operation::SetSinkVolume => "Failed to set volume: Failed to set sink volume"@,
        Operation::SetSourceVolume => "Failed to set volume: Failed to set source volume"@,
        Operation::SetSinkMute => "Failed to set mute: Failed to set sink mute"@,
        Operation::SetSourceMute => "Failed to set mute: Failed to set source mute"@,
        Operation::MoveSinkInput => "Failed to move sink input: Failed to move sink input"@,
        Operation::UnloadModule => "Failed to unload module: Failed to unload module"@,
    }
}

/// The message of an error.
pub open spec fn error_text(e: PulseError) -> Seq<char> {
    match e {
        PulseError::NotFound(l) => not_found_text(l),
        PulseError::NoDefaultSink => "No default sink found"@,
        PulseError::NoDefaultSource => "No default source found"@,
        PulseError::ConnectFailed => "Failed to connect to PulseAudio"@,
        PulseError::ConnectTerminated => "Connection to PulseAudio terminated"@,
        PulseError::OperationFailed(op) => operation_failed_text(op),
    }
}

fn operation_failed_message(op: Operation) -> (s: &'static str)
    ensures
        s@ == operation_failed_text(op),
{
    match op {
        Operation::SetSinkVolume => "Failed to set volume: Failed to set sink volume",
        Operation::SetSourceVolume => "Failed to set volume: Failed to set source volume",
        Operation::SetSinkMute => "Failed to set mute: Failed to set sink mute",
        Operation::SetSourceMute => "Failed to set mute: Failed to set source mute",
        Operation::MoveSinkInput => "Failed to move sink input: Failed to move sink input",
        Operation::UnloadModule => "Failed to unload module: Failed to unload module",
    }
}

fn not_found_message(l: &Lookup) -> (s: String)
    ensures
        s@ == not_found_text(*l),
{
    proof {
        reveal_strlit("'");
    }
    let (mut s, tail) = match l {
        Lookup::SinkIndex(i) => {
            let mut s = String::from_str("Sink ");
            let d = u32_to_decimal(*i);
            s.append(d.as_str());
            (s, " not found")
        },
        Lookup::SinkName(n) => {
            let mut s = String::from_str("Sink '");
            s.append(n.as_str());
            s.append("'");
            (s, " not found")
        },
        Lookup::SourceIndex(i) => {
            let mut s = String::from_str("Source ");
            let d = u32_to_decimal(*i);
            s.append(d.as_str());
            (s, " not found")
        },
        Lookup::SourceName(n) => {
            let mut s = String::from_str("Source '");
            s.append(n.as_str());
            s.append("'");
            (s, " not found")
        },
    };
    s.append(tail);
    proof {
        reveal_strlit("Sink ");
        reveal_strlit("Sink '");
        reveal_strlit("Source ");
        reveal_strlit("Source '");
        reveal_strlit(" not found");
    }
    assert(s@ =~= not_found_text(*l));
    s
}

impl PulseError {
    /// The message that describes this error.
    pub fn message(&self) -> (s: String)
        ensures
            s@ == error_text(*self),
    {
        match self {
            PulseError::NotFound(l) => not_found_message(l),
            PulseError::NoDefaultSink => String::from_str("No default sink found"),
            PulseError::NoDefaultSource => String::from_str("No default source found"),
            PulseError::ConnectFailed => String::from_str("Failed to connect to PulseAudio"),
            PulseError::ConnectTerminated => String::from_str(
                "Connection to PulseAudio terminated",
            ),
            PulseError::OperationFailed(op) => String::from_str(operation_failed_message(*op)),
        }
    }
}

} // verus!

verus! {

/// Picks the device that a lookup found: the first one the server reported,
/// or an error naming the lookup when it reported none.
pub fn lookup_result(lookup: Lookup, found: Vec<Device>) -> (r: Result<Device, PulseError>)
    ensures
        found@.len() > 0 ==> r == Ok::<Device, PulseError>(found@[0]),
        found@.len() == 0 ==> r == Err::<Device, PulseError>(PulseError::NotFound(lookup)),
{
    let mut found = found;
    if found.len() > 0 {
        Ok(found.remove(0))
    } else {
        Err(PulseError::NotFound(lookup))
    }
}

/// The lookup of the default device of the given type, by the name that
/// the server information gives; an error when it gives none.
pub fn default_lookup(info: &ServerInfo, device_type: DeviceType) -> (r: Result<Lookup, PulseError>)
    ensures
        device_type == DeviceType::Sink ==> (match r {
            Ok(l) => info.default_sink_name@.len() > 0 && (l matches Lookup::SinkName(n) && n@
                == info.default_sink_name@),
            Err(e) => info.default_sink_name@.len() == 0 && e == PulseError::NoDefaultSink,
        }),
        device_type == DeviceType::Source ==> (match r {
            Ok(l) => info.default_source_name@.len() > 0 && (l matches Lookup::SourceName(n) && n@
                == info.default_source_name@),
            Err(e) => info.default_source_name@.len() == 0 && e == PulseError::NoDefaultSource,
        }),
{
    match device_type {
        DeviceType::Sink => {
            if info.default_sink_name.as_str().unicode_len() == 0 {
                Err(PulseError::NoDefaultSink)
            } else {
                Ok(Lookup::SinkName(info.default_sink_name.clone()))
            }
        },
        DeviceType::Source => {
            if info.default_source_name.as_str().unicode_len() == 0 {
                Err(PulseError::NoDefaultSource)
            } else {
                Ok(Lookup::SourceName(info.default_source_name.clone()))
            }
        },
    }
}

/// The state of the connection to the server.
#[derive(Debug, Clone, Copy, PartialEq, Eq, Structural)]
pub enum ContextState {
    Unconnected,
    Connecting,
    Authorizing,
    SettingName,
    Ready,
    Failed,
    Terminated,
}

/// What to do next while connecting.
#[derive(Debug)]
pub enum ConnectStep {
    /// The connection is ready.
    Ready,
    /// Wait for the state to change.
    Wait,
    /// Give up with an error.
    Fail(PulseError),
}

/// The step that follows the observed connection state.
pub open spec fn connect_step_spec(state: ContextState) -> ConnectStep {
    match state {
        ContextState::Ready => ConnectStep::Ready,
        ContextState::Failed => ConnectStep::Fail(PulseError::ConnectFailed),
        ContextState::Terminated => ConnectStep::Fail(PulseError::ConnectTerminated),
        _ => ConnectStep::Wait,
    }
}

/// Decides, from the connection state, whether the connection is ready,
/// has failed, or must be waited for.
pub fn connect_step(state: ContextState) -> (step: ConnectStep)
    ensures
        step == connect_step_spec(state),
{
    match state {
        ContextState::Ready => ConnectStep::Ready,
        ContextState::Failed => ConnectStep::Fail(PulseError::ConnectFailed),
        ContextState::Terminated => ConnectStep::Fail(PulseError::ConnectTerminated),
        _ => ConnectStep::Wait,
    }
}

/// The state of a request in progress.
#[derive(Debug, Clone, Copy, PartialEq, Eq, Structural)]
pub enum OperationState {
    Running,
    Done,
    Cancelled,
}

/// Whether a request must still be waited for.
pub fn operation_pending(state: OperationState) -> (b: bool)
    ensures
        b == (state == OperationState::Running),
{
    match state {
        OperationState::Running => true,
        _ => false,
    }
}

/// The outcome of a request from the success flag the server reported.
pub fn operation_outcome(op: Operation, success: bool) -> (r: Result<(), PulseError>)
    ensures
        success ==> r == Ok::<(), PulseError>(()),
        !success ==> r == Err::<(), PulseError>(PulseError::OperationFailed(op)),
{
    if success {
        Ok(())
    } else {
        Err(PulseError::OperationFailed(op))
    }
}

/// A request to set every channel of a device to one volume.
#[derive(Debug)]
pub struct VolumeRequest {
    pub device_type: DeviceType,
    pub index: u32,
    pub volume: ChannelVolumes,
}

/// A request to mute or unmute a device.
#[derive(Debug)]
pub struct MuteRequest {
    pub device_type: DeviceType,
    pub index: u32,
    pub mute: bool,
}

impl VolumeRequest {
    /// The kind of request this is.
    pub fn operation(&self) -> (op: Operation)
        ensures
            op == (if self.device_type == DeviceType::Sink {
                Operation::SetSinkVolume
            } else {
                Operation::SetSourceVolume
            }),
    {
        match self.device_type {
            DeviceType::Sink => Operation::SetSinkVolume,
            DeviceType::Source => Operation::SetSourceVolume,
        }
    }
}

impl MuteRequest {
    /// The kind of request this is.
    pub fn operation(&self) -> (op: Operation)
        ensures
            op == (if self.device_type == DeviceType::Sink {
                Operation::SetSinkMute
            } else {
                Operation::SetSourceMute
            }),
    {
        match self.device_type {
            DeviceType::Sink => Operation::SetSinkMute,
            DeviceType::Source => Operation::SetSourceMute,
        }
    }
}

/// The volume a request sets: the wanted one, capped at the largest valid
/// volume.
pub open spec fn requested_volume(v: u32) -> u32 {
    if v > VOLUME_MAX {
        VOLUME_MAX
    } else {
        v
    }
}

/// The request that sets every channel of `device` to `new_volume`, capped
/// at the largest valid volume.
pub fn volume_request(device: &Device, new_volume: u32) -> (r: VolumeRequest)
    requires
        1 <= device.volume@.len() <= CHANNELS_MAX,
    ensures
        r.device_type == device.device_type,
        r.index == device.index,
        r.volume@ == Seq::new(device.volume@.len(), |i: int| requested_volume(new_volume)),
        crate::volume::volume_average(r.volume@) == requested_volume(new_volume),
{
    let vol = clamp_volume(new_volume);
    let mut volume = device.volume.copy();
    let channels = volume.len();
    volume.set(channels, vol);
    proof {
        crate::volume::lemma_average_after_set(channels as nat, vol);
    }
    VolumeRequest { device_type: device.device_type, index: device.index, volume }
}

/// The request that mutes or unmutes `device`.
pub fn mute_request(device: &Device, mute: bool) -> (r: MuteRequest)
    ensures
        r.device_type == device.device_type,
        r.index == device.index,
        r.mute == mute,
{
    MuteRequest { device_type: device.device_type, index: device.index, mute }
}

} // verus!

verus! {

/// A module to load, with its arguments.
#[derive(Debug)]
pub struct ModuleLoad {
    pub name: String,
    pub args: String,
}

/// The name of the sink that mirrors a sink input.
pub open spec fn mirror_sink_name_spec(input_index: u32) -> Seq<char> {
    "rs_mirror_"@ + decimal(input_index as nat)
}

/// The name of the sink that mirrors a sink input.
pub fn mirror_sink_name(input_index: u32) -> (s: String)
    ensures
        s@ == mirror_sink_name_spec(input_index),
{
    let mut s = String::from_str("rs_mirror_");
    let d = u32_to_decimal(input_index);
    s.append(d.as_str());
    s
}

/// The name of the monitor source of a sink.
pub open spec fn monitor_name_spec(sink_name: Seq<char>) -> Seq<char> {
    sink_name + ".monitor"@
}

/// The arguments of the virtual sink that a mirror plays into.
pub open spec fn null_sink_args_spec(sink_name: Seq<char>) -> Seq<char> {
    "sink_name="@ + sink_name + " rate=48000 sink_properties=device.description=\""@ + sink_name
        + "\""@
}

/// The arguments of the loopback from a mirror's monitor to one sink.
pub open spec fn loopback_args_spec(target: Seq<char>, sink_name: Seq<char>) -> Seq<char> {
    "sink="@ + target + " source="@ + monitor_name_spec(sink_name)
}

/// The arguments of the virtual sink that a mirror plays into.
pub fn null_sink_args(sink_name: &str) -> (s: String)
    ensures
        s@ == null_sink_args_spec(sink_name@),
{
    let mut s = String::from_str("sink_name=");
    s.append(sink_name);
    s.append(" rate=48000 sink_properties=device.description=\"");
    s.append(sink_name);
    s.append("\"");
    s
}

/// The arguments of the loopback from a mirror's monitor to one sink.
pub fn loopback_args(target: &str, sink_name: &str) -> (s: String)
    ensures
        s@ == loopback_args_spec(target@, sink_name@),
{
    let mut s = String::from_str("sink=");
    s.append(target);
    s.append(" source=");
    s.append(sink_name);
    s.append(".monitor");
    s
}

/// The modules that mirror one virtual sink to every sink of `targets`: a
/// null sink named `sink_name`, then one loopback to each target, in order.
pub fn mirror_plan(targets: &Vec<String>, sink_name: &str) -> (plan: Vec<ModuleLoad>)
    ensures
        plan@.len() == targets@.len() + 1,
        plan@[0].name@ == "module-null-sink"@,
        plan@[0].args@ == null_sink_args_spec(sink_name@),
        forall|i: int|
            0 <= i < targets@.len() ==> (#[trigger] plan@[i + 1]).name@ == "module-loopback"@
                && plan@[i + 1].args@ == loopback_args_spec(targets@[i]@, sink_name@),
{
    let mut plan: Vec<ModuleLoad> = Vec::new();
    plan.push(
        ModuleLoad { name: String::from_str("module-null-sink"), args: null_sink_args(sink_name) },
    );
    let mut i: usize = 0;
    while i < targets.len()
        invariant
            i <= targets.len(),
            plan@.len() == i + 1,
            plan@[0].name@ == "module-null-sink"@,
            plan@[0].args@ == null_sink_args_spec(sink_name@),
            forall|k: int|
                0 <= k < i ==> (#[trigger] plan@[k + 1]).name@ == "module-loopback"@
                    && plan@[k + 1].args@ == loopback_args_spec(targets@[k]@, sink_name@),
        decreases targets.len() - i,
    {
        let load = ModuleLoad {
            name: String::from_str("module-loopback"),
            args: loopback_args(targets[i].as_str(), sink_name),
        };
        plan.push(load);
        i = i + 1;
    }
    plan
}

} // verus!

verus! {

/// Connecting goes on while the connection is being set up, succeeds once
/// it is ready, and fails, with the matching message, once it has failed or
/// been terminated.
pub proof fn lemma_connect_steps(state: ContextState)
    ensures
        state == ContextState::Ready <==> connect_step_spec(state) is Ready,
        state == ContextState::Failed ==> connect_step_spec(state) == ConnectStep::Fail(
            PulseError::ConnectFailed,
        ),
        state == ContextState::Terminated ==> connect_step_spec(state) == ConnectStep::Fail(
            PulseError::ConnectTerminated,
        ),
        (state == ContextState::Unconnected || state == ContextState::Connecting || state
            == ContextState::Authorizing || state == ContextState::SettingName)
            <==> connect_step_spec(state) is Wait,
{
}

/// Every loopback of a mirror plays from the monitor of the sink that the
/// plan's first module creates, named `sink_name`, into its own target.
pub proof fn lemma_mirror_loopbacks_read_the_mirror(targets: Seq<Seq<char>>, sink_name: Seq<char>)
    ensures
        null_sink_args_spec(sink_name) == "sink_name="@ + sink_name
            + " rate=48000 sink_properties=device.description=\""@ + sink_name + "\""@,
        forall|i: int|
            0 <= i < targets.len() ==> loopback_args_spec(#[trigger] targets[i], sink_name)
                == "sink="@ + targets[i] + " source="@ + sink_name + ".monitor"@,
{
    assert forall|i: int| 0 <= i < targets.len() implies loopback_args_spec(
        #[trigger] targets[i],
        sink_name,
    ) == "sink="@ + targets[i] + " source="@ + sink_name + ".monitor"@ by {
        assert(("sink="@ + targets[i] + " source="@) + (sink_name + ".monitor"@) =~= "sink="@
            + targets[i] + " source="@ + sink_name + ".monitor"@);
    }
}

} // verus!
