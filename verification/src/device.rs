//! Sinks, sources and application streams, as the mixer sees them.

use vstd::prelude::*;

use crate::text::{decimal, u32_to_decimal};
use crate::volume::{percent_of_volume, volume_average, volume_to_percent, ChannelVolumes};

verus! {

/// Device type: Sink (output) or Source (input)
#[derive(Debug, Clone, Copy, PartialEq, Eq, Structural)]
pub enum DeviceType {
    Sink,
    Source,
}

/// Device state
#[derive(Debug, Clone, Copy, PartialEq, Eq, Structural)]
pub enum DeviceState {
    Running,
    Idle,
    Suspended,
    Invalid,
}

/// The state a sink reports.
#[derive(Debug, Clone, Copy, PartialEq, Eq, Structural)]
pub enum SinkState {
    /// The server does not support sink state introspection.
    Invalid,
    Running,
    Idle,
    Suspended,
}

/// The state a source reports.
#[derive(Debug, Clone, Copy, PartialEq, Eq, Structural)]
pub enum SourceState {
    /// The server does not support source state introspection.
    Invalid,
    Running,
    Idle,
    Suspended,
}

/// What the server reports of a sink.
#[derive(Debug)]
pub struct SinkInfo {
    pub index: u32,
    pub name: Option<String>,
    pub description: Option<String>,
    pub state: SinkState,
    pub volume: ChannelVolumes,
    pub mute: bool,
}

/// What the server reports of a source.
#[derive(Debug)]
pub struct SourceInfo {
    pub index: u32,
    pub name: Option<String>,
    pub description: Option<String>,
    pub state: SourceState,
    pub volume: ChannelVolumes,
    pub mute: bool,
}

/// What the server reports of a sink input.
#[derive(Debug)]
pub struct SinkInputInfo {
    pub index: u32,
    pub name: Option<String>,
    pub sink: u32,
    pub mute: bool,
}

/// Represents a PulseAudio device (Sink or Source)
#[derive(Debug, Clone)]
pub struct Device {
    pub index: u32,
    pub device_type: DeviceType,
    pub name: String,
    pub description: String,
    pub state: DeviceState,
    pub volume: ChannelVolumes,
    pub volume_avg: u32,
    pub volume_percent: i32,
    pub mute: bool,
}

/// Represents a Sink Input (application audio stream)
#[derive(Debug, Clone)]
pub struct SinkInput {
    pub index: u32,
    pub name: String,
    pub sink_index: u32,
    pub mute: bool,
}

/// The text of an optional string, empty when there is none.
pub open spec fn text_or_empty(s: Option<String>) -> Seq<char> {
    match s {
        Some(t) => t@,
        None => Seq::empty(),
    }
}

/// The string of an optional string, empty when there is none.
pub fn string_or_empty(s: &Option<String>) -> (r: String)
    ensures
        r@ == text_or_empty(*s),
{
    match s {
        Some(t) => t.clone(),
        None => String::new(),
    }
}

/// The device state that a sink state stands for.
pub open spec fn sink_state_spec(state: SinkState) -> DeviceState {
    match state {
        SinkState::Running => DeviceState::Running,
        SinkState::Idle => DeviceState::Idle,
        SinkState::Suspended => DeviceState::Suspended,
        SinkState::Invalid => DeviceState::Invalid,
    }
}

/// The device state that a source state stands for.
pub open spec fn source_state_spec(state: SourceState) -> DeviceState {
    match state {
        SourceState::Running => DeviceState::Running,
        SourceState::Idle => DeviceState::Idle,
        SourceState::Suspended => DeviceState::Suspended,
        SourceState::Invalid => DeviceState::Invalid,
    }
}

/// Convert sink state to our DeviceState
pub fn convert_sink_state(state: SinkState) -> (r: DeviceState)
    ensures
        r == sink_state_spec(state),
{
    match state {
        SinkState::Running => DeviceState::Running,
        SinkState::Idle => DeviceState::Idle,
        SinkState::Suspended => DeviceState::Suspended,
        _ => DeviceState::Invalid,
    }
}

/// Convert source state to our DeviceState
pub fn convert_source_state(state: SourceState) -> (r: DeviceState)
    ensures
        r == source_state_spec(state),
{
    match state {
        SourceState::Running => DeviceState::Running,
        SourceState::Idle => DeviceState::Idle,
        SourceState::Suspended => DeviceState::Suspended,
        _ => DeviceState::Invalid,
    }
}

/// The human-readable text of a device state.
pub open spec fn state_text(state: DeviceState) -> Seq<char> {
    match state {
        DeviceState::Running => "Running"@,
        DeviceState::Idle => "Idle"@,
        DeviceState::Suspended => "Suspended"@,
        DeviceState::Invalid => "Invalid state"@,
    }
}

impl Device {
    /// Whether the average and percentage of the device agree with its
    /// per-channel volumes.
    pub open spec fn volume_consistent(&self) -> bool {
        &&& self.volume_avg == volume_average(self.volume@)
        &&& self.volume_percent == percent_of_volume(self.volume_avg)
    }

    /// Create a Device from sink info
    pub fn from_sink_info(info: &SinkInfo) -> (d: Device)
        ensures
            d.index == info.index,
            d.device_type == DeviceType::Sink,
            d.name@ == text_or_empty(info.name),
            d.description@ == text_or_empty(info.description),
            d.state == sink_state_spec(info.state),
            d.volume@ == info.volume@,
            d.mute == info.mute,
            d.volume_consistent(),
    {
        let volume = info.volume.copy();
        let volume_avg = volume.avg();
        Device {
            index: info.index,
            device_type: DeviceType::Sink,
            name: string_or_empty(&info.name),
            description: string_or_empty(&info.description),
            state: convert_sink_state(info.state),
            volume,
            volume_avg,
            volume_percent: volume_to_percent(volume_avg),
            mute: info.mute,
        }
    }

    /// Create a Device from source info
    pub fn from_source_info(info: &SourceInfo) -> (d: Device)
        ensures
            d.index == info.index,
            d.device_type == DeviceType::Source,
            d.name@ == text_or_empty(info.name),
            d.description@ == text_or_empty(info.description),
            d.state == source_state_spec(info.state),
            d.volume@ == info.volume@,
            d.mute == info.mute,
            d.volume_consistent(),
    {
        let volume = info.volume.copy();
        let volume_avg = volume.avg();
        Device {
            index: info.index,
            device_type: DeviceType::Source,
            name: string_or_empty(&info.name),
            description: string_or_empty(&info.description),
            state: convert_source_state(info.state),
            volume,
            volume_avg,
            volume_percent: volume_to_percent(volume_avg),
            mute: info.mute,
        }
    }

    /// Get state as human-readable string
    pub fn state_string(&self) -> (s: &'static str)
        ensures
            s@ == state_text(self.state),
    {
        match self.state {
            DeviceState::Running => "Running",
            DeviceState::Idle => "Idle",
            DeviceState::Suspended => "Suspended",
            DeviceState::Invalid => "Invalid state",
        }
    }
}

impl SinkInput {
    /// Create a SinkInput from sink input info
    pub fn from_sink_input_info(info: &SinkInputInfo) -> (s: SinkInput)
        ensures
            s.index == info.index,
            s.name@ == text_or_empty(info.name),
            s.sink_index == info.sink,
            s.mute == info.mute,
    {
        SinkInput {
            index: info.index,
            name: string_or_empty(&info.name),
            sink_index: info.sink,
            mute: info.mute,
        }
    }
}

/// `t` between double quotes, after a space.
pub open spec fn spaced_quoted(t: Seq<char>) -> Seq<char> {
    seq![' ', '"'] + t + seq!['"']
}

/// Appends a space and `t` between double quotes.
pub fn push_spaced_quoted(s: &mut String, t: &str)
    ensures
        final(s)@ == old(s)@ + spaced_quoted(t@),
{
    proof {
        reveal_strlit(" \"");
        reveal_strlit("\"");
    }
    s.append(" \"");
    s.append(t);
    s.append("\"");
    assert(final(s)@ =~= old(s)@ + spaced_quoted(t@));
}

/// The line that lists a device: index, quoted name, quoted state and
/// quoted description.
pub open spec fn device_line_spec(d: &Device) -> Seq<char> {
    decimal(d.index as nat) + spaced_quoted(d.name@) + spaced_quoted(state_text(d.state))
        + spaced_quoted(d.description@)
}

/// The line that shows the default device: index, quoted name and quoted
/// description.
pub open spec fn default_device_line_spec(d: &Device) -> Seq<char> {
    decimal(d.index as nat) + spaced_quoted(d.name@) + spaced_quoted(d.description@)
}

/// The line that lists a sink input: index, quoted name and the sink it
/// plays on.
pub open spec fn sink_input_line_spec(s: &SinkInput) -> Seq<char> {
    decimal(s.index as nat) + spaced_quoted(s.name@) + " -> sink "@ + decimal(
        s.sink_index as nat,
    )
}

impl Device {
    /// The line that lists this device.
    pub fn list_line(&self) -> (s: String)
        ensures
            s@ == device_line_spec(self),
    {
        let mut s = u32_to_decimal(self.index);
        push_spaced_quoted(&mut s, self.name.as_str());
        push_spaced_quoted(&mut s, self.state_string());
        push_spaced_quoted(&mut s, self.description.as_str());
        s
    }

    /// The line that shows this device as the default one.
    pub fn default_line(&self) -> (s: String)
        ensures
            s@ == default_device_line_spec(self),
    {
        let mut s = u32_to_decimal(self.index);
        push_spaced_quoted(&mut s, self.name.as_str());
        push_spaced_quoted(&mut s, self.description.as_str());
        s
    }
}

impl SinkInput {
    /// The line that lists this sink input.
    pub fn list_line(&self) -> (s: String)
        ensures
            s@ == sink_input_line_spec(self),
    {
        let mut s = u32_to_decimal(self.index);
        push_spaced_quoted(&mut s, self.name.as_str());
        s.append(" -> sink ");
        let d = u32_to_decimal(self.sink_index);
        s.append(d.as_str());
        s
    }
}

} // verus!

verus! {

/// A device built from a sink or source keeps the reported state when it is
/// running, idle or suspended, and is invalid otherwise; the state names
/// are the ones shown in listings.
pub proof fn lemma_states_keep_their_names()
    ensures
        sink_state_spec(SinkState::Running) == DeviceState::Running,
        sink_state_spec(SinkState::Idle) == DeviceState::Idle,
        sink_state_spec(SinkState::Suspended) == DeviceState::Suspended,
        sink_state_spec(SinkState::Invalid) == DeviceState::Invalid,
        source_state_spec(SourceState::Running) == DeviceState::Running,
        source_state_spec(SourceState::Idle) == DeviceState::Idle,
        source_state_spec(SourceState::Suspended) == DeviceState::Suspended,
        source_state_spec(SourceState::Invalid) == DeviceState::Invalid,
        state_text(DeviceState::Running) == "Running"@,
        state_text(DeviceState::Idle) == "Idle"@,
        state_text(DeviceState::Suspended) == "Suspended"@,
        state_text(DeviceState::Invalid) == "Invalid state"@,
{
}

/// A device's average volume is the rounded-down mean of its channels when
/// they are valid, and its percentage is that average over 65536, in
/// hundredths, rounded down.
pub proof fn lemma_device_volume_figures(d: &Device)
    requires
        d.volume_consistent(),
        crate::volume::volumes_valid(d.volume@),
    ensures
        d.volume_avg == crate::volume::volume_sum(d.volume@) / d.volume@.len(),
        d.volume_percent == d.volume_avg * 100 / 65536,
{
    crate::volume::lemma_sum_bound_max(d.volume@);
    let n = d.volume@.len();
    let t = crate::volume::volume_sum(d.volume@);
    assert(t / n <= 0x7fff_ffff) by (nonlinear_arith)
        requires
            t <= n * 0x7fff_ffff,
            n >= 1,
    ;
}

} // verus!
