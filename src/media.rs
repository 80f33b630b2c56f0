//! Decisions around the media pipelines: their textual descriptions, the
//! outcome of one poll while waiting for a state change, and what each bus
//! message means for a pipeline of each role.

use vstd::prelude::*;
use vstd::string::*;

verus! {

/// Pipeline states, with `VoidPending` for "no state change pending".
#[derive(PartialEq, Eq, Structural, Clone, Copy, Debug)]
pub enum MediaState {
    VoidPending,
    Null,
    Ready,
    Paused,
    Playing,
}

/// Outcome of one poll while waiting for a pipeline state.
#[derive(PartialEq, Eq, Structural, Clone, Copy, Debug)]
pub enum WaitStep {
    Reached,
    Failed,
    TimedOut,
    Pending,
}

/// One poll of a state wait: the timeout is checked first, then an error on
/// the bus, then the state query; the target counts as reached only with no
/// change pending.
pub open spec fn wait_step_spec(elapsed_ns: u64, timeout_ns: u64, bus_error: bool, query_ok: bool,
    current: MediaState, pending: MediaState, target: MediaState) -> WaitStep
{
    if elapsed_ns > timeout_ns {
        WaitStep::TimedOut
    } else if bus_error || !query_ok {
        WaitStep::Failed
    } else if current == target && pending == MediaState::VoidPending {
        WaitStep::Reached
    } else {
        WaitStep::Pending
    }
}

pub fn state_wait_step(elapsed_ns: u64, timeout_ns: u64, bus_error: bool, query_ok: bool,
    current: MediaState, pending: MediaState, target: MediaState) -> (r: WaitStep)
    ensures
        r == wait_step_spec(elapsed_ns, timeout_ns, bus_error, query_ok, current, pending, target),
{
    if elapsed_ns > timeout_ns {
        WaitStep::TimedOut
    } else if bus_error || !query_ok {
        WaitStep::Failed
    } else if current == target && pending == MediaState::VoidPending {
        WaitStep::Reached
    } else {
        WaitStep::Pending
    }
}

/// Bus messages the engine distinguishes.
#[derive(PartialEq, Eq, Structural, Clone, Copy, Debug)]
pub enum BusEvent {
    Eos,
    Error,
    Warning,
    Buffering(i32),
    StateChanged,
    AsyncDone,
    StreamStart,
    Other,
}

/// The pipelines the engine runs.
#[derive(PartialEq, Eq, Structural, Clone, Copy, Debug)]
pub enum PipelineRole {
    Active,
    Standby,
    SoundEffect,
}

/// What the engine does with a bus message.
#[derive(PartialEq, Eq, Structural, Clone, Copy, Debug)]
pub enum BusAction {
    Ignore,
    /// Seek the active track back to its start.
    LoopToStart,
    /// Stop the engine's main loop.
    Fatal,
    /// Report an error of the standby, which stays.
    LogError,
    /// Report buffering below full.
    LogBuffering(i32),
    /// Tear the pipeline down.
    TearDown,
}

/// The active track loops at its end and stops the engine on error; the
/// standby only reports errors; a sound effect is torn down at its end or on
/// error.
pub open spec fn bus_action_spec(role: PipelineRole, ev: BusEvent) -> BusAction {
    match role {
        PipelineRole::Active => match ev {
            BusEvent::Eos => BusAction::LoopToStart,
            BusEvent::Error => BusAction::Fatal,
            BusEvent::Buffering(p) => if p < 100 { BusAction::LogBuffering(p) } else { BusAction::Ignore },
            _ => BusAction::Ignore,
        },
        PipelineRole::Standby => match ev {
            BusEvent::Error => BusAction::LogError,
            _ => BusAction::Ignore,
        },
        PipelineRole::SoundEffect => match ev {
            BusEvent::Eos => BusAction::TearDown,
            BusEvent::Error => BusAction::TearDown,
            _ => BusAction::Ignore,
        },
    }
}

pub fn bus_action(role: PipelineRole, ev: BusEvent) -> (r: BusAction)
    ensures
        r == bus_action_spec(role, ev),
{
    match role {
        PipelineRole::Active => match ev {
            BusEvent::Eos => BusAction::LoopToStart,
            BusEvent::Error => BusAction::Fatal,
            BusEvent::Buffering(p) => if p < 100 { BusAction::LogBuffering(p) } else { BusAction::Ignore },
            _ => BusAction::Ignore,
        },
        PipelineRole::Standby => match ev {
            BusEvent::Error => BusAction::LogError,
            _ => BusAction::Ignore,
        },
        PipelineRole::SoundEffect => match ev {
            BusEvent::Eos => BusAction::TearDown,
            BusEvent::Error => BusAction::TearDown,
            _ => BusAction::Ignore,
        },
    }
}

/// Music graph: file, decode, volume `vol`, fixed-format conversion, a queue,
/// the tempo control `pch`, resampling, a buffering queue, then the sink.
pub open spec fn music_pipeline_spec(path: Seq<char>, sink: Seq<char>) -> Seq<char> {
    "filesrc name=src location="@ + path
        + " ! decodebin ! audioconvert ! audioresample ! volume name=vol ! audioconvert ! capsfilter caps=\"audio/x-raw,format=F32LE,rate=44100,channels=2\" ! queue max-size-buffers=100 max-size-time=1000000000 ! pitch name=pch ! audioconvert ! audioresample ! queue2 max-size-buffers=0 max-size-bytes=0 max-size-time=200000000 use-buffering=true ! "@
        + sink
}

/// Sound-effect graph: file, decode, conversion, resampling, volume `se_vol`
/// at three times, then the sink description.
pub open spec fn se_pipeline_spec(path: Seq<char>, sink: Seq<char>) -> Seq<char> {
    "filesrc location="@ + path + " ! decodebin ! audioconvert ! audioresample ! volume name=se_vol volume=3 ! "@ + sink
}

pub fn music_pipeline_description(path: &str, sink: &str) -> (r: String)
    ensures
        r@ == music_pipeline_spec(path@, sink@),
{
    let mut s = String::from_str("filesrc name=src location=");
    s.append(path);
    s.append(" ! decodebin ! audioconvert ! audioresample ! volume name=vol ! audioconvert ! capsfilter caps=\"audio/x-raw,format=F32LE,rate=44100,channels=2\" ! queue max-size-buffers=100 max-size-time=1000000000 ! pitch name=pch ! audioconvert ! audioresample ! queue2 max-size-buffers=0 max-size-bytes=0 max-size-time=200000000 use-buffering=true ! ");
    s.append(sink);
    s
}

pub fn se_pipeline_description(path: &str, sink: &str) -> (r: String)
    ensures
        r@ == se_pipeline_spec(path@, sink@),
{
    let mut s = String::from_str("filesrc location=");
    s.append(path);
    s.append(" ! decodebin ! audioconvert ! audioresample ! volume name=se_vol volume=3 ! ");
    s.append(sink);
    s
}

} // verus!
