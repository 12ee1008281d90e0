//! Which audio source plays: the local player, the system's media session,
//! or the stream. Switching to one source pauses the others.

use vstd::prelude::*;

verus! {

/// The source that is to play.
#[derive(Clone, Copy, PartialEq, Eq, Structural, Debug)]
pub enum SourceMode {
    LocalPlayback,
    SystemMonitor,
    Streaming,
    Idle,
}

/// Which sources to pause.
#[derive(Clone, Copy, PartialEq, Eq, Structural, Debug)]
pub struct PausePlan {
    pub local: bool,
    pub mpris: bool,
    pub streaming: bool,
}

/// The sources to pause when `target` is to play: every source but the
/// target; when nothing is to play, the local player and the stream (the
/// media session is left alone).
pub open spec fn plan_for(target: SourceMode) -> PausePlan {
    match target {
        SourceMode::LocalPlayback => PausePlan { local: false, mpris: true, streaming: true },
        SourceMode::SystemMonitor => PausePlan { local: true, mpris: false, streaming: true },
        SourceMode::Streaming => PausePlan { local: true, mpris: true, streaming: false },
        SourceMode::Idle => PausePlan { local: true, mpris: false, streaming: true },
    }
}

/// The sources to pause; see [`plan_for`].
pub fn pause_other(target: SourceMode) -> (r: PausePlan)
    ensures
        r == plan_for(target),
{
    match target {
        SourceMode::LocalPlayback => PausePlan { local: false, mpris: true, streaming: true },
        SourceMode::SystemMonitor => PausePlan { local: true, mpris: false, streaming: true },
        SourceMode::Streaming => PausePlan { local: true, mpris: true, streaming: false },
        SourceMode::Idle => PausePlan { local: true, mpris: false, streaming: true },
    }
}

/// The source that is to play is never paused, and every other playing
/// source is.
pub proof fn law_target_keeps_playing(target: SourceMode)
    ensures
        target == SourceMode::LocalPlayback ==> !plan_for(target).local && plan_for(target).mpris && plan_for(target).streaming,
        target == SourceMode::SystemMonitor ==> !plan_for(target).mpris && plan_for(target).local && plan_for(target).streaming,
        target == SourceMode::Streaming ==> !plan_for(target).streaming && plan_for(target).local && plan_for(target).mpris,
{
}

} // verus!
