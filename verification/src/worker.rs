//! The playback worker's decision core.
//!
//! The worker owns the audio output device and the one live sink.  It
//! drains playback commands in arrival order; for each command, `step`
//! updates the worker's state and returns the actions to perform on the
//! audio output, in order.  The surrounding loop performs the actions
//! (open, decode, pause, ...) and reports back whether a requested start
//! of playback succeeded through `confirm_playback`.
//!
//! Failure semantics: a failed start leaves no sink alive and the worker
//! keeps draining later commands — no command can end the loop.

use vstd::prelude::*;

use crate::command::PlaybackCommand;
use crate::command::VOLUME_SCALE;

verus! {

/// The worker's model of the one live sink: whether it is paused and the
/// volume it was last given, in thousandths of full volume.
#[derive(Debug, Clone, Copy, PartialEq, Eq, Structural)]
pub struct SinkModel {
    pub paused: bool,
    pub volume: u32,
}

/// State owned exclusively by the playback worker: the path recorded by
/// the last `Load` and the model of the active sink, if one is alive.
/// At most one sink is alive at a time; replacing it always stops the
/// previous one first.
#[derive(Debug, Clone)]
pub struct WorkerState {
    pub current_path: Option<String>,
    pub sink: Option<SinkModel>,
    /// The worker's cached volume, applied to each fresh sink.
    pub volume: u32,
}

/// An effect on the audio output that the worker asks its surroundings
/// to perform.
#[derive(Debug, Clone, PartialEq, Eq)]
pub enum SinkAction {
    /// Stop and discard the live sink.
    StopSink,
    /// Open `path`, decode it, and start a fresh sink at `volume`
    /// (thousandths of full volume), from the beginning of the track.
    StartPlayback { path: String, volume: u32 },
    /// Pause the live sink.
    PauseSink,
    /// Resume the live sink.
    ResumeSink,
    /// Apply the given volume to the live sink.
    ApplyVolume(u32),
    /// Ask the live sink to seek to the offset, in milliseconds; best
    /// effort, a refusal is ignored.
    SeekTo(u64),
}

/// The state a worker step leaves behind.  `Play` discards the old sink
/// and leaves none alive until `confirm_playback` reports whether the
/// fresh sink could be started.
pub open spec fn step_state(s: WorkerState, cmd: PlaybackCommand) -> WorkerState {
    match cmd {
        PlaybackCommand::Load(path) => WorkerState { current_path: Some(path), ..s },
        PlaybackCommand::Play => match s.current_path {
            Some(_) => WorkerState { sink: None, ..s },
            None => s,
        },
        PlaybackCommand::Pause => match s.sink {
            Some(m) => WorkerState { sink: Some(SinkModel { paused: true, ..m }), ..s },
            None => s,
        },
        PlaybackCommand::Resume => match s.sink {
            Some(m) => WorkerState { sink: Some(SinkModel { paused: false, ..m }), ..s },
            None => s,
        },
        PlaybackCommand::Stop => WorkerState { sink: None, ..s },
        PlaybackCommand::SetVolume(v) => WorkerState {
            volume: v,
            sink: match s.sink {
                Some(m) => Some(SinkModel { volume: v, ..m }),
                None => None,
            },
            ..s
        },
        PlaybackCommand::Seek(_) => s,
    }
}

/// The actions a worker step asks for, in the order they must be
/// performed.
pub open spec fn step_actions(s: WorkerState, cmd: PlaybackCommand) -> Seq<SinkAction> {
    match cmd {
        PlaybackCommand::Load(_) => seq![],
        PlaybackCommand::Play => match s.current_path {
            Some(path) => if s.sink is Some {
                seq![
                    SinkAction::StopSink,
                    SinkAction::StartPlayback { path, volume: s.volume },
                ]
            } else {
                seq![SinkAction::StartPlayback { path, volume: s.volume }]
            },
            None => seq![],
        },
        PlaybackCommand::Pause => if s.sink is Some {
            seq![SinkAction::PauseSink]
        } else {
            seq![]
        },
        PlaybackCommand::Resume => if s.sink is Some {
            seq![SinkAction::ResumeSink]
        } else {
            seq![]
        },
        PlaybackCommand::Stop => if s.sink is Some {
            seq![SinkAction::StopSink]
        } else {
            seq![]
        },
        PlaybackCommand::SetVolume(v) => if s.sink is Some {
            seq![SinkAction::ApplyVolume(v)]
        } else {
            seq![]
        },
        PlaybackCommand::Seek(p) => if s.sink is Some {
            seq![SinkAction::SeekTo(p)]
        } else {
            seq![]
        },
    }
}

/// The state after the surroundings report whether a requested start of
/// playback succeeded: on success a fresh, unpaused sink at the cached
/// volume is alive; on failure nothing changes and no sink is alive.
pub open spec fn confirm_state(s: WorkerState, started: bool) -> WorkerState {
    if started {
        WorkerState { sink: Some(SinkModel { paused: false, volume: s.volume }), ..s }
    } else {
        s
    }
}

impl WorkerState {
    /// Every volume the worker holds stays in the legal range.
    pub open spec fn wf(self) -> bool {
        &&& self.volume <= VOLUME_SCALE
        &&& (self.sink is Some ==> self.sink.unwrap().volume <= VOLUME_SCALE)
    }

    /// The state a freshly spawned worker starts in: nothing loaded, no
    /// sink, the volume it was handed at spawn time.
    pub open spec fn initial_spec(volume: u32) -> WorkerState {
        WorkerState { current_path: None, sink: None, volume }
    }

    /// Construct the state of a freshly spawned worker.
    pub fn initial(volume: u32) -> (r: WorkerState)
        requires
            volume <= VOLUME_SCALE,
        ensures
            r == Self::initial_spec(volume),
            r.wf(),
    {
        WorkerState { current_path: None, sink: None, volume }
    }

    /// Consume one command: update the worker's state and return the
    /// actions to perform on the audio output, in order.
    pub fn step(&mut self, cmd: PlaybackCommand) -> (actions: Vec<SinkAction>)
        requires
            old(self).wf(),
            cmd.wf(),
        ensures
            *final(self) == step_state(*old(self), cmd),
            actions@ =~= step_actions(*old(self), cmd),
            final(self).wf(),
    {
        match cmd {
            PlaybackCommand::Load(path) => {
                self.current_path = Some(path);
                Vec::new()
            }
            PlaybackCommand::Play => {
                match &self.current_path {
                    Some(path) => {
                        let fresh = path.clone();
                        let mut actions: Vec<SinkAction> = Vec::new();
                        if self.sink.is_some() {
                            actions.push(SinkAction::StopSink);
                        }
                        actions.push(SinkAction::StartPlayback {
                            path: fresh,
                            volume: self.volume,
                        });
                        self.sink = None;
                        actions
                    }
                    None => Vec::new(),
                }
            }
            PlaybackCommand::Pause => {
                match self.sink {
                    Some(m) => {
                        self.sink = Some(SinkModel { paused: true, volume: m.volume });
                        let mut actions: Vec<SinkAction> = Vec::new();
                        actions.push(SinkAction::PauseSink);
                        actions
                    }
                    None => Vec::new(),
                }
            }
            PlaybackCommand::Resume => {
                match self.sink {
                    Some(m) => {
                        self.sink = Some(SinkModel { paused: false, volume: m.volume });
                        let mut actions: Vec<SinkAction> = Vec::new();
                        actions.push(SinkAction::ResumeSink);
                        actions
                    }
                    None => Vec::new(),
                }
            }
            PlaybackCommand::Stop => {
                match self.sink {
                    Some(_) => {
                        self.sink = None;
                        let mut actions: Vec<SinkAction> = Vec::new();
                        actions.push(SinkAction::StopSink);
                        actions
                    }
                    None => Vec::new(),
                }
            }
            PlaybackCommand::SetVolume(v) => {
                self.volume = v;
                match self.sink {
                    Some(m) => {
                        self.sink = Some(SinkModel { paused: m.paused, volume: v });
                        let mut actions: Vec<SinkAction> = Vec::new();
                        actions.push(SinkAction::ApplyVolume(v));
                        actions
                    }
                    None => Vec::new(),
                }
            }
            PlaybackCommand::Seek(p) => {
                match self.sink {
                    Some(_) => {
                        let mut actions: Vec<SinkAction> = Vec::new();
                        actions.push(SinkAction::SeekTo(p));
                        actions
                    }
                    None => Vec::new(),
                }
            }
        }
    }

    /// Record the outcome of a `StartPlayback` action.
    pub fn confirm_playback(&mut self, started: bool)
        requires
            old(self).wf(),
        ensures
            *final(self) == confirm_state(*old(self), started),
            final(self).wf(),
    {
        if started {
            self.sink = Some(SinkModel { paused: false, volume: self.volume });
        }
    }
}

/// The worker state after a whole sequence of commands.
pub open spec fn run_commands(s: WorkerState, cmds: Seq<PlaybackCommand>) -> WorkerState
    decreases cmds.len(),
{
    if cmds.len() == 0 {
        s
    } else {
        run_commands(step_state(s, cmds[0]), cmds.drop_first())
    }
}

/// One step keeps every volume the worker holds in the legal range.
proof fn lemma_step_state_wf(s: WorkerState, cmd: PlaybackCommand)
    requires
        s.wf(),
        cmd.wf(),
    ensures
        step_state(s, cmd).wf(),
{
}

/// Law: under any sequence of well-formed commands — and the control
/// surface only emits well-formed ones — every volume the worker holds
/// stays in the legal range, so the worker-visible volume is always in
/// `[0, VOLUME_SCALE]`.
pub proof fn lemma_worker_volume_stays_legal(s: WorkerState, cmds: Seq<PlaybackCommand>)
    requires
        s.wf(),
        forall|i: int| 0 <= i < cmds.len() ==> (#[trigger] cmds[i]).wf(),
    ensures
        run_commands(s, cmds).wf(),
    decreases cmds.len(),
{
    if cmds.len() > 0 {
        lemma_step_state_wf(s, cmds[0]);
        assert forall|i: int| 0 <= i < cmds.drop_first().len() implies (#[trigger] cmds.drop_first()[
            i
        ]).wf() by {
            assert(cmds.drop_first()[i] == cmds[i + 1]);
        }
        lemma_worker_volume_stays_legal(step_state(s, cmds[0]), cmds.drop_first());
    }
}

/// Law: a `Play` arriving while a sink is alive asks for a stop of that
/// sink strictly before the start of the new one, so two sinks never
/// produce sound at once.
pub proof fn lemma_play_stops_previous_sink(s: WorkerState)
    requires
        s.sink is Some,
        s.current_path is Some,
    ensures
        step_actions(s, PlaybackCommand::Play).len() == 2,
        step_actions(s, PlaybackCommand::Play)[0] == SinkAction::StopSink,
        step_actions(s, PlaybackCommand::Play)[1] == (SinkAction::StartPlayback {
            path: s.current_path.unwrap(),
            volume: s.volume,
        }),
{
}

/// Law: commands apply in arrival order with no coalescing, so `Pause`,
/// `Resume`, `Pause` leaves the sink paused — the last command wins.
pub proof fn lemma_pause_resume_pause_ends_paused(s: WorkerState)
    requires
        s.sink is Some,
    ensures
        ({
            let s3 = step_state(
                step_state(step_state(s, PlaybackCommand::Pause), PlaybackCommand::Resume),
                PlaybackCommand::Pause,
            );
            s3.sink is Some && s3.sink.unwrap().paused
        }),
{
}

/// Law: after `Stop` no sink is alive, so `Pause`, `Resume` and `Seek`
/// change nothing and perform nothing, while `Play` restarts the
/// previously loaded track from the beginning with one fresh sink and
/// needs no stop first.
pub proof fn lemma_after_stop_commands_are_noops(s: WorkerState, pos: u64)
    ensures
        ({
            let s1 = step_state(s, PlaybackCommand::Stop);
            &&& s1.sink is None
            &&& s1.current_path == s.current_path
            &&& step_state(s1, PlaybackCommand::Pause) == s1
            &&& step_actions(s1, PlaybackCommand::Pause) =~= Seq::<SinkAction>::empty()
            &&& step_state(s1, PlaybackCommand::Resume) == s1
            &&& step_actions(s1, PlaybackCommand::Resume) =~= Seq::<SinkAction>::empty()
            &&& step_state(s1, PlaybackCommand::Seek(pos)) == s1
            &&& step_actions(s1, PlaybackCommand::Seek(pos)) =~= Seq::<SinkAction>::empty()
            &&& (s.current_path is Some ==> step_actions(s1, PlaybackCommand::Play)
                =~= seq![
                    SinkAction::StartPlayback {
                        path: s.current_path.unwrap(),
                        volume: s.volume,
                    },
                ])
        }),
{
}

} // verus!
