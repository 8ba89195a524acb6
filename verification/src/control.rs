//! The control surface's side of the player: a small status cache and
//! the rule for turning each request into a playback command.
//!
//! The cache is a record of *intent*, updated when a command is sent,
//! not confirmed by the worker — a status query reflects what was last
//! requested, which may briefly differ from what the audio output is
//! really doing.  Each operation says which command, if any, goes onto
//! the command channel, and whether the worker has to be spawned first.

use vstd::prelude::*;

use crate::command::clamp_volume;
use crate::command::clamped_volume;
use crate::command::PlaybackCommand;
use crate::command::DEFAULT_VOLUME;
use crate::command::VOLUME_SCALE;
use crate::duration::duration_or_zero;
use crate::duration::duration_or_zero_spec;
use crate::paths::filename_of;
use crate::paths::filename_spec;

verus! {

/// The status cache consulted by fast queries, plus the one flag that
/// records whether the playback worker has been spawned.  In the running
/// player each field sits behind its own lock; the rules here are about
/// the values, not the locking.
#[derive(Debug, Clone)]
pub struct ControlState {
    /// Whether the playback worker (and its command channel) exists yet.
    pub worker_started: bool,
    /// The path handed to the last `load_track`.
    pub current_file: Option<String>,
    /// The measured duration of that track, in milliseconds.
    pub duration_millis: u64,
    /// Whether playback was last requested to run.
    pub playing: bool,
    /// The last requested volume, clamped, in thousandths of full volume.
    pub volume: u32,
}

/// What a track looks like to a caller: where it lives, its bare file
/// name, and its measured duration in milliseconds.
#[derive(Debug, Clone)]
pub struct TrackInfo {
    pub path: String,
    pub filename: String,
    pub duration_millis: u64,
}

/// A request arriving at the control surface, for stating rules about
/// whole sequences of requests.
pub enum ControlOp {
    /// Load the track at the path; the second field is the duration the
    /// metadata probe reported for it.
    LoadTrack(String, u64),
    Play,
    Pause,
    Resume,
    Stop,
    /// The requested volume in thousandths of full volume, not yet
    /// clamped.
    SetVolume(i64),
    /// The requested position in milliseconds.
    Seek(u64),
}

/// Whether handling this request constructs the playback worker: only
/// `load_track` and `play` start it, and only when it is absent.
pub open spec fn op_constructs_worker(s: ControlState, op: ControlOp) -> bool {
    match op {
        ControlOp::LoadTrack(_, _) => !s.worker_started,
        ControlOp::Play => !s.worker_started,
        _ => false,
    }
}

/// The cache a request leaves behind.
pub open spec fn apply_op(s: ControlState, op: ControlOp) -> ControlState {
    match op {
        ControlOp::LoadTrack(path, d) => ControlState {
            worker_started: true,
            current_file: Some(path),
            duration_millis: d,
            ..s
        },
        ControlOp::Play => ControlState { worker_started: true, ..s },
        ControlOp::Pause => if s.worker_started {
            ControlState { playing: false, ..s }
        } else {
            s
        },
        ControlOp::Resume => if s.worker_started {
            ControlState { playing: true, ..s }
        } else {
            s
        },
        ControlOp::Stop => if s.worker_started {
            ControlState { playing: false, ..s }
        } else {
            s
        },
        ControlOp::SetVolume(v) => ControlState { volume: clamped_volume(v), ..s },
        ControlOp::Seek(_) => s,
    }
}

/// The command a request puts onto the channel, if any.  Requests other
/// than `load_track` and `play` send nothing while no worker exists.
pub open spec fn op_command(s: ControlState, op: ControlOp) -> Option<PlaybackCommand> {
    match op {
        ControlOp::LoadTrack(path, _) => Some(PlaybackCommand::Load(path)),
        ControlOp::Play => Some(PlaybackCommand::Play),
        ControlOp::Pause => if s.worker_started {
            Some(PlaybackCommand::Pause)
        } else {
            None
        },
        ControlOp::Resume => if s.worker_started {
            Some(PlaybackCommand::Resume)
        } else {
            None
        },
        ControlOp::Stop => if s.worker_started {
            Some(PlaybackCommand::Stop)
        } else {
            None
        },
        ControlOp::SetVolume(v) => if s.worker_started {
            Some(PlaybackCommand::SetVolume(clamped_volume(v)))
        } else {
            None
        },
        ControlOp::Seek(p) => if s.worker_started {
            Some(PlaybackCommand::Seek(p))
        } else {
            None
        },
    }
}

impl ControlState {
    /// The cached volume never leaves the legal range.
    pub open spec fn wf(self) -> bool {
        self.volume <= VOLUME_SCALE
    }

    /// The cache at process start: no worker, no file, zero duration,
    /// not playing, three quarters of full volume.
    pub open spec fn initial_spec() -> ControlState {
        ControlState {
            worker_started: false,
            current_file: None,
            duration_millis: 0,
            playing: false,
            volume: DEFAULT_VOLUME,
        }
    }

    /// Spawn the playback worker if it is absent.  Returns whether the
    /// caller has to spawn it now; a second call never asks again.
    pub fn ensure_worker(&mut self) -> (spawn: bool)
        ensures
            spawn == !old(self).worker_started,
            *final(self) == (ControlState { worker_started: true, ..*old(self) }),
    {
        let spawn = !self.worker_started;
        self.worker_started = true;
        spawn
    }

    /// Load the track at `path`: spawn the worker if absent, remember
    /// path and duration in the cache, and hand back the track's
    /// metadata, whether a spawn is due, and the `Load` command to
    /// enqueue.  `probe` is the outcome of the caller's duration probe
    /// of the file on disk; a failed probe becomes a zero duration.
    pub fn load_track(&mut self, path: String, probe: Option<u64>) -> (r: (
        TrackInfo,
        bool,
        PlaybackCommand,
    ))
        requires
            old(self).wf(),
        ensures
            *final(self) == apply_op(
                *old(self),
                ControlOp::LoadTrack(path, duration_or_zero_spec(probe)),
            ),
            final(self).wf(),
            r.0.path == path,
            r.0.filename@ == filename_spec(path@),
            r.0.duration_millis == duration_or_zero_spec(probe),
            r.1 == op_constructs_worker(
                *old(self),
                ControlOp::LoadTrack(path, duration_or_zero_spec(probe)),
            ),
            Some(r.2) == op_command(
                *old(self),
                ControlOp::LoadTrack(path, duration_or_zero_spec(probe)),
            ),
    {
        let spawn = self.ensure_worker();
        let duration_millis = duration_or_zero(probe);
        let filename = filename_of(path.as_str());
        self.current_file = Some(path.clone());
        self.duration_millis = duration_millis;
        let info = TrackInfo { path: path.clone(), filename, duration_millis };
        (info, spawn, PlaybackCommand::Load(path))
    }

    /// Request playback of the current track: spawn the worker if
    /// absent and hand back whether a spawn is due and the `Play`
    /// command to enqueue.  The intent flag is set by
    /// `confirm_play_sent` once the channel has accepted the command,
    /// not before.
    pub fn play(&mut self) -> (r: (bool, PlaybackCommand))
        requires
            old(self).wf(),
        ensures
            *final(self) == apply_op(*old(self), ControlOp::Play),
            final(self).wf(),
            r.0 == op_constructs_worker(*old(self), ControlOp::Play),
            Some(r.1) == op_command(*old(self), ControlOp::Play),
    {
        let spawn = self.ensure_worker();
        (spawn, PlaybackCommand::Play)
    }

    /// Record that the channel accepted a `Play`: playback is now
    /// requested to run.  Not called when the send failed, so a dead
    /// worker leaves the flag as it was.
    pub fn confirm_play_sent(&mut self)
        requires
            old(self).wf(),
        ensures
            *final(self) == (ControlState { playing: true, ..*old(self) }),
            final(self).wf(),
    {
        self.playing = true;
    }

    /// Request a pause: a command is sent (and the intent recorded) only
    /// if the worker exists.
    pub fn pause(&mut self) -> (r: Option<PlaybackCommand>)
        requires
            old(self).wf(),
        ensures
            *final(self) == apply_op(*old(self), ControlOp::Pause),
            final(self).wf(),
            r == op_command(*old(self), ControlOp::Pause),
    {
        if self.worker_started {
            self.playing = false;
            Some(PlaybackCommand::Pause)
        } else {
            None
        }
    }

    /// Request that playback resume: a command is sent only if the
    /// worker exists.
    pub fn resume(&mut self) -> (r: Option<PlaybackCommand>)
        requires
            old(self).wf(),
        ensures
            *final(self) == apply_op(*old(self), ControlOp::Resume),
            final(self).wf(),
            r == op_command(*old(self), ControlOp::Resume),
    {
        if self.worker_started {
            self.playing = true;
            Some(PlaybackCommand::Resume)
        } else {
            None
        }
    }

    /// Request a stop: a command is sent only if the worker exists.
    pub fn stop(&mut self) -> (r: Option<PlaybackCommand>)
        requires
            old(self).wf(),
        ensures
            *final(self) == apply_op(*old(self), ControlOp::Stop),
            final(self).wf(),
            r == op_command(*old(self), ControlOp::Stop),
    {
        if self.worker_started {
            self.playing = false;
            Some(PlaybackCommand::Stop)
        } else {
            None
        }
    }

    /// Request a volume.  The cache always takes the clamped value; the
    /// worker is told only if it exists, and only ever the clamped
    /// value.
    pub fn set_volume(&mut self, requested: i64) -> (r: Option<PlaybackCommand>)
        requires
            old(self).wf(),
        ensures
            *final(self) == apply_op(*old(self), ControlOp::SetVolume(requested)),
            final(self).wf(),
            final(self).volume == clamped_volume(requested),
            r == op_command(*old(self), ControlOp::SetVolume(requested)),
    {
        let clamped = clamp_volume(requested);
        self.volume = clamped;
        if self.worker_started {
            Some(PlaybackCommand::SetVolume(clamped))
        } else {
            None
        }
    }

    /// Request a seek, in milliseconds: the cache does not change, and a
    /// command is sent only if the worker exists.
    pub fn seek(&mut self, position_millis: u64) -> (r: Option<PlaybackCommand>)
        requires
            old(self).wf(),
        ensures
            *final(self) == apply_op(*old(self), ControlOp::Seek(position_millis)),
            final(self).wf(),
            r == op_command(*old(self), ControlOp::Seek(position_millis)),
    {
        if self.worker_started {
            Some(PlaybackCommand::Seek(position_millis))
        } else {
            None
        }
    }

    /// The playback position is not tracked: the answer is always zero,
    /// whatever the playback state.
    pub fn get_position(&self) -> (r: u64)
        ensures
            r == 0,
    {
        0
    }

    /// Whether playback was last requested to run — intent, not a
    /// confirmed device state.
    pub fn is_playing(&self) -> (r: bool)
        ensures
            r == self.playing,
    {
        self.playing
    }
}

impl Default for ControlState {
    /// The cache at process start.
    fn default() -> (r: ControlState)
        ensures
            r == ControlState::initial_spec(),
            r.wf(),
    {
        ControlState {
            worker_started: false,
            current_file: None,
            duration_millis: 0,
            playing: false,
            volume: DEFAULT_VOLUME,
        }
    }
}

/// Read a track's metadata without touching the cache: the path itself,
/// the bare file name, and the duration in milliseconds.  `probe` is
/// the outcome of the caller's duration probe of the file on disk; a
/// failed probe becomes a zero duration.
pub fn get_track_metadata(path: String, probe: Option<u64>) -> (r: TrackInfo)
    ensures
        r.path == path,
        r.filename@ == filename_spec(path@),
        r.duration_millis == duration_or_zero_spec(probe),
{
    let duration_millis = duration_or_zero(probe);
    let filename = filename_of(path.as_str());
    TrackInfo { path, filename, duration_millis }
}

/// How many of a sequence of requests construct the playback worker.
pub open spec fn constructions(s: ControlState, ops: Seq<ControlOp>) -> nat
    decreases ops.len(),
{
    if ops.len() == 0 {
        0
    } else {
        (if op_constructs_worker(s, ops[0]) {
            1nat
        } else {
            0nat
        }) + constructions(apply_op(s, ops[0]), ops.drop_first())
    }
}

/// Once the worker exists, no request constructs it again.
proof fn lemma_started_stays_started(s: ControlState, op: ControlOp)
    ensures
        s.worker_started ==> apply_op(s, op).worker_started,
        op_constructs_worker(s, op) ==> apply_op(s, op).worker_started,
{
}

/// No sequence of requests constructs a worker that already exists.
proof fn lemma_no_constructions_once_started(s: ControlState, ops: Seq<ControlOp>)
    requires
        s.worker_started,
    ensures
        constructions(s, ops) == 0,
    decreases ops.len(),
{
    if ops.len() > 0 {
        lemma_started_stays_started(s, ops[0]);
        lemma_no_constructions_once_started(apply_op(s, ops[0]), ops.drop_first());
    }
}

/// Law: whatever sequence of requests arrives, the playback worker is
/// constructed at most once — the lazy start is idempotent.
pub proof fn lemma_worker_constructed_at_most_once(s: ControlState, ops: Seq<ControlOp>)
    ensures
        constructions(s, ops) <= 1,
    decreases ops.len(),
{
    if ops.len() > 0 {
        if op_constructs_worker(s, ops[0]) {
            lemma_started_stays_started(s, ops[0]);
            lemma_no_constructions_once_started(apply_op(s, ops[0]), ops.drop_first());
        } else {
            lemma_worker_constructed_at_most_once(apply_op(s, ops[0]), ops.drop_first());
        }
    }
}

/// Law: every command the control surface puts onto the channel is well
/// formed — in particular, any volume it carries has been clamped to the
/// legal range, so the worker only ever sees volumes in `[0, VOLUME_SCALE]`.
pub proof fn lemma_emitted_commands_wf(s: ControlState, op: ControlOp)
    ensures
        (match op_command(s, op) {
            Some(c) => c.wf(),
            None => true,
        }),
{
}

} // verus!
