use vstd::prelude::*;
use crate::state::DecoderState;
use crate::timing::{TimeBase, position, position_of};

verus! {

/// Position and length of what is playing, in whole seconds.
#[derive(Clone, Copy, Debug, PartialEq, Eq, Structural)]
pub struct ProgressState {
    pub position: u64,
    pub duration: u64,
}

impl ProgressState {
    pub open spec fn zero() -> ProgressState {
        ProgressState { position: 0, duration: 0 }
    }
}

/// Event notifications published towards the host.
#[derive(Clone, Copy, Debug, PartialEq, Eq, Structural)]
pub enum Callback {
    DecodeError,
    PlaybackLooped,
}

/// Playback-state transitions published towards the host.
#[derive(Clone, Copy, Debug, PartialEq, Eq, Structural)]
pub enum PlaybackState {
    Playing,
    Paused,
    Done,
}

/// Why a source could not be opened.
#[derive(Clone, Copy, Debug, PartialEq, Eq, Structural)]
pub enum OpenError {
    /// The container could not be probed or its codec is not supported.
    Unsupported,
    /// The source holds no track.
    NoTracks,
    /// The first packet of a preloaded source could not be read or decoded.
    NoPackets,
}

/// Transport commands that carry no source.
#[derive(Clone, Copy, Debug, PartialEq, Eq, Structural)]
pub enum Control {
    Play,
    Pause,
    Stop,
    PlayPreload,
    DeviceChanged,
    Dispose,
}

/// What the caller does to its sink after a transport command.
#[derive(Clone, Copy, Debug, PartialEq, Eq, Structural)]
pub enum SinkOp {
    Keep,
    Resume,
    Pause,
}

/// What the caller does after a transport command.
#[derive(Clone, Copy, Debug, PartialEq, Eq, Structural)]
pub struct Reply {
    pub sink: SinkOp,
    pub publish: Option<PlaybackState>,
    pub exit: bool,
}

/// One opened media source. `payload` holds the caller's demuxer and decoder;
/// `has_preload` says that it also holds one decoded buffer not yet emitted.
pub struct Session<S> {
    pub payload: S,
    pub track_id: u32,
    pub timebase: Option<TimeBase>,
    pub duration: u64,
    pub has_preload: bool,
}

impl<S> Session<S> {
    pub open spec fn wf(&self) -> bool {
        self.timebase matches Some(tb) ==> tb.wf()
    }
}

/// What the caller does in one playback step.
#[derive(Clone, Copy, Debug, PartialEq, Eq, Structural)]
pub enum StepAction {
    /// There is no session: nothing to do.
    Nothing,
    /// Write the session's preloaded buffer to the sink; decode nothing.
    EmitPreload,
    /// Seek the demuxer to `target` seconds on the session's track, reset the
    /// decoder, discard the sink's buffered samples; decode nothing.
    ApplySeek { target: u64, track_id: u32 },
    /// Read the next packet.
    ReadPacket,
}

/// What happened at the end of the stream.
#[derive(Clone, Copy, Debug, PartialEq, Eq, Structural)]
pub enum StreamEnd {
    /// Playback goes on from the start; publish `PlaybackLooped`.
    Looped,
    /// Playback is over: flush the sink, publish `Done` and zero progress.
    Finished,
}

/// The decode engine. It owns the active session `S`, the preloaded one, and
/// the audio sink `K`.
pub struct Engine<S, K> {
    pub state: DecoderState,
    pub sink: Option<K>,
    pub session: Option<Session<S>>,
    /// A completed preload, ready for `PlayPreload`.
    pub preloaded: Option<Session<S>>,
    /// The ticket of the one preload whose result is still awaited.
    pub preload_ticket: Option<u64>,
    pub next_ticket: u64,
    /// The pending seek target in seconds; a new request overwrites it.
    pub seek_slot: Option<u64>,
    /// Packets whose timestamp is below this are stale after a seek.
    pub seek_floor: u64,
    pub looping: bool,
    pub progress: ProgressState,
}

impl<S, K> Engine<S, K> {
    pub open spec fn wf(&self) -> bool {
        &&& (self.session matches Some(s) ==> s.wf())
        &&& (self.preloaded matches Some(s) ==> s.wf())
    }

    /// The engine as it starts: idle, with nothing open.
    pub open spec fn initial() -> Self {
        Engine {
            state: DecoderState::Idle,
            sink: None,
            session: None,
            preloaded: None,
            preload_ticket: None,
            next_ticket: 0,
            seek_slot: None,
            seek_floor: 0,
            looping: false,
            progress: ProgressState::zero(),
        }
    }

    pub fn new() -> (r: Self)
        ensures
            r == Self::initial(),
            r.wf(),
    {
        Engine {
            state: DecoderState::Idle,
            sink: None,
            session: None,
            preloaded: None,
            preload_ticket: None,
            next_ticket: 0,
            seek_slot: None,
            seek_floor: 0,
            looping: false,
            progress: ProgressState { position: 0, duration: 0 },
        }
    }

    /// The engine blocks for the next command when there is no audio work.
    pub fn waits_for_command(&self) -> (r: bool)
        ensures
            r == (self.state != DecoderState::Playing),
    {
        !self.state.is_playing()
    }

    /// Records a seek request; it replaces any that is still pending.
    pub fn request_seek(&mut self, target: u64)
        ensures
            *final(self) == (Engine { seek_slot: Some(target), ..*old(self) }),
    {
        self.seek_slot = Some(target);
    }

    pub fn set_looping(&mut self, looping: bool)
        ensures
            *final(self) == (Engine { looping, ..*old(self) }),
    {
        self.looping = looping;
    }

    /// The engine after a run of transport commands, in order.
    pub open spec fn after_controls(self, cs: Seq<Control>) -> Self
        decreases cs.len(),
    {
        if cs.len() == 0 {
            self
        } else {
            self.after_control(cs[0]).after_controls(cs.drop_first())
        }
    }

    /// The engine once the demuxer reported where a seek landed.
    pub open spec fn after_seek_done(self, landed: Option<u64>) -> Self {
        Engine {
            seek_floor: match landed {
                Some(ts) => ts,
                None => 0,
            },
            ..self
        }
    }

    /// The engine after an open that yielded `opened`: a new session drops the
    /// sink and replaces the old session; a failure changes nothing.
    pub open spec fn after_open(self, opened: Result<Session<S>, OpenError>) -> Self {
        match opened {
            Ok(s) => Engine { sink: None, session: Some(s), seek_floor: 0, ..self },
            Err(_) => self,
        }
    }

    /// Takes the outcome of opening a source. A failure is reported as a
    /// decode error and leaves the engine as it was.
    pub fn open(&mut self, opened: Result<Session<S>, OpenError>) -> (r: Option<Callback>)
        requires
            old(self).wf(),
            opened matches Ok(s) ==> s.wf(),
        ensures
            *final(self) == old(self).after_open(opened),
            final(self).wf(),
            r == (if opened is Ok { None } else { Some(Callback::DecodeError) }),
    {
        match opened {
            Ok(s) => {
                self.sink = None;
                self.session = Some(s);
                self.seek_floor = 0;
                None
            },
            Err(_) => Some(Callback::DecodeError),
        }
    }

    /// The engine after a transport command.
    pub open spec fn after_control(self, c: Control) -> Self {
        match c {
            Control::Play => Engine { state: DecoderState::Playing, ..self },
            Control::Pause => Engine { state: DecoderState::Paused, ..self },
            Control::Stop => Engine {
                state: DecoderState::Idle,
                sink: None,
                session: None,
                seek_floor: 0,
                progress: ProgressState::zero(),
                ..self
            },
            Control::PlayPreload => match self.preloaded {
                Some(p) => Engine {
                    state: DecoderState::Playing,
                    sink: None,
                    session: Some(p),
                    preloaded: None,
                    seek_floor: 0,
                    ..self
                },
                None => self,
            },
            Control::DeviceChanged => Engine { state: DecoderState::Paused, sink: None, ..self },
            Control::Dispose => self,
        }
    }

    /// What the caller does after a transport command.
    pub open spec fn reply_to(self, c: Control) -> Reply {
        let sink_op = match c {
            Control::Play => if self.sink is Some { SinkOp::Resume } else { SinkOp::Keep },
            Control::Pause => if self.sink is Some { SinkOp::Pause } else { SinkOp::Keep },
            _ => SinkOp::Keep,
        };
        let publish = match c {
            Control::PlayPreload => if self.preloaded is Some {
                Some(PlaybackState::Playing)
            } else {
                None
            },
            Control::DeviceChanged => Some(PlaybackState::Paused),
            _ => None,
        };
        Reply { sink: sink_op, publish, exit: c == Control::Dispose }
    }

    /// Applies a transport command.
    pub fn control(&mut self, c: Control) -> (r: Reply)
        requires
            old(self).wf(),
        ensures
            *final(self) == old(self).after_control(c),
            final(self).wf(),
            r == old(self).reply_to(c),
    {
        match c {
            Control::Play => {
                self.state = DecoderState::Playing;
                let op = if self.sink.is_some() { SinkOp::Resume } else { SinkOp::Keep };
                Reply { sink: op, publish: None, exit: false }
            },
            Control::Pause => {
                self.state = DecoderState::Paused;
                let op = if self.sink.is_some() { SinkOp::Pause } else { SinkOp::Keep };
                Reply { sink: op, publish: None, exit: false }
            },
            Control::Stop => {
                self.state = DecoderState::Idle;
                self.sink = None;
                self.session = None;
                self.seek_floor = 0;
                self.progress = ProgressState { position: 0, duration: 0 };
                Reply { sink: SinkOp::Keep, publish: None, exit: false }
            },
            Control::PlayPreload => {
                if self.preloaded.is_none() {
                    return Reply { sink: SinkOp::Keep, publish: None, exit: false };
                }
                self.state = DecoderState::Playing;
                self.sink = None;
                self.session = self.preloaded.take();
                self.seek_floor = 0;
                Reply { sink: SinkOp::Keep, publish: Some(PlaybackState::Playing), exit: false }
            },
            Control::DeviceChanged => {
                self.state = DecoderState::Paused;
                self.sink = None;
                Reply { sink: SinkOp::Keep, publish: Some(PlaybackState::Paused), exit: false }
            },
            Control::Dispose => Reply { sink: SinkOp::Keep, publish: None, exit: true },
        }
    }
    /// The engine once a preload is started: any unconsumed preloaded session
    /// is dropped and only the new task's result will be taken.
    pub open spec fn after_preload_start(self) -> Self {
        Engine {
            preloaded: None,
            preload_ticket: Some(self.next_ticket),
            next_ticket: self.next_ticket.wrapping_add(1),
            ..self
        }
    }

    /// Starts a preload; the returned ticket goes with the task and back to
    /// [`Engine::preload_finished`].
    pub fn preload_started(&mut self) -> (ticket: u64)
        requires
            old(self).wf(),
        ensures
            *final(self) == old(self).after_preload_start(),
            final(self).wf(),
            ticket == old(self).next_ticket,
    {
        let ticket = self.next_ticket;
        self.preloaded = None;
        self.preload_ticket = Some(ticket);
        self.next_ticket = ticket.wrapping_add(1);
        ticket
    }

    /// The engine once the preload task with `ticket` has yielded `result`:
    /// only the awaited task's success is kept; any other result is dropped.
    pub open spec fn after_preload_finish(self, ticket: u64, result: Result<Session<S>, OpenError>) -> Self {
        if self.preload_ticket == Some(ticket) {
            match result {
                Ok(s) => Engine { preloaded: Some(s), preload_ticket: None, ..self },
                Err(_) => Engine { preload_ticket: None, ..self },
            }
        } else {
            self
        }
    }

    /// Takes the result of a finished preload task. A failure of the awaited
    /// task is reported as a decode error.
    pub fn preload_finished(&mut self, ticket: u64, result: Result<Session<S>, OpenError>) -> (r: Option<Callback>)
        requires
            old(self).wf(),
            result matches Ok(s) ==> s.wf(),
        ensures
            *final(self) == old(self).after_preload_finish(ticket, result),
            final(self).wf(),
            r == (if old(self).preload_ticket == Some(ticket) && result is Err {
                Some(Callback::DecodeError)
            } else {
                None
            }),
    {
        match self.preload_ticket {
            Some(t) => {
                if t != ticket {
                    return None;
                }
            },
            None => {
                return None;
            },
        }
        self.preload_ticket = None;
        match result {
            Ok(s) => {
                self.preloaded = Some(s);
                None
            },
            Err(_) => Some(Callback::DecodeError),
        }
    }

    /// The first decision of a playback step.
    pub open spec fn step_action(self) -> StepAction {
        match self.session {
            None => StepAction::Nothing,
            Some(s) => if s.has_preload {
                StepAction::EmitPreload
            } else {
                match self.seek_slot {
                    Some(t) => StepAction::ApplySeek { target: t, track_id: s.track_id },
                    None => StepAction::ReadPacket,
                }
            },
        }
    }

    /// The engine after that decision: an emitted preload buffer is consumed,
    /// a seek request leaves the slot.
    pub open spec fn after_step_begin(self) -> Self {
        match self.session {
            None => self,
            Some(s) => if s.has_preload {
                Engine { session: Some(Session { has_preload: false, ..s }), ..self }
            } else {
                Engine { seek_slot: None, ..self }
            },
        }
    }

    /// Starts one playback step.
    pub fn begin_step(&mut self) -> (r: StepAction)
        requires
            old(self).wf(),
        ensures
            *final(self) == old(self).after_step_begin(),
            final(self).wf(),
            r == old(self).step_action(),
    {
        if self.session.is_none() {
            return StepAction::Nothing;
        }
        let mut s = self.session.take().unwrap();
        if s.has_preload {
            s.has_preload = false;
            self.session = Some(s);
            return StepAction::EmitPreload;
        }
        let track_id = s.track_id;
        self.session = Some(s);
        match self.seek_slot.take() {
            Some(t) => StepAction::ApplySeek { target: t, track_id },
            None => StepAction::ReadPacket,
        }
    }

    /// Records where the demuxer landed after a seek (`None` where the seek
    /// failed, which counts as the start).
    pub fn seek_done(&mut self, landed: Option<u64>)
        ensures
            *final(self) == old(self).after_seek_done(landed),
    {
        self.seek_floor = match landed {
            Some(ts) => ts,
            None => 0,
        };
    }

    /// Whether a packet of `track_id` belongs to the active session.
    pub fn accepts_packet(&self, track_id: u32) -> (r: bool)
        ensures
            r == (self.session matches Some(s) && s.track_id == track_id),
    {
        match &self.session {
            Some(s) => s.track_id == track_id,
            None => false,
        }
    }

    /// The engine at the end of the stream.
    pub open spec fn after_end_of_stream(self) -> Self {
        if self.looping {
            Engine { seek_slot: Some(0), ..self }
        } else {
            Engine {
                state: DecoderState::Idle,
                session: None,
                seek_floor: 0,
                progress: ProgressState::zero(),
                ..self
            }
        }
    }

    /// Handles the end of the stream: with looping on, a seek to the start is
    /// requested; otherwise playback finishes and the engine goes idle.
    pub fn end_of_stream(&mut self) -> (r: StreamEnd)
        requires
            old(self).wf(),
        ensures
            *final(self) == old(self).after_end_of_stream(),
            final(self).wf(),
            r == (if old(self).looping { StreamEnd::Looped } else { StreamEnd::Finished }),
    {
        if self.looping {
            self.seek_slot = Some(0);
            StreamEnd::Looped
        } else {
            self.state = DecoderState::Idle;
            self.session = None;
            self.seek_floor = 0;
            self.progress = ProgressState { position: 0, duration: 0 };
            StreamEnd::Finished
        }
    }

    /// The progress after a packet at `ts` of session `s` was decoded, or
    /// `None` where the packet is stale after a seek.
    pub open spec fn progress_for(self, s: Session<S>, ts: u64) -> Option<ProgressState> {
        if ts < self.seek_floor {
            None
        } else {
            Some(ProgressState { position: position_of(s.timebase, ts), duration: s.duration })
        }
    }

    /// The progress after a decoded packet at `ts`; `None` without a session.
    pub open spec fn decoded_progress(self, ts: u64) -> Option<ProgressState> {
        match self.session {
            Some(s) => self.progress_for(s, ts),
            None => None,
        }
    }

    pub open spec fn after_decoded(self, ts: u64) -> Self {
        match self.decoded_progress(ts) {
            Some(p) => Engine { progress: p, ..self },
            None => self,
        }
    }

    /// Takes a decoded packet at timestamp `ts`. Returns the progress to
    /// publish, with the decoded samples to be written to the sink, or `None`
    /// where the packet is stale and is dropped, or where nothing is open.
    pub fn decoded(&mut self, ts: u64) -> (r: Option<ProgressState>)
        requires
            old(self).wf(),
        ensures
            *final(self) == old(self).after_decoded(ts),
            final(self).wf(),
            r == old(self).decoded_progress(ts),
    {
        if ts < self.seek_floor || self.session.is_none() {
            return None;
        }
        let s = self.session.take().unwrap();
        let p = ProgressState { position: position(s.timebase, ts), duration: s.duration };
        self.session = Some(s);
        self.progress = p;
        Some(p)
    }

    /// Installs a sink built by the caller.
    pub fn install_sink(&mut self, sink: K)
        ensures
            *final(self) == (Engine { sink: Some(sink), ..*old(self) }),
    {
        self.sink = Some(sink);
    }

    /// The sink could not be built or the device is gone: playback pauses
    /// until the caller resumes it.
    pub fn sink_failed(&mut self) -> (r: PlaybackState)
        ensures
            *final(self) == (Engine { state: DecoderState::Paused, sink: None, ..*old(self) }),
            r == PlaybackState::Paused,
    {
        self.state = DecoderState::Paused;
        self.sink = None;
        PlaybackState::Paused
    }
}

} // verus!
