//! Properties that relate several engine operations.

use vstd::prelude::*;
use crate::engine::{Control, Engine, OpenError, ProgressState, Session, StepAction};
use crate::state::DecoderState;

verus! {

/// Any run of `Play` and `Pause` commands, with no `Stop` among them, leaves
/// the published position where it was: it never moves back.
pub proof fn lemma_pause_play_keep_position<S, K>(e: Engine<S, K>, cs: Seq<Control>)
    requires
        forall|i: int| 0 <= i < cs.len() ==> cs[i] == Control::Play || cs[i] == Control::Pause,
    ensures
        e.after_controls(cs).progress == e.progress,
        e.after_controls(cs).session == e.session,
    decreases cs.len(),
{
    if cs.len() > 0 {
        let e1 = e.after_control(cs[0]);
        let rest = cs.drop_first();
        assert forall|i: int| 0 <= i < rest.len() implies rest[i] == Control::Play
            || rest[i] == Control::Pause by {
            assert(rest[i] == cs[i + 1]);
        }
        lemma_pause_play_keep_position(e1, rest);
    }
}

/// `Stop` leaves the engine idle, with zero progress and no sink or session,
/// whatever it was doing.
pub proof fn lemma_stop_resets<S, K>(e: Engine<S, K>)
    ensures
        e.after_control(Control::Stop).state == DecoderState::Idle,
        e.after_control(Control::Stop).progress == ProgressState::zero(),
        e.after_control(Control::Stop).sink is None,
        e.after_control(Control::Stop).session is None,
{
}

/// Of two preloads started one after the other, only the second one's session
/// reaches `PlayPreload`, whichever of the two tasks finishes first.
pub proof fn lemma_last_preload_wins<S, K>(
    e: Engine<S, K>,
    x: Result<Session<S>, OpenError>,
    y: Session<S>,
)
    ensures
        ({
            let tx = e.next_ticket;
            let e1 = e.after_preload_start();
            let ty = e1.next_ticket;
            let e2 = e1.after_preload_start();
            &&& e2.after_preload_finish(tx, x) == e2
            &&& e2.after_preload_finish(tx, x).after_preload_finish(ty, Ok(y)).after_control(
                Control::PlayPreload,
            ).session == Some(y)
            &&& e2.after_preload_finish(ty, Ok(y)).after_preload_finish(tx, x).after_control(
                Control::PlayPreload,
            ).session == Some(y)
        }),
{
    let tx = e.next_ticket;
    let ty = e.after_preload_start().next_ticket;
    assert(tx != ty);
}

/// `PlayPreload` with no completed preload changes nothing.
pub proof fn lemma_play_preload_without_preload<S, K>(e: Engine<S, K>)
    requires
        e.preloaded is None,
    ensures
        e.after_control(Control::PlayPreload) == e,
        e.reply_to(Control::PlayPreload).publish is None,
{
}

/// A pending seek is resolved over two steps: the first only clears the slot
/// and asks for the seek, decoding nothing; the second reads packets, and no
/// packet before the point where the seek landed is emitted.
pub proof fn lemma_seek_two_steps<S, K>(e: Engine<S, K>, target: u64, landed: Option<u64>, ts: u64)
    requires
        e.session matches Some(s) && !s.has_preload,
        e.seek_slot == Some(target),
    ensures
        e.step_action() == (StepAction::ApplySeek { target, track_id: e.session.unwrap().track_id }),
        e.after_step_begin().seek_slot is None,
        e.after_step_begin().session == e.session,
        e.after_step_begin().after_seek_done(landed).step_action() == StepAction::ReadPacket,
        e.after_step_begin().after_seek_done(landed).progress_for(e.session.unwrap(), ts) is Some
            ==> ts >= (match landed {
            Some(l) => l,
            None => 0,
        }),
{
}

/// With looping on, the end of the stream keeps the engine playing the same
/// session and makes the next step seek back to the start.
pub proof fn lemma_loop_restarts<S, K>(e: Engine<S, K>)
    requires
        e.looping,
        e.state == DecoderState::Playing,
        e.session matches Some(s) && !s.has_preload,
    ensures
        e.after_end_of_stream().state == DecoderState::Playing,
        e.after_end_of_stream().session == e.session,
        e.after_end_of_stream().step_action() == (StepAction::ApplySeek {
            target: 0,
            track_id: e.session.unwrap().track_id,
        }),
{
}

/// With looping off, the end of the stream finishes playback: the engine goes
/// idle with zero progress.
pub proof fn lemma_finish_without_loop<S, K>(e: Engine<S, K>)
    requires
        !e.looping,
    ensures
        e.after_end_of_stream().state == DecoderState::Idle,
        e.after_end_of_stream().progress == ProgressState::zero(),
{
}

/// A failed open leaves the engine, and so its active session, untouched.
pub proof fn lemma_failed_open_keeps_session<S, K>(e: Engine<S, K>, err: OpenError)
    ensures
        e.after_open(Err(err)) == e,
{
}

} // verus!
