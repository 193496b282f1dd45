use vstd::prelude::*;

verus! {

/// The transport state of the engine.
#[derive(Clone, Copy, Debug, PartialEq, Eq, Structural)]
pub enum DecoderState {
    Playing,
    Paused,
    Idle,
}

impl DecoderState {
    pub fn is_idle(&self) -> (r: bool)
        ensures
            r == (*self == DecoderState::Idle),
    {
        match self {
            DecoderState::Idle => true,
            _ => false,
        }
    }

    pub fn is_paused(&self) -> (r: bool)
        ensures
            r == (*self == DecoderState::Paused),
    {
        match self {
            DecoderState::Paused => true,
            _ => false,
        }
    }

    pub fn is_playing(&self) -> (r: bool)
        ensures
            r == (*self == DecoderState::Playing),
    {
        match self {
            DecoderState::Playing => true,
            _ => false,
        }
    }
}

} // verus!
