//! The playback state machine: one forward pass over the stream, with no
//! retry and no frame skipping. The loop around it performs the outside work
//! (decoding, drawing, sleeping) and feeds the outcome of each step back in
//! as an event.

use vstd::prelude::*;

verus! {

/// Failure of the decode collaborator, as the loop reports it.
#[derive(Debug)]
pub enum SourceError {
    /// The file could not be opened as a video source.
    UnableToOpenFile(String),
    /// The collaborator failed mid-stream; carries its message.
    Decode(String),
    /// The source has no further frames: the normal end of playback, not a
    /// user-visible error.
    OutOfFrames,
}

/// A fatal playback error: everything but the end of the stream.
#[derive(Debug)]
pub enum PlayerError {
    /// The source file could not be opened; carries the path.
    Open(String),
    /// The decode collaborator failed mid-stream; carries its message.
    Decode(String),
    /// The target grid would not have positive dimensions.
    Scale,
    /// The palette document is malformed.
    PaletteParse,
    /// The palette document holds no entries.
    PaletteEmpty,
    /// Writing or flushing terminal output failed.
    TerminalIo,
}

/// Where playback stands.
#[derive(Debug)]
pub enum PlayerState {
    /// The source is being opened and the grid configured.
    Opening,
    /// Frames are being decoded, rendered and paced.
    Playing,
    /// The end of the stream was seen; the loop is shutting down cleanly.
    Draining,
    /// Playback is over; `error` is `None` after a normal end of stream.
    Stopped { error: Option<PlayerError> },
}

/// What happened during the step the loop just performed.
#[derive(Debug)]
pub enum PlayerEvent {
    /// The source opened and the grid was configured.
    Opened,
    /// One frame was decoded, rendered and paced.
    FrameRendered,
    /// The source reported the end of the stream.
    EndOfStream,
    /// Shutdown work after the end of the stream finished.
    Drained,
    /// A fatal error occurred.
    Failed(PlayerError),
}

/// The transition table. A failure is fatal from anywhere; the end of the
/// stream drains and then stops without error; an event that does not belong
/// to the current state changes nothing; a stopped player stays stopped.
pub open spec fn spec_step(state: PlayerState, event: PlayerEvent) -> PlayerState {
    match state {
        PlayerState::Stopped { error } => PlayerState::Stopped { error },
        _ => match event {
            PlayerEvent::Failed(e) => PlayerState::Stopped { error: Some(e) },
            PlayerEvent::Opened => if state is Opening {
                PlayerState::Playing
            } else {
                state
            },
            PlayerEvent::FrameRendered => state,
            PlayerEvent::EndOfStream => if state is Playing {
                PlayerState::Draining
            } else {
                state
            },
            PlayerEvent::Drained => if state is Draining {
                PlayerState::Stopped { error: None }
            } else {
                state
            },
        },
    }
}

/// Whether the loop may demand another frame from the source: only while
/// playing. Frames are requested exactly as needed, never ahead.
pub open spec fn spec_wants_frame(state: PlayerState) -> bool {
    state is Playing
}

/// Advances the player by one observed event.
pub fn step(state: PlayerState, event: PlayerEvent) -> (next: PlayerState)
    ensures
        next == spec_step(state, event),
{
    match state {
        PlayerState::Stopped { error } => PlayerState::Stopped { error },
        _ => match event {
            PlayerEvent::Failed(e) => PlayerState::Stopped { error: Some(e) },
            PlayerEvent::Opened => if matches!(state, PlayerState::Opening) {
                PlayerState::Playing
            } else {
                state
            },
            PlayerEvent::FrameRendered => state,
            PlayerEvent::EndOfStream => if matches!(state, PlayerState::Playing) {
                PlayerState::Draining
            } else {
                state
            },
            PlayerEvent::Drained => if matches!(state, PlayerState::Draining) {
                PlayerState::Stopped { error: None }
            } else {
                state
            },
        },
    }
}

impl PlayerState {
    /// Whether the loop may demand another frame from the source.
    pub fn wants_frame(&self) -> (b: bool)
        ensures
            b == spec_wants_frame(*self),
    {
        matches!(self, PlayerState::Playing)
    }

    /// The process exit status once stopped: zero exactly after a normal end
    /// of stream, non-zero for every fatal error.
    pub fn exit_code(&self) -> (c: Option<i32>)
        ensures
            match *self {
                PlayerState::Stopped { error } => c == Some(
                    if error is None {
                        0i32
                    } else {
                        1i32
                    },
                ),
                _ => c is None,
            },
    {
        match self {
            PlayerState::Stopped { error: None } => Some(0),
            PlayerState::Stopped { error: Some(_) } => Some(1),
            _ => None,
        }
    }
}

/// End-of-stream law: once the source reports the end of the stream the
/// player drains and stops with exit status zero, and from the moment the
/// end is seen it never asks for another frame.
pub proof fn lemma_end_of_stream_stops()
    ensures
        spec_step(PlayerState::Playing, PlayerEvent::EndOfStream) == PlayerState::Draining,
        !spec_wants_frame(PlayerState::Draining),
        spec_step(PlayerState::Draining, PlayerEvent::Drained) == (PlayerState::Stopped {
            error: None,
        }),
        !spec_wants_frame(PlayerState::Stopped { error: None }),
        forall|e: PlayerEvent|
            #[trigger] spec_step(PlayerState::Stopped { error: None }, e)
                == (PlayerState::Stopped { error: None }),
{
}

} // verus!
