//! What the window manager hands over to the policy engine, and how.

use vstd::prelude::*;

use crate::desktop::WindowId;
use crate::input::{PointerGrabStartData, SeatId};
use crate::shell::layout::grab::ResizeEdge;
use crate::utils::Serial;

verus! {

/// A layout decision that is left to the policy engine.
#[derive(Debug)]
pub enum RuntimeMessage {
    /// Maximize the window on the output of that name.
    MaximizeRequest { window: WindowId, output: String },
    /// Take the window out of the maximized state.
    UnmaximizeRequest { window: WindowId },
    /// Start an interactive resize of the window.
    ResizeRequest {
        window: WindowId,
        seat: SeatId,
        serial: Serial,
        start_data: PointerGrabStartData,
        edges: ResizeEdge,
    },
    /// The window left fullscreen: apply whatever layout holds now.
    UnfullscreenRequest { window: WindowId },
}

/// Why a decision could not be handed over.
#[derive(Clone, Copy, Debug, PartialEq, Eq, Structural)]
pub enum PolicyError {
    /// The policy engine no longer listens.
    ChannelClosed,
}

/// `calloop::channel::Sender`, the sending end of the channel to the policy
/// engine. Nothing is known of what is inside.
#[verifier::external_type_specification]
#[verifier::external_body]
#[verifier::reject_recursive_types(T)]
pub struct ExSender<T>(calloop::channel::Sender<T>);

/// `std::sync::mpsc::SendError`, which the channel answers with when the
/// receiving end is gone. Nothing is known of what is inside.
#[verifier::external_type_specification]
#[verifier::external_body]
#[verifier::reject_recursive_types(T)]
pub struct ExSendError<T>(std::sync::mpsc::SendError<T>);

/// `calloop::channel::Sender::send` queues the message and wakes the
/// receiving event loop; it fails only where the receiving end is gone.
/// Which of the two happens is not a matter of the arguments, so nothing is
/// claimed of the result.
pub assume_specification<T>[ calloop::channel::Sender::<T>::send ](
    sender: &calloop::channel::Sender<T>,
    t: T,
) -> (r: Result<(), std::sync::mpsc::SendError<T>>)
;

/// What a request reports for the outcome of handing its message over.
pub open spec fn spec_handed_over<T>(sent: Result<(), std::sync::mpsc::SendError<T>>) -> Result<
    (),
    PolicyError,
> {
    match sent {
        Ok(()) => Ok(()),
        Err(_) => Err(PolicyError::ChannelClosed),
    }
}

/// Turns the channel's answer into the library's own.
pub fn handed_over<T>(sent: Result<(), std::sync::mpsc::SendError<T>>) -> (r: Result<(), PolicyError>)
    ensures
        r == spec_handed_over(sent),
{
    match sent {
        Ok(()) => Ok(()),
        Err(_) => Err(PolicyError::ChannelClosed),
    }
}

} // verus!
