//! The agent that plays the moves a person makes in the interface.

use vstd::prelude::*;
use std::sync::mpsc::Receiver;
use std::time::Duration;
use crate::chess::board::GameState;
use crate::chess::types::ChessMove;

verus! {

#[verifier::external_type_specification]
#[verifier::external_body]
#[verifier::reject_recursive_types(T)]
pub struct ExReceiver<T>(std::sync::mpsc::Receiver<T>);

/// Waits for the next value of a channel (`Receiver::recv`); `None` when
/// every sender is gone. What comes back is decided by the sending side.
#[verifier::external_body]
fn receive<T>(rx: &Receiver<T>) -> Option<T> {
    rx.recv().ok()
}

/// An agent whose moves arrive over a channel from the user interface.
pub struct HumanAgent {
    name: String,
    move_rx: Receiver<ChessMove>,
}

impl HumanAgent {
    /// The agent's name.
    pub closed spec fn label(&self) -> Seq<char> {
        self.name@
    }

    /// An agent with a name that receives its moves from `move_rx`.
    pub fn new(name: &str, move_rx: Receiver<ChessMove>) -> (r: HumanAgent)
        ensures
            r.label() == name@,
    {
        HumanAgent { name: crate::text::owned(name), move_rx }
    }

    /// The agent's name.
    pub fn name(&self) -> (r: &str)
        ensures
            r@ == self.label(),
    {
        self.name.as_str()
    }

    /// Waits for the next move from the interface; `None` when the channel
    /// has been closed.
    pub fn select_move(&mut self, state: &GameState, time_budget: Option<Duration>) -> (r: Option<ChessMove>)
        ensures
            final(self).label() == old(self).label(),
    {
        receive(&self.move_rx)
    }
}

} // verus!
