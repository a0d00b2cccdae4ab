//! The backscatter link: the message waiting to be sent.
use vstd::prelude::*;
use crate::fpga::Backscatter;

verus! {

/// The backscatter task as the rest of the firmware sees it.
#[derive(Clone, Copy, Debug, PartialEq, Eq, Structural)]
pub struct Comms {
    /// The message to send next; a newer message replaces one not yet sent.
    pub message: Option<Backscatter>,
}

impl Comms {
    pub fn new() -> (c: Self)
        ensures
            c.message.is_none(),
    {
        Comms { message: None }
    }

    /// Queues a message, replacing one not yet sent.
    pub fn send(&mut self, msg: Backscatter)
        ensures
            final(self).message == Some(msg),
    {
        self.message = Some(msg);
    }

    /// Takes the message to send, if any.
    pub fn take(&mut self) -> (m: Option<Backscatter>)
        ensures
            m == old(self).message,
            final(self).message.is_none(),
    {
        self.message.take()
    }
}

} // verus!
