//! A power request for a subsystem: the last request made wins.
use vstd::prelude::*;

verus! {

/// A request to power a subsystem off, or on with a given mode.
#[derive(Clone, Copy, Debug, PartialEq, Eq)]
pub enum Power<T> {
    Off,
    On(T),
}

/// Holds the latest power request until the subsystem takes it.
#[derive(Clone, Copy, Debug, PartialEq, Eq)]
pub struct PowerSignal<T> {
    pub pending: Option<Power<T>>,
}

impl<T> PowerSignal<T> {
    /// No request pending.
    pub fn new() -> (s: Self)
        ensures
            s.pending.is_none(),
    {
        PowerSignal { pending: None }
    }

    /// Requests power on in mode `t`, replacing any pending request.
    pub fn turn_on(&mut self, t: T)
        ensures
            final(self).pending == Some(Power::On(t)),
    {
        self.pending = Some(Power::On(t));
    }

    /// Requests power off, replacing any pending request.
    pub fn turn_off(&mut self)
        ensures
            final(self).pending == Some(Power::<T>::Off),
    {
        self.pending = Some(Power::Off);
    }

    /// Takes the pending request, if it is a power-on, and yields its mode.
    /// A pending power-off is consumed and ignored.
    pub fn take_on(&mut self) -> (r: Option<T>)
        ensures
            final(self).pending.is_none(),
            match old(self).pending {
                Some(Power::On(t)) => r == Some(t),
                _ => r.is_none(),
            },
    {
        match self.pending.take() {
            Some(Power::On(t)) => Some(t),
            _ => None,
        }
    }

    /// Takes the pending request and tells whether it was a power-off.
    /// A pending power-on is consumed and ignored.
    pub fn take_off(&mut self) -> (off: bool)
        ensures
            final(self).pending.is_none(),
            off == (old(self).pending matches Some(Power::Off)),
    {
        match self.pending.take() {
            Some(Power::Off) => true,
            _ => false,
        }
    }
}

} // verus!
