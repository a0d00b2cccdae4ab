//! Small shared-state primitives of the firmware.
use vstd::prelude::*;
use vstd::std_specs::cmp::PartialEqSpec;

verus! {

/// A value whose changes are announced: setting it to a different value
/// leaves a notification for whoever waits on it; setting the same value does not.
#[derive(Clone, Copy, Debug)]
pub struct ChangeSignal<T> {
    pub current: T,
    /// The last new value announced and not yet taken.
    pub pending: Option<T>,
}

impl<T: Copy + PartialEq> ChangeSignal<T> {
    /// Starts at `initial` with nothing announced.
    pub fn new(initial: T) -> (s: Self)
        ensures
            s.current == initial,
            s.pending.is_none(),
    {
        ChangeSignal { current: initial, pending: None }
    }

    /// Sets the value; a change is announced, a repeat is not.
    pub fn set(&mut self, new: T)
        requires
            T::obeys_eq_spec(),
        ensures
            new.eq_spec(&old(self).current) ==> final(self).current == old(self).current
                && final(self).pending == old(self).pending,
            !new.eq_spec(&old(self).current) ==> final(self).current == new && final(self).pending == Some(new),
    {
        if new != self.current {
            self.current = new;
            self.pending = Some(new);
        }
    }

    pub fn get(&self) -> (v: T)
        ensures
            v == self.current,
    {
        self.current
    }

    /// Takes the announced value, if any.
    pub fn take(&mut self) -> (v: Option<T>)
        ensures
            v == old(self).pending,
            final(self).pending.is_none(),
            final(self).current == old(self).current,
    {
        self.pending.take()
    }
}

/// A value shared between tasks.
#[derive(Clone, Copy, Debug)]
pub struct StateLock<T> {
    pub inner: T,
}

impl<T: Copy> StateLock<T> {
    pub fn new(initial: T) -> (s: Self)
        ensures
            s.inner == initial,
    {
        StateLock { inner: initial }
    }

    pub fn set(&mut self, state: T)
        ensures
            final(self).inner == state,
    {
        self.inner = state;
    }

    pub fn get(&self) -> (v: T)
        ensures
            v == self.inner,
    {
        self.inner
    }
}

impl<T: Copy + PartialEq> StateLock<T> {
    /// The value equals `other`.
    pub fn is(&self, other: T) -> (b: bool)
        requires
            T::obeys_eq_spec(),
        ensures
            b == self.inner.eq_spec(&other),
    {
        self.inner == other
    }
}

/// An input edge filter: an edge counts only when more than `timeout` ticks
/// have passed since the last edge of the same direction that counted.
#[derive(Clone, Copy, Debug, PartialEq, Eq, Structural)]
pub struct Debouncer {
    pub timeout: u64,
    /// When the last counted rising edge came, in ticks (0: never).
    pub last_rise: u64,
    /// When the last counted falling edge came, in ticks (0: never).
    pub last_fall: u64,
}

impl Debouncer {
    /// A filter that has counted no edge yet.
    pub fn new(timeout: u64) -> (d: Self)
        ensures
            d == (Debouncer { timeout, last_rise: 0, last_fall: 0 }),
    {
        Debouncer { timeout, last_rise: 0, last_fall: 0 }
    }

    /// A rising edge at `now`: counted (and remembered) when more than the
    /// timeout has passed since the last counted one.
    pub fn rising_edge(&mut self, now: u64) -> (counted: bool)
        requires
            now >= old(self).last_rise,
        ensures
            counted == (now - old(self).last_rise > old(self).timeout),
            counted ==> *final(self) == (Debouncer { last_rise: now, ..*old(self) }),
            !counted ==> *final(self) == *old(self),
    {
        if now - self.last_rise > self.timeout {
            self.last_rise = now;
            true
        } else {
            false
        }
    }

    /// A falling edge at `now`: counted (and remembered) when more than the
    /// timeout has passed since the last counted one.
    pub fn falling_edge(&mut self, now: u64) -> (counted: bool)
        requires
            now >= old(self).last_fall,
        ensures
            counted == (now - old(self).last_fall > old(self).timeout),
            counted ==> *final(self) == (Debouncer { last_fall: now, ..*old(self) }),
            !counted ==> *final(self) == *old(self),
    {
        if now - self.last_fall > self.timeout {
            self.last_fall = now;
            true
        } else {
            false
        }
    }
}

} // verus!
