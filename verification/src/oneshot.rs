//! Single use channel: one value is sent, one value is received.

use vstd::prelude::*;

verus! {

/// A channel that carries one value, once.
///
/// A value can be sent only once over the life of the channel; receiving
/// takes it out.
pub struct OneShot<T> {
    value: Option<T>,
    sent: bool,
}

impl<T> OneShot<T> {
    /// The value in transit, if any.
    pub closed spec fn contents(&self) -> Option<T> {
        self.value
    }

    /// A value was sent over the channel, whether or not it was received.
    pub closed spec fn was_sent(&self) -> bool {
        self.sent
    }

    /// Send `value`. Only one send is supported.
    pub fn send(&mut self, value: T)
        requires
            !old(self).was_sent(),
        ensures
            final(self).contents() == Some(value),
            final(self).was_sent(),
    {
        self.value = Some(value);
        self.sent = true;
    }

    /// Take the value in transit, if there is one.
    pub fn try_receive(&mut self) -> (r: Option<T>)
        ensures
            r == old(self).contents(),
            final(self).contents() is None,
            final(self).was_sent() == old(self).was_sent(),
    {
        self.value.take()
    }

    /// Take the value in transit; the channel must hold one.
    pub fn receive(&mut self) -> (r: T)
        requires
            old(self).contents() is Some,
        ensures
            Some(r) == old(self).contents(),
            final(self).contents() is None,
            final(self).was_sent() == old(self).was_sent(),
    {
        self.value.take().unwrap()
    }

    /// Whether a value is waiting to be received.
    pub fn is_ready(&self) -> (r: bool)
        ensures
            r == self.contents() is Some,
    {
        self.value.is_some()
    }

    /// Whether a value was sent over the channel; a channel that has been
    /// sent on takes no further value.
    pub fn is_used(&self) -> (r: bool)
        ensures
            r == self.was_sent(),
    {
        self.sent
    }
}

impl<T> Default for OneShot<T> {
    fn default() -> (r: Self)
        ensures
            r.contents() is None,
            !r.was_sent(),
    {
        OneShot { value: None, sent: false }
    }
}

} // verus!
