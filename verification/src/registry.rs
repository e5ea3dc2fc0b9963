//! Runtime channel holders.
//!
//! A holder owns one channel's endpoints for the life of the process. It
//! is constructed lazily: the underlying channel comes into being on the
//! first accessor call, at most once, and a holder that is already built
//! is never rebuilt. A point-to-point holder hands its receiver out at
//! most once and reports [`ChannelError::ReceiverAlreadyTaken`] ever
//! after; a broadcast holder mints a fresh, independent subscription on
//! every receiver request.
//!
//! The registry singleton that aggregates the holders of one
//! specification is a generated type (see [`crate::codegen`]); its
//! fields wrap these holders, one per declared channel, so the
//! generated registry inherits their laziness and their at-most-once
//! receiver hand-out.

use vstd::prelude::*;

use crate::channels::ChannelError;
use crate::channels::broadcast_channel;
use crate::channels::broadcast_sender_clone;
use crate::channels::broadcast_subscribe;
use crate::channels::mpsc_channel;
use crate::channels::mpsc_max_buffer;
use crate::channels::broadcast_max_capacity;
use crate::channels::mpsc_sender_clone;

verus! {

/// The observable lifecycle of a point-to-point holder's receiver.
#[derive(Clone, Copy, PartialEq, Eq, Structural, Debug)]
pub enum ReceiverState {
    /// The channel has not been constructed yet.
    Unbuilt,
    /// The channel exists and its receiver has not been handed out.
    Available,
    /// The receiver has been handed out; no further receiver exists.
    Taken,
}

/// Owns one point-to-point channel: a cloneable sender side and a
/// receiver side that can be taken at most once.
#[verifier::reject_recursive_types(T)]
pub struct MpscHolder<T> {
    buffer: usize,
    sender: Option<tokio::sync::mpsc::Sender<T>>,
    receiver: Option<tokio::sync::mpsc::Receiver<T>>,
}

impl<T> MpscHolder<T> {
    /// The buffer size every accessor constructs the channel with.
    pub closed spec fn spec_buffer(self) -> int {
        self.buffer as int
    }

    /// The holder never outlives its construction invariant: a legal
    /// buffer size, and no receiver without a sender.
    pub closed spec fn well_formed(self) -> bool {
        &&& 1 <= self.buffer <= mpsc_max_buffer()
        &&& self.receiver is Some ==> self.sender is Some
    }

    /// Where the holder stands in its lazy lifecycle.
    pub closed spec fn state(self) -> ReceiverState {
        if self.sender is None {
            ReceiverState::Unbuilt
        } else if self.receiver is Some {
            ReceiverState::Available
        } else {
            ReceiverState::Taken
        }
    }

    /// A new, not yet constructed holder: the channel itself comes into
    /// being on the first accessor call.
    pub fn new(buffer: usize) -> (r: Self)
        requires
            1 <= buffer <= mpsc_max_buffer(),
        ensures
            r.well_formed(),
            r.state() == ReceiverState::Unbuilt,
            r.spec_buffer() == buffer,
    {
        MpscHolder { buffer, sender: None, receiver: None }
    }

    /// Constructs the channel on first use and never again: a holder
    /// that is already built keeps its channel, and a taken receiver
    /// stays taken.
    fn ensure_built(&mut self)
        requires
            old(self).well_formed(),
        ensures
            final(self).well_formed(),
            final(self).state() != ReceiverState::Unbuilt,
            final(self).spec_buffer() == old(self).spec_buffer(),
            old(self).state() == ReceiverState::Unbuilt ==> final(self).state()
                == ReceiverState::Available,
            old(self).state() != ReceiverState::Unbuilt ==> *final(self) == *old(self),
    {
        if self.sender.is_none() {
            let (tx, rx) = mpsc_channel(self.buffer);
            self.sender = Some(tx);
            self.receiver = Some(rx);
        }
    }

    /// A new handle to the shared sender: cheap, repeatable, available
    /// to any number of callers; never disturbs the receiver side.
    pub fn get_sender(&mut self) -> (r: tokio::sync::mpsc::Sender<T>)
        requires
            old(self).well_formed(),
        ensures
            final(self).well_formed(),
            final(self).spec_buffer() == old(self).spec_buffer(),
            final(self).state() == if old(self).state() == ReceiverState::Unbuilt {
                ReceiverState::Available
            } else {
                old(self).state()
            },
            old(self).state() != ReceiverState::Unbuilt ==> *final(self) == *old(self),
    {
        self.ensure_built();
        match &self.sender {
            Some(tx) => mpsc_sender_clone(tx),
            None => {
                proof {
                    assert(false);
                }
                unreached()
            },
        }
    }

    /// The exclusive receiver, handed out exactly once: the first call
    /// succeeds, every later call reports
    /// [`ChannelError::ReceiverAlreadyTaken`] and changes nothing.
    pub fn get_receiver(&mut self) -> (r: Result<tokio::sync::mpsc::Receiver<T>, ChannelError>)
        requires
            old(self).well_formed(),
        ensures
            final(self).well_formed(),
            final(self).spec_buffer() == old(self).spec_buffer(),
            match r {
                Ok(_) => old(self).state() != ReceiverState::Taken && final(self).state()
                    == ReceiverState::Taken,
                Err(e) => e == ChannelError::ReceiverAlreadyTaken && old(self).state()
                    == ReceiverState::Taken && *final(self) == *old(self),
            },
    {
        self.ensure_built();
        match self.receiver.take() {
            Some(rx) => Ok(rx),
            None => Err(ChannelError::ReceiverAlreadyTaken),
        }
    }
}

/// Owns one broadcast channel: a cloneable sender side and a fresh
/// independent subscription for every receiver request.
#[verifier::reject_recursive_types(T)]
pub struct BroadcastHolder<T> {
    capacity: usize,
    sender: Option<tokio::sync::broadcast::Sender<T>>,
    receiver: Option<tokio::sync::broadcast::Receiver<T>>,
}

impl<T: Clone> BroadcastHolder<T> {
    /// The capacity every accessor constructs the channel with.
    pub closed spec fn spec_capacity(self) -> int {
        self.capacity as int
    }

    /// A legal capacity, and no initial subscription without a sender.
    pub closed spec fn well_formed(self) -> bool {
        &&& 1 <= self.capacity <= broadcast_max_capacity()
        &&& self.receiver is Some ==> self.sender is Some
    }

    /// The channel has been constructed.
    pub closed spec fn built(self) -> bool {
        self.sender is Some
    }

    /// A new, not yet constructed holder: the channel itself comes into
    /// being on the first accessor call.
    pub fn new(capacity: usize) -> (r: Self)
        requires
            1 <= capacity <= broadcast_max_capacity(),
        ensures
            r.well_formed(),
            !r.built(),
            r.spec_capacity() == capacity,
    {
        BroadcastHolder { capacity, sender: None, receiver: None }
    }

    /// Constructs the channel on first use and never again. The initial
    /// subscription stays inside the holder, so a built channel accepts
    /// sends even before the first subscriber arrives.
    fn ensure_built(&mut self)
        requires
            old(self).well_formed(),
        ensures
            final(self).well_formed(),
            final(self).built(),
            final(self).spec_capacity() == old(self).spec_capacity(),
            old(self).built() ==> *final(self) == *old(self),
    {
        if self.sender.is_none() {
            let (tx, rx) = broadcast_channel(self.capacity);
            self.sender = Some(tx);
            self.receiver = Some(rx);
        }
    }

    /// A new handle to the shared sender: cheap, repeatable, available
    /// to any number of callers.
    pub fn get_sender(&mut self) -> (r: tokio::sync::broadcast::Sender<T>)
        requires
            old(self).well_formed(),
        ensures
            final(self).well_formed(),
            final(self).built(),
            final(self).spec_capacity() == old(self).spec_capacity(),
            old(self).built() ==> *final(self) == *old(self),
    {
        self.ensure_built();
        match &self.sender {
            Some(tx) => broadcast_sender_clone(tx),
            None => {
                proof {
                    assert(false);
                }
                unreached()
            },
        }
    }

    /// A new independent subscription, minted on every call: any number
    /// of receiver requests succeed, and each subscriber observes only
    /// what is sent after its own subscription point.
    pub fn get_receiver(&mut self) -> (r: tokio::sync::broadcast::Receiver<T>)
        requires
            old(self).well_formed(),
        ensures
            final(self).well_formed(),
            final(self).built(),
            final(self).spec_capacity() == old(self).spec_capacity(),
            old(self).built() ==> *final(self) == *old(self),
    {
        self.ensure_built();
        match &self.sender {
            Some(tx) => broadcast_subscribe(tx),
            None => {
                proof {
                    assert(false);
                }
                unreached()
            },
        }
    }
}

} // verus!
