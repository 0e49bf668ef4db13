//! A minimal, type-safe notification primitive.
//!
//! A [`Signal`] holds at most one registered callback of a caller-chosen
//! signature and can later be asked to invoke that callback with a matching
//! argument list.  One object (an emitter) can thereby notify an interested
//! party without either side knowing the other's concrete type.
//!
//! The callback type is fixed per declaration site: the [`Signature0`],
//! [`Signature1`], ... aliases build the type "function of exactly these
//! arguments, returning nothing" for each arity, and the matching
//! `notify0`, `notify1`, ... methods perform the guarded call: a subscriber
//! must be present — the precondition rules the empty slot out, and the
//! `try_notify` variants report it as an explicit error instead — and the
//! callback is then called once with the given arguments, in order, any
//! result discarded.
//!
//! The container stores only the callback value itself; whatever that
//! callback borrows must outlive every notification made through it.  The
//! container is exclusively owned by whatever structure embeds it and
//! provides no internal synchronization.

use vstd::prelude::*;

verus! {

/// The type of a callback taking no arguments and returning nothing.
pub type Signature0 = fn() -> ();

/// The type of a callback taking exactly one argument and returning nothing.
pub type Signature1<A1> = fn(A1) -> ();

/// The type of a callback taking exactly two arguments, in this order,
/// and returning nothing.
pub type Signature2<A1, A2> = fn(A1, A2) -> ();

/// The type of a callback taking exactly three arguments, in this order,
/// and returning nothing.
pub type Signature3<A1, A2, A3> = fn(A1, A2, A3) -> ();

/// The error reported by the fallible notification variants when no
/// callback is stored.  Missing subscribers are a programming error: the
/// primary `notify` methods rule the state out by precondition, and this
/// explicit value is the additive, impossible-to-ignore report of the same
/// violation.
#[derive(Clone, Copy, Debug, PartialEq, Eq, Structural)]
pub enum NotifyError {
    /// Notification was requested while the subscription slot was empty.
    MissingSubscriber,
}

/// A container holding zero or one callback of type `T`.
///
/// `T` is the full callback signature (for plain functions, one of the
/// `Signature` aliases).  The container owns its stored callback
/// exclusively: the only way to change it is [`Signal::subscribe`], which
/// unconditionally replaces whatever was stored before.
pub struct Signal<T> {
    subscription: Option<T>,
}

impl<T> Signal<T> {
    /// The present/absent subscription slot, as contracts see it.
    pub closed spec fn subscription(self) -> Option<T> {
        self.subscription
    }

    /// True when a callback is currently stored.
    pub open spec fn has_subscriber_spec(self) -> bool {
        self.subscription() is Some
    }

    /// The container as it stands after a callback `f` is stored:
    /// `f` fills the slot, and nothing else of the container remains.
    pub closed spec fn with_subscription(self, f: T) -> Signal<T> {
        Signal { subscription: Some(f) }
    }

    /// Creates a container whose subscription slot is empty.
    pub fn new() -> (s: Self)
        ensures
            s.subscription() is None,
            !s.has_subscriber_spec(),
    {
        Self { subscription: None }
    }

    /// Stores `subscription`, overwriting and silently discarding any
    /// previously stored callback.  Always succeeds; the only effect is the
    /// state change of the slot.
    pub fn subscribe(&mut self, subscription: T)
        ensures
            *final(self) == old(self).with_subscription(subscription),
            final(self).subscription() == Some(subscription),
            final(self).has_subscriber_spec(),
    {
        self.subscription = Some(subscription);
    }

    /// Reports whether a callback is currently stored, without exposing the
    /// stored value for mutation.
    pub fn has_subscriber(&self) -> (r: bool)
        ensures
            r == self.has_subscriber_spec(),
    {
        self.subscription.is_some()
    }
}

impl<T> Signal<T> {
    /// Subscribing stores the callback itself: after `subscribe(f)` the
    /// container reports a subscriber, and the one callback that any
    /// notification can reach is `f`.
    pub proof fn lemma_subscribe_stores_callback(self, f: T)
        ensures
            self.with_subscription(f).has_subscriber_spec(),
            self.with_subscription(f).subscription() == Some(f),
    {
    }

    /// Re-subscription overwrites: storing `f1` and then `f2` leaves the
    /// container exactly as storing `f2` alone would have, whatever the
    /// container held before.  `f1` is gone from the state, so no later
    /// notification can reach it through this container.
    pub proof fn lemma_resubscription_overwrites(self, f1: T, f2: T)
        ensures
            self.with_subscription(f1).with_subscription(f2) == self.with_subscription(f2),
            self.with_subscription(f1).with_subscription(f2).subscription() == Some(f2),
    {
    }

    /// The presence check is idempotent: it answers from the container's
    /// state alone, so any two queries of the same container without an
    /// intervening `subscribe` agree.  `r1` and `r2` stand for the answers
    /// of two such queries, each bound as `has_subscriber` ensures.
    pub proof fn lemma_presence_query_idempotent(self, r1: bool, r2: bool)
        requires
            r1 == self.has_subscriber_spec(),
            r2 == self.has_subscriber_spec(),
        ensures
            r1 == r2,
    {
    }
}

impl<T> Signal<T> {
    /// Invokes the stored nullary callback once.  A missing subscriber is a
    /// contract violation, ruled out before the call.
    pub fn notify0(&self)
        where
            T: Fn() -> (),
        requires
            self.has_subscriber_spec(),
            call_requires(self.subscription()->0, ()),
        ensures
            call_ensures(self.subscription()->0, (), ()),
    {
        match &self.subscription {
            Some(f) => f(),
            None => {},
        }
    }

    /// Invokes the stored unary callback once with `a1`.  A missing
    /// subscriber is a contract violation, ruled out before the call.
    pub fn notify1<A1>(&self, a1: A1)
        where
            T: Fn(A1) -> (),
        requires
            self.has_subscriber_spec(),
            call_requires(self.subscription()->0, (a1,)),
        ensures
            call_ensures(self.subscription()->0, (a1,), ()),
    {
        match &self.subscription {
            Some(f) => f(a1),
            None => {},
        }
    }

    /// Invokes the stored binary callback once with `(a1, a2)`, in that
    /// order.  A missing subscriber is a contract violation, ruled out
    /// before the call.
    pub fn notify2<A1, A2>(&self, a1: A1, a2: A2)
        where
            T: Fn(A1, A2) -> (),
        requires
            self.has_subscriber_spec(),
            call_requires(self.subscription()->0, (a1, a2)),
        ensures
            call_ensures(self.subscription()->0, (a1, a2), ()),
    {
        match &self.subscription {
            Some(f) => f(a1, a2),
            None => {},
        }
    }

    /// Invokes the stored ternary callback once with `(a1, a2, a3)`, in
    /// that order.  A missing subscriber is a contract violation, ruled out
    /// before the call.
    pub fn notify3<A1, A2, A3>(&self, a1: A1, a2: A2, a3: A3)
        where
            T: Fn(A1, A2, A3) -> (),
        requires
            self.has_subscriber_spec(),
            call_requires(self.subscription()->0, (a1, a2, a3)),
        ensures
            call_ensures(self.subscription()->0, (a1, a2, a3), ()),
    {
        match &self.subscription {
            Some(f) => f(a1, a2, a3),
            None => {},
        }
    }

    /// Fallible variant of [`Signal::notify0`]: invokes the stored callback
    /// once when one is present, and reports [`NotifyError::MissingSubscriber`]
    /// when the slot is empty — exactly then, never silently.
    pub fn try_notify0(&self) -> (r: Result<(), NotifyError>)
        where
            T: Fn() -> (),
        requires
            self.has_subscriber_spec() ==> call_requires(self.subscription()->0, ()),
        ensures
            r is Ok <==> self.has_subscriber_spec(),
            r is Err ==> r->Err_0 == NotifyError::MissingSubscriber,
            r is Ok ==> call_ensures(self.subscription()->0, (), ()),
    {
        match &self.subscription {
            Some(f) => {
                f();
                Ok(())
            },
            None => Err(NotifyError::MissingSubscriber),
        }
    }

    /// Fallible variant of [`Signal::notify1`]: invokes the stored callback
    /// once with `a1` when one is present, and reports
    /// [`NotifyError::MissingSubscriber`] when the slot is empty — exactly
    /// then, never silently.
    pub fn try_notify1<A1>(&self, a1: A1) -> (r: Result<(), NotifyError>)
        where
            T: Fn(A1) -> (),
        requires
            self.has_subscriber_spec() ==> call_requires(self.subscription()->0, (a1,)),
        ensures
            r is Ok <==> self.has_subscriber_spec(),
            r is Err ==> r->Err_0 == NotifyError::MissingSubscriber,
            r is Ok ==> call_ensures(self.subscription()->0, (a1,), ()),
    {
        match &self.subscription {
            Some(f) => {
                f(a1);
                Ok(())
            },
            None => Err(NotifyError::MissingSubscriber),
        }
    }

    /// Fallible variant of [`Signal::notify2`]: invokes the stored callback
    /// once with `(a1, a2)` when one is present, and reports
    /// [`NotifyError::MissingSubscriber`] when the slot is empty — exactly
    /// then, never silently.
    pub fn try_notify2<A1, A2>(&self, a1: A1, a2: A2) -> (r: Result<(), NotifyError>)
        where
            T: Fn(A1, A2) -> (),
        requires
            self.has_subscriber_spec() ==> call_requires(self.subscription()->0, (a1, a2)),
        ensures
            r is Ok <==> self.has_subscriber_spec(),
            r is Err ==> r->Err_0 == NotifyError::MissingSubscriber,
            r is Ok ==> call_ensures(self.subscription()->0, (a1, a2), ()),
    {
        match &self.subscription {
            Some(f) => {
                f(a1, a2);
                Ok(())
            },
            None => Err(NotifyError::MissingSubscriber),
        }
    }

    /// Fallible variant of [`Signal::notify3`]: invokes the stored callback
    /// once with `(a1, a2, a3)` when one is present, and reports
    /// [`NotifyError::MissingSubscriber`] when the slot is empty — exactly
    /// then, never silently.
    pub fn try_notify3<A1, A2, A3>(&self, a1: A1, a2: A2, a3: A3) -> (r: Result<
        (),
        NotifyError,
    >)
        where
            T: Fn(A1, A2, A3) -> (),
        requires
            self.has_subscriber_spec() ==> call_requires(self.subscription()->0, (a1, a2, a3)),
        ensures
            r is Ok <==> self.has_subscriber_spec(),
            r is Err ==> r->Err_0 == NotifyError::MissingSubscriber,
            r is Ok ==> call_ensures(self.subscription()->0, (a1, a2, a3), ()),
    {
        match &self.subscription {
            Some(f) => {
                f(a1, a2, a3);
                Ok(())
            },
            None => Err(NotifyError::MissingSubscriber),
        }
    }
}

} // verus!
