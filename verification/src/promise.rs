use vstd::prelude::*;

verus! {

/// A single-assignment cell that runs callbacks when its value arrives.
///
/// Callbacks registered before the value is resolved are stored; resolving
/// runs them all, and a callback registered after that runs at once. Each
/// callback receives its own clone of the value.
pub enum Promise<T, F> where T: Clone, F: FnOnce(T) {
    Resolved(T),
    PendingNone,
    PendingOne(F),
    PendingMany(Vec<F>),
}

/// A callback that a promise may hold: it must accept whatever value the
/// promise is later resolved with, clones included.
pub open spec fn accepts_any<T, F: FnOnce(T)>(f: F) -> bool {
    forall|v: T| call_requires(f, (v,))
}

impl<T, F> Promise<T, F> where T: Clone, F: FnOnce(T) {
    /// The value this promise has been resolved with, if any.
    pub open spec fn value(self) -> Option<T> {
        match self {
            Promise::Resolved(v) => Some(v),
            _ => None,
        }
    }

    /// The callbacks waiting for the value, oldest first.
    pub open spec fn waiting(self) -> Seq<F> {
        match self {
            Promise::Resolved(_) => Seq::empty(),
            Promise::PendingNone => Seq::empty(),
            Promise::PendingOne(f) => seq![f],
            Promise::PendingMany(fs) => fs@,
        }
    }

    /// Every stored callback can be run on any value.
    pub open spec fn wf(self) -> bool {
        forall|i: int| 0 <= i < self.waiting().len() ==> accepts_any(#[trigger] self.waiting()[i])
    }

    /// A fresh promise: no value, no callbacks.
    pub fn new() -> (p: Promise<T, F>)
        ensures
            p is PendingNone,
            p.value() is None,
            p.waiting() == Seq::<F>::empty(),
            p.wf(),
    {
        Promise::PendingNone
    }

    /// Settle the promise. The first call stores the value and runs every
    /// waiting callback on a clone of it; later calls change nothing.
    pub fn resolve(&mut self, value: T)
        requires
            old(self).wf(),
        ensures
            final(self).wf(),
            final(self).waiting() == Seq::<F>::empty(),
            (*old(self)) is Resolved ==> *final(self) == *old(self),
            !((*old(self)) is Resolved) ==> final(self).value() == Some(value),
    {
        let mut prev = Promise::PendingNone;
        core::mem::swap(self, &mut prev);
        match prev {
            Promise::Resolved(value) => {
                *self = Promise::Resolved(value);
                return;
            },
            Promise::PendingNone => {},
            Promise::PendingOne(callback) => {
                proof {
                    assert(accepts_any(old(self).waiting()[0]));
                }
                callback(value.clone());
            },
            Promise::PendingMany(mut callbacks) => {
                proof {
                    assert(forall|j: int| 0 <= j < callbacks@.len() ==> accepts_any(
                        #[trigger] callbacks@[j],
                    )) by {
                        assert(forall|j: int| 0 <= j < callbacks@.len() ==> callbacks@[j] == old(
                            self,
                        ).waiting()[j] && accepts_any(#[trigger] old(self).waiting()[j]));
                    }
                }
                while callbacks.len() > 0
                    invariant
                        forall|j: int|
                            0 <= j < callbacks@.len() ==> accepts_any(#[trigger] callbacks@[j]),
                    decreases callbacks@.len(),
                {
                    let callback = callbacks.remove(0);
                    callback(value.clone());
                }
            },
        }
        *self = Promise::Resolved(value);
    }

    /// Register a callback. If the value is already there the callback runs
    /// at once on a clone of it; otherwise it joins the waiting list.
    pub fn then(&mut self, callback: F)
        requires
            old(self).wf(),
            accepts_any(callback),
        ensures
            final(self).wf(),
            final(self).value() == old(self).value(),
            (*old(self)) is Resolved ==> *final(self) == *old(self),
            !((*old(self)) is Resolved) ==> final(self).waiting() == old(self).waiting().push(
                callback,
            ),
    {
        let mut prev = Promise::PendingNone;
        core::mem::swap(self, &mut prev);
        match prev {
            Promise::Resolved(value) => {
                callback(value.clone());
                *self = Promise::Resolved(value);
                proof {
                    assert((*self).waiting() =~= Seq::<F>::empty());
                    assert((*self).wf());
                }
            },
            Promise::PendingNone => {
                *self = Promise::PendingOne(callback);
                proof {
                    assert((*self).wf());
                }
            },
            Promise::PendingOne(prev_callback) => {
                let mut callbacks = Vec::new();
                callbacks.push(prev_callback);
                callbacks.push(callback);
                *self = Promise::PendingMany(callbacks);
                proof {
                    assert(accepts_any(old(self).waiting()[0]));
                    assert forall|i: int| 0 <= i < (*self).waiting().len() implies accepts_any(
                        #[trigger] (*self).waiting()[i],
                    ) by {
                        assert((*self).waiting().len() == 2);
                    }
                }
            },
            Promise::PendingMany(mut callbacks) => {
                callbacks.push(callback);
                *self = Promise::PendingMany(callbacks);
                proof {
                    assert forall|i: int| 0 <= i < (*self).waiting().len() implies accepts_any(
                        #[trigger] (*self).waiting()[i],
                    ) by {
                        if i < old(self).waiting().len() {
                            assert((*self).waiting()[i] == old(self).waiting()[i]);
                            assert(accepts_any(old(self).waiting()[i]));
                        } else {
                            assert((*self).waiting()[i] == callback);
                        }
                    }
                }
            },
        }
    }
}

} // verus!
