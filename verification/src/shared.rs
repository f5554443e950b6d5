//! The exclusive-lock discipline for one instance shared by many workers.
//!
//! A [`SharedInstance`] owns the instance state behind a single verified
//! reader-writer lock. A worker serves a request by taking the write lock
//! ([`SharedInstance::acquire`]), which yields an [`InstanceGuard`]: the
//! locked state itself, on which each request runs the instance handlers
//! under their exact contracts — the state moves by [`step_state`] and the
//! reply is [`step_reply`] of the very state the request found. Releasing
//! the guard ([`InstanceGuard::release`]) puts the state back.
//!
//! The lock's invariant says that every state it ever stores is reachable
//! from the fresh instance by some completed run of requests
//! ([`is_reachable`]), and therefore carries the identity the instance was
//! created with. So a worker only ever observes a state left by complete
//! operations — never a partial append or clear, never a foreign identity —
//! and every listing it reports is the message sequence of such a state.

use vstd::prelude::*;
use vstd::rwlock::{RwLock, RwLockPredicate, WriteHandle};

use crate::handlers::{AppendResponse, Instance, ListResponse, LookupResponse, append_op};
use crate::model::{
    fresh_view, is_reachable, lemma_fresh_is_reachable, lemma_step_preserves_reachability,
    step_reply, step_state, InstanceView, Op,
};

verus! {

/// The lock invariant: every state ever stored is reachable from the fresh
/// instance with this identity by a completed run of requests — so it
/// carries that identity, and it never shows a half-done mutation.
pub struct InstanceInv {
    pub server_id: int,
}

impl RwLockPredicate<Instance> for InstanceInv {
    open spec fn inv(self, v: Instance) -> bool {
        &&& v@.server_id == self.server_id
        &&& is_reachable(self.server_id, v@)
    }
}

/// One instance shared by all workers of a deployment, behind a single
/// exclusive lock.
pub struct SharedInstance {
    lock: RwLock<Instance, InstanceInv>,
}

/// The write-locked state of a shared instance: the holder runs handlers on
/// it under their exact contracts, then hands it back with
/// [`InstanceGuard::release`]. While a guard exists, no other worker can
/// touch the state.
pub struct InstanceGuard<'a> {
    instance: Instance,
    handle: WriteHandle<'a, Instance, InstanceInv>,
}

impl SharedInstance {
    /// The identity every state of this shared instance carries.
    pub closed spec fn id(&self) -> int {
        self.lock.pred().server_id
    }

    /// A fresh shared instance with the given identity: no messages,
    /// counter at 0 (the lock's invariant then keeps every stored state
    /// reachable from exactly that start).
    pub fn new(server_id: usize) -> (s: Self)
        ensures
            s.id() == server_id as int,
    {
        let instance = Instance::new(server_id);
        proof {
            lemma_fresh_is_reachable(server_id as int);
            assert(instance@ == fresh_view(server_id as int));
        }
        let lock = RwLock::new(instance, Ghost(InstanceInv { server_id: server_id as int }));
        SharedInstance { lock }
    }

    /// Takes the exclusive write lock and hands out the state as this
    /// request finds it: a state reached from the fresh instance by
    /// completed requests only, carrying this instance's identity.
    pub fn acquire(&self) -> (g: InstanceGuard<'_>)
        ensures
            g.wf(),
            g@.server_id == self.id(),
            is_reachable(self.id(), g@),
    {
        let (instance, handle) = self.lock.acquire_write();
        InstanceGuard { instance, handle }
    }
}

impl<'a> View for InstanceGuard<'a> {
    type V = InstanceView;

    closed spec fn view(&self) -> InstanceView {
        self.instance@
    }
}

impl<'a> InstanceGuard<'a> {
    /// The guard is as [`SharedInstance::acquire`] hands it out: the held
    /// state is reachable and matches the lock it came from, so every
    /// handler step keeps it fit to be released.
    pub closed spec fn wf(&self) -> bool {
        &&& self.handle.rwlock().pred() == (InstanceInv { server_id: self@.server_id })
        &&& is_reachable(self@.server_id, self@)
    }

    /// The number of requests the locked instance has handled so far; the
    /// holder tests this for headroom before running a handler.
    pub fn request_count(&self) -> (c: usize)
        ensures
            c as int == self@.request_count,
    {
        self.instance.request_count()
    }

    /// List on the locked state: one whole step of the model on the state
    /// this request found.
    pub fn handle_list(&mut self) -> (r: ListResponse)
        requires
            old(self).wf(),
            old(self)@.request_count < usize::MAX,
        ensures
            final(self).wf(),
            final(self)@ == step_state(old(self)@, Op::List),
            r@ == step_reply(old(self)@, Op::List),
    {
        let r = self.instance.handle_list();
        proof {
            lemma_step_preserves_reachability(old(self)@.server_id, old(self)@, Op::List);
        }
        r
    }

    /// Append on the locked state: one whole step of the model for the
    /// given body length and decode outcome.
    pub fn handle_append(&mut self, body_len: usize, parse: Result<String, String>) -> (r:
        AppendResponse)
        requires
            old(self).wf(),
            old(self)@.request_count < usize::MAX,
        ensures
            final(self).wf(),
            final(self)@ == step_state(old(self)@, append_op(body_len, parse)),
            r@ == step_reply(old(self)@, append_op(body_len, parse)),
    {
        let ghost op = append_op(body_len, parse);
        let r = self.instance.handle_append(body_len, parse);
        proof {
            lemma_step_preserves_reachability(old(self)@.server_id, old(self)@, op);
        }
        r
    }

    /// Clear on the locked state: one whole step of the model; any other
    /// worker sees the state before the clear or the empty store, never
    /// part of one.
    pub fn handle_clear(&mut self) -> (r: ListResponse)
        requires
            old(self).wf(),
            old(self)@.request_count < usize::MAX,
        ensures
            final(self).wf(),
            final(self)@ == step_state(old(self)@, Op::Clear),
            r@ == step_reply(old(self)@, Op::Clear),
    {
        let r = self.instance.handle_clear();
        proof {
            lemma_step_preserves_reachability(old(self)@.server_id, old(self)@, Op::Clear);
        }
        r
    }

    /// Lookup on the locked state: one whole step of the model on the state
    /// this request found.
    pub fn handle_lookup(&mut self, index: usize) -> (r: LookupResponse)
        requires
            old(self).wf(),
            old(self)@.request_count < usize::MAX,
        ensures
            final(self).wf(),
            final(self)@ == step_state(old(self)@, Op::Lookup { index: index as int }),
            r@ == step_reply(old(self)@, Op::Lookup { index: index as int }),
    {
        let r = self.instance.handle_lookup(index);
        proof {
            lemma_step_preserves_reachability(
                old(self)@.server_id,
                old(self)@,
                Op::Lookup { index: index as int },
            );
        }
        r
    }

    /// Puts the state back and releases the lock.
    pub fn release(self)
        requires
            self.wf(),
    {
        let InstanceGuard { instance, handle } = self;
        handle.release_write(instance);
    }
}

} // verus!
