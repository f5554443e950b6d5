//! The request handlers of one server instance.
//!
//! An [`Instance`] owns the message store and the request counter and
//! carries the instance identity; its four handlers (list, append, clear,
//! lookup) are the only operations a request performs on the shared state.
//! Each handler's contract says that it behaves exactly as one step of the
//! model in [`crate::model`]: the state moves by [`step_state`] and the
//! reply is [`step_reply`], for the corresponding [`Op`].
//!
//! When workers run concurrently, the embedding program keeps the whole
//! `Instance` behind one exclusive lock, so every interleaving of requests
//! is some sequence of these steps — which is what the run-level laws in
//! [`crate::model`] quantify over.

use vstd::prelude::*;

use crate::counter::RequestCounter;
use crate::model::{
    step_reply, step_state, InstanceView, Op, Reply, oversize_error, MAX_APPEND_BODY_BYTES,
};
use crate::store::MessageStore;

verus! {

/// Reply payload of the list and clear handlers.
pub struct ListResponse {
    pub server_id: usize,
    pub request_count: usize,
    pub messages: Vec<String>,
}

impl View for ListResponse {
    type V = Reply;

    open spec fn view(&self) -> Reply {
        Reply::Listing {
            server_id: self.server_id as int,
            request_count: self.request_count as int,
            messages: self.messages.deep_view(),
        }
    }
}

/// What an append request came to: the stored message echoed back, or a
/// human-readable description of why the payload was rejected.
pub enum AppendOutcome {
    Appended(String),
    Rejected(String),
}

/// Reply payload of the append handler.
pub struct AppendResponse {
    pub server_id: usize,
    pub request_count: usize,
    pub outcome: AppendOutcome,
}

impl View for AppendResponse {
    type V = Reply;

    open spec fn view(&self) -> Reply {
        match self.outcome {
            AppendOutcome::Appended(m) => Reply::Appended {
                server_id: self.server_id as int,
                request_count: self.request_count as int,
                message: m@,
            },
            AppendOutcome::Rejected(e) => Reply::AppendRejected {
                server_id: self.server_id as int,
                request_count: self.request_count as int,
                error: e@,
            },
        }
    }
}

/// Reply payload of the lookup handler; an absent result is a normal
/// outcome, not an error.
pub struct LookupResponse {
    pub server_id: usize,
    pub request_count: usize,
    pub result: Option<String>,
}

impl View for LookupResponse {
    type V = Reply;

    open spec fn view(&self) -> Reply {
        Reply::Found {
            server_id: self.server_id as int,
            request_count: self.request_count as int,
            result: match self.result {
                Some(m) => Some(m@),
                None => None,
            },
        }
    }
}

/// The append operation an exec call stands for: the raw body length in
/// bytes, and the outcome of decoding the body.
pub open spec fn append_op(body_len: usize, parse: Result<String, String>) -> Op {
    Op::Append {
        body_len: body_len as int,
        parse: match parse {
            Ok(m) => Ok(m@),
            Err(e) => Err(e@),
        },
    }
}

/// The error text reported for an oversized append body.
pub fn oversize_error_text() -> (s: String)
    ensures
        s@ == oversize_error(),
{
    "message body exceeds the maximum accepted size".to_owned()
}

/// One server instance: its identity, its request counter and its message
/// store. All workers of the instance share one `Instance` value behind one
/// exclusive lock.
pub struct Instance {
    server_id: usize,
    counter: RequestCounter,
    store: MessageStore,
}

impl View for Instance {
    type V = InstanceView;

    closed spec fn view(&self) -> InstanceView {
        InstanceView {
            server_id: self.server_id as int,
            request_count: self.counter@,
            messages: self.store@,
        }
    }
}

impl Instance {
    /// A fresh instance with the given identity: no messages, counter at 0.
    pub fn new(server_id: usize) -> (r: Self)
        ensures
            r@ == (InstanceView {
                server_id: server_id as int,
                request_count: 0,
                messages: Seq::<Seq<char>>::empty(),
            }),
    {
        Instance { server_id, counter: RequestCounter::new(), store: MessageStore::new() }
    }

    /// The identity this instance reports in every reply.
    pub fn server_id(&self) -> (id: usize)
        ensures
            id as int == self@.server_id,
    {
        self.server_id
    }

    /// The number of requests handled so far.
    pub fn request_count(&self) -> (c: usize)
        ensures
            c as int == self@.request_count,
    {
        self.counter.current()
    }

    /// List: count the request and report a snapshot of all messages.
    pub fn handle_list(&mut self) -> (r: ListResponse)
        requires
            old(self)@.request_count < usize::MAX,
        ensures
            final(self)@ == step_state(old(self)@, Op::List),
            r@ == step_reply(old(self)@, Op::List),
    {
        let request_count = self.counter.increment_and_get();
        let messages = self.store.snapshot();
        ListResponse { server_id: self.server_id, request_count, messages }
    }

    /// Append: count the request whatever the outcome; store the message
    /// and echo it back when the body fits the size limit and decoded, and
    /// report the rejection otherwise.
    pub fn handle_append(&mut self, body_len: usize, parse: Result<String, String>) -> (r:
        AppendResponse)
        requires
            old(self)@.request_count < usize::MAX,
        ensures
            final(self)@ == step_state(old(self)@, append_op(body_len, parse)),
            r@ == step_reply(old(self)@, append_op(body_len, parse)),
    {
        let request_count = self.counter.increment_and_get();
        if body_len > MAX_APPEND_BODY_BYTES {
            let error = oversize_error_text();
            AppendResponse {
                server_id: self.server_id,
                request_count,
                outcome: AppendOutcome::Rejected(error),
            }
        } else {
            match parse {
                Ok(message) => {
                    let echo = message.clone();
                    self.store.append(message);
                    AppendResponse {
                        server_id: self.server_id,
                        request_count,
                        outcome: AppendOutcome::Appended(echo),
                    }
                },
                Err(error) => AppendResponse {
                    server_id: self.server_id,
                    request_count,
                    outcome: AppendOutcome::Rejected(error),
                },
            }
        }
    }

    /// Clear: count the request, remove all messages, report the empty
    /// listing.
    pub fn handle_clear(&mut self) -> (r: ListResponse)
        requires
            old(self)@.request_count < usize::MAX,
        ensures
            final(self)@ == step_state(old(self)@, Op::Clear),
            r@ == step_reply(old(self)@, Op::Clear),
    {
        let request_count = self.counter.increment_and_get();
        self.store.clear();
        let messages: Vec<String> = Vec::new();
        proof {
            assert(messages.deep_view() =~= Seq::<Seq<char>>::empty());
        }
        ListResponse { server_id: self.server_id, request_count, messages }
    }

    /// Lookup: count the request and report the message at `index`, absent
    /// when `index` is not below the current length.
    pub fn handle_lookup(&mut self, index: usize) -> (r: LookupResponse)
        requires
            old(self)@.request_count < usize::MAX,
        ensures
            final(self)@ == step_state(old(self)@, Op::Lookup { index: index as int }),
            r@ == step_reply(old(self)@, Op::Lookup { index: index as int }),
    {
        let request_count = self.counter.increment_and_get();
        let result = self.store.lookup(index);
        LookupResponse { server_id: self.server_id, request_count, result }
    }
}

} // verus!
