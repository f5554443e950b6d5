//! The mathematical model of one server instance.
//!
//! An instance is modelled by [`InstanceView`]: its identity, its request
//! counter, and the stored message sequence. Each request is one [`Op`];
//! [`step_state`] and [`step_reply`] say exactly what a request does to the
//! state and what payload it reports. A run of requests — which is what any
//! interleaving of concurrent handlers produces once the instance lock
//! serialises them — is folded by [`run_state`] and [`run_replies`].
//!
//! The proof functions at the end state the instance-wide laws: counter
//! values are the consecutive integers `1 ..= n` with no duplicate and no
//! gap, every reply of a run carries the instance's own identity, a run of
//! appends loses and duplicates nothing, and a clear followed by a list
//! yields the empty sequence.

use vstd::prelude::*;

verus! {

/// The maximum accepted size, in bytes, of an append request body.
pub const MAX_APPEND_BODY_BYTES: usize = 4096;

/// The abstract state of one instance: its identity, the number of requests
/// handled so far, and the stored messages in insertion order.
pub struct InstanceView {
    pub server_id: int,
    pub request_count: int,
    pub messages: Seq<Seq<char>>,
}

/// One request, as the handlers see it.
///
/// For an append, `body_len` is the size in bytes of the raw request body
/// and `parse` is the outcome of decoding it: the message text, or a
/// human-readable description of the decode failure.
pub enum Op {
    List,
    Append { body_len: int, parse: Result<Seq<char>, Seq<char>> },
    Clear,
    Lookup { index: int },
}

/// One reply payload. Every variant carries the instance identity and the
/// post-increment counter value of the request it answers.
pub enum Reply {
    Listing { server_id: int, request_count: int, messages: Seq<Seq<char>> },
    Appended { server_id: int, request_count: int, message: Seq<char> },
    AppendRejected { server_id: int, request_count: int, error: Seq<char> },
    Found { server_id: int, request_count: int, result: Option<Seq<char>> },
}

/// The error text reported when an append body exceeds
/// [`MAX_APPEND_BODY_BYTES`].
pub open spec fn oversize_error() -> Seq<char> {
    "message body exceeds the maximum accepted size"@
}

/// Whether an append request is accepted: the body fits the size limit and
/// decoded to a message text.
pub open spec fn append_accepted(body_len: int, parse: Result<Seq<char>, Seq<char>>) -> bool {
    body_len <= MAX_APPEND_BODY_BYTES && parse is Ok
}

/// The state after one request. Every request, whatever its outcome,
/// increments the counter by exactly one; only an accepted append or a
/// clear changes the messages.
pub open spec fn step_state(s: InstanceView, op: Op) -> InstanceView {
    InstanceView {
        server_id: s.server_id,
        request_count: s.request_count + 1,
        messages: match op {
            Op::List => s.messages,
            Op::Append { body_len, parse } => if append_accepted(body_len, parse) {
                s.messages.push(parse->Ok_0)
            } else {
                s.messages
            },
            Op::Clear => Seq::empty(),
            Op::Lookup { .. } => s.messages,
        },
    }
}

/// The reply to one request, from the state at the moment it is handled.
pub open spec fn step_reply(s: InstanceView, op: Op) -> Reply {
    let c = s.request_count + 1;
    match op {
        Op::List => Reply::Listing {
            server_id: s.server_id,
            request_count: c,
            messages: s.messages,
        },
        Op::Append { body_len, parse } => if body_len > MAX_APPEND_BODY_BYTES {
            Reply::AppendRejected { server_id: s.server_id, request_count: c, error: oversize_error() }
        } else {
            match parse {
                Ok(m) => Reply::Appended { server_id: s.server_id, request_count: c, message: m },
                Err(e) => Reply::AppendRejected { server_id: s.server_id, request_count: c, error: e },
            }
        },
        Op::Clear => Reply::Listing {
            server_id: s.server_id,
            request_count: c,
            messages: Seq::empty(),
        },
        Op::Lookup { index } => Reply::Found {
            server_id: s.server_id,
            request_count: c,
            result: if 0 <= index < s.messages.len() {
                Some(s.messages[index])
            } else {
                None
            },
        },
    }
}

/// The counter value a reply reports.
pub open spec fn reply_count(r: Reply) -> int {
    match r {
        Reply::Listing { request_count, .. } => request_count,
        Reply::Appended { request_count, .. } => request_count,
        Reply::AppendRejected { request_count, .. } => request_count,
        Reply::Found { request_count, .. } => request_count,
    }
}

/// The instance identity a reply reports.
pub open spec fn reply_server_id(r: Reply) -> int {
    match r {
        Reply::Listing { server_id, .. } => server_id,
        Reply::Appended { server_id, .. } => server_id,
        Reply::AppendRejected { server_id, .. } => server_id,
        Reply::Found { server_id, .. } => server_id,
    }
}

/// The state after a whole run of requests, in the order the instance lock
/// serialised them.
pub open spec fn run_state(s: InstanceView, ops: Seq<Op>) -> InstanceView
    decreases ops.len(),
{
    if ops.len() == 0 {
        s
    } else {
        run_state(step_state(s, ops[0]), ops.subrange(1, ops.len() as int))
    }
}

/// The replies of a whole run, in the same order.
pub open spec fn run_replies(s: InstanceView, ops: Seq<Op>) -> Seq<Reply>
    decreases ops.len(),
{
    if ops.len() == 0 {
        Seq::empty()
    } else {
        seq![step_reply(s, ops[0])] + run_replies(step_state(s, ops[0]), ops.subrange(1, ops.len() as int))
    }
}

/// Every request increments the counter by exactly one, whatever the
/// request and its outcome: over any run, the `i`-th reply reports
/// `initial count + i + 1`, and the final count has advanced by the length
/// of the run.
pub proof fn lemma_run_counts(s: InstanceView, ops: Seq<Op>)
    ensures
        run_replies(s, ops).len() == ops.len(),
        forall|i: int|
            0 <= i < ops.len() ==> reply_count(#[trigger] run_replies(s, ops)[i])
                == s.request_count + i + 1,
        run_state(s, ops).request_count == s.request_count + ops.len(),
    decreases ops.len(),
{
    if ops.len() > 0 {
        let s1 = step_state(s, ops[0]);
        let rest = ops.subrange(1, ops.len() as int);
        lemma_run_counts(s1, rest);
        assert forall|i: int| 0 <= i < ops.len() implies reply_count(
            #[trigger] run_replies(s, ops)[i],
        ) == s.request_count + i + 1 by {
            if i > 0 {
                assert(run_replies(s, ops)[i] == run_replies(s1, rest)[i - 1]);
            }
        }
    }
}

/// Counter values are unique and gap-free: for a run of `n` requests on a
/// fresh instance, the reported counter values are exactly `1, 2, ..., n`,
/// each handed out once — no two requests ever report the same value.
pub proof fn lemma_counter_values_unique(s: InstanceView, ops: Seq<Op>)
    requires
        s.request_count == 0,
    ensures
        run_replies(s, ops).len() == ops.len(),
        forall|i: int|
            0 <= i < ops.len() ==> reply_count(#[trigger] run_replies(s, ops)[i]) == i + 1,
        forall|i: int, j: int|
            0 <= i < j < ops.len() ==> reply_count(run_replies(s, ops)[i])
                != reply_count(run_replies(s, ops)[j]),
{
    lemma_run_counts(s, ops);
}

/// Every reply of a run carries the identity of the instance that handled
/// it, and the identity never changes over the run.
pub proof fn lemma_same_identity(s: InstanceView, ops: Seq<Op>)
    ensures
        run_state(s, ops).server_id == s.server_id,
        run_replies(s, ops).len() == ops.len(),
        forall|i: int|
            0 <= i < ops.len() ==> reply_server_id(#[trigger] run_replies(s, ops)[i])
                == s.server_id,
    decreases ops.len(),
{
    if ops.len() > 0 {
        let s1 = step_state(s, ops[0]);
        let rest = ops.subrange(1, ops.len() as int);
        lemma_same_identity(s1, rest);
        assert forall|i: int| 0 <= i < ops.len() implies reply_server_id(
            #[trigger] run_replies(s, ops)[i],
        ) == s.server_id by {
            if i > 0 {
                assert(run_replies(s, ops)[i] == run_replies(s1, rest)[i - 1]);
            }
        }
    }
}

/// The counter values a run of requests reports, in run order.
pub open spec fn reported_counts(s: InstanceView, ops: Seq<Op>) -> Seq<int> {
    run_replies(s, ops).map_values(|r: Reply| reply_count(r))
}

/// The set of counter values issued over a run of `n` requests on a fresh
/// instance is exactly `{1, 2, ..., n}`: no value is skipped and none is
/// issued twice.
pub proof fn lemma_counter_values_cover_range(s: InstanceView, ops: Seq<Op>)
    requires
        s.request_count == 0,
    ensures
        reported_counts(s, ops).to_set() == Set::new(|v: int| 1 <= v <= ops.len()),
{
    lemma_counter_values_unique(s, ops);
    let counts = reported_counts(s, ops);
    assert forall|v: int| #[trigger] counts.to_set().contains(v) implies 1 <= v <= ops.len() by {
        let i = choose|i: int| 0 <= i < counts.len() && counts[i] == v;
        assert(counts[i] == i + 1);
    }
    assert forall|v: int| 1 <= v <= ops.len() implies #[trigger] counts.to_set().contains(v) by {
        assert(counts[v - 1] == v);
        assert(counts.contains(v));
    }
    assert(counts.to_set() =~= Set::new(|v: int| 1 <= v <= ops.len()));
}

/// The message text an accepted append stores.
pub open spec fn append_text(op: Op) -> Seq<char> {
    match op {
        Op::Append { parse, .. } => if parse is Ok { parse->Ok_0 } else { Seq::empty() },
        _ => Seq::empty(),
    }
}

/// Whether an operation is an accepted append.
pub open spec fn is_accepted_append(op: Op) -> bool {
    match op {
        Op::Append { body_len, parse } => append_accepted(body_len, parse),
        _ => false,
    }
}

/// The texts of a sequence of appends, in order.
pub open spec fn append_texts(ops: Seq<Op>) -> Seq<Seq<char>> {
    ops.map_values(|op: Op| append_text(op))
}

/// No append is lost or duplicated: a run of `n` accepted appends extends
/// the stored sequence by exactly those `n` texts, in run order — the final
/// length grows by `n` and the text of the `i`-th append stands at position
/// `initial length + i` and nowhere else among the new positions.
pub proof fn lemma_appends_lose_nothing(s: InstanceView, ops: Seq<Op>)
    requires
        forall|i: int| 0 <= i < ops.len() ==> is_accepted_append(#[trigger] ops[i]),
    ensures
        run_state(s, ops).messages == s.messages + append_texts(ops),
        run_state(s, ops).messages.len() == s.messages.len() + ops.len(),
        forall|i: int|
            0 <= i < ops.len() ==> run_state(s, ops).messages[s.messages.len() + i]
                == append_text(#[trigger] ops[i]),
    decreases ops.len(),
{
    if ops.len() == 0 {
        assert(run_state(s, ops).messages =~= s.messages + append_texts(ops));
    } else {
        let s1 = step_state(s, ops[0]);
        let rest = ops.subrange(1, ops.len() as int);
        lemma_appends_lose_nothing(s1, rest);
        assert(s1.messages == s.messages.push(append_text(ops[0])));
        assert(run_state(s, ops).messages =~= s.messages + append_texts(ops));
    }
}

/// The state of a freshly created instance: the given identity, counter at
/// 0, no messages.
pub open spec fn fresh_view(server_id: int) -> InstanceView {
    InstanceView { server_id, request_count: 0, messages: Seq::empty() }
}

/// Whether a state can be produced from a fresh instance with identity
/// `server_id` by some completed run of requests. A reader that only ever
/// sees reachable states never observes a partial append or clear, and
/// never an identity other than `server_id`.
pub open spec fn is_reachable(server_id: int, s: InstanceView) -> bool {
    exists|ops: Seq<Op>| s == run_state(fresh_view(server_id), ops)
}

/// Folding one more request onto a run steps the state of the whole run.
pub proof fn lemma_run_state_snoc(s: InstanceView, ops: Seq<Op>, op: Op)
    ensures
        run_state(s, ops.push(op)) == step_state(run_state(s, ops), op),
    decreases ops.len(),
{
    if ops.len() == 0 {
        assert(ops.push(op)[0] == op);
        assert(ops.push(op).subrange(1, 1) =~= Seq::<Op>::empty());
        assert(run_state(s, ops.push(op)) == run_state(step_state(s, op), Seq::<Op>::empty()));
        assert(run_state(step_state(s, op), Seq::<Op>::empty()) == step_state(s, op));
    } else {
        let tail = ops.subrange(1, ops.len() as int);
        assert(ops.push(op)[0] == ops[0]);
        assert(ops.push(op).subrange(1, ops.len() as int + 1) =~= tail.push(op));
        lemma_run_state_snoc(step_state(s, ops[0]), tail, op);
        assert(run_state(s, ops) == run_state(step_state(s, ops[0]), tail));
        assert(run_state(s, ops.push(op)) == run_state(step_state(s, ops[0]), tail.push(op)));
    }
}

/// One whole request step leads from a reachable state to a reachable
/// state.
pub proof fn lemma_step_preserves_reachability(server_id: int, s: InstanceView, op: Op)
    requires
        is_reachable(server_id, s),
    ensures
        is_reachable(server_id, step_state(s, op)),
{
    let ops = choose|ops: Seq<Op>| s == run_state(fresh_view(server_id), ops);
    lemma_run_state_snoc(fresh_view(server_id), ops, op);
    assert(step_state(s, op) == run_state(fresh_view(server_id), ops.push(op)));
}

/// A fresh instance's state is reachable (by the empty run).
pub proof fn lemma_fresh_is_reachable(server_id: int)
    ensures
        is_reachable(server_id, fresh_view(server_id)),
{
    assert(fresh_view(server_id) == run_state(fresh_view(server_id), Seq::<Op>::empty()));
}

/// A clear followed immediately by a list (no request in between) reports
/// the empty message sequence.
pub proof fn lemma_clear_then_list_is_empty(s: InstanceView)
    ensures
        step_reply(step_state(s, Op::Clear), Op::List) == (Reply::Listing {
            server_id: s.server_id,
            request_count: s.request_count + 2,
            messages: Seq::<Seq<char>>::empty(),
        }),
{
}

} // verus!
