//! Properties that relate several operations of the bridge, proved from
//! the contracts of those operations.
use vstd::prelude::*;
use crate::http::{
    access_requested, access_settled, callback_begun, callback_set, disposed,
    lemma_ended_resolves_to_nothing, AccessReply, AccessToken, Http, NativeCall, Token,
};
use crate::slots::{EventKind, Slot};

verus! {

/// The registration for events of `kind` on connection `raw` that the host
/// was last told of in `calls`; never told means not registered.
pub open spec fn host_registered(calls: Seq<NativeCall>, raw: usize, kind: EventKind) -> bool
    decreases calls.len(),
{
    if calls.len() == 0 {
        false
    } else {
        match calls.last() {
            NativeCall::SetCallback { conn, kind: k, registered } => if conn == raw && k == kind {
                registered
            } else {
                host_registered(calls.drop_last(), raw, kind)
            },
            _ => host_registered(calls.drop_last(), raw, kind),
        }
    }
}

/// Whether the value last supplied for `kind` in `settings` was a callback;
/// nothing supplied means no.
pub open spec fn last_supplied<C>(settings: Seq<(EventKind, Option<C>)>, kind: EventKind) -> bool
    decreases settings.len(),
{
    if settings.len() == 0 {
        false
    } else if settings.last().0 == kind {
        settings.last().1 is Some
    } else {
        last_supplied(settings.drop_last(), kind)
    }
}

/// How many of `calls` are `call`.
pub open spec fn occurrences(calls: Seq<NativeCall>, call: NativeCall) -> nat
    decreases calls.len(),
{
    if calls.len() == 0 {
        0
    } else {
        occurrences(calls.drop_last(), call) + if calls.last() == call {
            1nat
        } else {
            0nat
        }
    }
}

/// Whatever sequence of callback settings is applied to a connection whose
/// slots start empty, the host ends up registered for a kind of event
/// exactly when the value last supplied for that kind was a callback, and
/// the slot of that kind then holds one exactly when the host is registered.
pub proof fn lemma_registration_follows_settings<C, A>(
    states: Seq<Http<C, A>>,
    settings: Seq<(EventKind, Option<C>)>,
    calls: Seq<NativeCall>,
    t: Token,
    raw: usize,
    kind: EventKind,
)
    requires
        states.len() == settings.len() + 1,
        calls.len() == settings.len(),
        forall|k: EventKind| #[trigger] states[0].slot(t, k) == Some(Slot::<C>::Empty),
        forall|i: int|
            0 <= i < settings.len() ==> callback_set(
                #[trigger] states[i],
                states[i + 1],
                t,
                raw,
                settings[i].0,
                settings[i].1,
                calls[i],
            ),
    ensures
        host_registered(calls, raw, kind) == last_supplied(settings, kind),
        states.last().slot(t, kind) matches Some(s) && s.occupied() == host_registered(
            calls,
            raw,
            kind,
        ),
    decreases settings.len(),
{
    let n = settings.len() as int;
    if n == 0 {
        assert(states.last() == states[0]);
        assert(states[0].slot(t, kind) == Some(Slot::<C>::Empty));
    } else {
        let prev = states.drop_last();
        assert forall|i: int| 0 <= i < n - 1 implies callback_set(
            #[trigger] prev[i],
            prev[i + 1],
            t,
            raw,
            settings.drop_last()[i].0,
            settings.drop_last()[i].1,
            calls.drop_last()[i],
        ) by {
            assert(callback_set(states[i], states[i + 1], t, raw, settings[i].0, settings[i].1, calls[i]));
        }
        assert(forall|k: EventKind| #[trigger] prev[0].slot(t, k) == states[0].slot(t, k));
        lemma_registration_follows_settings(
            prev,
            settings.drop_last(),
            calls.drop_last(),
            t,
            raw,
            kind,
        );
        assert(callback_set(
            states[n - 1],
            states[n],
            t,
            raw,
            settings[n - 1].0,
            settings[n - 1].1,
            calls[n - 1],
        ));
        assert(prev.last() == states[n - 1]);
        assert(states.last() == states[n]);
        assert(calls.last() == calls[n - 1]);
        assert(settings.last() == settings[n - 1]);
        if settings[n - 1].0 != kind {
            let before = states[n - 1].state(t).unwrap().slots;
            let after = states[n].state(t).unwrap().slots;
            assert(after.slot(kind) == before.slot(kind));
        }
    }
}

/// Disposing of a connection clears its userdata, closes it and releases
/// it, each exactly once, and ends its token once: the token resolved before,
/// and has ended after.
pub proof fn lemma_dispose_tears_down_once<C, A>(
    before: Http<C, A>,
    after: Http<C, A>,
    t: Token,
    raw: usize,
    calls: Seq<NativeCall>,
)
    requires
        before.state(t) is Some,
        disposed(before, after, t, raw, calls),
    ensures
        occurrences(calls, NativeCall::Close { conn: raw }) == 1,
        occurrences(calls, NativeCall::Release { conn: raw }) == 1,
        occurrences(calls, NativeCall::SetUserdata { conn: raw, token: None }) == 1,
        before.state(t) is Some,
        after.ended(t),
{
    reveal_with_fuel(occurrences, 4);
    assert(calls.drop_last().drop_last().drop_last() =~= Seq::<NativeCall>::empty());
}

/// Once a connection is disposed of, its token has ended for good (each
/// operation of `Http` keeps ended tokens ended, whatever happens between),
/// and an event that the host reports with it, however late, is a no-op:
/// no callback is lent out and nothing changes.
pub proof fn lemma_late_event_is_noop<C, A>(
    before: Http<C, A>,
    disposed_of: Http<C, A>,
    later: Http<C, A>,
    after: Http<C, A>,
    t: Token,
    raw: usize,
    calls: Seq<NativeCall>,
    kind: EventKind,
    r: Option<C>,
)
    requires
        disposed(before, disposed_of, t, raw, calls),
        later.keeps_ended(&disposed_of),
        callback_begun(later, after, Some(t), kind, r),
    ensures
        r is None,
        after == later,
{
    lemma_ended_resolves_to_nothing(later, t);
}

/// An access request whose reply is already the answer holds nothing once
/// the reply is taken in: the table is as it was before the request.
pub proof fn lemma_known_reply_holds_nothing<C, A>(
    before: Http<C, A>,
    requested: Http<C, A>,
    after: Http<C, A>,
    callback: Option<A>,
    request: Option<AccessToken>,
    reply: AccessReply,
)
    requires
        access_requested(before, requested, callback, request),
        access_settled(requested, after, request, Some(reply)),
        reply != AccessReply::Ask,
    ensures
        after.requests_unchanged(&before),
        after.connections_unchanged(&before),
{
    if let Some(t) = request {
        assert forall|u: AccessToken| #[trigger] after.pending(u) == before.pending(u) by {
            if u != t {
                assert(after.pending(u) == requested.pending(u));
            }
        }
        assert forall|u: Token| #[trigger] after.state(u) == before.state(u) by {
            assert(after.state(u) == requested.state(u));
        }
    }
}

} // verus!
