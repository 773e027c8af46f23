use vstd::prelude::*;
use crate::command::{dispatched, RemoteCall, Subcommands};
use crate::session::{Action, ClientError, Event, Session, PERMISSION_STORE_SPEC_VER};

verus! {

/// Whether the session takes in each of the events in turn.
pub open spec fn accepted(s: Session, evs: Seq<Event>) -> bool
    decreases evs.len(),
{
    evs.len() == 0 || (s.expects(evs[0]) && accepted(s.after(evs[0]).0, evs.drop_first()))
}

/// The session after the events, and the actions it asked for on the way.
pub open spec fn run(s: Session, evs: Seq<Event>) -> (Session, Seq<Action>)
    decreases evs.len(),
{
    if evs.len() == 0 {
        (s, seq![])
    } else {
        let (t, a) = s.after(evs[0]);
        let (u, rest) = run(t, evs.drop_first());
        (u, seq![a] + rest)
    }
}

/// No action in the list issues a call.
pub open spec fn issues_no_call(actions: Seq<Action>) -> bool {
    forall|j: int| 0 <= j < actions.len() ==> !(#[trigger] actions[j] is Invoke)
}

/// Every action in the list that issues a call issues `call`, and at most one does.
pub open spec fn issues_only(actions: Seq<Action>, call: RemoteCall) -> bool {
    &&& forall|j: int| 0 <= j < actions.len() && #[trigger] actions[j] is Invoke
        ==> actions[j] == Action::Invoke(call)
    &&& forall|j: int, k: int| 0 <= j < actions.len() && 0 <= k < actions.len()
        && #[trigger] actions[j] is Invoke && #[trigger] actions[k] is Invoke ==> j == k
}

/// The session still waits for a call to be issued.
pub open spec fn before_call(s: Session) -> bool {
    s is Connecting || s is CreatingProxy || s is ReadingVersion
}

/// The call that a session before its call holds.
pub open spec fn pending(s: Session) -> RemoteCall
    recommends
        before_call(s),
{
    match s {
        Session::Connecting(c) => c,
        Session::CreatingProxy(c) => c,
        Session::ReadingVersion(c) => c,
        _ => arbitrary(),
    }
}

proof fn lemma_after_call(s: Session, evs: Seq<Event>)
    requires
        s is Calling || s is Finished,
        accepted(s, evs),
    ensures
        evs.len() <= 1,
        forall|i: int| 0 <= i < evs.len() ==> !(#[trigger] evs[i] is Version),
        issues_no_call(run(s, evs).1),
{
    if evs.len() > 0 {
        let t = s.after(evs[0]).0;
        assert(t is Finished);
        assert(accepted(t, evs.drop_first()));
        assert(evs.drop_first().len() == 0);
        assert(run(t, evs.drop_first()).1 =~= seq![]);
    }
}

proof fn lemma_gate_from(s: Session, v: u32, evs: Seq<Event>)
    requires
        before_call(s),
        accepted(s, evs),
        evs.contains(Event::Version(v)),
        v != PERMISSION_STORE_SPEC_VER,
    ensures
        issues_no_call(run(s, evs).1),
    decreases evs.len(),
{
    let i = choose|i: int| 0 <= i < evs.len() && evs[i] == Event::Version(v);
    let (t, a) = s.after(evs[0]);
    let tail = evs.drop_first();
    let rest = run(t, tail).1;
    assert(run(s, evs).1 == seq![a] + rest);
    if evs[0] == Event::Version(v) {
        assert(t is Finished);
        lemma_after_call(t, tail);
    } else {
        assert(tail[i - 1] == Event::Version(v));
        if before_call(t) {
            lemma_gate_from(t, v, tail);
        } else {
            lemma_after_call(t, tail);
            assert(!(tail[i - 1] is Version));
        }
    }
    assert forall|j: int| 0 <= j < run(s, evs).1.len() implies !(#[trigger] run(s, evs).1[j] is Invoke) by {
        if j > 0 {
            assert(run(s, evs).1[j] == rest[j - 1]);
        }
    }
}

/// The version gate: when the store reports any version other than the
/// expected one, the invocation issues no call of its command at all,
/// whatever else happens around it.
pub proof fn lemma_version_gate(cmd: Subcommands, v: u32, evs: Seq<Event>)
    requires
        accepted(Session::initial(cmd), evs),
        evs.contains(Event::Version(v)),
        v != PERMISSION_STORE_SPEC_VER,
    ensures
        issues_no_call(run(Session::initial(cmd), evs).1),
{
    lemma_gate_from(Session::initial(cmd), v, evs);
}

proof fn lemma_only_pending(s: Session, evs: Seq<Event>)
    requires
        before_call(s),
        accepted(s, evs),
    ensures
        issues_only(run(s, evs).1, pending(s)),
    decreases evs.len(),
{
    if evs.len() > 0 {
        let (t, a) = s.after(evs[0]);
        let tail = evs.drop_first();
        let rest = run(t, tail).1;
        let all = run(s, evs).1;
        assert(all == seq![a] + rest);
        if before_call(t) {
            lemma_only_pending(t, tail);
            assert(pending(t) == pending(s));
            assert(!(a is Invoke));
        } else {
            lemma_after_call(t, tail);
        }
        assert forall|j: int| 0 <= j < all.len() && #[trigger] all[j] is Invoke implies all[j]
            == Action::Invoke(pending(s)) by {
            if j > 0 {
                assert(all[j] == rest[j - 1]);
            }
        }
        assert forall|j: int, k: int|
            0 <= j < all.len() && 0 <= k < all.len() && #[trigger] all[j] is Invoke
                && #[trigger] all[k] is Invoke implies j == k by {
            if j > 0 {
                assert(all[j] == rest[j - 1]);
            }
            if k > 0 {
                assert(all[k] == rest[k - 1]);
            }
        }
    } else {
        assert(run(s, evs).1 =~= seq![]);
    }
}

/// Dispatch on the whole run: an invocation issues at most one call, and
/// that call is the one the command's dispatch table gives.
pub proof fn lemma_run_issues_dispatched_call(cmd: Subcommands, evs: Seq<Event>)
    requires
        accepted(Session::initial(cmd), evs),
    ensures
        issues_only(run(Session::initial(cmd), evs).1, dispatched(cmd)),
{
    lemma_only_pending(Session::initial(cmd), evs);
}

/// A failed call shows nothing: the only action left is the report of the
/// error, naming the operation and the failure's message, and the session
/// ends as a failure.
pub proof fn lemma_failed_call_shows_nothing(s: Session, evs: Seq<Event>)
    requires
        s is Calling,
        accepted(s, evs),
        evs.len() > 0,
        evs[0] is Failed,
    ensures
        run(s, evs).0 == Session::Finished(false),
        run(s, evs).1 == seq![Action::Report(ClientError::Remote(s->Calling_0, evs[0]->Failed_0))],
{
    let t = s.after(evs[0]).0;
    lemma_after_call(s, evs);
    assert(evs.drop_first().len() == 0);
    assert(run(t, evs.drop_first()).1 =~= seq![]);
    assert(run(s, evs).1 =~= seq![Action::Report(ClientError::Remote(s->Calling_0, evs[0]->Failed_0))]);
}

} // verus!
