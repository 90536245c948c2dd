//! What holds of the registry over whole runs of announcements and events.
use crate::dispatch::{routed, step, Command, NoticeView, ToplevelEvent};
use crate::registry::{allocated, RegistryModel, ToplevelKey};
use vstd::prelude::*;

verus! {

/// One thing that happens to the registry: a window announced under the key
/// that `Registry::allocate` returned, or an event on a window.
pub enum Op {
    Announce(ToplevelKey),
    Event(ToplevelKey, ToplevelEvent),
}

pub open spec fn apply(m: RegistryModel, op: Op) -> RegistryModel {
    match op {
        Op::Announce(k) => allocated(m, k),
        Op::Event(k, e) => step(m, k, e).0,
    }
}

/// An announcement uses the next serial number, as `Registry::allocate` does.
pub open spec fn valid_op(m: RegistryModel, op: Op) -> bool {
    match op {
        Op::Announce(k) => k.serial == m.next_serial && !m.windows.contains_key(k),
        Op::Event(_, _) => true,
    }
}

pub open spec fn run_ops(m: RegistryModel, ops: Seq<Op>) -> RegistryModel
    decreases ops.len(),
{
    if ops.len() == 0 {
        m
    } else {
        apply(run_ops(m, ops.drop_last()), ops.last())
    }
}

pub open spec fn valid_run(m: RegistryModel, ops: Seq<Op>) -> bool
    decreases ops.len(),
{
    if ops.len() == 0 {
        true
    } else {
        valid_run(m, ops.drop_last()) && valid_op(run_ops(m, ops.drop_last()), ops.last())
    }
}

/// Events on one window, in order.
pub open spec fn run_events(m: RegistryModel, key: ToplevelKey, es: Seq<ToplevelEvent>) -> RegistryModel
    decreases es.len(),
{
    if es.len() == 0 {
        m
    } else {
        step(run_events(m, key, es.drop_last()), key, es.last()).0
    }
}

pub open spec fn is_attribute(e: ToplevelEvent) -> bool {
    e is Title || e is AppId
}

/// The last title among the events, or `t0` where none is.
pub open spec fn last_title(es: Seq<ToplevelEvent>, t0: Seq<char>) -> Seq<char>
    decreases es.len(),
{
    if es.len() == 0 {
        t0
    } else {
        match es.last() {
            ToplevelEvent::Title(t) => t@,
            _ => last_title(es.drop_last(), t0),
        }
    }
}

/// The last application id among the events, or `a0` where none is.
pub open spec fn last_app_id(es: Seq<ToplevelEvent>, a0: Seq<char>) -> Seq<char>
    decreases es.len(),
{
    if es.len() == 0 {
        a0
    } else {
        match es.last() {
            ToplevelEvent::AppId(a) => a@,
            _ => last_app_id(es.drop_last(), a0),
        }
    }
}

/// After any run of title and application-id events on a window whose
/// listener is in place, a commit hands the listener exactly the last title
/// and the last application id staged (or the earlier ones, where none came).
pub proof fn lemma_commit_delivers_last_staged(m: RegistryModel, key: ToplevelKey, es: Seq<ToplevelEvent>)
    requires
        m.windows.contains_key(key),
        m.windows[key].attached,
        forall|i: int| 0 <= i < es.len() ==> is_attribute(#[trigger] es[i]),
    ensures
        step(run_events(m, key, es), key, ToplevelEvent::Done).1 == NoticeView::Updated(
            last_title(es, m.windows[key].title),
            last_app_id(es, m.windows[key].app_id),
        ),
{
    lemma_attributes_staged(m, key, es);
}

proof fn lemma_attributes_staged(m: RegistryModel, key: ToplevelKey, es: Seq<ToplevelEvent>)
    requires
        m.windows.contains_key(key),
        m.windows[key].attached,
        forall|i: int| 0 <= i < es.len() ==> is_attribute(#[trigger] es[i]),
    ensures
        run_events(m, key, es).windows.contains_key(key),
        run_events(m, key, es).windows[key].attached,
        run_events(m, key, es).windows[key].title == last_title(es, m.windows[key].title),
        run_events(m, key, es).windows[key].app_id == last_app_id(es, m.windows[key].app_id),
    decreases es.len(),
{
    if es.len() > 0 {
        let init = es.drop_last();
        assert forall|i: int| 0 <= i < init.len() implies is_attribute(#[trigger] init[i]) by {
            assert(init[i] == es[i]);
        }
        lemma_attributes_staged(m, key, init);
        assert(is_attribute(es[es.len() - 1]));
    }
}

/// A window whose listener is not in place yet hears nothing, whatever the
/// event: no update and no close before its creation callback has returned.
pub proof fn lemma_no_notice_before_listener(m: RegistryModel, key: ToplevelKey, e: ToplevelEvent)
    requires
        !(m.windows.contains_key(key) && m.windows[key].attached),
    ensures
        step(m, key, e).1 == NoticeView::Nothing,
{
}

/// A freshly announced window has no listener, so it hears nothing until
/// one is attached.
pub proof fn lemma_announced_window_is_silent(m: RegistryModel, key: ToplevelKey, e: ToplevelEvent)
    ensures
        step(allocated(m, key), key, e).1 == NoticeView::Nothing,
{
}

/// A key that was handed out and is no longer live never becomes live
/// again: no event revives it, and no later window is given it.
pub proof fn lemma_dead_key_stays_dead(m: RegistryModel, k: ToplevelKey, ops: Seq<Op>)
    requires
        m.wf(),
        m.issued(k),
        !m.windows.contains_key(k),
        valid_run(m, ops),
    ensures
        run_ops(m, ops).wf(),
        run_ops(m, ops).issued(k),
        !run_ops(m, ops).windows.contains_key(k),
    decreases ops.len(),
{
    if ops.len() > 0 {
        lemma_dead_key_stays_dead(m, k, ops.drop_last());
        let prev = run_ops(m, ops.drop_last());
        let next = run_ops(m, ops);
        assert forall|j: ToplevelKey| #[trigger] next.windows.contains_key(j) implies j.serial
            < next.next_serial by {
            assert(prev.windows.contains_key(j) || ops.last() is Announce);
        }
    }
}

/// A newly announced window gets a key unlike that of every window
/// announced before it, live or not.
pub proof fn lemma_announced_key_is_new(m: RegistryModel, key: ToplevelKey, k: ToplevelKey)
    requires
        valid_op(m, Op::Announce(key)),
        m.issued(k),
    ensures
        key != k,
{
}

/// After a close event on a live window, every later command through its
/// router sends nothing, whatever happens in between.
pub proof fn lemma_closed_key_routes_nowhere(m: RegistryModel, key: ToplevelKey, ops: Seq<Op>, c: Command)
    requires
        m.wf(),
        m.windows.contains_key(key),
        valid_run(step(m, key, ToplevelEvent::Closed).0, ops),
    ensures
        routed(run_ops(step(m, key, ToplevelEvent::Closed).0, ops), key, c).is_none(),
{
    let closed = step(m, key, ToplevelEvent::Closed).0;
    assert(closed.wf());
    lemma_dead_key_stays_dead(closed, key, ops);
}


} // verus!
