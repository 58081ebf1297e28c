use vstd::prelude::*;

use crate::channel::{is_removed, lemma_survivors_len, survivors, ChannelState};
use crate::registry::{registry_emitted, registry_ticked, DEFAULT_CHANNEL};

verus! {

/// Queuing messages appends one waiting record per message, in order, with a
/// stopped clock, and touches nothing else that is shown or configured.
pub proof fn lemma_emitted_appends(s: ChannelState, msgs: Seq<String>)
    ensures
        s.emitted(msgs).pending.len() == s.pending.len() + msgs.len(),
        s.emitted(msgs).pending.take(s.pending.len() as int) == s.pending,
        forall|i: int|
            0 <= i < msgs.len() ==> (#[trigger] s.emitted(msgs).pending[s.pending.len() + i]).message
                == msgs[i] && s.emitted(msgs).pending[s.pending.len() + i].elapsed == 0,
        s.emitted(msgs).live == s.live,
        s.emitted(msgs).has_container == s.has_container,
        s.emitted(msgs).max_visible == s.max_visible,
        s.emitted(msgs).lifetime == s.lifetime,
        s.emitted(msgs).auto_expire == s.auto_expire,
        s.wf() ==> s.emitted(msgs).wf(),
    decreases msgs.len(),
{
    if msgs.len() == 0 {
        assert(s.pending.take(s.pending.len() as int) =~= s.pending);
    } else {
        let init = msgs.drop_last();
        lemma_emitted_appends(s, init);
        let m = s.emitted(init);
        let t = s.emitted(msgs);
        assert(t == m.enqueued(msgs.last()));
        assert(t.pending.take(s.pending.len() as int) =~= m.pending.take(s.pending.len() as int));
        assert forall|i: int| 0 <= i < msgs.len() implies (#[trigger] t.pending[s.pending.len() + i]).message
            == msgs[i] && t.pending[s.pending.len() + i].elapsed == 0 by {
            if i < init.len() {
                assert(t.pending[s.pending.len() + i] == m.pending[s.pending.len() + i]);
            }
        }
        if s.wf() {
            assert forall|i: int| 0 <= i < t.pending.len() implies #[trigger] t.pending[i].elapsed == 0 by {
                if i < m.pending.len() {
                    assert(t.pending[i] == m.pending[i]);
                }
            }
        }
    }
}

/// Dismissal keeps every record when none of them is to be removed.
pub proof fn lemma_survivors_keep_all(s: Seq<crate::record::Alert>, tag: usize, events: Seq<(usize, u64)>, auto_expire: bool)
    requires
        forall|i: int| 0 <= i < s.len() ==> !is_removed(#[trigger] s[i], tag, events, auto_expire),
    ensures
        survivors(s, tag, events, auto_expire) == s,
    decreases s.len(),
{
    if s.len() > 0 {
        let init = s.drop_last();
        assert forall|i: int| 0 <= i < init.len() implies !is_removed(#[trigger] init[i], tag, events, auto_expire) by {
            assert(init[i] == s[i]);
        }
        lemma_survivors_keep_all(init, tag, events, auto_expire);
        assert(!is_removed(s[s.len() - 1], tag, events, auto_expire));
        assert(init.push(s.last()) =~= s);
    }
}

/// A channel never shows more notifications than its capacity: queuing
/// messages and running a tick both keep the bound.
pub proof fn lemma_capacity_invariant(
    s: ChannelState,
    msgs: Seq<String>,
    tag: usize,
    delta: u64,
    events: Seq<(usize, u64)>,
)
    requires
        s.wf(),
    ensures
        s.emitted(msgs).wf(),
        s.emitted(msgs).live.len() <= s.max_visible,
        s.ticked(tag, delta, events).wf(),
        s.ticked(tag, delta, events).live.len() <= s.max_visible,
{
    lemma_emitted_appends(s, msgs);
    let p = s.container_checked().promoted();
    let c = p.clocks_advanced(s.live.len() as int, delta);
    lemma_survivors_len(c.live, tag, events, c.auto_expire);
    let t = s.ticked(tag, delta, events);
    assert forall|i: int| 0 <= i < t.pending.len() implies #[trigger] t.pending[i].elapsed == 0 by {
        assert(t.pending[i] == s.pending[i + s.container_checked().admitted()]);
    }
}

/// With no record shown and more waiting than the capacity `C`, one tick
/// with no dismissals shows exactly the first `C` waiting records, in arrival
/// order, and the rest keep waiting in their order.
pub proof fn lemma_fifo_promotion(s: ChannelState, tag: usize, delta: u64)
    requires
        s.wf(),
        s.live.len() == 0,
        s.max_visible < s.pending.len(),
    ensures
        s.ticked(tag, delta, Seq::empty()).live == s.pending.take(s.max_visible as int),
        s.ticked(tag, delta, Seq::empty()).pending == s.pending.skip(s.max_visible as int),
{
    let events = Seq::<(usize, u64)>::empty();
    let p = s.container_checked().promoted();
    assert(p.live =~= s.pending.take(s.max_visible as int));
    let c = p.clocks_advanced(0, delta);
    assert(c.live =~= p.live);
    assert forall|i: int| 0 <= i < c.live.len() implies !is_removed(#[trigger] c.live[i], tag, events, c.auto_expire) by {
        assert(c.live[i] == s.pending[i]);
        assert(s.pending[i].elapsed == 0);
    }
    lemma_survivors_keep_all(c.live, tag, events, c.auto_expire);
}

/// After a tick, a channel has its one container exactly when it held a
/// shown or waiting record at the start of that tick.
pub proof fn lemma_container_existence(s: ChannelState, tag: usize, delta: u64, events: Seq<(usize, u64)>)
    ensures
        s.ticked(tag, delta, events).has_container == (s.live.len() + s.pending.len() > 0),
{
}

/// Requests on channel `a` leave channel `b` as it was, and the next tick of
/// `b` goes exactly as it would have gone without them.
pub proof fn lemma_channel_isolation(
    s: Seq<ChannelState>,
    a: usize,
    b: usize,
    msgs: Seq<String>,
    delta: u64,
    events: Seq<(usize, u64)>,
)
    requires
        a != b,
        b < s.len(),
    ensures
        registry_emitted(s, a, msgs)[b as int] == s[b as int],
        registry_ticked(registry_emitted(s, a, msgs), delta, events)[b as int] == registry_ticked(
            s,
            delta,
            events,
        )[b as int],
{
}

/// Reporting failures on the default channel: none leaves every channel as
/// it was; otherwise one waiting record per failure is appended there, with
/// the failure's text, in the order given, and no other channel changes.
pub proof fn lemma_adapter_transparency(s: Seq<ChannelState>, errs: Seq<String>)
    requires
        s.len() >= 1,
    ensures
        registry_emitted(s, DEFAULT_CHANNEL, Seq::empty()) == s,
        registry_emitted(s, DEFAULT_CHANNEL, errs)[0].pending.len() == s[0].pending.len() + errs.len(),
        registry_emitted(s, DEFAULT_CHANNEL, errs)[0].pending.take(s[0].pending.len() as int) == s[0].pending,
        forall|i: int|
            0 <= i < errs.len() ==> (#[trigger] registry_emitted(s, DEFAULT_CHANNEL, errs)[0].pending[s[0].pending.len()
                + i]).message == errs[i],
        registry_emitted(s, DEFAULT_CHANNEL, errs)[0].live == s[0].live,
        forall|j: int| 1 <= j < s.len() ==> #[trigger] registry_emitted(s, DEFAULT_CHANNEL, errs)[j] == s[j],
{
    assert(registry_emitted(s, DEFAULT_CHANNEL, Seq::empty()) =~= s);
    lemma_emitted_appends(s[0], errs);
}

} // verus!
