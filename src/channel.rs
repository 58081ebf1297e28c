use vstd::prelude::*;

use crate::record::Alert;

verus! {

/// How many notifications a channel shows at once unless told otherwise.
pub const DEFAULT_MAX_VISIBLE: u64 = 3;

/// How long a notification is meant to stay, in milliseconds, unless told otherwise.
pub const DEFAULT_LIFETIME_MS: u64 = 10000;

/// Settings of one channel, fixed when the channel is made.
pub struct ChannelConfig {
    /// The most notifications shown at once.
    pub max_visible: u64,
    /// The lifetime given to each new notification, in milliseconds.
    pub default_lifetime: u64,
    /// Whether a shown notification whose clock ran past its lifetime is
    /// removed at the end of a tick. Off unless asked for.
    pub auto_expire: bool,
}

impl ChannelConfig {
    /// Three at once, ten seconds each, no automatic expiry.
    pub open spec fn default_settings() -> ChannelConfig {
        ChannelConfig { max_visible: DEFAULT_MAX_VISIBLE, default_lifetime: DEFAULT_LIFETIME_MS, auto_expire: false }
    }

    /// The default settings.
    pub fn new() -> (r: ChannelConfig)
        ensures
            r == ChannelConfig::default_settings(),
    {
        ChannelConfig {
            max_visible: DEFAULT_MAX_VISIBLE,
            default_lifetime: DEFAULT_LIFETIME_MS,
            auto_expire: false,
        }
    }
}

/// The handle that follows `id`.
pub open spec fn next_handle(id: u64) -> u64 {
    if id == u64::MAX {
        0
    } else {
        (id + 1) as u64
    }
}

/// Whether the dismissal phase removes `a` from the channel tagged `tag`:
/// its dismiss control was activated, or it expired under the expiry policy.
pub open spec fn is_removed(a: Alert, tag: usize, events: Seq<(usize, u64)>, auto_expire: bool) -> bool {
    events.contains((tag, a.id)) || (auto_expire && a.expired())
}

/// The records of `s` that the dismissal phase keeps, in their order.
pub open spec fn survivors(s: Seq<Alert>, tag: usize, events: Seq<(usize, u64)>, auto_expire: bool) -> Seq<Alert>
    decreases s.len(),
{
    if s.len() == 0 {
        s
    } else {
        let rest = survivors(s.drop_last(), tag, events, auto_expire);
        if is_removed(s.last(), tag, events, auto_expire) {
            rest
        } else {
            rest.push(s.last())
        }
    }
}

/// What a channel holds: its settings, the shown records and the waiting ones,
/// each in arrival order, whether its container exists, and the next handle.
pub struct ChannelState {
    pub max_visible: u64,
    pub lifetime: u64,
    pub auto_expire: bool,
    pub live: Seq<Alert>,
    pub pending: Seq<Alert>,
    pub has_container: bool,
    pub next_id: u64,
}

impl ChannelState {
    /// Never more shown than the capacity; a waiting record's clock has not run.
    pub open spec fn wf(self) -> bool {
        &&& self.live.len() <= self.max_visible
        &&& forall|i: int| 0 <= i < self.pending.len() ==> #[trigger] self.pending[i].elapsed == 0
    }

    /// A channel with no records and no container.
    pub open spec fn fresh(config: ChannelConfig) -> ChannelState {
        ChannelState {
            max_visible: config.max_visible,
            lifetime: config.default_lifetime,
            auto_expire: config.auto_expire,
            live: Seq::empty(),
            pending: Seq::empty(),
            has_container: false,
            next_id: 0,
        }
    }

    /// One message queued as a waiting record.
    pub open spec fn enqueued(self, m: String) -> ChannelState {
        ChannelState {
            pending: self.pending.push(Alert { id: self.next_id, message: m, elapsed: 0, lifetime: self.lifetime }),
            next_id: next_handle(self.next_id),
            ..self
        }
    }

    /// The messages queued one after another.
    pub open spec fn emitted(self, msgs: Seq<String>) -> ChannelState
        decreases msgs.len(),
    {
        if msgs.len() == 0 {
            self
        } else {
            self.emitted(msgs.drop_last()).enqueued(msgs.last())
        }
    }

    /// Free places: the capacity less what is shown, never below zero.
    pub open spec fn slots(self) -> int {
        if self.live.len() < self.max_visible {
            self.max_visible - self.live.len()
        } else {
            0
        }
    }

    /// How many waiting records the admission phase promotes.
    pub open spec fn admitted(self) -> int {
        if self.slots() < self.pending.len() {
            self.slots()
        } else {
            self.pending.len() as int
        }
    }

    /// First phase: a container exactly when some record is shown or waits.
    pub open spec fn container_checked(self) -> ChannelState {
        ChannelState { has_container: self.live.len() + self.pending.len() > 0, ..self }
    }

    /// Second phase: the first waiting records move, in order, behind the shown ones.
    pub open spec fn promoted(self) -> ChannelState {
        ChannelState {
            live: self.live + self.pending.take(self.admitted()),
            pending: self.pending.skip(self.admitted()),
            ..self
        }
    }

    /// Third phase: the clocks of the first `n` shown records run for `delta`.
    pub open spec fn clocks_advanced(self, n: int, delta: u64) -> ChannelState {
        ChannelState {
            live: Seq::new(
                self.live.len(),
                |i: int| if i < n { self.live[i].advanced_by(delta) } else { self.live[i] },
            ),
            ..self
        }
    }

    /// Fourth phase: the shown records named by `events` for channel `tag`,
    /// and under the expiry policy the expired ones, are removed.
    pub open spec fn dismissed(self, tag: usize, events: Seq<(usize, u64)>) -> ChannelState {
        ChannelState { live: survivors(self.live, tag, events, self.auto_expire), ..self }
    }

    /// One tick: the four phases in order. Only records shown before the tick
    /// have their clocks run.
    pub open spec fn ticked(self, tag: usize, delta: u64, events: Seq<(usize, u64)>) -> ChannelState {
        self.container_checked().promoted().clocks_advanced(self.live.len() as int, delta).dismissed(
            tag,
            events,
        )
    }
}

/// One notification channel: its settings, its records and its container.
pub struct Channel {
    config: ChannelConfig,
    live: Vec<Alert>,
    pending: Vec<Alert>,
    has_container: bool,
    next_id: u64,
}

impl View for Channel {
    type V = ChannelState;

    closed spec fn view(&self) -> ChannelState {
        ChannelState {
            max_visible: self.config.max_visible,
            lifetime: self.config.default_lifetime,
            auto_expire: self.config.auto_expire,
            live: self.live@,
            pending: self.pending@,
            has_container: self.has_container,
            next_id: self.next_id,
        }
    }
}

impl Channel {
    /// An empty channel with the given settings.
    pub fn new(config: ChannelConfig) -> (r: Channel)
        ensures
            r@ == ChannelState::fresh(config),
            r@.wf(),
    {
        Channel { config, live: Vec::new(), pending: Vec::new(), has_container: false, next_id: 0 }
    }

    /// Queues one message as a waiting record.
    fn enqueue(&mut self, m: String)
        requires
            old(self)@.wf(),
        ensures
            final(self)@ == old(self)@.enqueued(m),
            final(self)@.wf(),
    {
        let id = self.next_id;
        let lifetime = self.config.default_lifetime;
        self.pending.push(Alert { id, message: m, elapsed: 0, lifetime });
        self.next_id = if id == u64::MAX { 0 } else { id + 1 };
        proof {
            assert(self@.pending == old(self)@.pending.push(Alert { id, message: m, elapsed: 0, lifetime }));
        }
    }

    /// Queues each message, in order, as a waiting record. Nothing is shown
    /// before the next tick.
    pub fn alert(&mut self, messages: Vec<String>)
        requires
            old(self)@.wf(),
        ensures
            final(self)@ == old(self)@.emitted(messages@),
            final(self)@.wf(),
    {
        let n = messages.len();
        let mut i: usize = 0;
        while i < n
            invariant
                n == messages@.len(),
                0 <= i <= n,
                self@.wf(),
                self@ == old(self)@.emitted(messages@.take(i as int)),
            decreases n - i,
        {
            let m = messages[i].clone();
            self.enqueue(m);
            proof {
                let t = messages@.take(i as int + 1);
                assert(t.drop_last() =~= messages@.take(i as int));
                assert(t.last() == messages@[i as int]);
            }
            i = i + 1;
        }
        proof {
            assert(messages@.take(n as int) =~= messages@);
        }
    }

    /// First phase of a tick: makes the container when a record is shown or
    /// waits and none exists, and removes it when the channel is empty.
    pub fn check_container(&mut self)
        ensures
            final(self)@ == old(self)@.container_checked(),
    {
        let needed = self.live.len() > 0 || self.pending.len() > 0;
        if needed && !self.has_container {
            self.has_container = true;
        } else if !needed && self.has_container {
            self.has_container = false;
        }
    }

    /// Second phase of a tick: promotes waiting records, oldest first, into
    /// the free places.
    pub fn promote(&mut self)
        requires
            old(self)@.wf(),
        ensures
            final(self)@ == old(self)@.promoted(),
            final(self)@.wf(),
    {
        let live_n = self.live.len() as u64;
        let slots: u64 = if live_n < self.config.max_visible { self.config.max_visible - live_n } else { 0 };
        let k: usize = if (slots as u128) < (self.pending.len() as u128) { slots as usize } else { self.pending.len() };
        let ghost old_live = self.live@;
        let ghost old_pending = self.pending@;
        assert(k == old(self)@.admitted());
        let mut t: usize = 0;
        while t < k
            invariant
                0 <= t <= k,
                k <= old_pending.len(),
                self.config == old(self).config,
                self.has_container == old(self).has_container,
                self.next_id == old(self).next_id,
                self.live@ == old_live + old_pending.take(t as int),
                self.pending@ == old_pending.skip(t as int),
            decreases k - t,
        {
            let a = self.pending.remove(0);
            self.live.push(a);
            proof {
                assert(old_pending.take(t as int + 1) =~= old_pending.take(t as int).push(a));
                assert(old_pending.skip(t as int + 1) =~= old_pending.skip(t as int).remove(0));
            }
            t = t + 1;
        }
    }

    /// Third phase of a tick: runs the clocks of the first `n` shown records
    /// for `delta` milliseconds.
    pub fn advance_clocks(&mut self, n: usize, delta: u64)
        requires
            old(self)@.wf(),
        ensures
            final(self)@ == old(self)@.clocks_advanced(n as int, delta),
            final(self)@.wf(),
    {
        let len = self.live.len();
        let stop: usize = if n < len { n } else { len };
        let ghost orig = self.live@;
        let mut i: usize = 0;
        while i < stop
            invariant
                0 <= i <= stop,
                stop <= len,
                stop <= n,
                len == orig.len(),
                self.config == old(self).config,
                self.pending == old(self).pending,
                self.has_container == old(self).has_container,
                self.next_id == old(self).next_id,
                self.live@.len() == len,
                forall|j: int| 0 <= j < i ==> #[trigger] self.live@[j] == orig[j].advanced_by(delta),
                forall|j: int| i <= j < len ==> #[trigger] self.live@[j] == orig[j],
            decreases stop - i,
        {
            let mut a = self.live.remove(i);
            a.advance(delta);
            self.live.insert(i, a);
            i = i + 1;
        }
        proof {
            assert(self@.live =~= old(self)@.clocks_advanced(n as int, delta).live);
        }
    }

    /// Fourth phase of a tick: removes the shown records whose dismiss
    /// control `events` names for channel `tag`, and under the expiry policy
    /// those whose clock ran past their lifetime.
    pub fn dismiss(&mut self, tag: usize, events: &Vec<(usize, u64)>)
        requires
            old(self)@.wf(),
        ensures
            final(self)@ == old(self)@.dismissed(tag, events@),
            final(self)@.wf(),
    {
        let ghost orig = self.live@;
        let ghost auto = self.config.auto_expire;
        let len = self.live.len();
        let mut i: usize = 0;
        let mut j: usize = 0;
        while j < len
            invariant
                0 <= i <= j <= len,
                len == orig.len(),
                auto == self.config.auto_expire,
                self.config == old(self).config,
                self.pending == old(self).pending,
                self.has_container == old(self).has_container,
                self.next_id == old(self).next_id,
                self.live@ == survivors(orig.take(j as int), tag, events@, auto) + orig.skip(j as int),
                i == survivors(orig.take(j as int), tag, events@, auto).len(),
            decreases len - j,
        {
            let ghost kept = survivors(orig.take(j as int), tag, events@, auto);
            proof {
                assert(orig.take(j as int + 1).drop_last() =~= orig.take(j as int));
                assert(orig.take(j as int + 1).last() == orig[j as int]);
                assert(self.live@[i as int] == orig[j as int]);
            }
            let gone = named_in(events, tag, self.live[i].id) || (self.config.auto_expire
                && self.live[i].is_expired());
            if gone {
                self.live.remove(i);
                proof {
                    assert(self.live@ =~= kept + orig.skip(j as int + 1));
                }
            } else {
                proof {
                    assert(self.live@ =~= kept.push(orig[j as int]) + orig.skip(j as int + 1));
                }
                i = i + 1;
            }
            j = j + 1;
        }
        proof {
            assert(orig.take(len as int) =~= orig);
            assert(orig.skip(len as int) =~= Seq::<Alert>::empty());
            assert(self.live@ =~= survivors(orig, tag, events@, auto));
            lemma_survivors_len(orig, tag, events@, auto);
        }
    }

    /// One tick of the channel, tagged `tag`: container check, admission,
    /// clocks of the records shown before the tick, then dismissal.
    pub fn tick(&mut self, tag: usize, delta: u64, events: &Vec<(usize, u64)>)
        requires
            old(self)@.wf(),
        ensures
            final(self)@ == old(self)@.ticked(tag, delta, events@),
            final(self)@.wf(),
    {
        let n = self.live.len();
        self.check_container();
        self.promote();
        self.advance_clocks(n, delta);
        self.dismiss(tag, events);
    }

    /// Whether the channel's container exists.
    pub fn has_container(&self) -> (r: bool)
        ensures
            r == self@.has_container,
    {
        self.has_container
    }

    /// The texts of the shown records, in order.
    pub fn live_messages(&self) -> (r: Vec<String>)
        ensures
            r@.len() == self@.live.len(),
            forall|i: int| 0 <= i < r@.len() ==> #[trigger] r@[i] == self@.live[i].message,
    {
        messages_of(&self.live)
    }

    /// The texts of the waiting records, in order.
    pub fn pending_messages(&self) -> (r: Vec<String>)
        ensures
            r@.len() == self@.pending.len(),
            forall|i: int| 0 <= i < r@.len() ==> #[trigger] r@[i] == self@.pending[i].message,
    {
        messages_of(&self.pending)
    }

    /// The handles of the shown records, in order: what their dismiss
    /// controls report when activated.
    pub fn live_ids(&self) -> (r: Vec<u64>)
        ensures
            r@.len() == self@.live.len(),
            forall|i: int| 0 <= i < r@.len() ==> #[trigger] r@[i] == self@.live[i].id,
    {
        let mut r: Vec<u64> = Vec::new();
        let mut i: usize = 0;
        while i < self.live.len()
            invariant
                0 <= i <= self.live@.len(),
                r@.len() == i,
                forall|j: int| 0 <= j < i ==> #[trigger] r@[j] == self.live@[j].id,
            decreases self.live@.len() - i,
        {
            r.push(self.live[i].id);
            i = i + 1;
        }
        r
    }

    /// The elapsed times of the shown records, in order, in milliseconds.
    pub fn live_elapsed(&self) -> (r: Vec<u64>)
        ensures
            r@.len() == self@.live.len(),
            forall|i: int| 0 <= i < r@.len() ==> #[trigger] r@[i] == self@.live[i].elapsed,
    {
        let mut r: Vec<u64> = Vec::new();
        let mut i: usize = 0;
        while i < self.live.len()
            invariant
                0 <= i <= self.live@.len(),
                r@.len() == i,
                forall|j: int| 0 <= j < i ==> #[trigger] r@[j] == self.live@[j].elapsed,
            decreases self.live@.len() - i,
        {
            r.push(self.live[i].elapsed);
            i = i + 1;
        }
        r
    }
}

/// Whether `events` holds the pair `(tag, id)`.
fn named_in(events: &Vec<(usize, u64)>, tag: usize, id: u64) -> (r: bool)
    ensures
        r == events@.contains((tag, id)),
{
    let mut i: usize = 0;
    while i < events.len()
        invariant
            0 <= i <= events@.len(),
            forall|j: int| 0 <= j < i ==> #[trigger] events@[j] != (tag, id),
        decreases events@.len() - i,
    {
        let (t, d) = events[i];
        if t == tag && d == id {
            assert(events@[i as int] == (tag, id));
            return true;
        }
        i = i + 1;
    }
    false
}

/// The texts of `s`, in order.
fn messages_of(s: &Vec<Alert>) -> (r: Vec<String>)
    ensures
        r@.len() == s@.len(),
        forall|i: int| 0 <= i < r@.len() ==> #[trigger] r@[i] == s@[i].message,
{
    let mut r: Vec<String> = Vec::new();
    let mut i: usize = 0;
    while i < s.len()
        invariant
            0 <= i <= s@.len(),
            r@.len() == i,
            forall|j: int| 0 <= j < i ==> #[trigger] r@[j] == s@[j].message,
        decreases s@.len() - i,
    {
        r.push(s[i].message.clone());
        i = i + 1;
    }
    r
}

/// Dismissal never adds records.
pub proof fn lemma_survivors_len(s: Seq<Alert>, tag: usize, events: Seq<(usize, u64)>, auto_expire: bool)
    ensures
        survivors(s, tag, events, auto_expire).len() <= s.len(),
    decreases s.len(),
{
    if s.len() > 0 {
        lemma_survivors_len(s.drop_last(), tag, events, auto_expire);
    }
}

} // verus!
