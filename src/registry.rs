use vstd::prelude::*;

use crate::channel::{Channel, ChannelConfig, ChannelState};

verus! {

/// The tag of the channel that every registry starts with.
pub const DEFAULT_CHANNEL: usize = 0;

/// The channels after `msgs` was queued on channel `c`; an unknown tag
/// changes nothing.
pub open spec fn registry_emitted(s: Seq<ChannelState>, c: usize, msgs: Seq<String>) -> Seq<ChannelState> {
    if c < s.len() {
        s.update(c as int, s[c as int].emitted(msgs))
    } else {
        s
    }
}

/// The channels after one tick of each, every channel tagged by its position.
pub open spec fn registry_ticked(s: Seq<ChannelState>, delta: u64, events: Seq<(usize, u64)>) -> Seq<ChannelState> {
    Seq::new(s.len(), |i: int| s[i].ticked(i as usize, delta, events))
}

/// Every channel of the registry; the tag of a channel is its position.
pub struct Alerts {
    channels: Vec<Channel>,
}

impl View for Alerts {
    type V = Seq<ChannelState>;

    closed spec fn view(&self) -> Seq<ChannelState> {
        Seq::new(self.channels@.len(), |i: int| self.channels@[i]@)
    }
}

impl Alerts {
    /// The default channel exists and every channel keeps its capacity.
    pub open spec fn wf(self) -> bool {
        &&& self@.len() >= 1
        &&& forall|i: int| 0 <= i < self@.len() ==> (#[trigger] self@[i]).wf()
    }

    /// A registry with the default channel alone, under default settings.
    pub fn new() -> (r: Alerts)
        ensures
            r@ == seq![ChannelState::fresh(ChannelConfig::default_settings())],
            r.wf(),
    {
        Alerts::with_config(ChannelConfig::new())
    }

    /// A registry whose default channel has the given settings.
    pub fn with_config(config: ChannelConfig) -> (r: Alerts)
        ensures
            r@ == seq![ChannelState::fresh(config)],
            r.wf(),
    {
        let mut channels: Vec<Channel> = Vec::new();
        channels.push(Channel::new(config));
        let r = Alerts { channels };
        assert(r@ =~= seq![ChannelState::fresh(config)]);
        r
    }

    /// Adds an empty channel with the given settings and returns its tag.
    pub fn add_channel(&mut self, config: ChannelConfig) -> (tag: usize)
        requires
            old(self).wf(),
        ensures
            tag == old(self)@.len(),
            final(self)@ == old(self)@.push(ChannelState::fresh(config)),
            final(self).wf(),
    {
        let tag = self.channels.len();
        self.channels.push(Channel::new(config));
        assert(self@ =~= old(self)@.push(ChannelState::fresh(config)));
        tag
    }

    /// The number of channels.
    pub fn channel_count(&self) -> (r: usize)
        ensures
            r == self@.len(),
    {
        self.channels.len()
    }

    /// The channel tagged `tag`, if there is one.
    pub fn channel(&self, tag: usize) -> (r: Option<&Channel>)
        ensures
            tag < self@.len() <==> r.is_some(),
            r.is_some() ==> r.unwrap()@ == self@[tag as int],
    {
        if tag < self.channels.len() {
            Some(&self.channels[tag])
        } else {
            None
        }
    }

    /// Queues each message, in order, on channel `tag`. Returns whether the
    /// channel exists; on an unknown tag nothing changes.
    pub fn alert(&mut self, tag: usize, messages: Vec<String>) -> (r: bool)
        requires
            old(self).wf(),
        ensures
            r == (tag < old(self)@.len()),
            final(self)@ == registry_emitted(old(self)@, tag, messages@),
            final(self).wf(),
    {
        if tag >= self.channels.len() {
            return false;
        }
        let ghost before = self@;
        assert(before[tag as int].wf());
        let mut ch = self.channels.remove(tag);
        ch.alert(messages);
        self.channels.insert(tag, ch);
        assert(self@ =~= registry_emitted(before, tag, messages@));
        true
    }

    /// One tick of every channel, each in its own four phases; `events` lists
    /// the activated dismiss controls as pairs of channel tag and handle.
    pub fn update(&mut self, delta: u64, events: &Vec<(usize, u64)>)
        requires
            old(self).wf(),
        ensures
            final(self)@ == registry_ticked(old(self)@, delta, events@),
            final(self).wf(),
    {
        let ghost before = self@;
        let n = self.channels.len();
        let mut i: usize = 0;
        while i < n
            invariant
                0 <= i <= n,
                n == before.len(),
                self@.len() == n,
                forall|j: int| 0 <= j < n ==> (#[trigger] self@[j]).wf(),
                forall|j: int| 0 <= j < i ==> #[trigger] self@[j] == before[j].ticked(j as usize, delta, events@),
                forall|j: int| i <= j < n ==> #[trigger] self@[j] == before[j],
            decreases n - i,
        {
            let ghost mid = self@;
            assert(mid[i as int].wf());
            let mut ch = self.channels.remove(i);
            ch.tick(i, delta, events);
            self.channels.insert(i, ch);
            assert(self@ =~= mid.update(i as int, before[i as int].ticked(i, delta, events@)));
            i = i + 1;
        }
        assert(self@ =~= registry_ticked(before, delta, events@));
    }
}

} // verus!
