//! A sound channel's bookkeeping of the effects and sources attached to it.
//!
//! The channel keeps each attached item alive, of type `E` for effects and
//! `S` for sources, beside the host's handle of it, which is its identity:
//! items are removed by comparing handles, and every item still attached is
//! detached before the channel itself is freed.
use vstd::prelude::*;

verus! {

/// A call into the host's sound-channel API.
#[derive(Clone, Copy, Debug, PartialEq, Eq, Structural)]
pub enum ChannelCall {
    AddEffect { channel: usize, effect: usize },
    RemoveEffect { channel: usize, effect: usize },
    AddSource { channel: usize, source: usize },
    RemoveSource { channel: usize, source: usize },
    FreeChannel { channel: usize },
}

/// `items` without those whose handle is `id`, in their order.
pub open spec fn without<T>(items: Seq<(usize, T)>, id: usize) -> Seq<(usize, T)>
    decreases items.len(),
{
    if items.len() == 0 {
        items
    } else if items.last().0 == id {
        without(items.drop_last(), id)
    } else {
        without(items.drop_last(), id).push(items.last())
    }
}

/// The handles of `items`, in their order.
pub open spec fn handles<T>(items: Seq<(usize, T)>) -> Seq<usize> {
    items.map_values(|p: (usize, T)| p.0)
}

/// The calls that free a channel: each source detached, in the order of
/// attachment, then each effect, and only then the channel.
pub open spec fn free_calls(channel: usize, sources: Seq<usize>, effects: Seq<usize>) -> Seq<
    ChannelCall,
> {
    sources.map_values(|s: usize| ChannelCall::RemoveSource { channel, source: s })
        + effects.map_values(|e: usize| ChannelCall::RemoveEffect { channel, effect: e })
        + seq![ChannelCall::FreeChannel { channel }]
}

fn remove_handle<T>(items: &mut Vec<(usize, T)>, id: usize)
    ensures
        final(items)@ == without(old(items)@, id),
{
    let ghost orig = items@;
    let ghost mut k: int = 0;
    let mut i: usize = 0;
    while i < items.len()
        invariant
            i <= items@.len(),
            0 <= k <= orig.len(),
            orig == old(items)@,
            items@.len() - i == orig.len() - k,
            items@.subrange(0, i as int) == without(orig.subrange(0, k), id),
            items@.subrange(i as int, items@.len() as int) == orig.subrange(k, orig.len() as int),
        decreases items@.len() - i,
    {
        let ghost before = items@;
        proof {
            assert(orig.subrange(0, k + 1).drop_last() =~= orig.subrange(0, k));
            assert(orig[k] == before.subrange(i as int, before.len() as int)[0]);
        }
        if items[i].0 == id {
            items.remove(i);
            proof {
                assert(items@.subrange(0, i as int) =~= before.subrange(0, i as int));
                assert forall|m: int| 0 <= m < items@.len() - i implies #[trigger] items@.subrange(
                    i as int,
                    items@.len() as int,
                )[m] == orig.subrange(k + 1, orig.len() as int)[m] by {
                    assert(before.subrange(i as int, before.len() as int)[m + 1] == orig.subrange(
                        k,
                        orig.len() as int,
                    )[m + 1]);
                }
                assert(items@.subrange(i as int, items@.len() as int) =~= orig.subrange(
                    k + 1,
                    orig.len() as int,
                ));
            }
        } else {
            i = i + 1;
            proof {
                assert(items@.subrange(0, i as int) =~= before.subrange(0, i - 1).push(orig[k]));
                assert forall|m: int| 0 <= m < items@.len() - i implies #[trigger] items@.subrange(
                    i as int,
                    items@.len() as int,
                )[m] == orig.subrange(k + 1, orig.len() as int)[m] by {
                    assert(before.subrange(i - 1, before.len() as int)[m + 1] == orig.subrange(
                        k,
                        orig.len() as int,
                    )[m + 1]);
                }
                assert(items@.subrange(i as int, items@.len() as int) =~= orig.subrange(
                    k + 1,
                    orig.len() as int,
                ));
            }
        }
        proof {
            k = k + 1;
        }
    }
    proof {
        assert(orig.subrange(k, orig.len() as int).len() == 0);
        assert(orig.subrange(0, k) =~= orig);
        assert(items@.subrange(0, i as int) =~= items@);
    }
}

/// A channel of the host's sound API with the effects and sources attached to it.
pub struct SoundChannel<E, S> {
    raw_channel: usize,
    effects: Vec<(usize, E)>,
    sources: Vec<(usize, S)>,
}

impl<E, S> SoundChannel<E, S> {
    /// The host's handle of the channel.
    pub closed spec fn spec_raw(&self) -> usize {
        self.raw_channel
    }

    /// The attached effects with their handles, in the order of attachment.
    pub closed spec fn effects(&self) -> Seq<(usize, E)> {
        self.effects@
    }

    /// The attached sources with their handles, in the order of attachment.
    pub closed spec fn sources(&self) -> Seq<(usize, S)> {
        self.sources@
    }

    /// The channel of the host's handle `raw_channel`, with nothing attached.
    pub fn new(raw_channel: usize) -> (r: Self)
        ensures
            r.spec_raw() == raw_channel,
            r.effects().len() == 0,
            r.sources().len() == 0,
    {
        SoundChannel { raw_channel, effects: Vec::new(), sources: Vec::new() }
    }

    /// The host's handle of the channel.
    pub fn raw_channel(&self) -> (r: usize)
        ensures
            r == self.spec_raw(),
    {
        self.raw_channel
    }

    /// Attaches `effect`, whose handle is `id`, keeping it alive until it is
    /// removed or the channel is freed.
    pub fn add_effect(&mut self, id: usize, effect: E) -> (call: ChannelCall)
        ensures
            final(self).effects() == old(self).effects().push((id, effect)),
            final(self).sources() == old(self).sources(),
            final(self).spec_raw() == old(self).spec_raw(),
            call == (ChannelCall::AddEffect { channel: old(self).spec_raw(), effect: id }),
    {
        self.effects.push((id, effect));
        ChannelCall::AddEffect { channel: self.raw_channel, effect: id }
    }

    /// Detaches every effect whose handle is `id`, dropping it.
    pub fn remove_effect(&mut self, id: usize) -> (call: ChannelCall)
        ensures
            final(self).effects() == without(old(self).effects(), id),
            final(self).sources() == old(self).sources(),
            final(self).spec_raw() == old(self).spec_raw(),
            call == (ChannelCall::RemoveEffect { channel: old(self).spec_raw(), effect: id }),
    {
        remove_handle(&mut self.effects, id);
        ChannelCall::RemoveEffect { channel: self.raw_channel, effect: id }
    }

    /// Attaches `source`, whose handle is `id`, keeping it alive until it is
    /// removed or the channel is freed.
    pub fn add_source(&mut self, id: usize, source: S) -> (call: ChannelCall)
        ensures
            final(self).sources() == old(self).sources().push((id, source)),
            final(self).effects() == old(self).effects(),
            final(self).spec_raw() == old(self).spec_raw(),
            call == (ChannelCall::AddSource { channel: old(self).spec_raw(), source: id }),
    {
        self.sources.push((id, source));
        ChannelCall::AddSource { channel: self.raw_channel, source: id }
    }

    /// Detaches every source whose handle is `id`, dropping it.
    pub fn remove_source(&mut self, id: usize) -> (call: ChannelCall)
        ensures
            final(self).sources() == without(old(self).sources(), id),
            final(self).effects() == old(self).effects(),
            final(self).spec_raw() == old(self).spec_raw(),
            call == (ChannelCall::RemoveSource { channel: old(self).spec_raw(), source: id }),
    {
        remove_handle(&mut self.sources, id);
        ChannelCall::RemoveSource { channel: self.raw_channel, source: id }
    }

    /// Frees the channel: the calls returned detach every source and every
    /// effect still attached, then free the channel.
    pub fn free(self) -> (calls: Vec<ChannelCall>)
        ensures
            calls@ == free_calls(self.spec_raw(), handles(self.sources()), handles(self.effects())),
    {
        let channel = self.raw_channel;
        let ghost srcs = handles(self.sources@);
        let ghost effs = handles(self.effects@);
        let mut calls: Vec<ChannelCall> = Vec::new();
        let mut i: usize = 0;
        while i < self.sources.len()
            invariant
                i <= self.sources@.len(),
                srcs == handles(self.sources@),
                calls@ == srcs.subrange(0, i as int).map_values(
                    |s: usize| ChannelCall::RemoveSource { channel, source: s },
                ),
            decreases self.sources@.len() - i,
        {
            calls.push(ChannelCall::RemoveSource { channel, source: self.sources[i].0 });
            proof {
                assert(srcs.subrange(0, i + 1) =~= srcs.subrange(0, i as int).push(srcs[i as int]));
                assert(calls@ =~= srcs.subrange(0, i + 1).map_values(
                    |s: usize| ChannelCall::RemoveSource { channel, source: s },
                ));
            }
            i = i + 1;
        }
        let ghost after_sources = calls@;
        let mut j: usize = 0;
        while j < self.effects.len()
            invariant
                j <= self.effects@.len(),
                effs == handles(self.effects@),
                calls@ == after_sources + effs.subrange(0, j as int).map_values(
                    |e: usize| ChannelCall::RemoveEffect { channel, effect: e },
                ),
            decreases self.effects@.len() - j,
        {
            calls.push(ChannelCall::RemoveEffect { channel, effect: self.effects[j].0 });
            proof {
                assert(effs.subrange(0, j + 1) =~= effs.subrange(0, j as int).push(effs[j as int]));
                assert(calls@ =~= after_sources + effs.subrange(0, j + 1).map_values(
                    |e: usize| ChannelCall::RemoveEffect { channel, effect: e },
                ));
            }
            j = j + 1;
        }
        calls.push(ChannelCall::FreeChannel { channel });
        proof {
            assert(srcs.subrange(0, srcs.len() as int) =~= srcs);
            assert(effs.subrange(0, effs.len() as int) =~= effs);
            assert(calls@ =~= free_calls(channel, srcs, effs));
        }
        calls
    }
}

} // verus!
