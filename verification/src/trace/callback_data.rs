//! What a running trace keeps: its counters, and the providers whose callbacks
//! its events are handed to.
use std::sync::Arc;

use vstd::prelude::*;

use crate::guid;
use crate::guid::GUID;
use crate::native::evntrace::UniqueValidContexts;
use crate::provider::Provider;
use crate::trace::TraceKind;

verus! {

/// Counters of a trace
#[derive(Debug, Clone, Copy, PartialEq, Eq, Structural)]
pub struct Counters {
    /// How many events were handled, modulo the size of the counter
    pub events_handled: usize,
    /// How many buffers were processed, as reported by the system
    pub buffers_read: usize,
    /// How many events were lost, as reported by the system
    pub events_lost: usize,
}

/// The larger of two numbers.
pub open spec fn larger(a: usize, b: usize) -> usize {
    if a < b {
        b
    } else {
        a
    }
}

/// The counters after one more event.
pub open spec fn one_more_event(c: Counters) -> Counters {
    Counters {
        events_handled: if c.events_handled == usize::MAX {
            0
        } else {
            (c.events_handled + 1) as usize
        },
        ..c
    }
}

/// The counters after the report of a buffer.
///
/// Reports are running totals of the whole session, and may be delivered out of
/// order: the largest seen so far is kept.
pub open spec fn one_more_buffer(c: Counters, buffers_read: u32, events_lost: u32) -> Counters {
    Counters {
        buffers_read: larger(c.buffers_read, buffers_read as usize),
        events_lost: larger(c.events_lost, events_lost as usize),
        ..c
    }
}

impl Counters {
    /// All zero.
    pub fn new() -> (r: Counters)
        ensures
            r == (Counters { events_handled: 0, buffers_read: 0, events_lost: 0 }),
    {
        Counters { events_handled: 0, buffers_read: 0, events_lost: 0 }
    }

    fn on_event(&mut self)
        ensures
            *final(self) == one_more_event(*old(self)),
    {
        self.events_handled = if self.events_handled == usize::MAX {
            0
        } else {
            self.events_handled + 1
        };
    }

    fn on_buffer(&mut self, buffers_read: u32, events_lost: u32)
        ensures
            *final(self) == one_more_buffer(*old(self), buffers_read, events_lost),
    {
        if self.buffers_read < buffers_read as usize {
            self.buffers_read = buffers_read as usize;
        }
        if self.events_lost < events_lost as usize {
            self.events_lost = events_lost as usize;
        }
    }
}

/// The order in which buffers are reported does not matter, a report may be
/// repeated, and no report brings a counter down.
pub proof fn buffer_reports_commute(c: Counters, b1: u32, l1: u32, b2: u32, l2: u32)
    ensures
        one_more_buffer(one_more_buffer(c, b1, l1), b2, l2) == one_more_buffer(
            one_more_buffer(c, b2, l2),
            b1,
            l1,
        ),
        one_more_buffer(one_more_buffer(c, b1, l1), b1, l1) == one_more_buffer(c, b1, l1),
        one_more_buffer(c, b1, l1).buffers_read >= c.buffers_read,
        one_more_buffer(c, b1, l1).events_lost >= c.events_lost,
        one_more_buffer(c, b1, l1).events_handled == c.events_handled,
{
}

/// Positions of providers, by the number of their identifier.
pub type ProviderIndex = rustc_hash::FxHashMap<u128, Vec<usize>>;

/// What a provider index holds.
pub uninterp spec fn index_contents(m: ProviderIndex) -> Map<u128, Seq<usize>>;

/// `FxHashMap::default`: an empty index.
#[verifier::external_body]
fn index_new() -> (r: ProviderIndex)
    ensures
        (index_contents(r) == Map::<u128, Seq<usize>>::empty()),
{
    rustc_hash::FxHashMap::default()
}

/// `FxHashMap::get`: the positions stored under the key, if there are any.
#[verifier::external_body]
fn index_get(m: &ProviderIndex, key: u128) -> (r: Option<&Vec<usize>>)
    ensures
        match r {
            Some(v) => index_contents(*m).contains_key(key) && v@ == index_contents(*m)[key],
            None => !index_contents(*m).contains_key(key),
        },
{
    m.get(&key)
}

/// `FxHashMap::insert`: the positions are stored under the key in place of any
/// before, everything else is kept.
#[verifier::external_body]
fn index_insert(m: &mut ProviderIndex, key: u128, positions: Vec<usize>)
    ensures
        (index_contents(*final(m)) == index_contents(*old(m)).insert(key, positions@)),
{
    m.insert(key, positions);
}

/// Adds a position behind those stored under the key.
fn index_push(m: &mut ProviderIndex, key: u128, position: usize)
    ensures
        index_contents(*final(m)) == index_contents(*old(m)).insert(
            key,
            (if index_contents(*old(m)).contains_key(key) {
                index_contents(*old(m))[key]
            } else {
                Seq::<usize>::empty()
            }).push(position),
        ),
{
    let mut positions: Vec<usize> = match index_get(m, key) {
        Some(stored) => stored.clone(),
        None => Vec::new(),
    };
    positions.push(position);
    index_insert(m, key, positions);
}

/// The positions, in order, of the providers with the identifier `g`.
pub open spec fn positions_of(providers: Seq<Arc<Provider>>, g: GUID) -> Seq<usize>
    decreases providers.len(),
{
    if providers.len() == 0 {
        Seq::empty()
    } else if providers.last()@.guid == g {
        positions_of(providers.drop_last(), g).push((providers.len() - 1) as usize)
    } else {
        positions_of(providers.drop_last(), g)
    }
}

/// The callbacks, in order, that an event of `g` is handed to.
pub open spec fn callbacks_of(providers: Seq<Arc<Provider>>, g: GUID) -> Seq<u64>
    decreases providers.len(),
{
    if providers.len() == 0 {
        Seq::empty()
    } else if providers.last()@.guid == g {
        callbacks_of(providers.drop_last(), g) + providers.last()@.callbacks@
    } else {
        callbacks_of(providers.drop_last(), g)
    }
}

/// The providers, in order, without those with the identifier `g`.
pub open spec fn without_guid(providers: Seq<Arc<Provider>>, g: GUID) -> Seq<Arc<Provider>>
    decreases providers.len(),
{
    if providers.len() == 0 {
        Seq::empty()
    } else if providers.last()@.guid == g {
        without_guid(providers.drop_last(), g)
    } else {
        without_guid(providers.drop_last(), g).push(providers.last())
    }
}

/// The classic event groups of all providers.
pub open spec fn kernel_groups(providers: Seq<Arc<Provider>>) -> u32
    decreases providers.len(),
{
    if providers.len() == 0 {
        0
    } else {
        kernel_groups(providers.drop_last()) | providers.last()@.kernel_flags
    }
}

/// The flags a session is started with.
pub open spec fn enable_flags(kind: TraceKind, providers: Seq<Arc<Provider>>) -> u32 {
    match kind {
        TraceKind::User => 0,
        TraceKind::Kernel => kernel_groups(providers),
    }
}

/// The providers of a trace, in registration order, with an index by identifier
struct Registry {
    providers: Vec<Arc<Provider>>,
    providers_by_guid: ProviderIndex,
}

impl Registry {
    /// The index holds, for each identifier, the positions of its providers.
    spec fn wf(self) -> bool {
        let m = index_contents(self.providers_by_guid);
        forall|g: GUID|
            #[trigger] positions_of(self.providers@, g) == (if m.contains_key(g.value() as u128) {
                m[g.value() as u128]
            } else {
                Seq::<usize>::empty()
            })
    }

    fn new() -> (r: Registry)
        ensures
            r.wf(),
            r.providers@.len() == 0,
    {
        Registry { providers: Vec::new(), providers_by_guid: index_new() }
    }

    fn push(&mut self, provider: Arc<Provider>)
        requires
            old(self).wf(),
        ensures
            final(self).wf(),
            final(self).providers@ == old(self).providers@.push(provider),
    {
        let ghost before = *self;
        let guid = provider.guid();
        let key: u128 = guid.to_u128();
        let position: usize = self.providers.len();
        index_push(&mut self.providers_by_guid, key, position);
        self.providers.push(provider);
        proof {
            let m = index_contents(before.providers_by_guid);
            let now = index_contents(self.providers_by_guid);
            assert(self.providers@.drop_last() =~= before.providers@);
            assert forall|g: GUID|
                #[trigger] positions_of(self.providers@, g) == (if now.contains_key(
                    g.value() as u128,
                ) {
                    now[g.value() as u128]
                } else {
                    Seq::<usize>::empty()
                }) by {
                guid::guid_values_are_distinct(g, guid);
                guid::guid_values_fit(g);
                guid::guid_values_fit(guid);
                assert(positions_of(before.providers@, g) == (if m.contains_key(
                    g.value() as u128,
                ) {
                    m[g.value() as u128]
                } else {
                    Seq::<usize>::empty()
                }));
            }
        }
    }

    /// Whether a provider has the identifier `g`.
    fn has(&self, g: GUID) -> (r: bool)
        requires
            self.wf(),
        ensures
            r == (positions_of(self.providers@, g).len() > 0),
    {
        proof {
            guid::guid_values_fit(g);
            assert(positions_of(self.providers@, g) == positions_of(self.providers@, g));
        }
        match index_get(&self.providers_by_guid, g.to_u128()) {
            Some(positions) => positions.len() > 0,
            None => false,
        }
    }

    /// The callbacks an event of `g` is handed to.
    fn callbacks(&self, g: GUID) -> (r: Vec<u64>)
        requires
            self.wf(),
        ensures
            r@ == callbacks_of(self.providers@, g),
    {
        let mut r: Vec<u64> = Vec::new();
        let count: usize = self.providers.len();
        proof {
            assert(count == self.providers@.len());
            guid::guid_values_fit(g);
            positions_are_in_range(self.providers@, g);
            assert(self.providers@.take(self.providers@.len() as int) =~= self.providers@);
            gathered_callbacks(self.providers@, self.providers@, g);
        }
        let ghost all = positions_of(self.providers@, g);
        if let Some(positions) = index_get(&self.providers_by_guid, g.to_u128()) {
            let mut i: usize = 0;
            while i < positions.len()
                invariant
                    i <= positions@.len(),
                    positions@ == all,
                    forall|k: int| 0 <= k < all.len() ==> all[k] < self.providers@.len(),
                    r@ == gather(self.providers@, all.take(i as int)),
                decreases positions.len() - i,
            {
                let ghost now = all.take(i + 1);
                assert(now.drop_last() =~= all.take(i as int));
                let callbacks = self.providers[positions[i]].on_event();
                let mut j: usize = 0;
                let ghost start = r@;
                while j < callbacks.len()
                    invariant
                        j <= callbacks@.len(),
                        r@ == start + callbacks@.take(j as int),
                    decreases callbacks.len() - j,
                {
                    assert(callbacks@.take(j + 1) =~= callbacks@.take(j as int).push(
                        callbacks@[j as int],
                    ));
                    r.push(callbacks[j]);
                    j += 1;
                }
                assert(callbacks@.take(j as int) =~= callbacks@);
                assert(r@ =~= gather(self.providers@, now));
                i += 1;
            }
            assert(all.take(i as int) =~= all);
        }
        r
    }

    /// The same providers without the one at `position`.
    fn without_position(&self, position: usize) -> (r: Registry)
        requires
            position < self.providers@.len(),
        ensures
            r.wf(),
            r.providers@ == self.providers@.remove(position as int),
    {
        let mut r = Registry::new();
        let mut i: usize = 0;
        assert(r.providers@ =~= Seq::empty());
        while i < self.providers.len()
            invariant
                i <= self.providers@.len(),
                position < self.providers@.len(),
                r.wf(),
                r.providers@ == (if i <= position {
                    self.providers@.take(i as int)
                } else {
                    self.providers@.take(i as int).remove(position as int)
                }),
            decreases self.providers.len() - i,
        {
            let ghost now = self.providers@.take(i + 1);
            assert(now =~= self.providers@.take(i as int).push(self.providers@[i as int]));
            if i != position {
                r.push(Arc::clone(&self.providers[i]));
            }
            i += 1;
            assert(r.providers@ =~= (if i <= position {
                now
            } else {
                now.remove(position as int)
            }));
        }
        assert(self.providers@.take(i as int) =~= self.providers@);
        r
    }

    /// The same providers without those with the identifier `g`.
    fn without(&self, g: GUID) -> (r: Registry)
        ensures
            r.wf(),
            r.providers@ == without_guid(self.providers@, g),
    {
        let mut r = Registry::new();
        let mut i: usize = 0;
        assert(r.providers@ =~= Seq::empty());
        while i < self.providers.len()
            invariant
                i <= self.providers@.len(),
                r.wf(),
                r.providers@ == without_guid(self.providers@.take(i as int), g),
            decreases self.providers.len() - i,
        {
            let ghost now = self.providers@.take(i + 1);
            assert(now.drop_last() =~= self.providers@.take(i as int));
            if self.providers[i].guid() != g {
                r.push(Arc::clone(&self.providers[i]));
            }
            i += 1;
        }
        assert(self.providers@.take(i as int) =~= self.providers@);
        r
    }

    /// A copy of the providers.
    fn snapshot(&self) -> (r: Vec<Arc<Provider>>)
        ensures
            r@ == self.providers@,
    {
        let mut r: Vec<Arc<Provider>> = Vec::new();
        let mut i: usize = 0;
        while i < self.providers.len()
            invariant
                i <= self.providers@.len(),
                r@ == self.providers@.take(i as int),
            decreases self.providers.len() - i,
        {
            r.push(Arc::clone(&self.providers[i]));
            i += 1;
            assert(r@ =~= self.providers@.take(i as int));
        }
        assert(self.providers@.take(i as int) =~= self.providers@);
        r
    }
}

/// The callbacks of the providers at the given positions, one after the other.
spec fn gather(providers: Seq<Arc<Provider>>, positions: Seq<usize>) -> Seq<u64>
    decreases positions.len(),
{
    if positions.len() == 0 {
        Seq::empty()
    } else {
        gather(providers, positions.drop_last()) + providers[positions.last() as int]@.callbacks@
    }
}

proof fn positions_are_in_range(providers: Seq<Arc<Provider>>, g: GUID)
    requires
        providers.len() <= usize::MAX,
    ensures
        forall|k: int|
            0 <= k < positions_of(providers, g).len() ==> positions_of(providers, g)[k]
                < providers.len(),
    decreases providers.len(),
{
    if providers.len() > 0 {
        let rest = providers.drop_last();
        positions_are_in_range(rest, g);
        let positions = positions_of(providers, g);
        assert forall|k: int| 0 <= k < positions.len() implies positions[k] < providers.len() by {
            if k < positions_of(rest, g).len() {
                assert(positions[k] == positions_of(rest, g)[k]);
            }
        }
    }
}

proof fn gathered_callbacks(all: Seq<Arc<Provider>>, providers: Seq<Arc<Provider>>, g: GUID)
    requires
        providers.len() <= all.len() <= usize::MAX,
        providers == all.take(providers.len() as int),
    ensures
        gather(all, positions_of(providers, g)) == callbacks_of(providers, g),
    decreases providers.len(),
{
    if providers.len() > 0 {
        let rest = providers.drop_last();
        assert(rest =~= all.take(rest.len() as int));
        gathered_callbacks(all, rest, g);
        if providers.last()@.guid == g {
            let positions = positions_of(providers, g);
            assert(positions.drop_last() =~= positions_of(rest, g));
            assert(all[providers.len() - 1] == providers.last());
        }
    }
}

/// What a real-time trace keeps while it runs
pub struct RealTimeCallbackData {
    counters: Counters,
    registry: Registry,
}

impl RealTimeCallbackData {
    #[verifier::type_invariant]
    spec fn wf(self) -> bool {
        self.registry.wf()
    }

    /// The registered providers, in registration order.
    pub closed spec fn registered(self) -> Seq<Arc<Provider>> {
        self.registry.providers@
    }

    /// The counters.
    pub closed spec fn counts(self) -> Counters {
        self.counters
    }

    /// No providers, and all counters zero.
    pub fn new() -> (r: RealTimeCallbackData)
        ensures
            r.registered() == Seq::<Arc<Provider>>::empty(),
            r.counts() == (Counters { events_handled: 0, buffers_read: 0, events_lost: 0 }),
    {
        let r = RealTimeCallbackData { counters: Counters::new(), registry: Registry::new() };
        assert(r.registered() =~= Seq::empty());
        r
    }

    /// Registers a provider behind those registered before. The same identifier
    /// may be registered several times.
    pub fn add_provider_shared(&mut self, provider: Arc<Provider>)
        ensures
            final(self).registered() == old(self).registered().push(provider),
            final(self).counts() == old(self).counts(),
    {
        proof {
            use_type_invariant(&*self);
        }
        let mut registry = Registry::new();
        std::mem::swap(&mut registry, &mut self.registry);
        registry.push(provider);
        self.registry = registry;
    }

    /// Registers a provider behind those registered before.
    pub fn add_provider(&mut self, provider: Provider)
        ensures
            final(self).registered() == old(self).registered().push(Arc::new(provider)),
            final(self).counts() == old(self).counts(),
    {
        self.add_provider_shared(Arc::new(provider));
    }

    /// Takes back the registration at `position`.
    pub fn remove_provider_instance(&mut self, position: usize)
        requires
            position < old(self).registered().len(),
        ensures
            final(self).registered() == old(self).registered().remove(position as int),
            final(self).counts() == old(self).counts(),
    {
        let registry = self.registry.without_position(position);
        self.registry = registry;
    }

    /// Removes every registration of an identifier, and says how many there
    /// were.
    pub fn remove_all_by_guid(&mut self, g: GUID) -> (r: usize)
        ensures
            final(self).registered() == without_guid(old(self).registered(), g),
            final(self).counts() == old(self).counts(),
            r == positions_of(old(self).registered(), g).len(),
    {
        proof {
            removed_and_kept(self.registry.providers@, g);
        }
        let registry = self.registry.without(g);
        let removed: usize = self.registry.providers.len() - registry.providers.len();
        self.registry = registry;
        removed
    }

    /// Whether a provider is registered under an identifier.
    pub fn has_provider_with_guid(&self, g: GUID) -> (r: bool)
        ensures
            r == (positions_of(self.registered(), g).len() > 0),
    {
        proof {
            use_type_invariant(self);
        }
        self.registry.has(g)
    }

    /// The registered providers, in registration order.
    pub fn providers(&self) -> (r: Vec<Arc<Provider>>)
        ensures
            r@ == self.registered(),
    {
        self.registry.snapshot()
    }

    /// How many providers are registered.
    pub fn provider_count(&self) -> (r: usize)
        ensures
            r == self.registered().len(),
    {
        self.registry.providers.len()
    }

    /// The provider registered at `position`.
    pub fn provider_at(&self, position: usize) -> (r: &Provider)
        requires
            position < self.registered().len(),
        ensures
            *r == *self.registered()[position as int],
    {
        &self.registry.providers[position]
    }

    /// The flags a session with these providers is started with.
    pub fn provider_flags(&self, kind: TraceKind) -> (r: u32)
        ensures
            r == enable_flags(kind, self.registered()),
    {
        match kind {
            TraceKind::User => 0,
            TraceKind::Kernel => {
                let mut flags: u32 = 0;
                let mut i: usize = 0;
                while i < self.registry.providers.len()
                    invariant
                        i <= self.registry.providers@.len(),
                        flags == kernel_groups(self.registry.providers@.take(i as int)),
                    decreases self.registry.providers.len() - i,
                {
                    let ghost now = self.registry.providers@.take(i + 1);
                    assert(now.drop_last() =~= self.registry.providers@.take(i as int));
                    flags = flags | self.registry.providers[i].kernel_flags();
                    i += 1;
                }
                assert(self.registry.providers@.take(i as int) =~= self.registry.providers@);
                flags
            },
        }
    }

    /// Counts an event of the provider `g`, and says which callbacks it is handed
    /// to: those of every registration of the identifier, in registration order.
    pub fn on_event(&mut self, g: GUID) -> (r: Vec<u64>)
        ensures
            final(self).registered() == old(self).registered(),
            final(self).counts() == one_more_event(old(self).counts()),
            r@ == callbacks_of(old(self).registered(), g),
    {
        proof {
            use_type_invariant(&*self);
        }
        let mut counters = self.counters;
        counters.on_event();
        self.counters = counters;
        self.registry.callbacks(g)
    }

    /// Takes note of the report of a buffer.
    pub fn on_buffer(&mut self, buffers_read: u32, events_lost: u32)
        ensures
            final(self).registered() == old(self).registered(),
            final(self).counts() == one_more_buffer(
                old(self).counts(),
                buffers_read,
                events_lost,
            ),
    {
        proof {
            use_type_invariant(&*self);
        }
        let mut counters = self.counters;
        counters.on_buffer(buffers_read, events_lost);
        self.counters = counters;
    }

    /// How many events were handled.
    pub fn events_handled(&self) -> (r: usize)
        ensures
            r == self.counts().events_handled,
    {
        self.counters.events_handled
    }

    /// How many buffers were processed, as reported by the system.
    pub fn buffers_read(&self) -> (r: usize)
        ensures
            r == self.counts().buffers_read,
    {
        self.counters.buffers_read
    }

    /// How many events were lost, as reported by the system.
    pub fn events_lost(&self) -> (r: usize)
        ensures
            r == self.counts().events_lost,
    {
        self.counters.events_lost
    }
}

/// What is not removed with an identifier is kept.
pub proof fn removed_and_kept(providers: Seq<Arc<Provider>>, g: GUID)
    ensures
        without_guid(providers, g).len() + positions_of(providers, g).len() == providers.len(),
    decreases providers.len(),
{
    if providers.len() > 0 {
        removed_and_kept(providers.drop_last(), g);
    }
}

/// After an identifier is removed its events are handed to no one, and those of
/// every other identifier are handed to the same callbacks as before.
pub proof fn removal_only_silences_its_identifier(
    providers: Seq<Arc<Provider>>,
    removed: GUID,
    other: GUID,
)
    requires
        other != removed,
    ensures
        callbacks_of(without_guid(providers, removed), removed) == Seq::<u64>::empty(),
        callbacks_of(without_guid(providers, removed), other) == callbacks_of(providers, other),
        positions_of(without_guid(providers, removed), removed).len() == 0,
    decreases providers.len(),
{
    if providers.len() > 0 {
        let rest = providers.drop_last();
        removal_only_silences_its_identifier(rest, removed, other);
        if providers.last()@.guid != removed {
            let kept = without_guid(providers, removed);
            assert(kept.drop_last() =~= without_guid(rest, removed));
            assert(kept.last() == providers.last());
        }
    }
}

/// Taking back the registration made last leaves the providers as they were.
pub proof fn registration_can_be_taken_back(providers: Seq<Arc<Provider>>, p: Arc<Provider>)
    ensures
        providers.push(p).remove(providers.len() as int) == providers,
{
    assert(providers.push(p).remove(providers.len() as int) =~= providers);
}

/// Every registration of an identifier receives its events, one after the other
/// in registration order.
pub proof fn registrations_add_up(a: Seq<Arc<Provider>>, b: Seq<Arc<Provider>>, g: GUID)
    ensures
        callbacks_of(a + b, g) == callbacks_of(a, g) + callbacks_of(b, g),
    decreases b.len(),
{
    if b.len() == 0 {
        assert(a + b =~= a);
        assert(callbacks_of(a, g) + callbacks_of(b, g) =~= callbacks_of(a, g));
    } else {
        assert((a + b).drop_last() =~= a + b.drop_last());
        assert((a + b).last() == b.last());
        registrations_add_up(a, b.drop_last(), g);
        assert(callbacks_of(a + b, g) =~= callbacks_of(a, g) + callbacks_of(b, g));
    }
}

/// What a trace that reads a file keeps while it runs: its counters, and the
/// number of its one callback
#[derive(Debug)]
pub struct CallbackDataFromFile {
    pub counters: Counters,
    pub callback: u64,
}

impl CallbackDataFromFile {
    pub fn new(callback: u64) -> (r: CallbackDataFromFile)
        ensures
            r.callback == callback,
            r.counters == (Counters { events_handled: 0, buffers_read: 0, events_lost: 0 }),
    {
        CallbackDataFromFile { counters: Counters::new(), callback }
    }

    /// How many events were handled.
    pub fn events_handled(&self) -> (r: usize)
        ensures
            r == self.counters.events_handled,
    {
        self.counters.events_handled
    }

    /// How many buffers were processed, as reported by the system.
    pub fn buffers_read(&self) -> (r: usize)
        ensures
            r == self.counters.buffers_read,
    {
        self.counters.buffers_read
    }

    /// How many events were lost, as reported by the system.
    pub fn events_lost(&self) -> (r: usize)
        ensures
            r == self.counters.events_lost,
    {
        self.counters.events_lost
    }

    /// Counts an event, and says which callback it is handed to.
    pub fn on_event(&mut self) -> (r: Vec<u64>)
        ensures
            final(self).callback == old(self).callback,
            final(self).counters == one_more_event(old(self).counters),
            r@ == seq![old(self).callback],
    {
        self.counters.on_event();
        let mut r: Vec<u64> = Vec::new();
        r.push(self.callback);
        r
    }

    /// Takes note of the report of a buffer.
    pub fn on_buffer(&mut self, buffers_read: u32, events_lost: u32)
        ensures
            final(self).callback == old(self).callback,
            final(self).counters == one_more_buffer(
                old(self).counters,
                buffers_read,
                events_lost,
            ),
    {
        self.counters.on_buffer(buffers_read, events_lost);
    }
}

/// What a trace keeps while it runs
pub enum CallbackData {
    RealTime(RealTimeCallbackData),
    FromFile(CallbackDataFromFile),
}

impl CallbackData {
    /// The counters.
    pub open spec fn counts(self) -> Counters {
        match self {
            CallbackData::RealTime(data) => data.counts(),
            CallbackData::FromFile(data) => data.counters,
        }
    }

    /// The callbacks an event of `g` is handed to.
    pub open spec fn receivers(self, g: GUID) -> Seq<u64> {
        match self {
            CallbackData::RealTime(data) => callbacks_of(data.registered(), g),
            CallbackData::FromFile(data) => seq![data.callback],
        }
    }

    /// Whether two states hand events to the same callbacks.
    pub open spec fn same_receivers(self, other: CallbackData) -> bool {
        match (self, other) {
            (CallbackData::RealTime(a), CallbackData::RealTime(b)) => a.registered()
                == b.registered(),
            (CallbackData::FromFile(a), CallbackData::FromFile(b)) => a.callback == b.callback,
            _ => false,
        }
    }

    /// Counts an event of the provider `g`, and says which callbacks it is handed
    /// to.
    pub fn on_event(&mut self, g: GUID) -> (r: Vec<u64>)
        ensures
            final(self).counts() == one_more_event(old(self).counts()),
            final(self).same_receivers(*old(self)),
            r@ == old(self).receivers(g),
    {
        match self {
            CallbackData::RealTime(data) => data.on_event(g),
            CallbackData::FromFile(data) => data.on_event(),
        }
    }

    /// Takes note of the report of a buffer.
    pub fn on_buffer(&mut self, buffers_read: u32, events_lost: u32)
        ensures
            final(self).counts() == one_more_buffer(
                old(self).counts(),
                buffers_read,
                events_lost,
            ),
            final(self).same_receivers(*old(self)),
    {
        match self {
            CallbackData::RealTime(data) => data.on_buffer(buffers_read, events_lost),
            CallbackData::FromFile(data) => data.on_buffer(buffers_read, events_lost),
        }
    }

    /// How many events were handled.
    pub fn events_handled(&self) -> (r: usize)
        ensures
            r == self.counts().events_handled,
    {
        match self {
            CallbackData::RealTime(data) => data.events_handled(),
            CallbackData::FromFile(data) => data.events_handled(),
        }
    }

    /// How many buffers were processed, as reported by the system.
    pub fn buffers_read(&self) -> (r: usize)
        ensures
            r == self.counts().buffers_read,
    {
        match self {
            CallbackData::RealTime(data) => data.buffers_read(),
            CallbackData::FromFile(data) => data.buffers_read(),
        }
    }

    /// How many events were lost, as reported by the system.
    pub fn events_lost(&self) -> (r: usize)
        ensures
            r == self.counts().events_lost,
    {
        match self {
            CallbackData::RealTime(data) => data.events_lost(),
            CallbackData::FromFile(data) => data.events_lost(),
        }
    }
}

/// What an event of the provider `g` does to a trace: nothing at all when the
/// trace was closed.
pub open spec fn dispatches(
    contexts: Set<u64>,
    context: u64,
    before: CallbackData,
    g: GUID,
    after: CallbackData,
    called: Seq<u64>,
) -> bool {
    if contexts.contains(context) {
        &&& after.counts() == one_more_event(before.counts())
        &&& after.same_receivers(before)
        &&& called == before.receivers(g)
    } else {
        &&& after == before
        &&& called == Seq::<u64>::empty()
    }
}

/// Takes an event the tracing API delivers: `context` is what it was delivered
/// with, `data` what belongs to that context. Returns the callbacks the event is
/// handed to, in order.
pub fn trace_callback_thunk(
    contexts: &UniqueValidContexts,
    context: u64,
    data: &mut CallbackData,
    g: GUID,
) -> (r: Vec<u64>)
    ensures
        dispatches(contexts@, context, *old(data), g, *final(data), r@),
{
    if !contexts.is_valid(context) {
        let none: Vec<u64> = Vec::new();
        assert(none@ =~= Seq::<u64>::empty());
        return none;
    }
    data.on_event(g)
}

/// Takes the report of a buffer the tracing API has delivered, and says whether
/// to go on with the next one: always.
pub fn buffer_callback_thunk(
    contexts: &UniqueValidContexts,
    context: u64,
    data: &mut CallbackData,
    buffers_read: u32,
    events_lost: u32,
) -> (r: u32)
    ensures
        r == 1,
        if contexts@.contains(context) {
            &&& final(data).counts() == one_more_buffer(
                old(data).counts(),
                buffers_read,
                events_lost,
            )
            &&& final(data).same_receivers(*old(data))
        } else {
            *final(data) == *old(data)
        },
{
    if contexts.is_valid(context) {
        data.on_buffer(buffers_read, events_lost);
    }
    1
}

/// An event that is delivered after its trace was closed is discarded, whatever
/// other traces are open.
pub proof fn events_of_closed_traces_are_discarded(
    contexts: Set<u64>,
    context: u64,
    before: CallbackData,
    g: GUID,
    after: CallbackData,
    called: Seq<u64>,
)
    requires
        dispatches(contexts.remove(context), context, before, g, after, called),
    ensures
        after == before,
        called == Seq::<u64>::empty(),
{
}

/// An event counts once, and counts nothing else; the count wraps around.
pub proof fn events_count_once(c: Counters)
    ensures
        c.events_handled < usize::MAX ==> one_more_event(c).events_handled == c.events_handled + 1,
        c.events_handled == usize::MAX ==> one_more_event(c).events_handled == 0,
        one_more_event(c).buffers_read == c.buffers_read,
        one_more_event(c).events_lost == c.events_lost,
{
}

/// What buffers report is kept where it is larger than what was reported before.
pub proof fn buffer_reports_are_kept(c: Counters, buffers_read: u32, events_lost: u32)
    ensures
        ({
            let after = one_more_buffer(c, buffers_read, events_lost);
            &&& after.buffers_read >= buffers_read && after.buffers_read >= c.buffers_read
            &&& after.buffers_read == buffers_read || after.buffers_read == c.buffers_read
            &&& after.events_lost >= events_lost && after.events_lost >= c.events_lost
            &&& after.events_lost == events_lost || after.events_lost == c.events_lost
            &&& after.events_handled == c.events_handled
        }),
{
}

/// The positions of an identifier are those of the providers that have it, each
/// once and in ascending order.
pub proof fn positions_are_those_of_the_identifier(providers: Seq<Arc<Provider>>, g: GUID)
    requires
        providers.len() <= usize::MAX,
    ensures
        forall|i: int|
            0 <= i < providers.len() ==> ((#[trigger] providers[i])@.guid == g <==> positions_of(
                providers,
                g,
            ).contains(i as usize)),
        forall|k: int|
            0 <= k < positions_of(providers, g).len() ==> #[trigger] positions_of(providers, g)[k]
                < providers.len(),
        forall|k: int, l: int|
            0 <= k < l < positions_of(providers, g).len() ==> positions_of(providers, g)[k]
                < positions_of(providers, g)[l],
    decreases providers.len(),
{
    if providers.len() > 0 {
        let rest = providers.drop_last();
        let last = providers.len() - 1;
        positions_are_those_of_the_identifier(rest, g);
        let before = positions_of(rest, g);
        let all = positions_of(providers, g);
        assert forall|i: int| 0 <= i < providers.len() implies ((#[trigger] providers[i])@.guid == g
            <==> all.contains(i as usize)) by {
            if i < last {
                assert(rest[i] == providers[i]);
                if before.contains(i as usize) {
                    let k = choose|k: int| 0 <= k < before.len() && before[k] == i as usize;
                    assert(all[k] == i as usize);
                }
                if all.contains(i as usize) {
                    let k = choose|k: int| 0 <= k < all.len() && all[k] == i as usize;
                    assert(k < before.len());
                    assert(before[k] == i as usize);
                }
            } else {
                if providers[i]@.guid == g {
                    assert(all[before.len() as int] == i as usize);
                } else if all.contains(i as usize) {
                    let k = choose|k: int| 0 <= k < all.len() && all[k] == i as usize;
                    assert(before[k] < rest.len());
                }
            }
        }
        assert forall|k: int| 0 <= k < all.len() implies #[trigger] all[k] < providers.len() by {
            if k < before.len() {
                assert(all[k] == before[k]);
            }
        }
        assert forall|k: int, l: int| 0 <= k < l < all.len() implies all[k] < all[l] by {
            assert(all[k] == before[k]);
            if l < before.len() {
                assert(all[l] == before[l]);
            }
        }
    }
}

/// An event of an identifier is handed to the callbacks of all providers that have
/// it, and to no others: to those of earlier registered providers first, and for
/// each provider in the order they were added.
pub proof fn callbacks_are_called_in_order(
    providers: Seq<Arc<Provider>>,
    more: Arc<Provider>,
    g: GUID,
)
    ensures
        callbacks_of(Seq::empty(), g) == Seq::<u64>::empty(),
        more@.guid == g ==> callbacks_of(providers.push(more), g) == callbacks_of(providers, g)
            + more@.callbacks@,
        more@.guid != g ==> callbacks_of(providers.push(more), g) == callbacks_of(providers, g),
{
    assert(providers.push(more).drop_last() =~= providers);
}

/// A callback receives the events of an identifier exactly if a provider with this
/// identifier has it.
pub proof fn callbacks_belong_to_the_identifier(
    providers: Seq<Arc<Provider>>,
    g: GUID,
    callback: u64,
)
    ensures
        callbacks_of(providers, g).contains(callback) <==> exists|i: int|
            0 <= i < providers.len() && (#[trigger] providers[i])@.guid == g
                && providers[i]@.callbacks@.contains(callback),
    decreases providers.len(),
{
    if providers.len() > 0 {
        let rest = providers.drop_last();
        let last = providers.last();
        callbacks_belong_to_the_identifier(rest, g, callback);
        let before = callbacks_of(rest, g);
        let all = callbacks_of(providers, g);
        if all.contains(callback) {
            let k = choose|k: int| 0 <= k < all.len() && all[k] == callback;
            if k < before.len() {
                assert(before[k] == callback);
                let i = choose|i: int|
                    0 <= i < rest.len() && (#[trigger] rest[i])@.guid == g
                        && rest[i]@.callbacks@.contains(callback);
                assert(providers[i] == rest[i]);
            } else {
                assert(last@.callbacks@[k - before.len()] == callback);
                assert(providers[providers.len() - 1] == last);
            }
        }
        if exists|i: int|
            0 <= i < providers.len() && (#[trigger] providers[i])@.guid == g
                && providers[i]@.callbacks@.contains(callback) {
            let i = choose|i: int|
                0 <= i < providers.len() && (#[trigger] providers[i])@.guid == g
                    && providers[i]@.callbacks@.contains(callback);
            if i < rest.len() {
                assert(rest[i] == providers[i]);
                let k = choose|k: int| 0 <= k < before.len() && before[k] == callback;
                assert(all[k] == callback);
            } else {
                let k = choose|k: int|
                    0 <= k < last@.callbacks@.len() && last@.callbacks@[k] == callback;
                assert(all[before.len() + k] == callback);
            }
        }
    }
}

/// Removing an identifier takes out the providers that have it and keeps all
/// others, in their order.
pub proof fn removal_takes_out_the_identifier(
    providers: Seq<Arc<Provider>>,
    more: Arc<Provider>,
    g: GUID,
)
    ensures
        forall|i: int|
            0 <= i < without_guid(providers, g).len() ==> (#[trigger] without_guid(
                providers,
                g,
            )[i])@.guid != g,
        more@.guid == g ==> without_guid(providers.push(more), g) == without_guid(providers, g),
        more@.guid != g ==> without_guid(providers.push(more), g) == without_guid(
            providers,
            g,
        ).push(more),
        (forall|i: int| 0 <= i < providers.len() ==> (#[trigger] providers[i])@.guid != g)
            ==> without_guid(providers, g) == providers,
    decreases providers.len(),
{
    assert(providers.push(more).drop_last() =~= providers);
    if providers.len() > 0 {
        let rest = providers.drop_last();
        removal_takes_out_the_identifier(rest, more, g);
        if forall|i: int| 0 <= i < providers.len() ==> (#[trigger] providers[i])@.guid != g {
            assert forall|i: int| 0 <= i < rest.len() implies (#[trigger] rest[i])@.guid != g by {
                assert(providers[i] == rest[i]);
            }
            assert(providers[providers.len() - 1]@.guid != g);
            assert(without_guid(providers, g) =~= providers);
        }
    } else {
        assert(without_guid(providers, g) =~= providers);
    }
}

/// The groups a kernel session enables: those of each of its providers, and no
/// others. A user session enables none.
pub proof fn kernel_sessions_enable_the_groups_of_their_providers(
    providers: Seq<Arc<Provider>>,
    allowed: u32,
)
    ensures
        enable_flags(TraceKind::User, providers) == 0,
        forall|i: int|
            0 <= i < providers.len() ==> (#[trigger] providers[i])@.kernel_flags & enable_flags(
                TraceKind::Kernel,
                providers,
            ) == providers[i]@.kernel_flags,
        (forall|i: int|
            0 <= i < providers.len() ==> (#[trigger] providers[i])@.kernel_flags & !allowed == 0)
            ==> enable_flags(TraceKind::Kernel, providers) & !allowed == 0,
    decreases providers.len(),
{
    assert(0u32 & !allowed == 0) by (bit_vector);
    if providers.len() > 0 {
        let rest = providers.drop_last();
        kernel_sessions_enable_the_groups_of_their_providers(rest, allowed);
        let before = kernel_groups(rest);
        let own = providers.last()@.kernel_flags;
        assert(own & (before | own) == own) by (bit_vector);
        assert forall|i: int| 0 <= i < providers.len() implies (
        #[trigger] providers[i])@.kernel_flags & (before | own) == providers[i]@.kernel_flags by {
            if i < rest.len() {
                assert(rest[i] == providers[i]);
                let f = rest[i]@.kernel_flags;
                assert(f & before == f ==> f & (before | own) == f) by (bit_vector);
            }
        }
        if forall|i: int|
            0 <= i < providers.len() ==> (#[trigger] providers[i])@.kernel_flags & !allowed == 0 {
            assert forall|i: int| 0 <= i < rest.len() implies (#[trigger] rest[i])@.kernel_flags
                & !allowed == 0 by {
                assert(rest[i] == providers[i]);
            }
            assert(providers[providers.len() - 1]@.kernel_flags & !allowed == 0);
            assert(before & !allowed == 0 && own & !allowed == 0 ==> (before | own) & !allowed == 0)
                by (bit_vector);
        }
    }
}

/// An event of an open trace counts once. A file trace hands every event to its
/// callback, once; a real-time trace to the callbacks of the provider of the event.
pub proof fn events_of_open_traces_are_handed_on(
    contexts: Set<u64>,
    context: u64,
    before: CallbackData,
    g: GUID,
    after: CallbackData,
    called: Seq<u64>,
)
    requires
        contexts.contains(context),
        dispatches(contexts, context, before, g, after, called),
    ensures
        before.counts().events_handled < usize::MAX ==> after.counts().events_handled
            == before.counts().events_handled + 1,
        after.counts().buffers_read == before.counts().buffers_read,
        after.counts().events_lost == before.counts().events_lost,
        match before {
            CallbackData::FromFile(data) => called.len() == 1 && called[0] == data.callback,
            CallbackData::RealTime(data) => forall|c: u64|
                #[trigger] called.contains(c) <==> exists|i: int|
                    0 <= i < data.registered().len() && (#[trigger] data.registered()[i])@.guid == g
                        && data.registered()[i]@.callbacks@.contains(c),
        },
{
    if let CallbackData::RealTime(data) = before {
        assert forall|c: u64| #[trigger] called.contains(c) <==> exists|i: int|
            0 <= i < data.registered().len() && (#[trigger] data.registered()[i])@.guid == g
                && data.registered()[i]@.callbacks@.contains(c) by {
            callbacks_belong_to_the_identifier(data.registered(), g, c);
        }
    }
}

} // verus!
