//! A way to cache and retrieve schemas.
use std::sync::Arc;

use vstd::prelude::*;

use crate::guid;
use crate::guid::GUID;
use crate::native::etw_types::event_record::EventRecord;
use crate::native::tdh::{TdhNativeError, TdhNativeResult, TraceEventInfo};
use crate::schema::Schema;

verus! {

/// Schema module errors
#[derive(Debug, Clone, Copy, PartialEq, Eq, Structural)]
pub enum SchemaError {
    /// The schema could not be obtained from TDH
    TdhNativeError(TdhNativeError),
}

pub type SchemaResult<T> = Result<T, SchemaError>;

/// The part of an event descriptor that identifies a schema.
///
/// Opcode and level are needed for classic events: they carry no id, and their
/// schema is selected from the event class, version and type.
#[derive(Debug, Clone, Copy, PartialEq, Eq, Structural)]
pub struct SchemaKey {
    pub provider: GUID,
    pub id: u16,
    pub version: u8,
    pub opcode: u8,
    pub level: u8,
}

impl SchemaKey {
    /// The key of `event`.
    pub open spec fn of(event: EventRecord) -> SchemaKey {
        SchemaKey {
            provider: event.header.provider_id,
            id: event.header.descriptor.id,
            version: event.header.descriptor.version,
            opcode: event.header.descriptor.opcode,
            level: event.header.descriptor.level,
        }
    }

    /// The key as integers.
    pub open spec fn parts(self) -> (u128, u16, u8, u8, u8) {
        (self.provider.value() as u128, self.id, self.version, self.opcode, self.level)
    }

    /// The key of `event`.
    pub fn new(event: &EventRecord) -> (r: SchemaKey)
        ensures
            r == SchemaKey::of(*event),
    {
        SchemaKey {
            provider: event.provider_id(),
            id: event.event_id(),
            version: event.version(),
            opcode: event.opcode(),
            level: event.level(),
        }
    }

    /// The key as integers.
    fn to_parts(&self) -> (r: (u128, u16, u8, u8, u8))
        ensures
            r == self.parts(),
    {
        (self.provider.to_u128(), self.id, self.version, self.opcode, self.level)
    }
}

/// Keys with the same integers are the same.
pub proof fn key_parts_are_distinct(a: SchemaKey, b: SchemaKey)
    ensures
        a.parts() == b.parts() ==> a == b,
{
    guid::guid_values_are_distinct(a.provider, b.provider);
}

/// The hasher of the schema cache.
#[verifier::external_type_specification]
#[verifier::external_body]
pub struct ExFxBuildHasher(rustc_hash::FxBuildHasher);

/// A key and an event name.
pub type CacheKey = ((u128, u16, u8, u8, u8), Seq<char>);

/// Cached schema numbers, by key, then by event name.
pub type SchemaMap = rustc_hash::FxHashMap<
    (u128, u16, u8, u8, u8),
    rustc_hash::FxHashMap<String, usize>,
>;

/// What a schema map holds.
pub uninterp spec fn map_contents(m: SchemaMap) -> Map<CacheKey, usize>;

/// `FxHashMap::default`: an empty map.
#[verifier::external_body]
fn map_new() -> (r: SchemaMap)
    ensures
        (map_contents(r) == Map::<CacheKey, usize>::empty()),
{
    rustc_hash::FxHashMap::default()
}

/// `FxHashMap::get` on both levels: the value stored under the key and the
/// name, if there is one.
#[verifier::external_body]
fn map_get(m: &SchemaMap, key: (u128, u16, u8, u8, u8), name: &str) -> (r: Option<usize>)
    ensures
        r == (if map_contents(*m).contains_key((key, name@)) {
            Some(map_contents(*m)[(key, name@)])
        } else {
            None
        }),
{
    m.get(&key).and_then(|by_name| by_name.get(name).copied())
}

/// `FxHashMap::entry` on the key, then `FxHashMap::insert` on the name: the
/// value is stored under both, everything else is kept.
#[verifier::external_body]
fn map_insert(m: &mut SchemaMap, key: (u128, u16, u8, u8, u8), name: String, value: usize)
    ensures
        map_contents(*final(m)) == map_contents(*old(m)).insert((key, name@), value),
{
    m.entry(key).or_default().insert(name, value);
}

/// Upper bound on the number of cached schemas.
///
/// Once the cache is full, new schemas are still built and handed out, they are
/// just not cached anymore.
pub const MAX_CACHED_SCHEMAS: usize = 4096;

/// The cached schemas: numbered, with the number of each key and name.
struct SchemaCache {
    schemas: SchemaMap,
    slots: Vec<Arc<Schema>>,
}

impl SchemaCache {
    spec fn contents(self) -> Map<CacheKey, Arc<Schema>> {
        Map::new(
            |k: CacheKey| map_contents(self.schemas).contains_key(k),
            |k: CacheKey| self.slots@[map_contents(self.schemas)[k] as int],
        )
    }

    /// Every number is a slot, and every slot has its key.
    spec fn wf(self) -> bool {
        let m = map_contents(self.schemas);
        &&& forall|k: CacheKey| #[trigger] m.contains_key(k) ==> m[k] < self.slots@.len()
        &&& m.dom().finite()
        &&& m.dom().len() == self.slots@.len()
        &&& self.slots@.len() <= MAX_CACHED_SCHEMAS
    }

    fn new() -> (r: SchemaCache)
        ensures
            r.wf(),
            r.contents() == Map::<CacheKey, Arc<Schema>>::empty(),
            r.slots@.len() == 0,
    {
        let r = SchemaCache { schemas: map_new(), slots: Vec::new() };
        assert(r.contents() =~= Map::<CacheKey, Arc<Schema>>::empty());
        r
    }

    /// Adds a schema under a key that has none.
    fn add_schema(&mut self, key: SchemaKey, name: String, built: Arc<Schema>)
        requires
            old(self).wf(),
            old(self).slots@.len() < MAX_CACHED_SCHEMAS,
            !old(self).contents().contains_key((key.parts(), name@)),
        ensures
            final(self).wf(),
            final(self).contents() == old(self).contents().insert((key.parts(), name@), built),
            final(self).slots@.len() == old(self).slots@.len() + 1,
    {
        let ghost k = (key.parts(), name@);
        let slot: usize = self.slots.len();
        self.slots.push(built);
        map_insert(&mut self.schemas, key.to_parts(), name, slot);
        proof {
            let m = map_contents(old(self).schemas);
            assert(!m.contains_key(k));
            assert(map_contents(self.schemas).dom() =~= m.dom().insert(k));
            assert(self.contents() =~= old(self).contents().insert(k, built));
        }
    }
}

/// A bounded cache of schemas, by event descriptor and event name.
///
/// Manifest events carry no name: their schema is stored under the empty one.
/// Manifest-free events share a descriptor and are told apart by name.
pub struct SchemaLocator {
    schemas: SchemaCache,
}

/// The schema handed out when `built` is stored under `k`: the one that is there
/// already, if any.
pub open spec fn handed_out(cache: Map<CacheKey, Arc<Schema>>, k: CacheKey, built: Arc<Schema>) -> Arc<
    Schema,
> {
    if cache.contains_key(k) {
        cache[k]
    } else {
        built
    }
}

/// The cache of `count` schemas after `built` was stored under `k`.
pub open spec fn cache_after(
    cache: Map<CacheKey, Arc<Schema>>,
    count: nat,
    k: CacheKey,
    built: Arc<Schema>,
) -> Map<CacheKey, Arc<Schema>> {
    if cache.contains_key(k) || count >= MAX_CACHED_SCHEMAS {
        cache
    } else {
        cache.insert(k, built)
    }
}

/// A schema that was cached stays cached under its key, whatever is stored
/// afterwards.
pub proof fn cached_schemas_stay(
    cache: Map<CacheKey, Arc<Schema>>,
    count: nat,
    k: CacheKey,
    built: Arc<Schema>,
    other: CacheKey,
)
    requires
        cache.contains_key(other),
    ensures
        cache_after(cache, count, k, built).contains_key(other),
        cache_after(cache, count, k, built)[other] == cache[other],
{
}

/// Of two schemas stored under the same key, the first is handed out both times,
/// unless the cache was full and could keep neither.
pub proof fn first_stored_schema_wins(
    cache: Map<CacheKey, Arc<Schema>>,
    count: nat,
    k: CacheKey,
    first: Arc<Schema>,
    second: Arc<Schema>,
)
    requires
        cache.contains_key(k) || count < MAX_CACHED_SCHEMAS,
    ensures
        handed_out(cache_after(cache, count, k, first), k, second) == handed_out(cache, k, first),
{
}

/// What to do about the schema of an event.
pub enum SchemaLookup {
    /// The schema is cached
    Cached(Arc<Schema>),
    /// TDH must be asked for it; it is then stored under this key and name
    NeedsTdh {
        key: SchemaKey,
        name: String,
    },
}

impl SchemaLocator {
    /// The cached schemas.
    pub closed spec fn cache(self) -> Map<CacheKey, Arc<Schema>> {
        self.schemas.contents()
    }

    /// Number of cached schemas.
    pub closed spec fn count(self) -> nat {
        self.schemas.slots@.len()
    }

    #[verifier::type_invariant]
    spec fn is_bounded(self) -> bool {
        self.schemas.wf()
    }

    /// An empty cache.
    pub fn new() -> (r: SchemaLocator)
        ensures
            r.cache() == Map::<CacheKey, Arc<Schema>>::empty(),
            r.count() == 0,
    {
        SchemaLocator { schemas: SchemaCache::new() }
    }

    /// Number of cached schemas.
    pub fn len(&self) -> (r: usize)
        ensures
            r == self.count(),
            self.cache().dom().finite(),
            self.cache().dom().len() == r,
            r <= MAX_CACHED_SCHEMAS,
    {
        proof {
            use_type_invariant(self);
            assert(self.cache().dom() =~= map_contents(self.schemas.schemas).dom());
        }
        self.schemas.slots.len()
    }

    /// The schema cached under `key` and `name`.
    fn cached(&self, key: SchemaKey, name: &str) -> (r: Option<Arc<Schema>>)
        ensures
            r == (if self.cache().contains_key((key.parts(), name@)) {
                Some(self.cache()[(key.parts(), name@)])
            } else {
                None
            }),
    {
        proof {
            use_type_invariant(self);
        }
        match map_get(&self.schemas.schemas, key.to_parts(), name) {
            Some(i) => Some(Arc::clone(&self.schemas.slots[i])),
            None => None,
        }
    }

    /// Looks up the schema of an event.
    pub fn event_schema(&self, event: &EventRecord) -> (r: SchemaLookup)
        ensures
            ({
                let k = (SchemaKey::of(*event).parts(), event.spec_event_name());
                match r {
                    SchemaLookup::Cached(s) => self.cache().contains_key(k) && s == self.cache()[k],
                    SchemaLookup::NeedsTdh { key, name } => {
                        &&& !self.cache().contains_key(k)
                        &&& key == SchemaKey::of(*event)
                        &&& name@ == event.spec_event_name()
                    },
                }
            }),
    {
        let key = SchemaKey::new(event);
        let name = event.event_name();
        match self.cached(key, name.as_str()) {
            Some(s) => SchemaLookup::Cached(s),
            None => SchemaLookup::NeedsTdh { key, name },
        }
    }

    /// Caches `built` under (`key`, `name`) and returns the schema to use from
    /// now on.
    ///
    /// A schema stored under the same key and name in the meantime wins and is
    /// returned instead: both describe the same kind of event.
    pub fn store(&mut self, key: SchemaKey, name: String, built: Arc<Schema>) -> (r: Arc<Schema>)
        ensures
            r == handed_out(old(self).cache(), (key.parts(), name@), built),
            final(self).cache() == cache_after(
                old(self).cache(),
                old(self).count(),
                (key.parts(), name@),
                built,
            ),
            final(self).count() == old(self).count() + (if final(self).cache()
                == old(self).cache() {
                0int
            } else {
                1
            }),
    {
        proof {
            use_type_invariant(&*self);
        }
        match self.cached(key, name.as_str()) {
            Some(existing) => {
                return existing;
            },
            None => {},
        }
        if self.schemas.slots.len() < MAX_CACHED_SCHEMAS {
            let mut schemas = SchemaCache::new();
            std::mem::swap(&mut self.schemas, &mut schemas);
            schemas.add_schema(key, name, Arc::clone(&built));
            self.schemas = schemas;
        }
        built
    }

    /// Finishes a lookup that had to ask TDH, with its answer.
    pub fn complete(
        &mut self,
        key: SchemaKey,
        name: String,
        answer: TdhNativeResult<TraceEventInfo>,
    ) -> (r: SchemaResult<Arc<Schema>>)
        ensures
            ({
                let k = (key.parts(), name@);
                match answer {
                    Err(e) => {
                        &&& r == Err::<Arc<Schema>, SchemaError>(SchemaError::TdhNativeError(e))
                        &&& final(self).cache() == old(self).cache()
                        &&& final(self).count() == old(self).count()
                    },
                    Ok(info) => match r {
                        Ok(s) => {
                            &&& !old(self).cache().contains_key(k) ==> s.bytes() == info.bytes()
                            &&& s == handed_out(old(self).cache(), k, s)
                            &&& final(self).cache() == cache_after(
                                old(self).cache(),
                                old(self).count(),
                                k,
                                s,
                            )
                            &&& final(self).count() == old(self).count() + (if final(self).cache()
                                == old(self).cache() {
                                0int
                            } else {
                                1
                            })
                        },
                        Err(_) => false,
                    },
                }
            }),
    {
        match answer {
            Ok(info) => Ok(self.store(key, name, Arc::new(Schema::new(info)))),
            Err(e) => Err(SchemaError::TdhNativeError(e)),
        }
    }
}

/// Two events share a schema exactly if they agree in provider, id, version, opcode
/// and level.
pub proof fn events_share_schemas(a: EventRecord, b: EventRecord)
    ensures
        SchemaKey::of(a).parts() == SchemaKey::of(b).parts() <==> {
            &&& a.header.provider_id == b.header.provider_id
            &&& a.header.descriptor.id == b.header.descriptor.id
            &&& a.header.descriptor.version == b.header.descriptor.version
            &&& a.header.descriptor.opcode == b.header.descriptor.opcode
            &&& a.header.descriptor.level == b.header.descriptor.level
        },
        SchemaKey::of(a).provider == a.header.provider_id,
        SchemaKey::of(a).id == a.header.descriptor.id,
        SchemaKey::of(a).version == a.header.descriptor.version,
        SchemaKey::of(a).opcode == a.header.descriptor.opcode,
        SchemaKey::of(a).level == a.header.descriptor.level,
{
    key_parts_are_distinct(SchemaKey::of(a), SchemaKey::of(b));
}

/// A schema is stored unless there is one already, or 4096 are stored; what is
/// stored is handed out, and otherwise what was built.
pub proof fn schemas_are_stored_and_handed_out(
    cache: Map<CacheKey, Arc<Schema>>,
    count: nat,
    k: CacheKey,
    built: Arc<Schema>,
    other: CacheKey,
)
    ensures
        cache.contains_key(k) ==> handed_out(cache, k, built) == cache[k],
        !cache.contains_key(k) ==> handed_out(cache, k, built) == built,
        cache_after(cache, count, k, built).contains_key(k) <==> cache.contains_key(k) || count
            < 4096,
        !cache.contains_key(k) && count < 4096 ==> cache_after(cache, count, k, built)[k] == built,
        other != k ==> (cache_after(cache, count, k, built).contains_key(other)
            <==> cache.contains_key(other)),
{
}

} // verus!
