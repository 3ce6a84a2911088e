use vstd::prelude::*;
use prost_reflect::{DescriptorPool, MethodDescriptor, ServiceDescriptor};
use std::sync::Arc;
use prost_types::FileDescriptorProto;
use crate::proto::{
    add_file, decode_file_descriptor, method_name, new_pool, pool_services, service_full_name,
    service_methods, share, clone_method, clone_service, decoded_proto, full_name_of,
    method_name_of, methods_of, pool_accepts, pool_of_files, services_of,
};
use crate::table::KeyedTable;

verus! {

/// The lookup key of a method: `"{service}.{method}"`.
pub open spec fn spec_method_key(service: Seq<char>, method: Seq<char>) -> Seq<char> {
    service + "."@ + method
}

pub fn method_key(service: &str, method: &str) -> (r: String)
    ensures
        r@ == spec_method_key(service@, method@),
{
    let mut s = service.to_owned();
    s.append(".");
    s.append(method);
    s
}

/// Why a set of file descriptors could not become a descriptor cache.
#[derive(Debug)]
pub enum DescriptorLoadError {
    /// A blob is not a serialized file descriptor.
    Decode(String),
    /// A file does not fit with the files added before it.
    Integrity(String),
}

/// Every blob encodes a file descriptor.
pub open spec fn all_decode(files: Seq<Vec<u8>>) -> bool {
    forall|i: int| 0 <= i < files.len() ==> (#[trigger] decoded_proto(files[i]@)) is Some
}

/// The file descriptors that the blobs encode, in order.
pub open spec fn decoded_files(files: Seq<Vec<u8>>) -> Seq<FileDescriptorProto> {
    files.map_values(|b: Vec<u8>| decoded_proto(b@)->Some_0)
}

/// Offered in order to an empty pool, every file is accepted.
pub open spec fn files_fit(fs: Seq<FileDescriptorProto>) -> bool {
    forall|i: int| 0 <= i < fs.len() ==> #[trigger] pool_accepts(pool_of_files(fs.take(i)), fs[i])
}

/// The service table derived from services, by full name; a later service
/// of the same name replaces an earlier one.
pub open spec fn service_index(ss: Seq<ServiceDescriptor>) -> Map<Seq<char>, ServiceDescriptor>
    decreases ss.len(),
{
    if ss.len() == 0 {
        Map::empty()
    } else {
        service_index(ss.drop_last()).insert(full_name_of(ss.last()), ss.last())
    }
}

/// `table` with each of `ms` added under `"{service}.{method name}"`.
pub open spec fn add_methods(
    table: Map<Seq<char>, MethodDescriptor>,
    service: Seq<char>,
    ms: Seq<MethodDescriptor>,
) -> Map<Seq<char>, MethodDescriptor>
    decreases ms.len(),
{
    if ms.len() == 0 {
        table
    } else {
        add_methods(table, service, ms.drop_last()).insert(
            spec_method_key(service, method_name_of(ms.last())),
            ms.last(),
        )
    }
}

/// The method table derived from services: every method of every service,
/// under `"{full service name}.{method name}"`.
pub open spec fn method_index(ss: Seq<ServiceDescriptor>) -> Map<Seq<char>, MethodDescriptor>
    decreases ss.len(),
{
    if ss.len() == 0 {
        Map::empty()
    } else {
        add_methods(method_index(ss.drop_last()), full_name_of(ss.last()), methods_of(ss.last()))
    }
}

/// An immutable snapshot of the schemas of one upstream: the descriptor pool
/// and flat lookup tables of its services and methods, derived from it.
/// `last_updated_at` is in milliseconds on a monotonic clock.
#[derive(Debug)]
pub struct CachedDescriptors {
    pool: DescriptorPool,
    services: KeyedTable<ServiceDescriptor>,
    methods: KeyedTable<MethodDescriptor>,
    last_updated_at: u64,
}

impl CachedDescriptors {
    /// The fully qualified names of the services, in pool order.
    pub closed spec fn service_names(&self) -> Seq<Seq<char>> {
        self.services.keys()
    }

    pub closed spec fn service_map(&self) -> Map<Seq<char>, ServiceDescriptor> {
        self.services.map()
    }

    pub closed spec fn method_map(&self) -> Map<Seq<char>, MethodDescriptor> {
        self.methods.map()
    }

    pub closed spec fn spec_last_updated_at(&self) -> u64 {
        self.last_updated_at
    }

    /// The descriptor pool the tables were derived from.
    pub closed spec fn spec_pool(&self) -> DescriptorPool {
        self.pool
    }

    /// The tables hold exactly the services and methods of the pool.
    pub open spec fn derived_from_pool(&self) -> bool {
        &&& self.service_map() == service_index(services_of(self.spec_pool()))
        &&& self.method_map() == method_index(services_of(self.spec_pool()))
    }

    /// Both tables are well formed, and every method key is a service name
    /// of the cache, a dot and a method name.
    pub closed spec fn wf(&self) -> bool {
        &&& self.services.wf()
        &&& self.methods.wf()
        &&& forall|k: Seq<char>| #[trigger]
            self.methods.map().contains_key(k) ==> exists|s: Seq<char>, m: Seq<char>|
                self.services.map().contains_key(s) && k == #[trigger] spec_method_key(s, m)
    }

    /// An empty cache, loaded at time `now`.
    pub fn new(now: u64) -> (r: Self)
        ensures
            r.wf(),
            r.service_names() == Seq::<Seq<char>>::empty(),
            r.method_map() == Map::<Seq<char>, MethodDescriptor>::empty(),
            r.spec_last_updated_at() == now,
            r.spec_pool() == pool_of_files(Seq::empty()),
            r.derived_from_pool(),
    {
        let r = CachedDescriptors {
            pool: new_pool(),
            services: KeyedTable::new(),
            methods: KeyedTable::new(),
            last_updated_at: now,
        };
        assert(services_of(r.pool) =~= Seq::<ServiceDescriptor>::empty());
        r
    }

    /// Builds a cache from serialized file descriptors, at time `now`: all
    /// blobs are decoded, then added to a fresh pool in the order given, and
    /// the service and method tables are derived from every service of the
    /// pool. The first blob that does not decode, or file that the pool
    /// refuses, ends the build with an error and nothing is built.
    pub fn load_discriptor(files: &Vec<Vec<u8>>, now: u64) -> (r: Result<
        CachedDescriptors,
        DescriptorLoadError,
    >)
        ensures
            r is Ok <==> all_decode(files@) && files_fit(decoded_files(files@)),
            (r matches Err(DescriptorLoadError::Decode(_))) <==> !all_decode(files@),
            r matches Ok(c) ==> {
                &&& c.wf()
                &&& c.spec_last_updated_at() == now
                &&& c.spec_pool() == pool_of_files(decoded_files(files@))
                &&& c.derived_from_pool()
            },
    {
        let mut protos: Vec<FileDescriptorProto> = Vec::new();
        let mut i: usize = 0;
        while i < files.len()
            invariant
                i <= files@.len(),
                protos@.len() == i,
                forall|j: int| 0 <= j < i ==> decoded_proto(#[trigger] files@[j]@) == Some(protos@[j]),
            decreases files@.len() - i,
        {
            match decode_file_descriptor(files[i].as_slice()) {
                Ok(p) => protos.push(p),
                Err(e) => {
                    assert(decoded_proto(files@[i as int]@) is None);
                    return Err(DescriptorLoadError::Decode(e.to_string()));
                },
            }
            i = i + 1;
        }
        let ghost all = protos@;
        assert(all =~= decoded_files(files@));
        assert(all_decode(files@)) by {
            assert forall|j: int| 0 <= j < files@.len() implies (#[trigger] decoded_proto(
                files@[j]@,
            )) is Some by {
                assert(decoded_proto(files@[j]@) == Some(protos@[j]));
            }
        }
        let mut pool = new_pool();
        let ghost mut k: int = 0;
        assert(all.take(0) =~= Seq::<FileDescriptorProto>::empty());
        while protos.len() > 0
            invariant
                0 <= k <= all.len(),
                all == decoded_files(files@),
                all_decode(files@),
                protos@ == all.subrange(k, all.len() as int),
                pool == pool_of_files(all.take(k)),
                forall|j: int| 0 <= j < k ==> #[trigger] pool_accepts(pool_of_files(all.take(j)), all[j]),
            decreases protos@.len(),
        {
            let p = protos.remove(0);
            assert(p == all[k]);
            match add_file(&mut pool, p) {
                Ok(()) => {},
                Err(e) => {
                    assert(!files_fit(all)) by {
                        assert(!pool_accepts(pool_of_files(all.take(k)), all[k]));
                    }
                    return Err(DescriptorLoadError::Integrity(e.to_string()));
                },
            }
            assert(all.take(k).push(all[k]) =~= all.take(k + 1));
            proof {
                k = k + 1;
            }
            assert(protos@ =~= all.subrange(k, all.len() as int));
        }
        assert(k == all.len());
        assert(all.take(k) =~= all);
        let c = Self::index_pool(pool, now);
        Ok(c)
    }

    /// Derives the service and method tables from every service of `pool`.
    fn index_pool(pool: DescriptorPool, now: u64) -> (r: Self)
        ensures
            r.wf(),
            r.spec_last_updated_at() == now,
            r.spec_pool() == pool,
            r.derived_from_pool(),
    {
        let all = pool_services(&pool);
        let mut services: KeyedTable<ServiceDescriptor> = KeyedTable::new();
        let mut methods: KeyedTable<MethodDescriptor> = KeyedTable::new();
        let mut i: usize = 0;
        assert(all@.take(0) =~= Seq::<ServiceDescriptor>::empty());
        while i < all.len()
            invariant
                i <= all@.len(),
                all@ == services_of(pool),
                services.wf(),
                methods.wf(),
                services.map() == service_index(all@.take(i as int)),
                methods.map() == method_index(all@.take(i as int)),
                forall|k: Seq<char>| #[trigger]
                    methods.map().contains_key(k) ==> exists|s: Seq<char>, m: Seq<char>|
                        services.map().contains_key(s) && k == #[trigger] spec_method_key(s, m),
            decreases all@.len() - i,
        {
            let service = &all[i];
            let name = service_full_name(service);
            let ghost before = services.map();
            let ghost done = all@.take(i as int);
            let ghost next = all@.take(i + 1);
            assert(next.drop_last() =~= done);
            assert(next.last() == all@[i as int]);
            services.insert(name.clone(), clone_service(service));
            assert forall|k: Seq<char>| #[trigger] methods.map().contains_key(k) implies exists|
                s: Seq<char>,
                m: Seq<char>,
            | services.map().contains_key(s) && k == #[trigger] spec_method_key(s, m) by {
                let (s, m) = choose|s: Seq<char>, m: Seq<char>|
                    before.contains_key(s) && k == #[trigger] spec_method_key(s, m);
                assert(services.map().contains_key(s));
            }
            let ms = service_methods(service);
            let mut j: usize = 0;
            assert(ms@.take(0) =~= Seq::<MethodDescriptor>::empty());
            while j < ms.len()
                invariant
                    j <= ms@.len(),
                    ms@ == methods_of(all@[i as int]),
                    name@ == full_name_of(all@[i as int]),
                    services.wf(),
                    methods.wf(),
                    services.map().contains_key(name@),
                    methods.map() == add_methods(method_index(done), name@, ms@.take(j as int)),
                    forall|k: Seq<char>| #[trigger]
                        methods.map().contains_key(k) ==> exists|s: Seq<char>, m: Seq<char>|
                            services.map().contains_key(s) && k == #[trigger] spec_method_key(s, m),
                decreases ms@.len() - j,
            {
                let mname = method_name(&ms[j]);
                let key = method_key(name.as_str(), mname.as_str());
                let ghost before_m = methods.map();
                assert(ms@.take(j + 1).drop_last() =~= ms@.take(j as int));
                assert(ms@.take(j + 1).last() == ms@[j as int]);
                methods.insert(key, clone_method(&ms[j]));
                assert forall|k: Seq<char>| #[trigger] methods.map().contains_key(k) implies exists|
                    s: Seq<char>,
                    m: Seq<char>,
                | services.map().contains_key(s) && k == #[trigger] spec_method_key(s, m) by {
                    if k == spec_method_key(name@, mname@) {
                        assert(services.map().contains_key(name@));
                    } else {
                        assert(before_m.contains_key(k));
                    }
                }
                j = j + 1;
            }
            assert(ms@.take(ms@.len() as int) =~= ms@);
            i = i + 1;
        }
        assert(all@.take(all@.len() as int) =~= all@);
        CachedDescriptors { pool, services, methods, last_updated_at: now }
    }

    /// The descriptor of `method` of `service`, looked up by the exact,
    /// case-sensitive key `"{service}.{method}"`.
    pub fn get_method(&self, service: &str, method: &str) -> (r: Option<&MethodDescriptor>)
        requires
            self.wf(),
        ensures
            r is None <==> !self.method_map().contains_key(spec_method_key(service@, method@)),
            r matches Some(d) ==> *d == self.method_map()[spec_method_key(service@, method@)],
    {
        let key = method_key(service, method);
        self.methods.get(key.as_str())
    }

    /// The descriptor of the service with the fully qualified name `service`.
    pub fn get_service(&self, service: &str) -> (r: Option<&ServiceDescriptor>)
        requires
            self.wf(),
        ensures
            r is None <==> !self.service_map().contains_key(service@),
            r matches Some(d) ==> *d == self.service_map()[service@],
    {
        self.services.get(service)
    }

    /// The fully qualified names of all services.
    pub fn get_all_service(&self) -> (r: Vec<String>)
        requires
            self.wf(),
        ensures
            r@.len() == self.service_names().len(),
            forall|i: int| 0 <= i < r@.len() ==> #[trigger] r@[i]@ == self.service_names()[i],
            forall|k: Seq<char>|
                self.service_map().contains_key(k) <==> exists|i: int|
                    0 <= i < r@.len() && #[trigger] r@[i]@ == k,
            forall|i: int, j: int| 0 <= i < j < r@.len() ==> #[trigger] r@[i]@ != #[trigger] r@[j]@,
    {
        let mut out: Vec<String> = Vec::new();
        let mut i: usize = 0;
        while i < self.services.len()
            invariant
                i <= self.service_names().len(),
                out@.len() == i,
                forall|j: int| 0 <= j < i ==> #[trigger] out@[j]@ == self.service_names()[j],
            decreases self.service_names().len() - i,
        {
            out.push(self.services.key_at(i).clone());
            i = i + 1;
        }
        proof {
            self.services.lemma_keys_distinct();
            assert forall|k: Seq<char>|
                self.service_map().contains_key(k) <==> exists|i: int|
                    0 <= i < out@.len() && #[trigger] out@[i]@ == k by {
                if self.service_map().contains_key(k) {
                    let i = choose|i: int| 0 <= i < self.services.keys().len() && self.services.keys()[i] == k;
                    assert(out@[i]@ == k);
                }
                if exists|i: int| 0 <= i < out@.len() && #[trigger] out@[i]@ == k {
                    let i = choose|i: int| 0 <= i < out@.len() && #[trigger] out@[i]@ == k;
                    assert(self.services.keys()[i] == k);
                }
            }
        }
        out
    }

    /// The cache is older than `max_age` milliseconds at time `now`.
    pub open spec fn spec_is_stale(&self, max_age: u64, now: u64) -> bool {
        now - self.spec_last_updated_at() > max_age
    }

    pub fn is_stale(&self, max_age: u64, now: u64) -> (r: bool)
        ensures
            r == self.spec_is_stale(max_age, now),
    {
        now > self.last_updated_at && now - self.last_updated_at > max_age
    }

    pub fn last_updated_at(&self) -> (r: u64)
        ensures
            r == self.spec_last_updated_at(),
    {
        self.last_updated_at
    }

    /// The pool the tables were derived from.
    pub fn pool(&self) -> (r: &DescriptorPool)
        ensures
            *r == self.spec_pool(),
    {
        &self.pool
    }
}

/// Owns the published descriptor cache of one upstream and decides when it
/// is refreshed. Times are milliseconds on a monotonic clock.
#[derive(Debug)]
pub struct ReflectionDiscriptorManager {
    cache: Arc<CachedDescriptors>,
    refresh_interval: u64,
    last_refresh: u64,
}

/// The default refresh interval: five minutes, in milliseconds.
pub const DEFAULT_REFRESH_INTERVAL_MS: u64 = 300_000;

impl ReflectionDiscriptorManager {
    pub closed spec fn spec_cache(&self) -> Arc<CachedDescriptors> {
        self.cache
    }

    pub closed spec fn spec_refresh_interval(&self) -> u64 {
        self.refresh_interval
    }

    pub closed spec fn spec_last_refresh(&self) -> u64 {
        self.last_refresh
    }

    /// The published cache is well formed and its tables are those of its pool.
    pub open spec fn wf(&self) -> bool {
        self.spec_cache().wf() && self.spec_cache().derived_from_pool()
    }

    /// A manager that publishes `cache`, loaded at time `now`.
    pub fn new(cache: CachedDescriptors, refresh_interval: u64, now: u64) -> (r: Self)
        requires
            cache.wf(),
            cache.derived_from_pool(),
        ensures
            r.wf(),
            *r.spec_cache() == cache,
            r.spec_refresh_interval() == refresh_interval,
            r.spec_last_refresh() == now,
    {
        ReflectionDiscriptorManager { cache: Arc::new(cache), refresh_interval, last_refresh: now }
    }

    /// The published cache; a reader keeps using this snapshot even if a
    /// refresh publishes another meanwhile.
    pub fn current(&self) -> (r: Arc<CachedDescriptors>)
        ensures
            r == self.spec_cache(),
    {
        share(&self.cache)
    }

    /// A refresh is due at time `now`.
    pub open spec fn spec_refresh_due(&self, now: u64) -> bool {
        now - self.spec_last_refresh() >= self.spec_refresh_interval()
    }

    pub fn refresh_due(&self, now: u64) -> (r: bool)
        ensures
            r == self.spec_refresh_due(now),
    {
        now >= self.last_refresh && now - self.last_refresh >= self.refresh_interval
    }

    /// Publishes the result of a refresh finished at time `now`. A new
    /// cache replaces the published one and the refresh time is set; on a
    /// failed refresh the published cache and refresh time stay exactly as
    /// they were and the error is returned.
    pub fn complete_refresh(&mut self, result: Result<CachedDescriptors, DescriptorLoadError>, now: u64) -> (r:
        Result<(), DescriptorLoadError>)
        requires
            old(self).wf(),
            result matches Ok(c) ==> c.wf() && c.derived_from_pool(),
        ensures
            final(self).wf(),
            final(self).spec_refresh_interval() == old(self).spec_refresh_interval(),
            match result {
                Ok(c) => {
                    &&& r is Ok
                    &&& *final(self).spec_cache() == c
                    &&& final(self).spec_last_refresh() == now
                },
                Err(_) => {
                    &&& r is Err
                    &&& final(self).spec_cache() == old(self).spec_cache()
                    &&& final(self).spec_last_refresh() == old(self).spec_last_refresh()
                },
            },
    {
        match result {
            Ok(c) => {
                self.cache = Arc::new(c);
                self.last_refresh = now;
                Ok(())
            },
            Err(e) => Err(e),
        }
    }

    /// The descriptor of `method` of `service` in the published cache.
    pub fn get_method(&self, service: &str, method: &str) -> (r: Option<&MethodDescriptor>)
        requires
            self.wf(),
        ensures
            r is None <==> !self.spec_cache().method_map().contains_key(
                spec_method_key(service@, method@),
            ),
            r matches Some(d) ==> *d == self.spec_cache().method_map()[spec_method_key(
                service@,
                method@,
            )],
    {
        self.cache.get_method(service, method)
    }

    /// The descriptor of the service named `service` in the published cache.
    pub fn get_service(&self, service: &str) -> (r: Option<&ServiceDescriptor>)
        requires
            self.wf(),
        ensures
            r is None <==> !self.spec_cache().service_map().contains_key(service@),
            r matches Some(d) ==> *d == self.spec_cache().service_map()[service@],
    {
        self.cache.get_service(service)
    }

    /// The names of the services in the published cache.
    pub fn list_services(&self) -> (r: Vec<String>)
        requires
            self.wf(),
        ensures
            r@.len() == self.spec_cache().service_names().len(),
            forall|i: int| 0 <= i < r@.len() ==> #[trigger] r@[i]@ == self.spec_cache().service_names()[i],
            forall|k: Seq<char>|
                self.spec_cache().service_map().contains_key(k) <==> exists|i: int|
                    0 <= i < r@.len() && #[trigger] r@[i]@ == k,
            forall|i: int, j: int| 0 <= i < j < r@.len() ==> #[trigger] r@[i]@ != #[trigger] r@[j]@,
    {
        self.cache.get_all_service()
    }
}

} // verus!
