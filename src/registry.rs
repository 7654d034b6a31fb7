//! A registry that holds at most one resource per type identity.
//!
//! A type identity is a `TypeKey` (a number that a caller assigns to each kind
//! of resource), and the resource itself is a `ResourceHandle` that stands for
//! the shared object (a connection pool, a client) owned by the task that
//! inserted it. The entries live in a `dashmap::DashMap`.
use vstd::prelude::*;

verus! {

/// The identity of a kind of resource.
pub type TypeKey = u64;

/// A shareable handle on a resource; copying it is taking a shared clone.
pub type ResourceHandle = u64;

#[verifier::external_type_specification]
#[verifier::external_body]
#[verifier::reject_recursive_types(K)]
#[verifier::reject_recursive_types(V)]
#[verifier::reject_recursive_types(S)]
pub struct ExDashMap<K, V, S>(dashmap::DashMap<K, V, S>);

/// The map from type identities to handles.
pub type HandleMap = dashmap::DashMap<u64, u64>;

/// The entries that a `DashMap` from keys to handles holds.
pub uninterp spec fn dash_entries(m: HandleMap) -> Map<u64, u64>;

/// Relies on `dashmap::DashMap::with_capacity`: a new map holds no entry.
#[verifier::external_body]
fn dash_with_capacity(capacity: usize) -> (fresh: HandleMap)
    ensures
        dash_entries(fresh).dom() == Set::<u64>::empty(),
{
    dashmap::DashMap::with_capacity(capacity)
}

/// Relies on `dashmap::DashMap::contains_key`: whether the key has an entry.
#[verifier::external_body]
fn dash_contains_key(m: &HandleMap, key: u64) -> (r: bool)
    ensures
        r == dash_entries(*m).contains_key(key),
{
    m.contains_key(&key)
}

/// Relies on `dashmap::DashMap::insert`: the key is bound to the value, and the
/// value it was bound to before, if any, is handed back.
#[verifier::external_body]
fn dash_insert(m: &mut HandleMap, key: u64, value: u64) -> (r: Option<u64>)
    ensures
        dash_entries(*final(m)) == dash_entries(*old(m)).insert(key, value),
        r == (if dash_entries(*old(m)).contains_key(key) {
            Some(dash_entries(*old(m))[key])
        } else {
            None::<u64>
        }),
{
    m.insert(key, value)
}

/// Relies on `dashmap::DashMap::remove`: the entry of the key goes, and is
/// handed back if there was one.
#[verifier::external_body]
fn dash_remove(m: &mut HandleMap, key: u64) -> (r: Option<(u64, u64)>)
    ensures
        dash_entries(*final(m)) == dash_entries(*old(m)).remove(key),
        r == (if dash_entries(*old(m)).contains_key(key) {
            Some((key, dash_entries(*old(m))[key]))
        } else {
            None::<(u64, u64)>
        }),
{
    m.remove(&key)
}

/// Relies on `dashmap::DashMap::get`: the value bound to the key, if any.
#[verifier::external_body]
fn dash_get(m: &HandleMap, key: u64) -> (r: Option<u64>)
    ensures
        r == (if dash_entries(*m).contains_key(key) {
            Some(dash_entries(*m)[key])
        } else {
            None::<u64>
        }),
{
    m.get(&key).map(|entry| *entry.value())
}

/// The failures of registry operations.
#[derive(Debug, Clone, Copy, PartialEq, Eq, Structural)]
pub enum DashTypeMapErrors {
    AlreadyExists,
    DoesNotExist,
    Timeout,
}

impl DashTypeMapErrors {
    /// A short human-readable description of the failure.
    pub fn message(&self) -> (r: &'static str)
        ensures
            *self == DashTypeMapErrors::AlreadyExists ==> r@ == "already exists"@,
            *self == DashTypeMapErrors::DoesNotExist ==> r@ == "does not exist"@,
            *self == DashTypeMapErrors::Timeout ==> r@ == "timeout"@,
    {
        match self {
            DashTypeMapErrors::AlreadyExists => "already exists",
            DashTypeMapErrors::DoesNotExist => "does not exist",
            DashTypeMapErrors::Timeout => "timeout",
        }
    }
}

/// What a lookup of `key` in the entries `m` gives.
pub open spec fn lookup(m: Map<u64, u64>, key: u64) -> Result<u64, DashTypeMapErrors> {
    if m.contains_key(key) {
        Ok(m[key])
    } else {
        Err(DashTypeMapErrors::DoesNotExist)
    }
}

/// The entries after an insert of `value` under `key`, and the insert's result.
pub open spec fn inserted(m: Map<u64, u64>, key: u64, value: u64) -> (Map<u64, u64>, Result<(), DashTypeMapErrors>) {
    if m.contains_key(key) {
        (m, Err(DashTypeMapErrors::AlreadyExists))
    } else {
        (m.insert(key, value), Ok(()))
    }
}

/// The entries after a removal of `key`, and the removal's result.
pub open spec fn removed(m: Map<u64, u64>, key: u64) -> (Map<u64, u64>, Result<u64, DashTypeMapErrors>) {
    if m.contains_key(key) {
        (m.remove(key), Ok(m[key]))
    } else {
        (m, Err(DashTypeMapErrors::DoesNotExist))
    }
}

/// The registry: at most one resource handle for each type identity.
pub struct DashTypeMap {
    map: HandleMap,
}

impl View for DashTypeMap {
    type V = Map<u64, u64>;

    closed spec fn view(&self) -> Map<u64, u64> {
        dash_entries(self.map)
    }
}

/// One look at a wait for an entry to appear or to go.
#[derive(Debug, Clone, Copy, PartialEq, Eq, Structural)]
pub enum WaitPoll {
    /// The wait is over: `true` when the awaited state was seen, `false`
    /// when the time ran out first.
    Ready(bool),
    /// Neither: the waiter registers for the next change and sleeps.
    Pending,
}

/// The next move of a wait for a shared clone of an entry.
#[derive(Debug, Clone, Copy, PartialEq, Eq, Structural)]
pub enum CloneStep {
    /// The wait is over: here is the clone.
    Cloned(ResourceHandle),
    /// The wait is over: the entry did not appear in time.
    TimedOut,
    /// The entry is absent: wait for it to appear, then look again.
    WaitForExistence,
}

/// One look of a waiter on the entries `m`: over when the presence of `key`
/// is `want_present`, else over, unsuccessfully, only when the time is up.
pub open spec fn waiter_poll(m: Map<u64, u64>, key: u64, want_present: bool, time_is_up: bool) -> WaitPoll {
    if m.contains_key(key) == want_present {
        WaitPoll::Ready(true)
    } else if time_is_up {
        WaitPoll::Ready(false)
    } else {
        WaitPoll::Pending
    }
}

/// The next move of a wait for a clone of the entry of `key` in `m`.
pub open spec fn clone_step(m: Map<u64, u64>, key: u64, last_wait_succeeded: bool) -> CloneStep {
    if !last_wait_succeeded {
        CloneStep::TimedOut
    } else if m.contains_key(key) {
        CloneStep::Cloned(m[key])
    } else {
        CloneStep::WaitForExistence
    }
}

impl CloneStep {
    /// The result of the whole wait, once it is over.
    pub fn outcome(&self) -> (r: Option<Result<ResourceHandle, DashTypeMapErrors>>)
        ensures
            r == (match *self {
                CloneStep::Cloned(v) => Some(Ok::<u64, DashTypeMapErrors>(v)),
                CloneStep::TimedOut => Some(Err::<u64, DashTypeMapErrors>(DashTypeMapErrors::Timeout)),
                CloneStep::WaitForExistence => None,
            }),
    {
        match *self {
            CloneStep::Cloned(v) => Some(Ok(v)),
            CloneStep::TimedOut => Some(Err(DashTypeMapErrors::Timeout)),
            CloneStep::WaitForExistence => None,
        }
    }
}

impl DashTypeMap {
    /// An empty registry.
    pub fn new() -> (r: DashTypeMap)
        ensures
            r@ == Map::<u64, u64>::empty(),
    {
        let map = dash_with_capacity(0);
        DashTypeMap { map }
    }

    /// The underlying map, for read access.
    pub fn as_dashmap(&self) -> (r: &HandleMap)
        ensures
            dash_entries(*r) == self@,
    {
        &self.map
    }

    /// Whether an entry of this type identity is present.
    pub fn contains_key(&self, key: TypeKey) -> (r: bool)
        ensures
            r == self@.contains_key(key),
    {
        dash_contains_key(&self.map, key)
    }

    /// Stores `value` as the entry of `key`; fails, changing nothing, when
    /// there is one already. On success the waiters are to be woken.
    pub fn insert(&mut self, key: TypeKey, value: ResourceHandle) -> (r: Result<(), DashTypeMapErrors>)
        ensures
            (final(self)@, r) == inserted(old(self)@, key, value),
    {
        if self.contains_key(key) {
            return Err(DashTypeMapErrors::AlreadyExists);
        }
        let _ = dash_insert(&mut self.map, key, value);
        Ok(())
    }

    /// Takes the entry of `key` out and hands it back; fails, changing
    /// nothing, when there is none. On success the waiters are to be woken.
    pub fn remove(&mut self, key: TypeKey) -> (r: Result<ResourceHandle, DashTypeMapErrors>)
        ensures
            (final(self)@, r) == removed(old(self)@, key),
    {
        match dash_remove(&mut self.map, key) {
            Some((_, value)) => Ok(value),
            None => Err(DashTypeMapErrors::DoesNotExist),
        }
    }

    /// Runs `fun` on the entry of `key` and returns what it returns; fails
    /// when there is no entry.
    pub fn with<R, F: FnOnce(&ResourceHandle) -> R>(&self, key: TypeKey, fun: F) -> (r: Result<R, DashTypeMapErrors>)
        requires
            self@.contains_key(key) ==> fun.requires((&self@[key],)),
        ensures
            self@.contains_key(key) <==> r is Ok,
            !self@.contains_key(key) ==> r == Err::<R, DashTypeMapErrors>(DashTypeMapErrors::DoesNotExist),
            r matches Ok(out) ==> fun.ensures((&self@[key],), out),
    {
        match dash_get(&self.map, key) {
            Some(value) => Ok(fun(&value)),
            None => Err(DashTypeMapErrors::DoesNotExist),
        }
    }

    /// Replaces the entry of `key` by the first half of what `fun` makes of
    /// it, and returns the second half; fails, changing nothing, when there is
    /// no entry.
    pub fn with_mut<R, F: FnOnce(ResourceHandle) -> (ResourceHandle, R)>(&mut self, key: TypeKey, fun: F) -> (r: Result<R, DashTypeMapErrors>)
        requires
            old(self)@.contains_key(key) ==> fun.requires((old(self)@[key],)),
        ensures
            old(self)@.contains_key(key) <==> r is Ok,
            !old(self)@.contains_key(key) ==> r == Err::<R, DashTypeMapErrors>(DashTypeMapErrors::DoesNotExist)
                && final(self)@ == old(self)@,
            r matches Ok(out) ==> final(self)@ == old(self)@.insert(key, final(self)@[key])
                && fun.ensures((old(self)@[key],), (final(self)@[key], out)),
    {
        match dash_get(&self.map, key) {
            Some(value) => {
                let pair = fun(value);
                let next = pair.0;
                let out = pair.1;
                let _ = dash_insert(&mut self.map, key, next);
                Ok(out)
            },
            None => Err(DashTypeMapErrors::DoesNotExist),
        }
    }

    /// A shared clone of the entry of `key`.
    pub fn clone_if_arc(&self, key: TypeKey) -> (r: Result<ResourceHandle, DashTypeMapErrors>)
        ensures
            r == lookup(self@, key),
    {
        match dash_get(&self.map, key) {
            Some(value) => Ok(value),
            None => Err(DashTypeMapErrors::DoesNotExist),
        }
    }

    /// One look of a waiter that wants the entry of `key` present
    /// (`want_present`) or absent: it is over as soon as the registry agrees,
    /// and otherwise only once its time has run out.
    pub fn poll_waiter(&self, key: TypeKey, want_present: bool, time_is_up: bool) -> (r: WaitPoll)
        ensures
            r == waiter_poll(self@, key, want_present, time_is_up),
    {
        if self.contains_key(key) == want_present {
            WaitPoll::Ready(true)
        } else if time_is_up {
            WaitPoll::Ready(false)
        } else {
            WaitPoll::Pending
        }
    }

    /// The next move of a wait for a shared clone of the entry of `key`;
    /// `last_wait_succeeded` is whether the wait for existence before this
    /// look saw the entry appear (`true` on the first look).
    pub fn wait_clone_step(&self, key: TypeKey, last_wait_succeeded: bool) -> (r: CloneStep)
        ensures
            r == clone_step(self@, key, last_wait_succeeded),
    {
        if !last_wait_succeeded {
            return CloneStep::TimedOut;
        }
        match self.clone_if_arc(key) {
            Ok(value) => CloneStep::Cloned(value),
            Err(_) => CloneStep::WaitForExistence,
        }
    }
}

/// An insert into a registry without an entry of `key`, followed at once by a
/// lookup of `key`, gives the inserted value; a second insert of `key` before
/// any removal fails with `AlreadyExists` and changes nothing.
pub proof fn lemma_insert_then_with(m: Map<u64, u64>, key: TypeKey, value: ResourceHandle, other: ResourceHandle)
    requires
        !m.contains_key(key),
    ensures
        inserted(m, key, value).1 == Ok::<(), DashTypeMapErrors>(()),
        lookup(inserted(m, key, value).0, key) == Ok::<u64, DashTypeMapErrors>(value),
        inserted(inserted(m, key, value).0, key, other).1 == Err::<(), DashTypeMapErrors>(DashTypeMapErrors::AlreadyExists),
        inserted(inserted(m, key, value).0, key, other).0 == inserted(m, key, value).0,
{
}

/// A removal from a registry without an entry of `key` fails with
/// `DoesNotExist`; a removal right after an insert of `key` hands the inserted
/// value back, and a lookup after it fails with `DoesNotExist`.
pub proof fn lemma_remove_after_insert(m: Map<u64, u64>, key: TypeKey, value: ResourceHandle)
    requires
        !m.contains_key(key),
    ensures
        removed(m, key).1 == Err::<u64, DashTypeMapErrors>(DashTypeMapErrors::DoesNotExist),
        removed(inserted(m, key, value).0, key).1 == Ok::<u64, DashTypeMapErrors>(value),
        removed(inserted(m, key, value).0, key).0 == m,
        lookup(removed(inserted(m, key, value).0, key).0, key) == Err::<u64, DashTypeMapErrors>(DashTypeMapErrors::DoesNotExist),
{
    assert(m.insert(key, value).remove(key) =~= m);
}

/// A consumer that starts waiting for a clone of `key` before its producer
/// inserted it is told to wait; a wait for its existence that began before the
/// insert is over, successfully, at the first look after it, however late;
/// the next step then hands over the very handle that the producer inserted
/// and still sees through a lookup of its own.
pub proof fn lemma_waiter_sees_later_insert(m: Map<u64, u64>, key: TypeKey, handle: ResourceHandle, time_is_up: bool)
    requires
        !m.contains_key(key),
    ensures
        clone_step(m, key, true) == CloneStep::WaitForExistence,
        waiter_poll(m, key, true, false) == WaitPoll::Pending,
        waiter_poll(inserted(m, key, handle).0, key, true, time_is_up) == WaitPoll::Ready(true),
        clone_step(inserted(m, key, handle).0, key, true) == CloneStep::Cloned(handle),
        lookup(inserted(m, key, handle).0, key) == Ok::<u64, DashTypeMapErrors>(handle),
{
}

} // verus!
