//! The daemon's registry of running instances: what it records of each
//! instance, and how start, stop, status and shutdown change and read it.
//! Ids are unique in the registry; stopping an unknown id is not an error.

use vstd::prelude::*;
use vstd::string::*;
use crate::protocol::{
    BridgeStatsSnapshot, Error, ErrorCode, InstanceId, InstanceState, InstanceSummary, Wallet,
};

verus! {

/// What the daemon records of one running emulator and its bridge. The
/// process and bridge handles themselves are held beside it, under the
/// same id.
#[derive(Debug)]
pub struct Instance {
    pub id: InstanceId,
    pub wallet: Wallet,
    pub state: InstanceState,
    pub vid: u16,
    pub pid: u16,
    pub serial: String,
    pub hidraw: Option<String>,
    pub transport: String,
    pub error: Option<String>,
}

/// The public snapshot of an instance: the same fields.
pub open spec fn summary_of(i: Instance) -> InstanceSummary {
    InstanceSummary {
        instance: i.id,
        wallet: i.wallet,
        state: i.state,
        vid: i.vid,
        pid: i.pid,
        serial: i.serial,
        hidraw: i.hidraw,
        transport: i.transport,
        error: i.error,
    }
}

/// The instance as it leaves the registry: marked `Stopping`.
pub open spec fn stopping(i: Instance) -> Instance {
    Instance { state: InstanceState::Stopping, ..i }
}

pub(crate) fn clone_opt_string(o: &Option<String>) -> (r: Option<String>)
    ensures
        r == *o,
{
    match o {
        Some(s) => Some(s.clone()),
        None => None,
    }
}

impl Instance {
    /// The public snapshot of this instance.
    pub fn summary(&self) -> (s: InstanceSummary)
        ensures
            s == summary_of(*self),
            s.instance == self.id,
            s.wallet == self.wallet,
            s.state == self.state,
            s.vid == self.vid,
            s.pid == self.pid,
            s.serial == self.serial,
            s.hidraw == self.hidraw,
            s.transport == self.transport,
            s.error == self.error,
    {
        InstanceSummary {
            instance: self.id.clone(),
            wallet: self.wallet,
            state: self.state,
            vid: self.vid,
            pid: self.pid,
            serial: self.serial.clone(),
            hidraw: clone_opt_string(&self.hidraw),
            transport: self.transport.clone(),
            error: clone_opt_string(&self.error),
        }
    }
}

/// No two instances share an id.
pub open spec fn ids_unique(s: Seq<Instance>) -> bool {
    forall|i: int, j: int|
        0 <= i < s.len() && 0 <= j < s.len() && i != j ==> s[i].id.0@ != s[j].id.0@
}

/// Some instance has the id `id`.
pub open spec fn has_id(s: Seq<Instance>, id: Seq<char>) -> bool {
    exists|i: int| 0 <= i < s.len() && s[i].id.0@ == id
}

/// Some instance has the HID serial `serial`.
pub open spec fn has_serial(s: Seq<Instance>, serial: Seq<char>) -> bool {
    exists|i: int| 0 <= i < s.len() && s[i].serial@ == serial
}

/// The position of the instance with id `id`, where there is one.
pub open spec fn id_index(s: Seq<Instance>, id: Seq<char>) -> int {
    choose|i: int| 0 <= i < s.len() && s[i].id.0@ == id
}

/// The registry after stopping `id`: the instance with that id is gone,
/// and nothing else changes; an unknown id changes nothing.
pub open spec fn removed(s: Seq<Instance>, id: Seq<char>) -> Seq<Instance> {
    if has_id(s, id) {
        s.remove(id_index(s, id))
    } else {
        s
    }
}

/// Whether an instance's id differs from `id`.
pub open spec fn other_than(id: Seq<char>) -> spec_fn(Instance) -> bool {
    |x: Instance| x.id.0@ != id
}

/// The registry after recording a started instance: it replaces any
/// instance of the same id.
pub open spec fn inserted(s: Seq<Instance>, inst: Instance) -> Seq<Instance> {
    removed(s, inst.id.0@).push(inst)
}

/// The message of an unknown-id error: `no instance with id '{id}'`.
pub open spec fn not_found_message(id: Seq<char>) -> Seq<char> {
    "no instance with id '"@ + id + "'"@
}

/// An `Internal` error with `msg`.
pub fn internal(msg: &str) -> (e: Error)
    ensures
        e.code == ErrorCode::Internal,
        e.message@ == msg@,
{
    Error::new(ErrorCode::Internal, msg)
}

/// The `InstanceNotFound` error for `id`.
pub fn not_found(id: &InstanceId) -> (e: Error)
    ensures
        e.code == ErrorCode::InstanceNotFound,
        e.message@ == not_found_message(id.0@),
{
    let mut m = "no instance with id '".to_owned();
    m.append(id.0.as_str());
    m.append("'");
    Error { code: ErrorCode::InstanceNotFound, message: m }
}

/// The instances the daemon owns.
pub struct Registry {
    instances: Vec<Instance>,
}

impl View for Registry {
    type V = Seq<Instance>;

    closed spec fn view(&self) -> Seq<Instance> {
        self.instances@
    }
}

impl Registry {
    #[verifier::type_invariant]
    spec fn inv(self) -> bool {
        ids_unique(self.instances@)
    }

    /// An empty registry.
    pub fn new() -> (r: Self)
        ensures
            r@ == Seq::<Instance>::empty(),
            ids_unique(r@),
    {
        Registry { instances: Vec::new() }
    }

    /// The number of instances.
    pub fn len(&self) -> (n: usize)
        ensures
            n == self@.len(),
            ids_unique(self@),
    {
        proof {
            use_type_invariant(self);
        }
        self.instances.len()
    }

    /// The position of the instance with id `id`, if there is one.
    pub fn find(&self, id: &InstanceId) -> (r: Option<usize>)
        ensures
            match r {
                Some(i) => i < self@.len() && self@[i as int].id.0@ == id.0@ && id_index(self@, id.0@)
                    == i,
                None => !has_id(self@, id.0@),
            },
    {
        proof {
            use_type_invariant(self);
        }
        let n = self.instances.len();
        let mut i: usize = 0;
        while i < n
            invariant
                n == self.instances@.len(),
                i <= n,
                ids_unique(self.instances@),
                forall|k: int| 0 <= k < i ==> self.instances@[k].id.0@ != id.0@,
            decreases n - i,
        {
            if self.instances[i].id.0 == id.0 {
                let ghost s = self.instances@;
                assert(has_id(s, id.0@));
                let ghost c = id_index(s, id.0@);
                assert(c == i);
                return Some(i);
            }
            i = i + 1;
        }
        None
    }

    /// Whether some instance has the HID serial `serial`.
    pub fn serial_in_use(&self, serial: &str) -> (r: bool)
        ensures
            r == has_serial(self@, serial@),
    {
        let n = self.instances.len();
        let mut i: usize = 0;
        while i < n
            invariant
                n == self.instances@.len(),
                i <= n,
                forall|k: int| 0 <= k < i ==> self.instances@[k].serial@ != serial@,
            decreases n - i,
        {
            if crate::text::same_text(self.instances[i].serial.as_str(), serial) {
                return true;
            }
            i = i + 1;
        }
        false
    }

    /// Stops `id`: removes its instance and hands it back marked
    /// `Stopping` so the caller can tear down its process and bridge.
    /// Stopping an unknown id is not an error and changes nothing.
    pub fn stop(&mut self, id: &InstanceId) -> (r: Option<Instance>)
        ensures
            final(self)@ == removed(old(self)@, id.0@),
            final(self)@ == old(self)@.filter(other_than(id.0@)),
            ids_unique(final(self)@),
            match r {
                Some(inst) => has_id(old(self)@, id.0@) && inst == stopping(
                    old(self)@[id_index(old(self)@, id.0@)],
                ),
                None => !has_id(old(self)@, id.0@),
            },
    {
        proof {
            use_type_invariant(&*self);
            lemma_stop_keeps_every_other_instance(self.instances@, id.0@);
        }
        match self.find(id) {
            None => None,
            Some(i) => {
                let ghost s = self.instances@;
                let mut v: Vec<Instance> = Vec::new();
                std::mem::swap(&mut v, &mut self.instances);
                let mut inst = v.remove(i);
                proof {
                    assert forall|a: int, b: int|
                        0 <= a < v@.len() && 0 <= b < v@.len() && a != b
                            implies v@[a].id.0@ != v@[b].id.0@ by {
                        let a2 = if a < i { a } else { a + 1 };
                        let b2 = if b < i { b } else { b + 1 };
                        assert(v@[a] == s[a2]);
                        assert(v@[b] == s[b2]);
                    }
                }
                self.instances = v;
                inst.state = InstanceState::Stopping;
                Some(inst)
            },
        }
    }

    /// Records a started instance, replacing any instance of the same id.
    pub fn insert(&mut self, inst: Instance)
        ensures
            final(self)@ == inserted(old(self)@, inst),
            ids_unique(final(self)@),
    {
        proof {
            use_type_invariant(&*self);
        }
        let ghost id = inst.id.0@;
        let _ = self.stop(&inst.id);
        proof {
            use_type_invariant(&*self);
            lemma_removed_drops_id(old(self)@, id);
        }
        let ghost before = self.instances@;
        let mut v: Vec<Instance> = Vec::new();
        std::mem::swap(&mut v, &mut self.instances);
        v.push(inst);
        proof {
            assert forall|a: int, b: int|
                0 <= a < v@.len() && 0 <= b < v@.len() && a != b
                    implies v@[a].id.0@ != v@[b].id.0@ by {
                if a < before.len() && b < before.len() {
                    assert(v@[a] == before[a]);
                    assert(v@[b] == before[b]);
                } else if a < before.len() {
                    assert(v@[a] == before[a]);
                } else {
                    assert(v@[b] == before[b]);
                }
            }
        }
        self.instances = v;
    }

    /// Snapshot of one instance, or of all when `instance` is `None`. An
    /// unknown id is an `InstanceNotFound` error.
    pub fn status(&self, instance: &Option<InstanceId>) -> (r: Result<Vec<InstanceSummary>, Error>)
        ensures
            match instance {
                None => r is Ok && r->Ok_0@ == self@.map_values(|i: Instance| summary_of(i)),
                Some(id) => if has_id(self@, id.0@) {
                    r is Ok && r->Ok_0@ == seq![summary_of(self@[id_index(self@, id.0@)])]
                } else {
                    r is Err && r->Err_0.code == ErrorCode::InstanceNotFound && r->Err_0.message@
                        == not_found_message(id.0@)
                },
            },
    {
        match instance {
            Some(id) => match self.find(id) {
                Some(i) => {
                    let mut v: Vec<InstanceSummary> = Vec::new();
                    v.push(self.instances[i].summary());
                    assert(v@ =~= seq![summary_of(self@[id_index(self@, id.0@)])]);
                    Ok(v)
                },
                None => Err(not_found(id)),
            },
            None => {
                let n = self.instances.len();
                let mut v: Vec<InstanceSummary> = Vec::new();
                let mut i: usize = 0;
                while i < n
                    invariant
                        n == self.instances@.len(),
                        i <= n,
                        v@ == self.instances@.subrange(0, i as int).map_values(
                            |x: Instance| summary_of(x),
                        ),
                    decreases n - i,
                {
                    v.push(self.instances[i].summary());
                    i = i + 1;
                    assert(v@ =~= self.instances@.subrange(0, i as int).map_values(
                        |x: Instance| summary_of(x),
                    ));
                }
                assert(self.instances@.subrange(0, n as int) =~= self.instances@);
                Ok(v)
            },
        }
    }

    /// Stops every instance: the registry is left empty and the instances
    /// are handed back, in order and marked `Stopping`, for teardown. A
    /// second shutdown finds nothing to stop.
    pub fn shutdown(&mut self) -> (r: Vec<Instance>)
        ensures
            final(self)@ == Seq::<Instance>::empty(),
            ids_unique(final(self)@),
            r@ == old(self)@.map_values(|i: Instance| stopping(i)),
    {
        let mut all: Vec<Instance> = Vec::new();
        std::mem::swap(&mut all, &mut self.instances);
        let ghost orig = all@;
        let mut out: Vec<Instance> = Vec::new();
        while all.len() > 0
            invariant
                out@ + all@.map_values(|i: Instance| stopping(i)) == orig.map_values(
                    |i: Instance| stopping(i),
                ),
            decreases all@.len(),
        {
            let ghost before = all@;
            let mut inst = all.remove(0);
            inst.state = InstanceState::Stopping;
            out.push(inst);
            assert(before.map_values(|i: Instance| stopping(i)) =~= seq![stopping(before[0])]
                + all@.map_values(|i: Instance| stopping(i)));
            assert(out@ + all@.map_values(|i: Instance| stopping(i)) =~= orig.map_values(
                |i: Instance| stopping(i),
            ));
        }
        assert(out@ =~= orig.map_values(|i: Instance| stopping(i)));
        out
    }
}

/// After `removed`, no instance has the id, the others stay in order, and
/// ids remain unique.
pub proof fn lemma_removed_drops_id(s: Seq<Instance>, id: Seq<char>)
    requires
        ids_unique(s),
    ensures
        !has_id(removed(s, id), id),
        ids_unique(removed(s, id)),
{
    if has_id(s, id) {
        let i = id_index(s, id);
        let t = s.remove(i);
        assert forall|k: int| 0 <= k < t.len() implies t[k].id.0@ != id by {
            if k < i {
                assert(t[k] == s[k]);
            } else {
                assert(t[k] == s[k + 1]);
            }
        }
        assert forall|a: int, b: int|
            0 <= a < t.len() && 0 <= b < t.len() && a != b implies t[a].id.0@ != t[b].id.0@ by {
            let a2 = if a < i { a } else { a + 1 };
            let b2 = if b < i { b } else { b + 1 };
            assert(t[a] == s[a2]);
            assert(t[b] == s[b2]);
        }
    }
}

proof fn lemma_filter_keeps_all(s: Seq<Instance>, p: spec_fn(Instance) -> bool)
    requires
        forall|k: int| 0 <= k < s.len() ==> p(s[k]),
    ensures
        s.filter(p) == s,
    decreases s.len(),
{
    if s.len() > 0 {
        let d = s.drop_last();
        lemma_filter_keeps_all(d, p);
        d.lemma_filter_push(s.last(), p);
        assert(s =~= d.push(s.last()));
    } else {
        assert(s.filter(p) =~= s) by {
            reveal(Seq::filter);
        }
    }
}

proof fn lemma_filter_drops_one(s: Seq<Instance>, p: spec_fn(Instance) -> bool, i: int)
    requires
        0 <= i < s.len(),
        !p(s[i]),
        forall|k: int| 0 <= k < s.len() && k != i ==> p(s[k]),
    ensures
        s.filter(p) == s.remove(i),
    decreases s.len(),
{
    let d = s.drop_last();
    d.lemma_filter_push(s.last(), p);
    assert(s =~= d.push(s.last()));
    if i == s.len() - 1 {
        lemma_filter_keeps_all(d, p);
        assert(s.remove(i) =~= d);
    } else {
        lemma_filter_drops_one(d, p, i);
        assert(d.remove(i).push(s.last()) =~= s.remove(i));
    }
}

/// Stopping an id takes out the instances with that id and nothing else:
/// every other instance stays, in its order. A known id leaves one
/// instance fewer.
pub proof fn lemma_stop_keeps_every_other_instance(s: Seq<Instance>, id: Seq<char>)
    requires
        ids_unique(s),
    ensures
        removed(s, id) == s.filter(other_than(id)),
        has_id(s, id) ==> removed(s, id).len() == s.len() - 1,
        forall|k: int| 0 <= k < s.len() && s[k].id.0@ != id ==> removed(s, id).contains(#[trigger] s[k]),
{
    let p = other_than(id);
    if has_id(s, id) {
        let i = id_index(s, id);
        assert forall|k: int| 0 <= k < s.len() && k != i implies p(s[k]) by {}
        lemma_filter_drops_one(s, p, i);
        assert forall|k: int| 0 <= k < s.len() && s[k].id.0@ != id implies removed(s, id).contains(
            #[trigger] s[k],
        ) by {
            let t = s.remove(i);
            if k < i {
                assert(t[k] == s[k]);
            } else {
                assert(k != i);
                assert(t[k - 1] == s[k]);
            }
        }
    } else {
        assert forall|k: int| 0 <= k < s.len() implies p(s[k]) by {
            assert(!(0 <= k < s.len() && s[k].id.0@ == id));
        }
        lemma_filter_keeps_all(s, p);
        assert forall|k: int| 0 <= k < s.len() && s[k].id.0@ != id implies removed(s, id).contains(
            #[trigger] s[k],
        ) by {
            assert(removed(s, id)[k] == s[k]);
        }
    }
}

/// A snapshot carries every field of its instance unchanged.
pub proof fn lemma_summary_carries_fields(i: Instance)
    ensures
        summary_of(i).instance == i.id,
        summary_of(i).wallet == i.wallet,
        summary_of(i).state == i.state,
        summary_of(i).vid == i.vid,
        summary_of(i).pid == i.pid,
        summary_of(i).serial == i.serial,
        summary_of(i).hidraw == i.hidraw,
        summary_of(i).transport == i.transport,
        summary_of(i).error == i.error,
{
}

/// A status listing shows each instance's fields as recorded: the `k`-th
/// snapshot carries the `k`-th instance's hidraw path, serial and id.
pub proof fn lemma_status_reports_recorded_fields(s: Seq<Instance>, k: int)
    requires
        0 <= k < s.len(),
    ensures
        s.map_values(|i: Instance| summary_of(i)).len() == s.len(),
        s.map_values(|i: Instance| summary_of(i))[k].hidraw == s[k].hidraw,
        s.map_values(|i: Instance| summary_of(i))[k].serial == s[k].serial,
        s.map_values(|i: Instance| summary_of(i))[k].instance == s[k].id,
        s.map_values(|i: Instance| summary_of(i))[k].state == s[k].state,
{
}

/// Stopping is idempotent: stopping an id a second time changes nothing.
pub proof fn lemma_stop_idempotent(s: Seq<Instance>, id: Seq<char>)
    requires
        ids_unique(s),
    ensures
        removed(removed(s, id), id) == removed(s, id),
{
    lemma_removed_drops_id(s, id);
}

/// Stopping an id no instance has leaves the registry as it was.
pub proof fn lemma_stop_unknown_is_noop(s: Seq<Instance>, id: Seq<char>)
    requires
        !has_id(s, id),
    ensures
        removed(s, id) == s,
{
}

/// After an instance is recorded, ids are still unique and a status query
/// for its id finds exactly that instance.
pub proof fn lemma_status_after_insert(s: Seq<Instance>, inst: Instance)
    requires
        ids_unique(s),
    ensures
        ids_unique(inserted(s, inst)),
        has_id(inserted(s, inst), inst.id.0@),
        inserted(s, inst)[id_index(inserted(s, inst), inst.id.0@)] == inst,
{
    lemma_removed_drops_id(s, inst.id.0@);
    let r = removed(s, inst.id.0@);
    let t = inserted(s, inst);
    assert(t[r.len() as int] == inst);
    assert(has_id(t, inst.id.0@));
    let c = id_index(t, inst.id.0@);
    if c < r.len() {
        assert(t[c] == r[c]);
    }
    assert forall|a: int, b: int|
        0 <= a < t.len() && 0 <= b < t.len() && a != b implies t[a].id.0@ != t[b].id.0@ by {
        if a < r.len() && b < r.len() {
            assert(t[a] == r[a]);
            assert(t[b] == r[b]);
        } else if a < r.len() {
            assert(t[a] == r[a]);
        } else {
            assert(t[b] == r[b]);
        }
    }
}

/// After an id is stopped, a status query for it is answered
/// `InstanceNotFound`.
pub proof fn lemma_status_after_stop(s: Seq<Instance>, id: Seq<char>)
    requires
        ids_unique(s),
    ensures
        !has_id(removed(s, id), id),
{
    lemma_removed_drops_id(s, id);
}

/// Shutting down an empty registry stops nothing: a second shutdown is a
/// no-op.
pub proof fn lemma_second_shutdown_stops_nothing()
    ensures
        Seq::<Instance>::empty().map_values(|i: Instance| stopping(i)) == Seq::<Instance>::empty(),
{
    assert(Seq::<Instance>::empty().map_values(|i: Instance| stopping(i)) =~= Seq::<Instance>::empty());
}

/// Plain counters of an instance's bridge traffic, per direction.
#[derive(Debug, Default)]
pub struct BridgeStatsCounters {
    pub host_to_device_reports: u64,
    pub host_to_device_bytes: u64,
    pub device_to_host_reports: u64,
    pub device_to_host_bytes: u64,
}

impl BridgeStatsCounters {
    /// The counters as a snapshot for `instance`.
    pub fn snapshot(&self, instance: &InstanceId) -> (s: BridgeStatsSnapshot)
        ensures
            s.instance == *instance,
            s.host_to_device_reports == self.host_to_device_reports,
            s.host_to_device_bytes == self.host_to_device_bytes,
            s.device_to_host_reports == self.device_to_host_reports,
            s.device_to_host_bytes == self.device_to_host_bytes,
    {
        BridgeStatsSnapshot {
            instance: instance.clone(),
            host_to_device_reports: self.host_to_device_reports,
            host_to_device_bytes: self.host_to_device_bytes,
            device_to_host_reports: self.device_to_host_reports,
            device_to_host_bytes: self.device_to_host_bytes,
        }
    }
}

} // verus!
