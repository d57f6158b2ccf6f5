//! The issuer lifecycle manager.
//!
//! One signing-service process per issuer DID, bound to a unique port. The
//! registry persists each issuer's state; spawning and killing the process
//! is outside work, so running an issuer is split into a plan (which port,
//! or nothing to do) and a commit that records the spawn's outcome. A
//! failed spawn changes no state at all.

use vstd::prelude::*;

use crate::error::Error;

verus! {

/// Lifecycle states of a per-DID signing-service instance.
#[derive(Clone, Copy, PartialEq, Eq, Structural, Debug)]
pub enum CredentialServiceStatus {
    Created,
    Running,
    Disabled,
    Error,
}

impl CredentialServiceStatus {
    pub open spec fn spec_code(self) -> i32 {
        match self {
            CredentialServiceStatus::Created => 0,
            CredentialServiceStatus::Running => 1,
            CredentialServiceStatus::Disabled => 2,
            CredentialServiceStatus::Error => 3,
        }
    }

    pub open spec fn spec_from_code(status: i32) -> CredentialServiceStatus {
        if status == 0 {
            CredentialServiceStatus::Created
        } else if status == 1 {
            CredentialServiceStatus::Running
        } else if status == 2 {
            CredentialServiceStatus::Disabled
        } else {
            CredentialServiceStatus::Error
        }
    }

    /// The integer code under which the status is persisted.
    pub fn status_code(&self) -> (r: i32)
        ensures
            r == self.spec_code(),
    {
        match self {
            CredentialServiceStatus::Created => 0,
            CredentialServiceStatus::Running => 1,
            CredentialServiceStatus::Disabled => 2,
            CredentialServiceStatus::Error => 3,
        }
    }

    /// The status persisted under an integer code; unknown codes read as `Error`.
    pub fn from_code(status: i32) -> (r: CredentialServiceStatus)
        ensures
            r == CredentialServiceStatus::spec_from_code(status),
    {
        match status {
            0 => CredentialServiceStatus::Created,
            1 => CredentialServiceStatus::Running,
            2 => CredentialServiceStatus::Disabled,
            _ => CredentialServiceStatus::Error,
        }
    }

    pub open spec fn spec_name(self) -> Seq<char> {
        match self {
            CredentialServiceStatus::Created => "created"@,
            CredentialServiceStatus::Running => "running"@,
            CredentialServiceStatus::Disabled => "disabled"@,
            CredentialServiceStatus::Error => "error"@,
        }
    }

    /// The status as readable text.
    pub fn status_name(&self) -> (r: String)
        ensures
            r@ == self.spec_name(),
    {
        match self {
            CredentialServiceStatus::Created => "created".to_owned(),
            CredentialServiceStatus::Running => "running".to_owned(),
            CredentialServiceStatus::Disabled => "disabled".to_owned(),
            CredentialServiceStatus::Error => "error".to_owned(),
        }
    }
}

/// Reading a status back from its persisted code yields the same status.
pub proof fn lemma_status_code_round_trip(s: CredentialServiceStatus)
    ensures
        CredentialServiceStatus::spec_from_code(s.spec_code()) == s,
{
}

/// One persisted issuer row, keyed by its DID.
#[derive(Debug)]
pub struct VcIssuer {
    pub did: String,
    pub name: String,
    /// The port its signing service binds; 0 until one is assigned.
    pub service_address: i32,
    /// A `CredentialServiceStatus` code.
    pub status: i32,
    /// The live process, while one is recorded.
    pub pid: Option<i32>,
    pub created_at: i64,
    pub updated_at: i64,
}

impl Clone for VcIssuer {
    fn clone(&self) -> (r: Self)
        ensures
            r == *self,
    {
        VcIssuer {
            did: self.did.clone(),
            name: self.name.clone(),
            service_address: self.service_address,
            status: self.status,
            pid: self.pid,
            created_at: self.created_at,
            updated_at: self.updated_at,
        }
    }
}

/// That an issuer with this DID sits at index `i`.
pub open spec fn did_at(s: Seq<VcIssuer>, did: Seq<char>, i: int) -> bool {
    0 <= i < s.len() && s[i].did@ == did
}

/// That some issuer carries this DID.
pub open spec fn has_did(s: Seq<VcIssuer>, did: Seq<char>) -> bool {
    exists|i: int| did_at(s, did, i)
}

/// That some issuer carries this name.
pub open spec fn has_name(s: Seq<VcIssuer>, name: Seq<char>) -> bool {
    exists|i: int| 0 <= i < s.len() && (#[trigger] s[i]).name@ == name
}

/// The highest port assigned so far; 0 where none is.
pub open spec fn max_port(s: Seq<VcIssuer>) -> int
    decreases s.len(),
{
    if s.len() == 0 {
        0
    } else if s.last().service_address > max_port(s.drop_last()) {
        s.last().service_address as int
    } else {
        max_port(s.drop_last())
    }
}

/// An update of the one issuer row under `did`: the row takes the given
/// status, port and process id, keeps its identity and creation time, and
/// no other row moves.
pub open spec fn issuer_update(
    pre: Seq<VcIssuer>,
    post: Seq<VcIssuer>,
    did: Seq<char>,
    status: i32,
    service_address: i32,
    pid: Option<i32>,
    now: i64,
) -> bool {
    &&& post.len() == pre.len()
    &&& forall|j: int| 0 <= j < pre.len() && pre[j].did@ != did ==> post[j] == pre[j]
    &&& forall|j: int|
        0 <= j < pre.len() && pre[j].did@ == did ==> {
            &&& (#[trigger] post[j]).did == pre[j].did
            &&& post[j].name == pre[j].name
            &&& post[j].status == status
            &&& post[j].service_address == service_address
            &&& post[j].pid == pid
            &&& post[j].created_at == pre[j].created_at
            &&& post[j].updated_at == now
        }
}

/// What running an issuer requires of the outside world.
#[derive(Clone, Copy, PartialEq, Eq, Structural, Debug)]
pub enum RunPlan {
    /// The issuer already runs and no restart was forced: nothing to do.
    AlreadyRunning,
    /// Spawn the signing service on this port, then commit the outcome.
    Spawn { port: u16 },
}

/// The registry of issuers, one row per DID.
pub struct IssuerRegistry {
    issuers: Vec<VcIssuer>,
}

impl View for IssuerRegistry {
    type V = Seq<VcIssuer>;

    closed spec fn view(&self) -> Seq<VcIssuer> {
        self.issuers@
    }
}

impl IssuerRegistry {
    /// DIDs are unique, and ports stay below the top of the range so that
    /// one more can always be allocated.
    pub open spec fn wf(self) -> bool {
        &&& forall|i: int, j: int|
            0 <= i < j < self@.len() ==> (#[trigger] self@[i]).did@ != (#[trigger] self@[j]).did@
        &&& forall|i: int|
            0 <= i < self@.len() ==> 0 <= (#[trigger] self@[i]).service_address <= 65534
    }

    pub fn new() -> (r: IssuerRegistry)
        ensures
            r@ =~= Seq::<VcIssuer>::empty(),
            r.wf(),
    {
        IssuerRegistry { issuers: Vec::new() }
    }

    fn find_index(&self, did: &str) -> (r: Option<usize>)
        ensures
            match r {
                Some(i) => did_at(self@, did@, i as int),
                None => !has_did(self@, did@),
            },
    {
        let d = did.to_owned();
        let n = self.issuers.len();
        let mut i: usize = 0;
        while i < n
            invariant
                n == self@.len(),
                i <= n,
                d@ == did@,
                forall|j: int| 0 <= j < i ==> (#[trigger] self@[j]).did@ != did@,
            decreases n - i,
        {
            if self.issuers[i].did == d {
                return Some(i);
            }
            i = i + 1;
        }
        None
    }

    /// Inserts a new issuer for a DID: status `Created`, no port yet, no
    /// process. Fails where the DID already has an issuer.
    pub fn vc_issuer_create(&mut self, did: &str, name: &str, now: i64) -> (r: Result<(), Error>)
        requires
            old(self).wf(),
        ensures
            final(self).wf(),
            match r {
                Ok(()) => {
                    &&& !has_did(old(self)@, did@)
                    &&& final(self)@.len() == old(self)@.len() + 1
                    &&& final(self)@.drop_last() == old(self)@
                    &&& final(self)@.last().did@ == did@
                    &&& final(self)@.last().name@ == name@
                    &&& final(self)@.last().status
                        == CredentialServiceStatus::Created.spec_code()
                    &&& final(self)@.last().service_address == 0
                    &&& final(self)@.last().pid is None
                    &&& final(self)@.last().created_at == now
                    &&& final(self)@.last().updated_at == now
                },
                Err(e) => {
                    &&& e == Error::DuplicateRecord
                    &&& has_did(old(self)@, did@)
                    &&& final(self)@ == old(self)@
                },
            },
    {
        match self.find_index(did) {
            Some(_) => Err(Error::DuplicateRecord),
            None => {
                let issuer = VcIssuer {
                    did: did.to_owned(),
                    name: name.to_owned(),
                    service_address: 0,
                    status: CredentialServiceStatus::Created.status_code(),
                    pid: None,
                    created_at: now,
                    updated_at: now,
                };
                self.issuers.push(issuer);
                proof {
                    assert(self@.drop_last() =~= old(self)@);
                    assert forall|i: int, j: int| 0 <= i < j < self@.len() implies (
                    #[trigger] self@[i]).did@ != (#[trigger] self@[j]).did@ by {
                        if j == self@.len() - 1 {
                            assert(!did_at(old(self)@, did@, i));
                        }
                    }
                }
                Ok(())
            },
        }
    }

    /// The issuer row under a DID.
    pub fn vc_issuer_get_by_did(&self, did: &str) -> (r: Result<VcIssuer, Error>)
        ensures
            match r {
                Ok(v) => exists|i: int| did_at(self@, did@, i) && v == self@[i],
                Err(e) => e == Error::RecordNotFound && !has_did(self@, did@),
            },
    {
        match self.find_index(did) {
            Some(i) => Ok(self.issuers[i].clone()),
            None => Err(Error::RecordNotFound),
        }
    }

    /// The first issuer row under a name; names, unlike DIDs, may repeat.
    pub fn find_by_name(&self, name: &str) -> (r: Result<VcIssuer, Error>)
        ensures
            match r {
                Ok(v) => exists|i: int|
                    {
                        &&& 0 <= i < self@.len()
                        &&& v == self@[i]
                        &&& (#[trigger] self@[i]).name@ == name@
                        &&& forall|j: int| 0 <= j < i ==> (#[trigger] self@[j]).name@ != name@
                    },
                Err(e) => e == Error::RecordNotFound && !has_name(self@, name@),
            },
    {
        let wanted = name.to_owned();
        let n = self.issuers.len();
        let mut i: usize = 0;
        while i < n
            invariant
                n == self@.len(),
                i <= n,
                wanted@ == name@,
                forall|j: int| 0 <= j < i ==> (#[trigger] self@[j]).name@ != name@,
            decreases n - i,
        {
            if self.issuers[i].name == wanted {
                return Ok(self.issuers[i].clone());
            }
            i = i + 1;
        }
        Err(Error::RecordNotFound)
    }

    /// The next free port: the configured start while no port is assigned,
    /// afterwards one past the highest assigned so far. Assigned once,
    /// lazily, and monotonically.
    pub fn vc_issuer_get_available_port(&self, start_port: u16) -> (r: u16)
        requires
            self.wf(),
        ensures
            max_port(self@) == 0 ==> r == start_port,
            max_port(self@) > 0 ==> r == max_port(self@) + 1,
    {
        let n = self.issuers.len();
        let mut m: i32 = 0;
        let mut i: usize = 0;
        while i < n
            invariant
                self.wf(),
                n == self@.len(),
                i <= n,
                m == max_port(self@.take(i as int)),
                0 <= m <= 65534,
            decreases n - i,
        {
            proof {
                assert(self@.take(i + 1 as int).drop_last() =~= self@.take(i as int));
                assert(self@.take(i + 1 as int).last() == self@[i as int]);
            }
            if self.issuers[i].service_address > m {
                m = self.issuers[i].service_address;
            }
            i = i + 1;
        }
        proof {
            assert(self@.take(n as int) =~= self@);
        }
        if m == 0 {
            start_port
        } else {
            (m + 1) as u16
        }
    }

    /// Decides what running an issuer takes: nothing if it already runs and
    /// no restart is forced; otherwise the port to bind — the one already
    /// assigned, kept across disable cycles, or a fresh allocation.
    pub fn vc_issuer_service_run_plan(&self, did: &str, force_start: bool, start_port: u16) -> (r:
        Result<RunPlan, Error>)
        requires
            self.wf(),
        ensures
            match r {
                Ok(plan) => exists|i: int|
                    did_at(self@, did@, i) && plan == spec_run_plan(
                        self@,
                        #[trigger] self@[i],
                        force_start,
                        start_port,
                    ),
                Err(e) => e == Error::RecordNotFound && !has_did(self@, did@),
            },
    {
        let i = match self.find_index(did) {
            Some(i) => i,
            None => {
                return Err(Error::RecordNotFound);
            },
        };
        let issuer = &self.issuers[i];
        if !force_start && issuer.status == CredentialServiceStatus::Running.status_code() {
            return Ok(RunPlan::AlreadyRunning);
        }
        if issuer.service_address == 0 {
            Ok(RunPlan::Spawn { port: self.vc_issuer_get_available_port(start_port) })
        } else {
            Ok(RunPlan::Spawn { port: issuer.service_address as u16 })
        }
    }

    /// Records the outcome of the spawn a plan asked for. A successful
    /// spawn makes the issuer `Running` on that port with the new process
    /// id; a failed spawn reports `VcIssuerRunningError` and leaves every
    /// row exactly as it was.
    pub fn vc_issuer_service_run_commit(
        &mut self,
        did: &str,
        port: u16,
        spawn_result: Option<i32>,
        now: i64,
    ) -> (r: Result<(), Error>)
        requires
            old(self).wf(),
            port <= 65534,
        ensures
            final(self).wf(),
            match r {
                Ok(()) => {
                    &&& spawn_result is Some
                    &&& has_did(old(self)@, did@)
                    &&& issuer_update(
                        old(self)@,
                        final(self)@,
                        did@,
                        CredentialServiceStatus::Running.spec_code(),
                        port as i32,
                        spawn_result,
                        now,
                    )
                },
                Err(e) => {
                    &&& final(self)@ == old(self)@
                    &&& (e == Error::VcIssuerRunningError && spawn_result is None || e
                        == Error::RecordNotFound && !has_did(old(self)@, did@))
                },
            },
    {
        let pid = match spawn_result {
            Some(pid) => pid,
            None => {
                return Err(Error::VcIssuerRunningError);
            },
        };
        let i = match self.find_index(did) {
            Some(i) => i,
            None => {
                return Err(Error::RecordNotFound);
            },
        };
        let updated = VcIssuer {
            did: self.issuers[i].did.clone(),
            name: self.issuers[i].name.clone(),
            service_address: port as i32,
            status: CredentialServiceStatus::Running.status_code(),
            pid: Some(pid),
            created_at: self.issuers[i].created_at,
            updated_at: now,
        };
        self.issuers.set(i, updated);
        proof {
            assert forall|j: int|
                0 <= j < old(self)@.len() && old(self)@[j].did@ == did@ implies j == i as int by {}
        }
        Ok(())
    }

    /// Stops an issuer: hands back the process id to terminate, if one is
    /// recorded, and persists `Disabled` with the pid cleared and the port
    /// kept for the next run. Already-disabled issuers are a no-op.
    pub fn vc_issuer_service_disable(&mut self, did: &str, now: i64) -> (r: Result<
        Option<i32>,
        Error,
    >)
        requires
            old(self).wf(),
        ensures
            final(self).wf(),
            match r {
                Ok(pid) => exists|i: int|
                    {
                        &&& did_at(old(self)@, did@, i)
                        &&& if (#[trigger] old(self)@[i]).status
                            == CredentialServiceStatus::Disabled.spec_code() {
                            pid is None && final(self)@ == old(self)@
                        } else {
                            &&& pid == old(self)@[i].pid
                            &&& issuer_update(
                                old(self)@,
                                final(self)@,
                                did@,
                                CredentialServiceStatus::Disabled.spec_code(),
                                old(self)@[i].service_address,
                                None,
                                now,
                            )
                        }
                    },
                Err(e) => {
                    &&& e == Error::RecordNotFound
                    &&& !has_did(old(self)@, did@)
                    &&& final(self)@ == old(self)@
                },
            },
    {
        let i = match self.find_index(did) {
            Some(i) => i,
            None => {
                return Err(Error::RecordNotFound);
            },
        };
        if self.issuers[i].status == CredentialServiceStatus::Disabled.status_code() {
            return Ok(None);
        }
        let pid = self.issuers[i].pid;
        let updated = VcIssuer {
            did: self.issuers[i].did.clone(),
            name: self.issuers[i].name.clone(),
            service_address: self.issuers[i].service_address,
            status: CredentialServiceStatus::Disabled.status_code(),
            pid: None,
            created_at: self.issuers[i].created_at,
            updated_at: now,
        };
        self.issuers.set(i, updated);
        proof {
            assert forall|j: int|
                0 <= j < old(self)@.len() && old(self)@[j].did@ == did@ implies j == i as int by {}
        }
        Ok(pid)
    }

    /// The boot-time reconciliation list: the DIDs of every issuer the
    /// store says should be running, each to be re-run with a forced
    /// restart.
    pub fn vc_issuer_service_restart(&self) -> (r: Vec<String>)
        ensures
            r.deep_view() == running_dids(self@),
    {
        let n = self.issuers.len();
        let mut r: Vec<String> = Vec::new();
        let mut i: usize = 0;
        while i < n
            invariant
                n == self@.len(),
                i <= n,
                r.deep_view() == running_dids(self@.take(i as int)),
            decreases n - i,
        {
            proof {
                assert(self@.take(i + 1 as int).drop_last() =~= self@.take(i as int));
                assert(self@.take(i + 1 as int).last() == self@[i as int]);
            }
            if self.issuers[i].status == CredentialServiceStatus::Running.status_code() {
                let ghost pre = r.deep_view();
                r.push(self.issuers[i].did.clone());
                proof {
                    assert(r.deep_view() =~= pre.push(self@[i as int].did@));
                }
            }
            i = i + 1;
        }
        proof {
            assert(self@.take(n as int) =~= self@);
        }
        r
    }

    /// Of the configured well-known issuer names, those that do not exist
    /// yet, first occurrence each: the ones a boot loads by generating a
    /// fresh DID and creating an issuer.
    pub fn load_predefined_vc_issuers(&self, names: &Vec<String>) -> (r: Vec<String>)
        ensures
            r.deep_view() == missing_names(self@, names.deep_view()),
    {
        let n = names.len();
        let mut r: Vec<String> = Vec::new();
        let mut i: usize = 0;
        while i < n
            invariant
                n == names@.len(),
                i <= n,
                r.deep_view() == missing_names(self@, names.deep_view().take(i as int)),
            decreases n - i,
        {
            proof {
                assert(names.deep_view().take(i + 1 as int).drop_last() =~= names.deep_view().take(
                    i as int,
                ));
                assert(names.deep_view().take(i + 1 as int).last() == names.deep_view()[i as int]);
                lemma_missing_names_contains(
                    self@,
                    names.deep_view().take(i as int),
                    names.deep_view()[i as int],
                );
            }
            let mut seen = self.contains_name(&names[i]);
            if !seen {
                seen = contains_string(&r, &names[i]);
            }
            if !seen {
                let ghost pre = r.deep_view();
                r.push(names[i].clone());
                proof {
                    assert(r.deep_view() =~= pre.push(names.deep_view()[i as int]));
                }
            }
            i = i + 1;
        }
        proof {
            assert(names.deep_view().take(n as int) =~= names.deep_view());
        }
        r
    }

    fn contains_name(&self, name: &String) -> (r: bool)
        ensures
            r == has_name(self@, name@),
    {
        let n = self.issuers.len();
        let mut i: usize = 0;
        while i < n
            invariant
                n == self@.len(),
                i <= n,
                forall|j: int| 0 <= j < i ==> (#[trigger] self@[j]).name@ != name@,
            decreases n - i,
        {
            if self.issuers[i].name == *name {
                return true;
            }
            i = i + 1;
        }
        false
    }
}

/// The DIDs of the issuers recorded as running, in registry order.
pub open spec fn running_dids(s: Seq<VcIssuer>) -> Seq<Seq<char>>
    decreases s.len(),
{
    if s.len() == 0 {
        Seq::empty()
    } else if s.last().status == CredentialServiceStatus::Running.spec_code() {
        running_dids(s.drop_last()).push(s.last().did@)
    } else {
        running_dids(s.drop_last())
    }
}

/// Of `names`, those without an issuer yet, first occurrence each, in order.
pub open spec fn missing_names(existing: Seq<VcIssuer>, names: Seq<Seq<char>>) -> Seq<Seq<char>>
    decreases names.len(),
{
    if names.len() == 0 {
        Seq::empty()
    } else if has_name(existing, names.last()) || names.drop_last().contains(names.last()) {
        missing_names(existing, names.drop_last())
    } else {
        missing_names(existing, names.drop_last()).push(names.last())
    }
}

/// A name is among the missing ones exactly where no issuer carries it and
/// it occurs in the configured list.
pub proof fn lemma_missing_names_contains(
    existing: Seq<VcIssuer>,
    names: Seq<Seq<char>>,
    x: Seq<char>,
)
    ensures
        missing_names(existing, names).contains(x) <==> (!has_name(existing, x)
            && names.contains(x)),
    decreases names.len(),
{
    if names.len() > 0 {
        let rest = names.drop_last();
        let l = names.last();
        lemma_missing_names_contains(existing, rest, x);
        let pre = missing_names(existing, rest);
        assert(names.contains(x) <==> (rest.contains(x) || x == l)) by {
            if rest.contains(x) {
                let k = choose|k: int| 0 <= k < rest.len() && rest[k] == x;
                assert(names[k] == x);
            }
            if x == l {
                assert(names[names.len() - 1] == x);
            }
            if names.contains(x) {
                let k = choose|k: int| 0 <= k < names.len() && names[k] == x;
                if k < names.len() - 1 {
                    assert(rest[k] == x);
                }
            }
        }
        if !(has_name(existing, l) || rest.contains(l)) {
            assert(pre.push(l).contains(x) <==> (pre.contains(x) || x == l)) by {
                if pre.contains(x) {
                    let k = choose|k: int| 0 <= k < pre.len() && pre[k] == x;
                    assert(pre.push(l)[k] == x);
                }
                if x == l {
                    assert(pre.push(l)[pre.len() as int] == x);
                }
                if pre.push(l).contains(x) {
                    let k = choose|k: int| 0 <= k < pre.push(l).len() && pre.push(l)[k] == x;
                    if k < pre.len() {
                        assert(pre[k] == x);
                    }
                }
            }
        }
    }
}

/// The plan `vc_issuer_service_run_plan` decides for one issuer row.
pub open spec fn spec_run_plan(
    all: Seq<VcIssuer>,
    issuer: VcIssuer,
    force_start: bool,
    start_port: u16,
) -> RunPlan {
    if !force_start && issuer.status == CredentialServiceStatus::Running.spec_code() {
        RunPlan::AlreadyRunning
    } else if issuer.service_address == 0 {
        if max_port(all) == 0 {
            RunPlan::Spawn { port: start_port }
        } else {
            RunPlan::Spawn { port: (max_port(all) + 1) as u16 }
        }
    } else {
        RunPlan::Spawn { port: issuer.service_address as u16 }
    }
}

fn contains_string(v: &Vec<String>, x: &String) -> (r: bool)
    ensures
        r == v.deep_view().contains(x@),
{
    let n = v.len();
    let mut i: usize = 0;
    while i < n
        invariant
            n == v@.len(),
            i <= n,
            forall|j: int| 0 <= j < i ==> v.deep_view()[j] != x@,
        decreases n - i,
    {
        if v[i] == *x {
            proof {
                assert(v.deep_view()[i as int] == x@);
            }
            return true;
        }
        i = i + 1;
    }
    proof {
        assert(v.deep_view().len() == v@.len());
    }
    false
}

} // verus!
