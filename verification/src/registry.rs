//! The host registry: it owns the hosts, hands out their identifiers,
//! applies heartbeat outcomes and persists through a [`Repository`].
//!
//! The registry holds every host itself and writes each change through to
//! the backend before it takes effect: a change that the backend refuses
//! has not happened. After a restart [`Registry::load`] reads the hosts
//! back.
//!
//! Listing returns the last known state of each host. It never probes:
//! liveness changes only through [`Registry::refresh`].

use crate::host::{state_after, HeartbeatResult, Host, HostId, HostModel, HostState, Probe};
use crate::http::{offset_of, ErrorTrait, Pagination};
use crate::id::IdGenerator;
use crate::repository::{
    absent, find_row, ids_unique, lemma_named_by_id, models, page_of, total_of, window,
    HostIdent, PageList, Repository, StorageError,
};
use crate::enroll::Phase;
use crate::ssh::HostBuilder;
use vstd::prelude::*;

verus! {

/// Why the registry could not do what was asked.
#[derive(Debug)]
pub enum RegistryError {
    /// No host has the identifier given.
    NotFound,
    /// The enrollment handed in has not reached its end.
    NotEnrolled,
    /// A host with this identifier is already on record.
    Duplicate,
    /// The backend failed.
    Storage(StorageError),
}

impl ErrorTrait for RegistryError {
    /// What the backend said stays out of the message.
    open spec fn text(&self) -> Seq<char> {
        match self {
            RegistryError::NotFound => "host not found"@,
            RegistryError::NotEnrolled => "enrollment is not complete"@,
            RegistryError::Duplicate => "host id is taken"@,
            RegistryError::Storage(_) => "storage failure"@,
        }
    }

    fn message(&self) -> (s: String) {
        match self {
            RegistryError::NotFound => String::from_str("host not found"),
            RegistryError::NotEnrolled => String::from_str("enrollment is not complete"),
            RegistryError::Duplicate => String::from_str("host id is taken"),
            RegistryError::Storage(_) => String::from_str("storage failure"),
        }
    }
}

/// The registry of hosts over the backend `R`.
///
/// A registry starts without hosts, and no operation makes two hosts on
/// record share an identifier.
pub struct Registry<R: Repository> {
    pub repo: R,
    /// The hosts on record, in the order in which they came.
    pub rows: Vec<Host>,
    pub ids: IdGenerator,
    /// The port on which agents listen.
    pub agent_port: u16,
}

/// `at` is the place of the first of `rows` with the identifier `id`.
pub open spec fn is_first(rows: Seq<HostModel>, id: HostId, at: int) -> bool {
    0 <= at < rows.len() && rows[at].id == id && absent(rows.take(at), id)
}

/// The rows after the host at `at` was probed: its state is
/// [`state_after`] the probe, and nothing else is touched.
pub open spec fn probed(rows: Seq<HostModel>, at: int, success: bool) -> Seq<HostModel> {
    rows.update(at, HostModel { state: state_after(success), ..rows[at] })
}

/// The rows after `incoming` hosts were read back, in order: each is put
/// at the end unless its identifier is on record by then.
pub open spec fn merged(rows: Seq<HostModel>, incoming: Seq<HostModel>) -> Seq<HostModel>
    decreases incoming.len(),
{
    if incoming.len() == 0 {
        rows
    } else {
        let so_far = merged(rows, incoming.drop_last());
        if absent(so_far, incoming.last().id) {
            so_far.push(incoming.last())
        } else {
            so_far
        }
    }
}

impl<R: Repository> Registry<R> {
    /// The hosts on record.
    pub open spec fn hosts(&self) -> Seq<HostModel> {
        models(self.rows@)
    }

    /// A registry without hosts over `repo`, which draws identifiers from
    /// `ids` and probes agents on `agent_port`.
    pub fn new(repo: R, ids: IdGenerator, agent_port: u16) -> (registry: Registry<R>)
        ensures
            registry.hosts() == Seq::<HostModel>::empty(),
            ids_unique(registry.hosts()),
            registry.agent_port == agent_port,
    {
        let registry = Registry { repo, rows: Vec::new(), ids, agent_port };
        assert(registry.hosts() =~= Seq::<HostModel>::empty());
        registry
    }

    /// Takes hosts that were read back from storage on record, without
    /// writing them again. One whose identifier is already on record is
    /// passed over.
    pub fn restore(&mut self, hosts: &Vec<Host>)
        ensures
            final(self).agent_port == old(self).agent_port,
            final(self).hosts() == merged(old(self).hosts(), models(hosts@)),
            ids_unique(old(self).hosts()) ==> ids_unique(final(self).hosts()),
    {
        let mut i: usize = 0;
        assert(models(hosts@).take(0) =~= Seq::<HostModel>::empty());
        while i < hosts.len()
            invariant
                i <= hosts.len(),
                self.agent_port == old(self).agent_port,
                self.hosts() == merged(old(self).hosts(), models(hosts@).take(i as int)),
                ids_unique(old(self).hosts()) ==> ids_unique(self.hosts()),
            decreases hosts.len() - i,
        {
            let ghost so_far = self.hosts();
            proof {
                lemma_named_by_id(so_far, hosts@[i as int].id);
                assert(models(hosts@).take(i + 1).drop_last() =~= models(hosts@).take(i as int));
                assert(models(hosts@).take(i + 1).last() == hosts@[i as int]@);
            }
            let ghost next = models(hosts@).take(i + 1);
            match find_row(&self.rows, &HostIdent::Id(hosts[i].id)) {
                None => {
                    assert(absent(so_far, next.last().id));
                    self.rows.push(hosts[i].duplicate());
                    assert(self.hosts() =~= so_far.push(hosts@[i as int]@));
                    proof {
                        if ids_unique(so_far) {
                            lemma_recorded_ids_stay_unique(so_far, hosts@[i as int]@);
                        }
                    }
                },
                Some(k) => {
                    assert(so_far[k as int].id == next.last().id);
                    assert(!absent(so_far, next.last().id));
                },
            }
            assert(self.hosts() == merged(old(self).hosts(), next));
            i = i + 1;
        }
        assert(models(hosts@).take(hosts.len() as int) =~= models(hosts@));
    }

    /// Takes note of what the backend answered when asked for one page of
    /// the hosts it holds: the hosts of the page are taken on record as
    /// [`Registry::restore`] takes them, and the answer tells whether there
    /// may be more to read, which is so unless the page was empty. A
    /// failure of the backend is handed on, and nothing changes.
    pub fn settle_page(&mut self, answer: Result<PageList<Host>, StorageError>) -> (res: Result<
        bool,
        RegistryError,
    >)
        ensures
            final(self).agent_port == old(self).agent_port,
            ids_unique(old(self).hosts()) ==> ids_unique(final(self).hosts()),
            match answer {
                Err(e) => res == Err::<bool, RegistryError>(RegistryError::Storage(e))
                    && final(self).hosts() == old(self).hosts(),
                Ok(list) => res == Ok::<bool, RegistryError>(list.data.len() > 0)
                    && final(self).hosts() == merged(old(self).hosts(), models(list.data@)),
            },
    {
        match answer {
            Err(e) => Err(RegistryError::Storage(e)),
            Ok(list) => {
                self.restore(&list.data);
                Ok(list.data.len() > 0)
            },
        }
    }

    /// Reads the hosts back from the backend, page by page in pages of
    /// `page_size`, until a page comes back empty. Hosts already on record
    /// stay as they are, and come first. Each answer of the backend is
    /// dealt with as [`Registry::settle_page`] says; the first failure ends
    /// the reading, and what was read before it stays on record.
    pub fn load(&mut self, page_size: u16) -> (res: Result<(), RegistryError>)
        ensures
            final(self).agent_port == old(self).agent_port,
            old(self).hosts().len() <= final(self).hosts().len(),
            final(self).hosts().take(old(self).hosts().len() as int) == old(self).hosts(),
            ids_unique(old(self).hosts()) ==> ids_unique(final(self).hosts()),
            res matches Err(e) ==> e is Storage,
    {
        let mut page: u16 = 1;
        assert(self.hosts().take(self.hosts().len() as int) =~= self.hosts());
        loop
            invariant
                1 <= page,
                self.agent_port == old(self).agent_port,
                old(self).hosts().len() <= self.hosts().len(),
                self.hosts().take(old(self).hosts().len() as int) == old(self).hosts(),
                ids_unique(old(self).hosts()) ==> ids_unique(self.hosts()),
            decreases u16::MAX - page,
        {
            let ghost before = self.hosts();
            let answer = self.repo.list(&Pagination::new(page, page_size));
            proof {
                if answer is Ok {
                    let rows = models(answer->Ok_0.data@);
                    lemma_merged_extends(before, rows);
                    assert(merged(before, rows).take(old(self).hosts().len() as int)
                        =~= before.take(old(self).hosts().len() as int));
                }
            }
            match self.settle_page(answer) {
                Err(e) => {
                    return Err(e);
                },
                Ok(more) => {
                    if !more || page == u16::MAX {
                        return Ok(());
                    }
                },
            }
            page = page + 1;
        }
    }

    /// Takes note of what the backend answered to the saving of `host`:
    /// if it stored the host, and no host with that identifier is on
    /// record, the host is put on record at the end of the listing;
    /// otherwise nothing changes.
    pub fn settle_save(&mut self, host: Host, saved: Result<(), StorageError>) -> (res: Result<
        HostId,
        RegistryError,
    >)
        ensures
            final(self).agent_port == old(self).agent_port,
            ids_unique(old(self).hosts()) ==> ids_unique(final(self).hosts()),
            match saved {
                Err(e) => res == Err::<HostId, RegistryError>(RegistryError::Storage(e))
                    && final(self).hosts() == old(self).hosts(),
                Ok(_) => if absent(old(self).hosts(), host.id) {
                    res == Ok::<HostId, RegistryError>(host.id)
                        && final(self).hosts() == old(self).hosts().push(host@)
                } else {
                    res == Err::<HostId, RegistryError>(RegistryError::Duplicate)
                        && final(self).hosts() == old(self).hosts()
                },
            },
    {
        let id = host.id;
        proof {
            lemma_named_by_id(self.hosts(), id);
        }
        match saved {
            Err(e) => Err(RegistryError::Storage(e)),
            Ok(_) => match find_row(&self.rows, &HostIdent::Id(id)) {
                Some(k) => {
                    assert(self.hosts()[k as int].id == id);
                    Err(RegistryError::Duplicate)
                },
                None => {
                    proof {
                        if ids_unique(self.hosts()) {
                            lemma_recorded_ids_stay_unique(self.hosts(), host@);
                        }
                    }
                    self.rows.push(host);
                    assert(self.hosts() =~= old(self).hosts().push(host@));
                    Ok(id)
                },
            },
        }
    }

    /// Puts an enrolled host on record, at the end of the listing, once
    /// the backend has stored it. A host whose identifier is already on
    /// record is turned down, and the backend is not asked.
    pub fn record(&mut self, host: Host) -> (res: Result<HostId, RegistryError>)
        ensures
            final(self).agent_port == old(self).agent_port,
            ids_unique(old(self).hosts()) ==> ids_unique(final(self).hosts()),
            !absent(old(self).hosts(), host.id) <==> (res matches Err(RegistryError::Duplicate)),
            match res {
                Ok(id) => id == host.id && final(self).hosts() == old(self).hosts().push(host@),
                Err(e) => final(self).hosts() == old(self).hosts() && (e is Duplicate || e
                    is Storage),
            },
    {
        proof {
            lemma_named_by_id(self.hosts(), host.id);
        }
        match find_row(&self.rows, &HostIdent::Id(host.id)) {
            Some(k) => {
                assert(self.hosts()[k as int].id == host.id);
                Err(RegistryError::Duplicate)
            },
            None => {
                let saved = self.repo.save(&host);
                self.settle_save(host, saved)
            },
        }
    }

    /// Completes an enrollment: if it has reached [`Phase::Done`], a new
    /// host is put on record as `Running` under a fresh identifier, which
    /// is returned. An enrollment that has not reached its end leaves no
    /// record, and neither does one that the backend did not store.
    pub fn enroll(&mut self, builder: HostBuilder, phase: Phase) -> (res: Result<
        HostId,
        RegistryError,
    >)
        ensures
            final(self).agent_port == old(self).agent_port,
            ids_unique(old(self).hosts()) ==> ids_unique(final(self).hosts()),
            phase != Phase::Done ==> (res matches Err(RegistryError::NotEnrolled)),
            match res {
                Ok(id) => phase == Phase::Done && absent(old(self).hosts(), id)
                    && final(self).hosts() == old(self).hosts().push(
                    HostModel {
                        id,
                        name: builder@.name,
                        ip: builder@.ip,
                        state: HostState::Running,
                    },
                ),
                Err(e) => final(self).hosts() == old(self).hosts() && !(e is NotFound) && (e
                    is NotEnrolled <==> phase != Phase::Done),
            },
    {
        match phase {
            Phase::Done => {
                let id = HostId::next_id(&mut self.ids);
                match builder.build(phase, id) {
                    Some(host) => self.record(host),
                    None => Err(RegistryError::NotEnrolled),
                }
            },
            _ => Err(RegistryError::NotEnrolled),
        }
    }

    /// The host `id` as it is on record.
    pub fn get(&self, id: HostId) -> (found: Option<Host>)
        ensures
            match found {
                Some(host) => exists|at: int| #[trigger]
                    is_first(self.hosts(), id, at) && host@ == self.hosts()[at],
                None => absent(self.hosts(), id),
            },
    {
        proof {
            lemma_named_by_id(self.hosts(), id);
        }
        match find_row(&self.rows, &HostIdent::Id(id)) {
            Some(i) => {
                let host = self.rows[i].duplicate();
                proof {
                    lemma_first_by_id(self.hosts(), id, i as int);
                }
                Some(host)
            },
            None => None,
        }
    }

    /// The probe to send for the host `id`: to its address, on the agent
    /// port, saying `ping`.
    pub fn probe(&self, id: HostId) -> (res: Result<Probe, RegistryError>)
        ensures
            match res {
                Ok(req) => req.port == self.agent_port && req.message@ == "ping"@ && exists|
                    at: int,
                | #[trigger]
                    is_first(self.hosts(), id, at) && req.address@ == self.hosts()[at].ip,
                Err(e) => e is NotFound && absent(self.hosts(), id),
            },
    {
        match self.get(id) {
            Some(host) => Ok(host.probe(self.agent_port)),
            None => Err(RegistryError::NotFound),
        }
    }

    /// Takes note of what the backend answered to the storing of a probe's
    /// outcome for the host `id`: if it stored the change and the host is
    /// on record, the host's state becomes `Running` for a probe that was
    /// answered and `Disconnected` for one that was not; otherwise nothing
    /// changes.
    pub fn settle_update(
        &mut self,
        id: HostId,
        result: &HeartbeatResult,
        stored: Result<(), StorageError>,
    ) -> (res: Result<(), RegistryError>)
        ensures
            final(self).agent_port == old(self).agent_port,
            ids_unique(old(self).hosts()) ==> ids_unique(final(self).hosts()),
            match stored {
                Err(e) => res == Err::<(), RegistryError>(RegistryError::Storage(e))
                    && final(self).hosts() == old(self).hosts(),
                Ok(_) => if absent(old(self).hosts(), id) {
                    res == Err::<(), RegistryError>(RegistryError::NotFound)
                        && final(self).hosts() == old(self).hosts()
                } else {
                    res is Ok && exists|at: int| #[trigger]
                        is_first(old(self).hosts(), id, at) && final(self).hosts() == probed(
                            old(self).hosts(),
                            at,
                            result.success,
                        )
                },
            },
    {
        proof {
            lemma_named_by_id(self.hosts(), id);
        }
        match stored {
            Err(e) => Err(RegistryError::Storage(e)),
            Ok(_) => match find_row(&self.rows, &HostIdent::Id(id)) {
                None => Err(RegistryError::NotFound),
                Some(i) => {
                    proof {
                        lemma_first_by_id(self.hosts(), id, i as int);
                        lemma_refresh_keeps_identity(self.hosts(), i as int, result.success);
                    }
                    let mut host = self.rows[i].duplicate();
                    host.ping(result);
                    self.rows.set(i, host);
                    assert(self.hosts() =~= probed(old(self).hosts(), i as int, result.success));
                    Ok(())
                },
            },
        }
    }

    /// Records the outcome of a probe of the host `id`: its state becomes
    /// `Running` if the probe was answered and `Disconnected` if not,
    /// whatever it was; nothing else changes. A probe that failed is not
    /// an error here. An unknown identifier is, and so is a backend that
    /// did not store the change: then nothing has changed.
    pub fn refresh(&mut self, id: HostId, result: &HeartbeatResult) -> (res: Result<
        (),
        RegistryError,
    >)
        ensures
            final(self).agent_port == old(self).agent_port,
            ids_unique(old(self).hosts()) ==> ids_unique(final(self).hosts()),
            absent(old(self).hosts(), id) ==> (res matches Err(RegistryError::NotFound)),
            match res {
                Ok(_) => exists|at: int| #[trigger]
                    is_first(old(self).hosts(), id, at) && final(self).hosts() == probed(
                        old(self).hosts(),
                        at,
                        result.success,
                    ),
                Err(e) => final(self).hosts() == old(self).hosts() && (e is NotFound <==> absent(
                    old(self).hosts(),
                    id,
                )) && (e is NotFound || e is Storage),
            },
    {
        proof {
            lemma_named_by_id(self.hosts(), id);
        }
        match find_row(&self.rows, &HostIdent::Id(id)) {
            Some(i) => {
                assert(self.hosts()[i as int].id == id);
                let mut host = self.rows[i].duplicate();
                host.ping(result);
                let stored = self.repo.update(&host);
                self.settle_update(id, result, stored)
            },
            None => Err(RegistryError::NotFound),
        }
    }

    /// One page of the hosts on record, each in its last known state,
    /// with the number of all hosts on record, whichever page is asked
    /// for.
    pub fn list(&self, page: &Pagination) -> (list: PageList<Host>)
        ensures
            list.total == total_of(self.hosts().len()),
            models(list.data@) == window(
                self.hosts(),
                offset_of(page.page, page.page_size),
                page.page_size as nat,
            ),
    {
        page_of(&self.rows, page)
    }
}

proof fn lemma_first_by_id(rows: Seq<HostModel>, id: HostId, at: int)
    requires
        0 <= at < rows.len(),
        rows[at].id == id,
        crate::repository::unnamed(rows.take(at), HostIdent::Id(id)),
    ensures
        is_first(rows, id, at),
{
    lemma_named_by_id(rows.take(at), id);
}

/// Reading hosts back never disturbs what is on record: the rows before
/// are the first rows after.
pub proof fn lemma_merged_extends(rows: Seq<HostModel>, incoming: Seq<HostModel>)
    ensures
        rows.len() <= merged(rows, incoming).len(),
        merged(rows, incoming).take(rows.len() as int) == rows,
    decreases incoming.len(),
{
    if incoming.len() == 0 {
        assert(rows.take(rows.len() as int) =~= rows);
    } else {
        let so_far = merged(rows, incoming.drop_last());
        lemma_merged_extends(rows, incoming.drop_last());
        assert(merged(rows, incoming).take(rows.len() as int) =~= so_far.take(rows.len() as int));
    }
}

/// Putting a host on record under an identifier that is not yet held keeps
/// identifiers unique.
pub proof fn lemma_recorded_ids_stay_unique(rows: Seq<HostModel>, host: HostModel)
    requires
        ids_unique(rows),
        absent(rows, host.id),
    ensures
        ids_unique(rows.push(host)),
{
    let after = rows.push(host);
    assert forall|i: int, j: int|
        0 <= i < after.len() && 0 <= j < after.len() && i != j implies (#[trigger] after[i]).id
        != (#[trigger] after[j]).id by {
        if i < rows.len() {
            assert(after[i] == rows[i]);
        }
        if j < rows.len() {
            assert(after[j] == rows[j]);
        }
    }
}

/// Recording a probe never touches identity: every row keeps its place,
/// identifier, name and address, so identifiers stay unique; and no row
/// but the one probed changes at all.
pub proof fn lemma_refresh_keeps_identity(rows: Seq<HostModel>, at: int, success: bool)
    requires
        0 <= at < rows.len(),
    ensures
        probed(rows, at, success).len() == rows.len(),
        forall|i: int|
            0 <= i < rows.len() ==> (#[trigger] probed(rows, at, success)[i]).id == rows[i].id
                && probed(rows, at, success)[i].name == rows[i].name && probed(
                rows,
                at,
                success,
            )[i].ip == rows[i].ip,
        forall|i: int|
            0 <= i < rows.len() && i != at ==> #[trigger] probed(rows, at, success)[i] == rows[i],
        probed(rows, at, success)[at].state == state_after(success),
        ids_unique(rows) ==> ids_unique(probed(rows, at, success)),
{
    let after = probed(rows, at, success);
    if ids_unique(rows) {
        assert forall|i: int, j: int|
            0 <= i < after.len() && 0 <= j < after.len() && i != j implies (
        #[trigger] after[i]).id != (#[trigger] after[j]).id by {
            assert(after[i].id == rows[i].id);
            assert(after[j].id == rows[j].id);
        }
    }
}

/// The state on record after two probes of a host is the state after the
/// second alone: a reachable agent leaves it `Running`, an unreachable one
/// `Disconnected`, and what the first probe found leaves no trace.
pub proof fn lemma_refresh_forgets(rows: Seq<HostModel>, at: int, first: bool, second: bool)
    requires
        0 <= at < rows.len(),
    ensures
        probed(probed(rows, at, first), at, second) == probed(rows, at, second),
        probed(rows, at, true)[at].state == HostState::Running,
        probed(rows, at, false)[at].state == HostState::Disconnected,
{
    assert(probed(probed(rows, at, first), at, second) =~= probed(rows, at, second));
}

/// A page never holds more rows than its size, and the total reported
/// with it is the number of all rows, whichever page was asked for.
pub proof fn lemma_page_bounds(rows: Seq<HostModel>, page: Pagination)
    ensures
        window(rows, offset_of(page.page, page.page_size), page.page_size as nat).len()
            <= page.page_size,
        rows.len() <= i64::MAX ==> total_of(rows.len()) == rows.len(),
{
}

} // verus!
