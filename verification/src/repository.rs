//! Persistence of hosts behind one interface, pages of a listing, and a
//! store that keeps its rows in memory.

use crate::host::{Host, HostId, HostModel};
use crate::http::{offset_of, Pagination};
use crate::text::concat3;
use vstd::prelude::*;

verus! {

/// A backend failure. What went wrong is the backend's business: the
/// detail is carried along and not looked into.
#[derive(Debug)]
pub struct StorageError {
    pub detail: String,
}

/// One page of a listing together with the number of rows in all.
#[derive(Debug)]
pub struct PageList<T> {
    pub total: i64,
    pub data: Vec<T>,
}

/// A query cut down to one window of its rows.
#[derive(Debug)]
pub struct Paginated<T> {
    pub query: T,
    pub offset: i64,
    pub limit: i64,
}

/// Anything that can be cut down to a window of rows.
pub trait Paginate: Sized {
    /// `self`, restricted to `limit` rows after the first `offset`.
    fn paginate(self, offset: i64, limit: i64) -> (page: Paginated<Self>)
        ensures
            page.query == self,
            page.offset == offset,
            page.limit == limit,
    ;
}

impl<T> Paginate for T {
    fn paginate(self, offset: i64, limit: i64) -> (page: Paginated<Self>) {
        Paginated { query: self, offset, limit }
    }
}

/// The text of a windowed query over the query `inner`: every row of the
/// window comes with the count of all rows of `inner`; the row limit is
/// bound first, the offset second.
pub open spec fn windowed_sql(inner: Seq<char>) -> Seq<char> {
    "SELECT *, COUNT(*) OVER () FROM ("@ + inner + ") t LIMIT ? OFFSET ?"@
}

impl Paginated<String> {
    /// The text of this query.
    pub fn to_sql(&self) -> (sql: String)
        ensures
            sql@ == windowed_sql(self.query@),
    {
        concat3("SELECT *, COUNT(*) OVER () FROM (", self.query.as_str(), ") t LIMIT ? OFFSET ?")
    }

    /// The values bound to the placeholders of the text, in order: the
    /// limit, then the offset.
    pub fn binds(&self) -> (values: (i64, i64))
        ensures
            values == (self.limit, self.offset),
    {
        (self.limit, self.offset)
    }
}

/// The first components of a sequence of pairs.
pub open spec fn firsts<T>(rows: Seq<(T, i64)>) -> Seq<T> {
    Seq::new(rows.len(), |i: int| rows[i].0)
}

/// The total that a page of counted rows reports: each row carries the
/// count of all rows, so the first row tells it; a page without rows
/// tells nothing and counts as zero.
pub open spec fn first_total<T>(rows: Seq<(T, i64)>) -> i64 {
    if rows.len() > 0 {
        rows[0].1
    } else {
        0
    }
}

/// The same elements in the opposite order.
pub fn reversed<T>(v: Vec<T>) -> (r: Vec<T>)
    ensures
        r@ == v@.reverse(),
{
    let ghost all = v@;
    let mut rest = v;
    let mut r: Vec<T> = Vec::new();
    while rest.len() > 0
        invariant
            rest@ == all.take(rest.len() as int),
            rest.len() <= all.len(),
            r.len() + rest.len() == all.len(),
            forall|j: int| 0 <= j < r.len() ==> r@[j] == all[all.len() - 1 - j],
        decreases rest.len(),
    {
        let last = rest.pop().unwrap();
        r.push(last);
    }
    assert(r@ =~= all.reverse());
    r
}

impl<T> PageList<T> {
    /// The page that a window of counted rows stands for.
    pub fn from(rows: Vec<(T, i64)>) -> (list: PageList<T>)
        ensures
            list.total == first_total(rows@),
            list.data@ == firsts(rows@),
    {
        let total = if rows.len() > 0 {
            rows[0].1
        } else {
            0
        };
        let ghost all = rows@;
        let mut rest = rows;
        let mut stack: Vec<T> = Vec::new();
        while rest.len() > 0
            invariant
                rest@ == all.take(rest.len() as int),
                rest.len() <= all.len(),
                stack.len() + rest.len() == all.len(),
                forall|j: int| 0 <= j < stack.len() ==> stack@[j] == all[all.len() - 1 - j].0,
            decreases rest.len(),
        {
            let row = rest.pop().unwrap();
            stack.push(row.0);
        }
        let data = reversed(stack);
        assert(data@ =~= firsts(all));
        PageList { total, data }
    }

    /// The same page with every row converted, or the first failure of
    /// the conversion. Rows are converted in order, and none after one
    /// that failed.
    pub fn try_convert<O, E, F: Fn(T) -> Result<O, E>>(self, convert: F) -> (res: Result<
        PageList<O>,
        E,
    >)
        requires
            forall|i: int| 0 <= i < self.data.len() ==> call_requires(convert, (self.data@[i],)),
        ensures
            res matches Ok(list) ==> list.total == self.total && list.data.len()
                == self.data.len() && forall|i: int|
                0 <= i < self.data.len() ==> call_ensures(
                    convert,
                    (self.data@[i],),
                    Ok::<O, E>(list.data@[i]),
                ),
            res matches Err(e) ==> exists|i: int|
                0 <= i < self.data.len() && call_ensures(
                    convert,
                    (#[trigger] self.data@[i],),
                    Err::<O, E>(e),
                ),
    {
        let ghost all = self.data@;
        let total = self.total;
        let mut rest = reversed(self.data);
        let mut out: Vec<O> = Vec::new();
        while rest.len() > 0
            invariant
                all == self.data@,
                rest@ == all.reverse().take(rest.len() as int),
                rest.len() <= all.len(),
                out.len() + rest.len() == all.len(),
                forall|i: int| 0 <= i < all.len() ==> call_requires(convert, (all[i],)),
                forall|j: int|
                    0 <= j < out.len() ==> call_ensures(convert, (all[j],), Ok::<O, E>(out@[j])),
            decreases rest.len(),
        {
            let ghost k = out.len() as int;
            let item = rest.pop().unwrap();
            assert(item == all[k]);
            match convert(item) {
                Ok(converted) => {
                    out.push(converted);
                },
                Err(e) => {
                    assert(0 <= k < all.len() && call_ensures(
                        convert,
                        (all[k],),
                        Err::<O, E>(e),
                    ));
                    return Err(e);
                },
            }
        }
        Ok(PageList { total, data: out })
    }
}

/// The models of a sequence of hosts.
pub open spec fn models(hosts: Seq<Host>) -> Seq<HostModel> {
    Seq::new(hosts.len(), |i: int| hosts[i]@)
}

/// No row has the identifier `id`.
pub open spec fn absent(rows: Seq<HostModel>, id: HostId) -> bool {
    forall|i: int| 0 <= i < rows.len() ==> (#[trigger] rows[i]).id != id
}

/// No two rows share an identifier.
pub open spec fn ids_unique(rows: Seq<HostModel>) -> bool {
    forall|i: int, j: int|
        0 <= i < rows.len() && 0 <= j < rows.len() && i != j ==> (#[trigger] rows[i]).id != (
        #[trigger] rows[j]).id
}

/// What a host is looked up by: its identifier or its address.
#[derive(Debug)]
pub enum HostIdent {
    Id(HostId),
    Ip(String),
}

impl HostIdent {
    /// Whether this names the host `row`.
    pub open spec fn names(&self, row: HostModel) -> bool {
        match self {
            HostIdent::Id(id) => row.id == *id,
            HostIdent::Ip(ip) => row.ip == ip@,
        }
    }

    /// Looking a host up by its identifier.
    pub fn from(id: HostId) -> (ident: HostIdent)
        ensures
            ident == HostIdent::Id(id),
    {
        HostIdent::Id(id)
    }

    fn fits(&self, host: &Host) -> (b: bool)
        ensures
            b == self.names(host@),
    {
        match self {
            HostIdent::Id(id) => host.id == *id,
            HostIdent::Ip(ip) => host.ip == *ip,
        }
    }
}

/// `ident` names none of `rows`.
pub open spec fn unnamed(rows: Seq<HostModel>, ident: HostIdent) -> bool {
    forall|i: int| 0 <= i < rows.len() ==> !ident.names(#[trigger] rows[i])
}

/// `row` is the first of `rows` that `ident` names.
pub open spec fn first_named(rows: Seq<HostModel>, ident: HostIdent, row: HostModel) -> bool {
    exists|i: int|
        0 <= i < rows.len() && #[trigger] rows[i] == row && ident.names(row) && unnamed(
            rows.take(i),
            ident,
        )
}

/// To be named by an identifier is to have it.
pub proof fn lemma_named_by_id(rows: Seq<HostModel>, id: HostId)
    ensures
        unnamed(rows, HostIdent::Id(id)) <==> absent(rows, id),
{
}

/// The rows with every row that has the identifier of `new` replaced by
/// `new`. Nothing moves, and no identifier changes.
pub open spec fn replaced(rows: Seq<HostModel>, new: HostModel) -> Seq<HostModel> {
    Seq::new(
        rows.len(),
        |i: int|
            if rows[i].id == new.id {
                new
            } else {
                rows[i]
            },
    )
}

/// The rows of one page: at most `limit` rows after the first `offset`,
/// fewer or none where the rows run out.
pub open spec fn window(rows: Seq<HostModel>, offset: nat, limit: nat) -> Seq<HostModel> {
    let from = if offset <= rows.len() {
        offset as int
    } else {
        rows.len() as int
    };
    let to = if offset + limit <= rows.len() {
        (offset + limit) as int
    } else {
        rows.len() as int
    };
    rows.subrange(from, to)
}

/// The number of rows as pages report it: the count itself, which a signed
/// 64-bit integer holds for any store that fits a machine.
pub open spec fn total_of(count: nat) -> i64 {
    if count <= i64::MAX {
        count as i64
    } else {
        i64::MAX
    }
}

/// The first row that `ident` names, by position.
pub fn find_row(rows: &Vec<Host>, ident: &HostIdent) -> (at: Option<usize>)
    ensures
        at matches Some(i) ==> i < rows.len() && ident.names(rows@[i as int]@) && unnamed(
            models(rows@).take(i as int),
            *ident,
        ),
        at is None ==> unnamed(models(rows@), *ident),
{
    let mut i: usize = 0;
    while i < rows.len()
        invariant
            i <= rows.len(),
            forall|j: int| 0 <= j < i ==> !ident.names(rows@[j]@),
        decreases rows.len() - i,
    {
        if ident.fits(&rows[i]) {
            return Some(i);
        }
        i = i + 1;
    }
    None
}

/// Storage of hosts, keyed by identifier: the interface behind which a
/// backend of any kind is plugged in. The registry works against it alone.
///
/// Nothing is promised of a backend here. Whoever calls one is prepared
/// for any answer.
pub trait Repository {
    /// The first host that `ident` names, if there is one.
    fn get(&self, ident: &HostIdent) -> (res: Result<Option<Host>, StorageError>);

    /// The page asked for, with the number of all rows.
    fn list(&self, page: &Pagination) -> (res: Result<PageList<Host>, StorageError>);

    /// Adds a host.
    fn save(&mut self, host: &Host) -> (res: Result<(), StorageError>);

    /// Overwrites the host that has the identifier of `host`.
    fn update(&mut self, host: &Host) -> (res: Result<(), StorageError>);
}

/// A backend that keeps its rows in memory, in the order in which they
/// were saved. It fails only where it must: on saving an identifier twice.
#[derive(Debug)]
pub struct MemoryRepository {
    pub rows: Vec<Host>,
}

/// The page of `rows` that `page` asks for.
pub fn page_of(rows: &Vec<Host>, page: &Pagination) -> (list: PageList<Host>)
    ensures
        list.total == total_of(rows.len() as nat),
        models(list.data@) == window(
            models(rows@),
            offset_of(page.page, page.page_size),
            page.page_size as nat,
        ),
{
    let n = rows.len();
    let offset = page.offset();
    let limit = page.limit();
    let from = if offset <= n {
        offset
    } else {
        n
    };
    let to = if limit <= n - from {
        from + limit
    } else {
        n
    };
    let mut data: Vec<Host> = Vec::new();
    let mut i = from;
    while i < to
        invariant
            from <= i <= to <= rows.len(),
            data.len() == i - from,
            forall|j: int| 0 <= j < data.len() ==> data@[j]@ == rows@[from + j]@,
        decreases to - i,
    {
        data.push(rows[i].duplicate());
        i = i + 1;
    }
    assert(models(data@) =~= window(
        models(rows@),
        offset_of(page.page, page.page_size),
        page.page_size as nat,
    ));
    let total: i64 = if (n as u64) <= 0x7fff_ffff_ffff_ffffu64 {
        n as i64
    } else {
        i64::MAX
    };
    PageList { total, data }
}

impl MemoryRepository {
    /// The rows held, in the order in which they are listed.
    pub open spec fn hosts(&self) -> Seq<HostModel> {
        models(self.rows@)
    }

    /// A store without rows.
    pub fn new() -> (store: MemoryRepository)
        ensures
            store.hosts() == Seq::<HostModel>::empty(),
    {
        let store = MemoryRepository { rows: Vec::new() };
        assert(models(store.rows@) =~= Seq::<HostModel>::empty());
        store
    }

    /// The number of rows.
    pub fn len(&self) -> (n: usize)
        ensures
            n == self.hosts().len(),
    {
        self.rows.len()
    }
}

impl Repository for MemoryRepository {
    /// Never fails.
    fn get(&self, ident: &HostIdent) -> (res: Result<Option<Host>, StorageError>)
        ensures
            res is Ok,
            res matches Ok(Some(host)) ==> first_named(self.hosts(), *ident, host@),
            res matches Ok(None) ==> unnamed(self.hosts(), *ident),
    {
        match find_row(&self.rows, ident) {
            Some(i) => {
                let host = self.rows[i].duplicate();
                assert(self.hosts()[i as int] == host@);
                Ok(Some(host))
            },
            None => Ok(None),
        }
    }

    /// Never fails; the total is the number of all rows, whichever page
    /// is asked for.
    fn list(&self, page: &Pagination) -> (res: Result<PageList<Host>, StorageError>)
        ensures
            res is Ok,
            res->Ok_0.total == total_of(self.hosts().len()),
            models(res->Ok_0.data@) == window(
                self.hosts(),
                offset_of(page.page, page.page_size),
                page.page_size as nat,
            ),
    {
        Ok(page_of(&self.rows, page))
    }

    /// Appends the host, unless its identifier is already held: then it
    /// fails and nothing changes.
    fn save(&mut self, host: &Host) -> (res: Result<(), StorageError>)
        ensures
            res is Ok <==> absent(old(self).hosts(), host.id),
            res is Ok ==> final(self).hosts() == old(self).hosts().push(host@),
            res is Err ==> final(self).hosts() == old(self).hosts(),
    {
        proof {
            lemma_named_by_id(self.hosts(), host.id);
        }
        match find_row(&self.rows, &HostIdent::Id(host.id)) {
            Some(i) => {
                assert(self.hosts()[i as int].id == host.id);
                Err(StorageError { detail: String::from_str("duplicate host id") })
            },
            None => {
                self.rows.push(host.duplicate());
                assert(self.hosts() =~= old(self).hosts().push(host@));
                Ok(())
            },
        }
    }

    /// Never fails: every row with the identifier of `host` becomes
    /// `host`; where there is none, nothing changes.
    fn update(&mut self, host: &Host) -> (res: Result<(), StorageError>)
        ensures
            res is Ok,
            final(self).hosts() == replaced(old(self).hosts(), host@),
    {
        let mut i: usize = 0;
        while i < self.rows.len()
            invariant
                i <= self.rows.len(),
                self.rows.len() == old(self).rows.len(),
                forall|j: int|
                    0 <= j < i ==> self.rows@[j]@ == replaced(old(self).hosts(), host@)[j],
                forall|j: int| i <= j < self.rows.len() ==> self.rows@[j] == old(self).rows@[j],
            decreases self.rows.len() - i,
        {
            if self.rows[i].id == host.id {
                self.rows.set(i, host.duplicate());
            }
            i = i + 1;
        }
        assert(self.hosts() =~= replaced(old(self).hosts(), host@));
        Ok(())
    }
}

} // verus!
