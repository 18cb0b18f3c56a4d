//! The tables of the entity store: rows in the order of their insertion,
//! each under an id that the table gave it and gives to no other row.

use vstd::prelude::*;
use crate::models::schema::{
    Dbschema, DbschemaView, Dbschema_Branch, Dbschema_BranchView, Organization,
    OrganizationView, Package, PackageView, Package_Env, Package_EnvView, Service, ServiceView,
    Service_Envs, Service_EnvsView, Snapshots, SnapshotsView, Templates, TemplatesView,
};
use crate::query::{first_match, lemma_first_is, lemma_first_match, lemma_first_none, views};

verus! {

/// A row of a table: a record with the id that the store gave it.
pub trait Row: View + Sized {
    /// The id in what a row holds.
    spec fn key_of(v: Self::V) -> i64;

    /// The id of the row.
    fn id(&self) -> (r: i64)
        ensures
            r == Self::key_of(self@),
    ;
}

impl Row for Dbschema {
    open spec fn key_of(v: DbschemaView) -> i64 {
        v.id
    }

    fn id(&self) -> i64 {
        self.id
    }
}

impl Row for Dbschema_Branch {
    open spec fn key_of(v: Dbschema_BranchView) -> i64 {
        v.id
    }

    fn id(&self) -> i64 {
        self.id
    }
}

impl Row for Templates {
    open spec fn key_of(v: TemplatesView) -> i64 {
        v.id
    }

    fn id(&self) -> i64 {
        self.id
    }
}

impl Row for Service {
    open spec fn key_of(v: ServiceView) -> i64 {
        v.id
    }

    fn id(&self) -> i64 {
        self.id
    }
}

impl Row for Service_Envs {
    open spec fn key_of(v: Service_EnvsView) -> i64 {
        v.id
    }

    fn id(&self) -> i64 {
        self.id
    }
}

impl Row for Package {
    open spec fn key_of(v: PackageView) -> i64 {
        v.id
    }

    fn id(&self) -> i64 {
        self.id
    }
}

impl Row for Package_Env {
    open spec fn key_of(v: Package_EnvView) -> i64 {
        v.id
    }

    fn id(&self) -> i64 {
        self.id
    }
}

impl Row for Organization {
    open spec fn key_of(v: OrganizationView) -> i64 {
        v.id
    }

    fn id(&self) -> i64 {
        self.id
    }
}

impl Row for Snapshots {
    open spec fn key_of(v: SnapshotsView) -> i64 {
        v.id
    }

    fn id(&self) -> i64 {
        self.id
    }
}

/// The condition that a row has the given id.
pub open spec fn has_id<R: Row>(id: i64) -> spec_fn(R::V) -> bool {
    |v: R::V| R::key_of(v) == id
}

/// What a table holds: what its rows hold, in the order in which they
/// were inserted, and the id that the next row will get.
#[verifier::reject_recursive_types(R)]
pub struct TableState<R: Row> {
    pub rows: Seq<R::V>,
    pub next_id: i64,
}

impl<R: Row> TableState<R> {
    /// A table without rows, whose first row will get the id 1.
    pub open spec fn empty() -> Self {
        TableState { rows: Seq::empty(), next_id: 1 }
    }

    /// A table without rows, whose first row will get the given id, or the
    /// id 1 where the given one is below 1.
    pub open spec fn starting_at(first_id: i64) -> Self {
        TableState {
            rows: Seq::empty(),
            next_id: if first_id >= 1 {
                first_id
            } else {
                1
            },
        }
    }

    /// Ids start at 1, rise with the position of the row, and lie below
    /// the next id: no id is given twice.
    pub open spec fn wf(self) -> bool {
        &&& 1 <= self.next_id
        &&& forall|i: int|
            0 <= i < self.rows.len() ==> 1 <= R::key_of(#[trigger] self.rows[i]) < self.next_id
        &&& forall|i: int, j: int|
            0 <= i < j < self.rows.len() ==> R::key_of(#[trigger] self.rows[i]) < R::key_of(
                #[trigger] self.rows[j],
            )
    }

    /// Whether the table can still give out an id.
    pub open spec fn has_room(self) -> bool {
        self.next_id < i64::MAX
    }

    /// The position of the row with the given id.
    pub open spec fn position_of(self, id: i64) -> Option<int> {
        first_match(self.rows, has_id::<R>(id))
    }

    /// Whether the table has a row with the given id.
    pub open spec fn holds_id(self, id: i64) -> bool {
        exists|i: int| 0 <= i < self.rows.len() && R::key_of(#[trigger] self.rows[i]) == id
    }

    /// A row that the table has is found by its id, and a row that is found
    /// is one that the table has.
    pub proof fn lemma_position_holds(self, id: i64)
        ensures
            self.position_of(id) is Some <==> self.holds_id(id),
    {
        lemma_first_match(self.rows, has_id::<R>(id));
        if self.holds_id(id) {
            let i = choose|i: int| 0 <= i < self.rows.len() && R::key_of(#[trigger] self.rows[i]) == id;
            assert(has_id::<R>(id)(self.rows[i]));
        }
    }

    /// The ids of the rows of a table lie below the id that the next row
    /// will get.
    pub proof fn lemma_held_id_is_below_next(self, id: i64)
        requires
            self.wf(),
            self.holds_id(id),
        ensures
            1 <= id < self.next_id,
    {
    }

    /// A table with one more row has the rows that it had, and the new one.
    pub proof fn lemma_holds_id_appended(self, row: R::V, id: i64)
        requires
            self.holds_id(id) || id == R::key_of(row),
        ensures
            self.appended(row).holds_id(id),
    {
        let after = self.appended(row);
        if self.holds_id(id) {
            let i = choose|i: int| 0 <= i < self.rows.len() && R::key_of(#[trigger] self.rows[i]) == id;
            assert(after.rows[i] == self.rows[i]);
        } else {
            assert(after.rows[self.rows.len() as int] == row);
        }
    }

    /// A table in which a row has been replaced by one of the same id has
    /// the ids that it had.
    pub proof fn lemma_holds_id_replaced(self, k: int, row: R::V, id: i64)
        requires
            0 <= k < self.rows.len(),
            R::key_of(row) == R::key_of(self.rows[k]),
            self.holds_id(id),
        ensures
            self.replaced(k, row).holds_id(id),
    {
        let after = self.replaced(k, row);
        let i = choose|i: int| 0 <= i < self.rows.len() && R::key_of(#[trigger] self.rows[i]) == id;
        if i == k {
            assert(after.rows[k] == row);
        } else {
            assert(after.rows[i] == self.rows[i]);
        }
    }

    /// The table with one more row at its end, which has taken the next id.
    pub open spec fn appended(self, row: R::V) -> Self {
        TableState { rows: self.rows.push(row), next_id: (self.next_id + 1) as i64 }
    }

    /// The table with the row at one position replaced.
    pub open spec fn replaced(self, i: int, row: R::V) -> Self {
        TableState { rows: self.rows.update(i, row), next_id: self.next_id }
    }

    /// The table without the row at one position.
    pub open spec fn removed(self, i: int) -> Self {
        TableState { rows: self.rows.remove(i), next_id: self.next_id }
    }
}

/// A table of the store.
pub struct Table<R> {
    rows: Vec<R>,
    next_id: i64,
}

impl<R: Row> View for Table<R> {
    type V = TableState<R>;

    closed spec fn view(&self) -> TableState<R> {
        TableState { rows: views(self.rows@), next_id: self.next_id }
    }
}

impl<R: Row> Table<R> {
    /// An empty table, whose first row will get the id 1.
    pub fn new() -> (t: Self)
        ensures
            t@ == TableState::<R>::empty(),
            t@.wf(),
    {
        let t = Table { rows: Vec::new(), next_id: 1 };
        assert(t@.rows =~= Seq::empty());
        t
    }

    /// An empty table, whose first row will get the given id, or the id 1
    /// where the given one is below 1.
    pub fn starting_at(first_id: i64) -> (t: Self)
        ensures
            t@ == TableState::<R>::starting_at(first_id),
            t@.wf(),
    {
        let next_id = if first_id >= 1 {
            first_id
        } else {
            1
        };
        let t = Table { rows: Vec::new(), next_id };
        assert(t@.rows =~= Seq::empty());
        t
    }

    /// The number of rows.
    pub fn len(&self) -> (n: usize)
        ensures
            n == self@.rows.len(),
    {
        self.rows.len()
    }

    /// The row at a position.
    pub fn row(&self, i: usize) -> (r: &R)
        requires
            i < self@.rows.len(),
        ensures
            r@ == self@.rows[i as int],
    {
        &self.rows[i]
    }

    /// All rows, in the order in which they were inserted.
    pub fn rows(&self) -> (r: &Vec<R>)
        ensures
            views(r@) == self@.rows,
            r@.len() == self@.rows.len(),
            forall|i: int| 0 <= i < r@.len() ==> (#[trigger] r@[i])@ == self@.rows[i],
    {
        &self.rows
    }

    /// The id that the next row will get.
    pub fn next_id(&self) -> (id: i64)
        ensures
            id == self@.next_id,
    {
        self.next_id
    }

    /// Whether the table can still give out an id.
    pub fn has_room(&self) -> (b: bool)
        ensures
            b == self@.has_room(),
    {
        self.next_id < i64::MAX
    }

    /// The position of the row with the given id.
    pub fn index_of(&self, id: i64) -> (r: Option<usize>)
        ensures
            match r {
                Some(i) => self@.position_of(id) == Some(i as int),
                None => self@.position_of(id) is None,
            },
            r is Some <==> self@.holds_id(id),
    {
        proof {
            self@.lemma_position_holds(id);
        }
        let ghost p = has_id::<R>(id);
        let ghost held = self@.rows;
        let mut i: usize = 0;
        while i < self.rows.len()
            invariant
                i <= self.rows.len(),
                p == has_id::<R>(id),
                held == self@.rows,
                forall|j: int| 0 <= j < i ==> !p(#[trigger] held[j]),
            decreases self.rows.len() - i,
        {
            if self.rows[i].id() == id {
                proof {
                    lemma_first_is(held, p, i as int);
                }
                return Some(i);
            }
            i += 1;
        }
        proof {
            lemma_first_none(held, p);
        }
        None
    }

    /// Puts a row at the end of the table. The row carries the next id.
    pub fn append(&mut self, row: R)
        requires
            old(self)@.wf(),
            old(self)@.has_room(),
            R::key_of(row@) == old(self)@.next_id,
        ensures
            final(self)@ == old(self)@.appended(row@),
            final(self)@.wf(),
    {
        self.rows.push(row);
        self.next_id = self.next_id + 1;
        assert(self@.rows =~= old(self)@.rows.push(row@));
    }

    /// Replaces the row at a position by one with the same id.
    pub fn replace(&mut self, i: usize, row: R)
        requires
            old(self)@.wf(),
            i < old(self)@.rows.len(),
            R::key_of(row@) == R::key_of(old(self)@.rows[i as int]),
        ensures
            final(self)@ == old(self)@.replaced(i as int, row@),
            final(self)@.wf(),
    {
        self.rows.set(i, row);
        assert(self@.rows =~= old(self)@.rows.update(i as int, row@));
    }

    /// Takes the row at a position out of the table.
    pub fn remove(&mut self, i: usize) -> (row: R)
        requires
            old(self)@.wf(),
            i < old(self)@.rows.len(),
        ensures
            row@ == old(self)@.rows[i as int],
            final(self)@ == old(self)@.removed(i as int),
            final(self)@.wf(),
    {
        let row = self.rows.remove(i);
        assert(self@.rows =~= old(self)@.rows.remove(i as int));
        row
    }
}

} // verus!
