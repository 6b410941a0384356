//! An explicit model of the service's relational store.
//!
//! `Store` stands for the vacancies table together with the store-managed
//! state around it: the surrogate-key sequence and a logical creation
//! clock that supplies the timestamps. Rows sit in insertion order, which
//! by the well-formedness invariant coincides with ascending creation
//! time. `StoreOutcome` stands for what a single store statement reports
//! back: a row, a distinguishable not-found condition, or a failure with
//! a detail message.

use vstd::prelude::*;
use crate::models::Vacancy;
use crate::models::NewVacancy;

verus! {

/// What one store statement reported: a value, no matching row, or a
/// store-level failure carrying its detail message.
#[derive(Debug)]
pub enum StoreOutcome<T> {
    Found(T),
    NotFound,
    Fault(String),
}

/// True when some row of `rows` carries the identifier `uid`.
pub open spec fn contains_uid(rows: Seq<Vacancy>, uid: Seq<char>) -> bool {
    exists|i: int| 0 <= i < rows.len() && rows[i].uid@ == uid
}

/// True when no row of `rows` carries the identifier `uid`.
pub open spec fn fresh_uid_in(rows: Seq<Vacancy>, uid: Seq<char>) -> bool {
    forall|i: int| 0 <= i < rows.len() ==> rows[i].uid@ != uid
}

/// The index of the row carrying `uid`; meaningful only when
/// `contains_uid(rows, uid)` holds, and then unique under row
/// well-formedness.
pub open spec fn uid_index(rows: Seq<Vacancy>, uid: Seq<char>) -> int {
    choose|i: int| 0 <= i < rows.len() && rows[i].uid@ == uid
}

/// The creation tick of a persisted row; meaningful once the store has
/// stamped the row.
pub open spec fn creation_stamp(v: Vacancy) -> int {
    v.date_created.unwrap() as int
}

/// No two rows carry the same identifier.
pub open spec fn uids_unique(rows: Seq<Vacancy>) -> bool {
    forall|p: int, q: int|
        #![trigger rows[p].uid@, rows[q].uid@]
        0 <= p < q < rows.len() ==> rows[p].uid@ != rows[q].uid@
}

/// Under unique identifiers, the row found at `i` is the one
/// `uid_index` names.
pub proof fn lemma_uid_index_of(rows: Seq<Vacancy>, uid: Seq<char>, i: int)
    requires
        uids_unique(rows),
        0 <= i < rows.len(),
        rows[i].uid@ == uid,
    ensures
        contains_uid(rows, uid),
        uid_index(rows, uid) == i,
{
    assert(contains_uid(rows, uid));
    let k = uid_index(rows, uid);
    assert(0 <= k < rows.len() && rows[k].uid@ == uid);
    if k < i {
        assert(rows[k].uid@ != rows[i].uid@);
    } else if i < k {
        assert(rows[i].uid@ != rows[k].uid@);
    }
}

/// The vacancies table: its rows in insertion order, the next surrogate
/// key, and the logical clock whose ticks serve as timestamps.
pub struct Store {
    rows: Vec<Vacancy>,
    next_pk: i32,
    clock: i64,
}

impl Store {
    /// The persisted rows, oldest first.
    pub closed spec fn rows(&self) -> Seq<Vacancy> {
        self.rows@
    }

    /// The surrogate key the next inserted row will receive.
    pub closed spec fn next_pk(&self) -> i32 {
        self.next_pk
    }

    /// The tick the next stamped row or update will receive.
    pub closed spec fn clock(&self) -> i64 {
        self.clock
    }

    /// Well-formedness: identifiers are unique, surrogate keys are
    /// assigned and bounded by the key sequence, and every row carries a
    /// creation stamp older than the clock, strictly increasing along the
    /// insertion order.
    pub open spec fn wf(&self) -> bool {
        &&& 0 <= self.next_pk()
        &&& 0 <= self.clock()
        &&& uids_unique(self.rows())
        &&& forall|i: int|
            0 <= i < self.rows().len() ==> 0 <= #[trigger] self.rows()[i].pk < self.next_pk()
        &&& forall|i: int|
            0 <= i < self.rows().len() ==> ((#[trigger] self.rows()[i].date_created) matches Option::Some(t)
                && t < self.clock())
        &&& forall|i: int, j: int|
            0 <= i < j < self.rows().len() ==> creation_stamp(self.rows()[i]) < creation_stamp(
                self.rows()[j],
            )
    }

    /// True while the store can still assign a fresh surrogate key and a
    /// fresh creation tick.
    pub open spec fn can_assign(&self) -> bool {
        self.next_pk() < i32::MAX && self.clock() < i64::MAX
    }

    /// True while the store can still assign a fresh modification tick.
    pub open spec fn can_stamp(&self) -> bool {
        self.clock() < i64::MAX
    }

    /// An empty table.
    pub fn new() -> (s: Store)
        ensures
            s.rows() == Seq::<Vacancy>::empty(),
            s.next_pk() == 0,
            s.clock() == 0,
            s.wf(),
    {
        Store { rows: Vec::new(), next_pk: 0, clock: 0 }
    }

    /// Executable mirror of [`Store::can_assign`].
    pub fn can_assign_now(&self) -> (b: bool)
        ensures
            b == self.can_assign(),
    {
        self.next_pk < i32::MAX && self.clock < i64::MAX
    }

    /// Executable mirror of [`Store::can_stamp`].
    pub fn can_stamp_now(&self) -> (b: bool)
        ensures
            b == self.can_stamp(),
    {
        self.clock < i64::MAX
    }

    /// The total row count.
    pub fn count(&self) -> (n: usize)
        ensures
            n == self.rows().len(),
    {
        self.rows.len()
    }

    /// Selects the row carrying `uid`, if any, as the store's select by
    /// unique key does.
    pub fn select_by_uid(&self, uid: &String) -> (r: Option<Vacancy>)
        requires
            self.wf(),
        ensures
            match r {
                Option::Some(v) => contains_uid(self.rows(), uid@) && self.rows().contains(v)
                    && v.uid@ == uid@,
                Option::None => fresh_uid_in(self.rows(), uid@),
            },
    {
        let n = self.rows.len();
        let mut i: usize = 0;
        while i < n
            invariant
                n == self.rows().len(),
                0 <= i <= n,
                forall|j: int| 0 <= j < i ==> self.rows()[j].uid@ != uid@,
            decreases n - i,
        {
            if self.rows[i].uid == *uid {
                return Option::Some(self.rows[i].clone());
            }
            i = i + 1;
        }
        Option::None
    }

    /// Loads every row, most recently created first: the reverse of the
    /// insertion order.
    pub fn select_newest_first(&self) -> (r: Vec<Vacancy>)
        ensures
            r@.len() == self.rows().len(),
            forall|i: int|
                0 <= i < r@.len() ==> r@[i] == self.rows()[self.rows().len() - 1 - i],
    {
        let n = self.rows.len();
        let mut r: Vec<Vacancy> = Vec::new();
        let mut i: usize = n;
        while i > 0
            invariant
                n == self.rows().len(),
                0 <= i <= n,
                r@.len() == n - i,
                forall|k: int| 0 <= k < r@.len() ==> r@[k] == self.rows()[n - 1 - k],
            decreases i,
        {
            i = i - 1;
            r.push(self.rows[i].clone());
        }
        r
    }

    /// Inserts one row: the store assigns the surrogate key and stamps
    /// both timestamps with the current tick, then returns the row as
    /// persisted. The caller upholds the unique index on `uid`.
    pub fn insert(&mut self, new: NewVacancy) -> (v: Vacancy)
        requires
            old(self).wf(),
            fresh_uid_in(old(self).rows(), new.uid@),
            old(self).can_assign(),
        ensures
            final(self).wf(),
            v.pk == old(self).next_pk(),
            v.uid == new.uid,
            v.company_logo == new.company_logo,
            v.company == new.company,
            v.title == new.title,
            v.description == new.description,
            v.location == new.location,
            v.workplace_type == new.workplace_type,
            v.url == new.url,
            v.company_url == new.company_url,
            v.experience_level == new.experience_level,
            v.contract_type == new.contract_type,
            v.status == new.status,
            v.date_created == Option::Some(old(self).clock()),
            v.date_modified == Option::Some(old(self).clock()),
            final(self).rows() == old(self).rows().push(v),
            final(self).next_pk() == old(self).next_pk() + 1,
            final(self).clock() == old(self).clock() + 1,
    {
        let row = Vacancy {
            pk: self.next_pk,
            uid: new.uid,
            company_logo: new.company_logo,
            company: new.company,
            title: new.title,
            description: new.description,
            location: new.location,
            workplace_type: new.workplace_type,
            url: new.url,
            company_url: new.company_url,
            date_created: Option::Some(self.clock),
            date_modified: Option::Some(self.clock),
            experience_level: new.experience_level,
            contract_type: new.contract_type,
            status: new.status,
        };
        let v = row.clone();
        self.rows.push(row);
        self.next_pk = self.next_pk + 1;
        self.clock = self.clock + 1;
        v
    }

    /// Deletes the row carrying `uid` and reports the affected-row count,
    /// as the store's delete-by-unique-key statement does: one when a row
    /// matched, zero when none did.
    pub fn delete_by_uid(&mut self, uid: &String) -> (n: usize)
        requires
            old(self).wf(),
        ensures
            final(self).wf(),
            final(self).next_pk() == old(self).next_pk(),
            final(self).clock() == old(self).clock(),
            contains_uid(old(self).rows(), uid@) ==> {
                let i = uid_index(old(self).rows(), uid@);
                &&& n == 1
                &&& 0 <= i < old(self).rows().len()
                &&& old(self).rows()[i].uid@ == uid@
                &&& final(self).rows() == old(self).rows().remove(i)
            },
            fresh_uid_in(old(self).rows(), uid@) ==> n == 0 && *final(self) == *old(self),
    {
        let ghost pre = self.rows@;
        let n = self.rows.len();
        let mut i: usize = 0;
        while i < n
            invariant
                *self == *old(self),
                old(self).wf(),
                pre == self.rows@,
                n == pre.len(),
                0 <= i <= n,
                forall|j: int| 0 <= j < i ==> pre[j].uid@ != uid@,
            decreases n - i,
        {
            if self.rows[i].uid == *uid {
                proof {
                    lemma_uid_index_of(pre, uid@, i as int);
                }
                self.rows.remove(i);
                proof {
                    lemma_remove_keeps_wf(*old(self), *self, i as int);
                }
                return 1;
            }
            i = i + 1;
        }
        0
    }

    /// Applies the partial update to the row carrying `uid`: replaces
    /// `status` when a new one is supplied, leaves it when not, refreshes
    /// `date_modified` with a fresh tick, and returns the row as now
    /// persisted. Reports the store's not-found condition as `None`.
    pub fn update_status_by_uid(&mut self, uid: &String, status: Option<String>) -> (r: Option<
        Vacancy,
    >)
        requires
            old(self).wf(),
            old(self).can_stamp(),
        ensures
            final(self).wf(),
            final(self).next_pk() == old(self).next_pk(),
            match r {
                Option::Some(v) => {
                    let i = uid_index(old(self).rows(), uid@);
                    &&& contains_uid(old(self).rows(), uid@)
                    &&& 0 <= i < old(self).rows().len()
                    &&& old(self).rows()[i].uid@ == uid@
                    &&& updated_row(v, old(self).rows()[i], status, old(self).clock())
                    &&& final(self).rows() == old(self).rows().update(i, v)
                    &&& final(self).clock() == old(self).clock() + 1
                },
                Option::None => fresh_uid_in(old(self).rows(), uid@) && *final(self) == *old(
                    self,
                ),
            },
    {
        let ghost pre = self.rows@;
        let n = self.rows.len();
        let mut i: usize = 0;
        while i < n
            invariant
                *self == *old(self),
                old(self).wf(),
                old(self).can_stamp(),
                pre == self.rows@,
                n == pre.len(),
                0 <= i <= n,
                forall|j: int| 0 <= j < i ==> pre[j].uid@ != uid@,
            decreases n - i,
        {
            if self.rows[i].uid == *uid {
                proof {
                    lemma_uid_index_of(pre, uid@, i as int);
                }
                let prev = self.rows[i].clone();
                let updated = Vacancy {
                    status: match status {
                        Option::Some(s) => Option::Some(s),
                        Option::None => prev.status,
                    },
                    date_modified: Option::Some(self.clock),
                    ..prev
                };
                let v = updated.clone();
                self.rows[i] = updated;
                self.clock = self.clock + 1;
                proof {
                    lemma_update_keeps_wf(*old(self), *self, i as int, v);
                }
                return Option::Some(v);
            }
            i = i + 1;
        }
        Option::None
    }
}

/// Removing one row keeps the store well-formed: every remaining row was
/// already there, in the same relative order.
proof fn lemma_remove_keeps_wf(pre: Store, post: Store, i: int)
    requires
        pre.wf(),
        0 <= i < pre.rows().len(),
        post.rows() == pre.rows().remove(i),
        post.next_pk() == pre.next_pk(),
        post.clock() == pre.clock(),
    ensures
        post.wf(),
{
    pre.rows().remove_ensures(i);
    assert forall|p: int, q: int|
        0 <= p < q < post.rows().len() implies post.rows()[p].uid@ != post.rows()[q].uid@
        && creation_stamp(post.rows()[p]) < creation_stamp(post.rows()[q]) by {
        let p0 = if p < i { p } else { p + 1 };
        let q0 = if q < i { q } else { q + 1 };
        assert(post.rows()[p] == pre.rows()[p0]);
        assert(post.rows()[q] == pre.rows()[q0]);
    }
    assert forall|p: int| 0 <= p < post.rows().len() implies 0 <= #[trigger] post.rows()[p].pk
        < post.next_pk() && (post.rows()[p].date_created matches Option::Some(t) && t
        < post.clock()) by {
        let p0 = if p < i { p } else { p + 1 };
        assert(post.rows()[p] == pre.rows()[p0]);
    }
}

/// Replacing one row by a version that keeps its identifier, surrogate
/// key and creation stamp keeps the store well-formed, also when the
/// clock has moved on by one tick.
proof fn lemma_update_keeps_wf(pre: Store, post: Store, i: int, v: Vacancy)
    requires
        pre.wf(),
        pre.clock() < i64::MAX,
        0 <= i < pre.rows().len(),
        v.uid@ == pre.rows()[i].uid@,
        v.pk == pre.rows()[i].pk,
        v.date_created == pre.rows()[i].date_created,
        post.rows() == pre.rows().update(i, v),
        post.next_pk() == pre.next_pk(),
        post.clock() == pre.clock() + 1,
    ensures
        post.wf(),
{
    assert forall|p: int, q: int|
        0 <= p < q < post.rows().len() implies post.rows()[p].uid@ != post.rows()[q].uid@
        && creation_stamp(post.rows()[p]) < creation_stamp(post.rows()[q]) by {
        assert(pre.rows()[p].uid@ != pre.rows()[q].uid@);
        assert(creation_stamp(pre.rows()[p]) < creation_stamp(pre.rows()[q]));
    }
    assert forall|p: int| 0 <= p < post.rows().len() implies 0 <= #[trigger] post.rows()[p].pk
        < post.next_pk() && (post.rows()[p].date_created matches Option::Some(t) && t
        < post.clock()) by {
        assert(0 <= pre.rows()[p].pk < pre.next_pk());
        assert(pre.rows()[p].date_created matches Option::Some(t) && t < pre.clock());
    }
}

/// How a row looks after the partial update: `status` replaced when the
/// mutation supplies one, kept when it does not; `date_modified` stamped
/// with the tick `t`; every other field exactly as before.
pub open spec fn updated_row(v: Vacancy, prev: Vacancy, status: Option<String>, t: i64) -> bool {
    &&& v.pk == prev.pk
    &&& v.uid == prev.uid
    &&& v.company_logo == prev.company_logo
    &&& v.company == prev.company
    &&& v.title == prev.title
    &&& v.description == prev.description
    &&& v.location == prev.location
    &&& v.workplace_type == prev.workplace_type
    &&& v.url == prev.url
    &&& v.company_url == prev.company_url
    &&& v.date_created == prev.date_created
    &&& v.date_modified == Option::Some(t)
    &&& v.experience_level == prev.experience_level
    &&& v.contract_type == prev.contract_type
    &&& v.status == (match status {
        Option::Some(s) => Option::Some(s),
        Option::None => prev.status,
    })
}

} // verus!
