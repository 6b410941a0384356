//! The repository: the five operations against the vacancies table, and
//! every error-translation rule the service has.
//!
//! All store-outcome-to-field-result translation happens here, once: a
//! not-found condition on single-row lookups and deletes becomes a benign
//! value (`None` / `false`), every other store failure surfaces as a
//! `StoreError` carrying its detail, and a pool without a free connection
//! is reported as `ResourceExhaustion` by the layer above.

use vstd::prelude::*;
use crate::models::NewVacancy;
use crate::models::Vacancy;
use crate::models::VacancyInput;
use crate::models::VacancyMutation;
use crate::store::Store;
use crate::store::StoreOutcome;
use crate::store::contains_uid;
use crate::store::creation_stamp;
use crate::store::fresh_uid_in;
use crate::store::uid_index;
use crate::store::updated_row;

verus! {

/// A field-level error at the operation boundary: a store failure with
/// its detail message, or a pool with no free connection.
#[derive(Debug)]
pub enum FieldErr {
    StoreError(String),
    ResourceExhaustion,
}

/// The result a single query or mutation field resolves to.
pub type FieldResult<T> = Result<T, FieldErr>;

/// Detail text for a store-reported not-found condition that is not
/// softened into a benign value.
pub open spec fn not_found_text() -> Seq<char> {
    "record not found"@
}

/// Detail text for an insert that would violate the unique index on `uid`.
pub open spec fn duplicate_uid_text() -> Seq<char> {
    "duplicate uid"@
}

/// Detail text for a store that can assign no further key or tick.
pub open spec fn capacity_text() -> Seq<char> {
    "store capacity exhausted"@
}

/// Detail text for a delete whose affected-row count broke the
/// one-row-per-uid invariant.
pub open spec fn delete_miscount_text() -> Seq<char> {
    "delete affected an unexpected number of rows"@
}

/// The status every vacancy starts with when the caller supplies none.
pub open spec fn default_status_text() -> Seq<char> {
    "Created"@
}

fn not_found_detail() -> (s: String)
    ensures
        s@ == not_found_text(),
{
    "record not found".to_owned()
}

fn duplicate_uid_detail() -> (s: String)
    ensures
        s@ == duplicate_uid_text(),
{
    "duplicate uid".to_owned()
}

fn capacity_detail() -> (s: String)
    ensures
        s@ == capacity_text(),
{
    "store capacity exhausted".to_owned()
}

fn delete_miscount_detail() -> (s: String)
    ensures
        s@ == delete_miscount_text(),
{
    "delete affected an unexpected number of rows".to_owned()
}

fn default_status_value() -> (s: String)
    ensures
        s@ == default_status_text(),
{
    "Created".to_owned()
}

/// Relies on `uuid::Uuid::new_v4` and the `Display` form of `Uuid`: a
/// freshly drawn random version-4 UUID, rendered hyphenated — 36
/// characters, lowercase hex digits with hyphens at positions 8, 13, 18
/// and 23. Nothing more is assumed of the drawn value; in particular,
/// nothing here rules out a repeat draw.
#[verifier::external_body]
fn fresh_uid() -> (r: String)
    ensures
        r@.len() == 36,
        forall|i: int| 0 <= i < 36 ==> (r@[i] == '-' <==> (i == 8 || i == 13 || i == 18 || i == 23)),
        forall|i: int|
            0 <= i < 36 && r@[i] != '-' ==> ('0' <= r@[i] <= '9' || 'a' <= r@[i] <= 'f'),
{
    uuid::Uuid::new_v4().to_string()
}

/// Translates what a store statement reported into a field result, as
/// the schema layer expects it: a not-found condition is an error here
/// (the operations that soften it use [`translate_lookup`] instead).
pub fn graphql_translate<T>(res: StoreOutcome<T>) -> (r: FieldResult<T>)
    ensures
        res matches StoreOutcome::Found(t) ==> r == Result::<T, FieldErr>::Ok(t),
        res is NotFound ==> (r matches Result::Err(e) && e matches FieldErr::StoreError(m)
            && m@ == not_found_text()),
        res matches StoreOutcome::Fault(m) ==> r == Result::<T, FieldErr>::Err(
            FieldErr::StoreError(m),
        ),
{
    match res {
        StoreOutcome::Found(t) => Result::Ok(t),
        StoreOutcome::NotFound => Result::Err(FieldErr::StoreError(not_found_detail())),
        StoreOutcome::Fault(m) => Result::Err(FieldErr::StoreError(m)),
    }
}

/// Translates a single-row lookup outcome, softening the store's
/// not-found condition into a benign empty value rather than an error.
pub fn translate_lookup<T>(res: StoreOutcome<T>) -> (r: FieldResult<Option<T>>)
    ensures
        res matches StoreOutcome::Found(t) ==> r == Result::<Option<T>, FieldErr>::Ok(
            Option::Some(t),
        ),
        res is NotFound ==> r == Result::<Option<T>, FieldErr>::Ok(Option::None),
        res matches StoreOutcome::Fault(m) ==> r == Result::<Option<T>, FieldErr>::Err(
            FieldErr::StoreError(m),
        ),
{
    match res {
        StoreOutcome::Found(t) => Result::Ok(Option::Some(t)),
        StoreOutcome::NotFound => Result::Ok(Option::None),
        StoreOutcome::Fault(m) => Result::Err(FieldErr::StoreError(m)),
    }
}

/// Reads a delete statement's affected-row count: exactly one row gone
/// is success, none is the benign not-found answer, and anything else
/// broke the one-row-per-uid invariant and is reported as a store error.
pub fn rows_removed_to_result(n: usize) -> (r: FieldResult<bool>)
    ensures
        n == 1 ==> r == Result::<bool, FieldErr>::Ok(true),
        n == 0 ==> r == Result::<bool, FieldErr>::Ok(false),
        n >= 2 ==> (r matches Result::Err(e) && e matches FieldErr::StoreError(m) && m@
            == delete_miscount_text()),
{
    if n == 1 {
        Result::Ok(true)
    } else if n == 0 {
        Result::Ok(false)
    } else {
        Result::Err(FieldErr::StoreError(delete_miscount_detail()))
    }
}

/// True when the row carries exactly the caller-supplied fields of the
/// input (everything but `status` and the store-assigned parts).
pub open spec fn vacancy_matches_input(v: Vacancy, input: VacancyInput) -> bool {
    &&& v.company_logo == input.company_logo
    &&& v.company == input.company
    &&& v.title == input.title
    &&& v.description == input.description
    &&& v.location == input.location
    &&& v.workplace_type == input.workplace_type
    &&& v.url == input.url
    &&& v.company_url == input.company_url
    &&& v.experience_level == input.experience_level
    &&& v.contract_type == input.contract_type
}

/// True when the stored status is the caller's one, or the default when
/// the caller supplied none.
pub open spec fn status_defaulted(stored: Option<String>, given: Option<String>) -> bool {
    match given {
        Option::Some(g) => stored == Option::Some(g),
        Option::None => stored matches Option::Some(d) && d@ == default_status_text(),
    }
}

/// What a create with the drawn identifier `uid` did: when `uid` was
/// fresh and the store had capacity, exactly one new row was appended,
/// built from the input, with the store-assigned key and timestamps, and
/// returned as persisted; otherwise nothing changed and the constraint
/// violation surfaced as a store error.
pub open spec fn create_post(
    pre: Store,
    input: VacancyInput,
    uid: Seq<char>,
    post: Store,
    r: FieldResult<Vacancy>,
) -> bool {
    if fresh_uid_in(pre.rows(), uid) && pre.can_assign() {
        match r {
            Result::Ok(v) => {
                &&& v.uid@ == uid
                &&& vacancy_matches_input(v, input)
                &&& status_defaulted(v.status, input.status)
                &&& v.pk == pre.next_pk()
                &&& v.date_created == Option::Some(pre.clock())
                &&& v.date_modified == Option::Some(pre.clock())
                &&& post.rows() == pre.rows().push(v)
                &&& post.next_pk() == pre.next_pk() + 1
                &&& post.clock() == pre.clock() + 1
            },
            Result::Err(_) => false,
        }
    } else {
        &&& post == pre
        &&& match r {
            Result::Ok(_) => false,
            Result::Err(e) => e matches FieldErr::StoreError(m) && (if !fresh_uid_in(
                pre.rows(),
                uid,
            ) {
                m@ == duplicate_uid_text()
            } else {
                m@ == capacity_text()
            }),
        }
    }
}

/// What a single-row read reported: the one row carrying `uid`, or the
/// benign empty answer when no row does.
pub open spec fn get_post(s: Store, uid: Seq<char>, r: FieldResult<Option<Vacancy>>) -> bool {
    match r {
        Result::Ok(found) => match found {
            Option::Some(v) => contains_uid(s.rows(), uid) && s.rows().contains(v) && v.uid@
                == uid,
            Option::None => fresh_uid_in(s.rows(), uid),
        },
        Result::Err(_) => false,
    }
}

/// What a listing returned: every row, most recently created first.
pub open spec fn list_post(s: Store, listed: Seq<Vacancy>) -> bool {
    &&& listed.len() == s.rows().len()
    &&& forall|i: int|
        0 <= i < listed.len() ==> listed[i] == s.rows()[s.rows().len() - 1 - i]
}

/// What a delete did: the one row carrying `uid` removed and `true`
/// returned, or nothing changed and the benign `false` returned.
pub open spec fn delete_post(pre: Store, uid: Seq<char>, post: Store, r: FieldResult<
    bool,
>) -> bool {
    &&& post.next_pk() == pre.next_pk()
    &&& post.clock() == pre.clock()
    &&& if contains_uid(pre.rows(), uid) {
        &&& r == Result::<bool, FieldErr>::Ok(true)
        &&& post.rows() == pre.rows().remove(uid_index(pre.rows(), uid))
    } else {
        &&& r == Result::<bool, FieldErr>::Ok(false)
        &&& post.rows() == pre.rows()
    }
}

/// What a partial update did: the row carrying the mutation's `uid` got
/// the new status (or kept its own, when none was supplied) and a fresh
/// modification stamp, everything else untouched, and came back as now
/// persisted; a missing row is a store error here, deliberately not
/// softened the way `get` and `delete` soften it.
pub open spec fn update_post(pre: Store, m: VacancyMutation, post: Store, r: FieldResult<
    Vacancy,
>) -> bool {
    &&& post.next_pk() == pre.next_pk()
    &&& if contains_uid(pre.rows(), m.uid@) && pre.can_stamp() {
        let i = uid_index(pre.rows(), m.uid@);
        match r {
            Result::Ok(v) => {
                &&& updated_row(v, pre.rows()[i], m.status, pre.clock())
                &&& post.rows() == pre.rows().update(i, v)
                &&& post.clock() == pre.clock() + 1
            },
            Result::Err(_) => false,
        }
    } else if !pre.can_stamp() {
        &&& post == pre
        &&& (r matches Result::Err(e) && e matches FieldErr::StoreError(msg) && msg@
            == capacity_text())
    } else {
        &&& post == pre
        &&& (r matches Result::Err(e) && e matches FieldErr::StoreError(msg) && msg@
            == not_found_text())
    }
}

/// The query manager: every operation the schema roots delegate to, each
/// taking the store handle for the operation's duration.
pub struct Vacancies;

impl Vacancies {
    /// Lists every vacancy, most recently created first.
    pub fn all_vacancies(store: &Store) -> (r: FieldResult<Vec<Vacancy>>)
        ensures
            r matches Result::Ok(list) && list_post(*store, list@),
    {
        let res = StoreOutcome::Found(store.select_newest_first());
        graphql_translate(res)
    }

    /// Creates one vacancy: draws a fresh random identifier, defaults the
    /// status, and inserts through [`Vacancies::create_vacancy_with_uid`].
    /// Whatever identifier was drawn, the outcome satisfies `create_post`
    /// for it; a successful outcome always carries a 36-character `uid`.
    pub fn create_vacancy(store: &mut Store, new_vacancy: VacancyInput) -> (r: FieldResult<
        Vacancy,
    >)
        requires
            old(store).wf(),
        ensures
            final(store).wf(),
            exists|u: Seq<char>|
                u.len() == 36 && #[trigger] create_post(
                    *old(store),
                    new_vacancy,
                    u,
                    *final(store),
                    r,
                ),
            r matches Result::Ok(v) ==> v.uid@.len() == 36,
    {
        let uid = fresh_uid();
        Vacancies::create_vacancy_with_uid(store, new_vacancy, uid)
    }

    /// Creates one vacancy under the given identifier. The store's unique
    /// index on `uid` is checked first, so a collision surfaces as a
    /// store error and changes nothing.
    pub fn create_vacancy_with_uid(store: &mut Store, new_vacancy: VacancyInput, uid: String) -> (r:
        FieldResult<Vacancy>)
        requires
            old(store).wf(),
        ensures
            final(store).wf(),
            create_post(*old(store), new_vacancy, uid@, *final(store), r),
    {
        let present = match store.select_by_uid(&uid) {
            Option::Some(_) => true,
            Option::None => false,
        };
        if present {
            return graphql_translate(StoreOutcome::Fault(duplicate_uid_detail()));
        }
        if !store.can_assign_now() {
            return graphql_translate(StoreOutcome::Fault(capacity_detail()));
        }
        let new = NewVacancy {
            uid,
            company_logo: new_vacancy.company_logo,
            company: new_vacancy.company,
            title: new_vacancy.title,
            description: new_vacancy.description,
            location: new_vacancy.location,
            workplace_type: new_vacancy.workplace_type,
            url: new_vacancy.url,
            company_url: new_vacancy.company_url,
            experience_level: new_vacancy.experience_level,
            contract_type: new_vacancy.contract_type,
            status: match new_vacancy.status {
                Option::Some(s) => Option::Some(s),
                Option::None => Option::Some(default_status_value()),
            },
        };
        let v = store.insert(new);
        graphql_translate(StoreOutcome::Found(v))
    }

    /// Deletes the vacancy carrying `uid`, reading the affected-row count
    /// off the delete statement: one row gone is `true`, none is the
    /// benign `false`.
    pub fn delete_vacancy(store: &mut Store, uid: String) -> (r: FieldResult<bool>)
        requires
            old(store).wf(),
        ensures
            final(store).wf(),
            delete_post(*old(store), uid@, *final(store), r),
    {
        let n = store.delete_by_uid(&uid);
        rows_removed_to_result(n)
    }

    /// Reads the vacancy carrying `uid`; a missing row is the benign
    /// empty answer, not an error.
    pub fn get_vacancy(store: &Store, uid: String) -> (r: FieldResult<Option<Vacancy>>)
        requires
            store.wf(),
        ensures
            get_post(*store, uid@, r),
    {
        let res = match store.select_by_uid(&uid) {
            Option::Some(v) => StoreOutcome::Found(v),
            Option::None => StoreOutcome::NotFound,
        };
        translate_lookup(res)
    }

    /// Applies the partial update: only `status` is mutable through this
    /// path, the store refreshes `date_modified`, and the updated row
    /// comes back. A missing row is a store error.
    pub fn update_vacancy(store: &mut Store, update: VacancyMutation) -> (r: FieldResult<Vacancy>)
        requires
            old(store).wf(),
        ensures
            final(store).wf(),
            update_post(*old(store), update, *final(store), r),
    {
        if !store.can_stamp_now() {
            return graphql_translate(StoreOutcome::Fault(capacity_detail()));
        }
        let VacancyMutation { uid, status } = update;
        let res = match store.update_status_by_uid(&uid, status) {
            Option::Some(v) => StoreOutcome::Found(v),
            Option::None => StoreOutcome::NotFound,
        };
        graphql_translate(res)
    }
}

/// Round trip: a create that returned the row `v` appended exactly that
/// row, and any read of `v`'s identifier against the new store yields
/// `v` itself — with the caller-supplied fields intact, the status
/// defaulted, and the store-assigned parts filled in.
pub proof fn lemma_create_then_get_round_trip(
    pre: Store,
    input: VacancyInput,
    uid: Seq<char>,
    post: Store,
    v: Vacancy,
    r: FieldResult<Option<Vacancy>>,
)
    requires
        pre.wf(),
        create_post(pre, input, uid, post, Result::Ok(v)),
        get_post(post, v.uid@, r),
    ensures
        r == Result::<Option<Vacancy>, FieldErr>::Ok(Option::Some(v)),
        v.uid@ == uid,
        vacancy_matches_input(v, input),
        status_defaulted(v.status, input.status),
        v.pk == pre.next_pk(),
        v.date_created is Some,
        v.date_modified is Some,
{
    assert(fresh_uid_in(pre.rows(), uid) && pre.can_assign());
    let rows1 = post.rows();
    assert(rows1 == pre.rows().push(v));
    assert(rows1[rows1.len() - 1] == v);
    match r {
        Result::Ok(found) => match found {
            Option::Some(w) => {
                assert(rows1.contains(w));
                let k = choose|k: int| 0 <= k < rows1.len() && rows1[k] == w;
                if k < rows1.len() - 1 {
                    assert(rows1[k] == pre.rows()[k]);
                    assert(pre.rows()[k].uid@ != uid);
                    assert(false);
                }
                assert(w == v);
            },
            Option::None => {
                assert(rows1[rows1.len() - 1].uid@ == v.uid@);
                assert(false);
            },
        },
        Result::Err(_) => {
            assert(false);
        },
    }
}

/// Identifier uniqueness: two creates in a row that both succeeded gave
/// their rows distinct identifiers, whatever the inputs were.
pub proof fn lemma_created_uids_distinct(
    s0: Store,
    input1: VacancyInput,
    uid1: Seq<char>,
    s1: Store,
    v1: Vacancy,
    input2: VacancyInput,
    uid2: Seq<char>,
    s2: Store,
    v2: Vacancy,
)
    requires
        create_post(s0, input1, uid1, s1, Result::Ok(v1)),
        create_post(s1, input2, uid2, s2, Result::Ok(v2)),
    ensures
        v1.uid@ != v2.uid@,
{
    assert(s1.rows() == s0.rows().push(v1));
    assert(fresh_uid_in(s1.rows(), uid2));
    assert(s1.rows()[s1.rows().len() - 1] == v1);
    assert(s1.rows()[s1.rows().len() - 1].uid@ != uid2);
}

/// Absence is benign for reads: a `get` of an identifier no row carries
/// resolves to the empty answer, never to an error.
pub proof fn lemma_get_missing_is_benign(s: Store, uid: Seq<char>, r: FieldResult<Option<Vacancy>>)
    requires
        fresh_uid_in(s.rows(), uid),
        get_post(s, uid, r),
    ensures
        r == Result::<Option<Vacancy>, FieldErr>::Ok(Option::None),
{
    match r {
        Result::Ok(found) => match found {
            Option::Some(w) => {
                let k = uid_index(s.rows(), uid);
                assert(s.rows()[k].uid@ == uid);
                assert(false);
            },
            Option::None => {},
        },
        Result::Err(_) => {
            assert(false);
        },
    }
}

/// Absence is benign for deletes: a `delete` of an identifier no row
/// carries returns `false`, never an error, and changes nothing.
pub proof fn lemma_delete_missing_is_benign(
    pre: Store,
    uid: Seq<char>,
    post: Store,
    r: FieldResult<bool>,
)
    requires
        fresh_uid_in(pre.rows(), uid),
        delete_post(pre, uid, post, r),
    ensures
        r == Result::<bool, FieldErr>::Ok(false),
        post.rows() == pre.rows(),
{
    if contains_uid(pre.rows(), uid) {
        let k = uid_index(pre.rows(), uid);
        assert(pre.rows()[k].uid@ == uid);
        assert(false);
    }
}

/// Delete effectiveness: a delete of an identifier some row carried
/// returns `true`, and afterwards no row carries it — a subsequent read
/// resolves to the empty answer and the listing omits it.
pub proof fn lemma_delete_then_absent(
    pre: Store,
    uid: Seq<char>,
    post: Store,
    r: FieldResult<bool>,
    r2: FieldResult<Option<Vacancy>>,
    listed: Seq<Vacancy>,
)
    requires
        pre.wf(),
        contains_uid(pre.rows(), uid),
        delete_post(pre, uid, post, r),
        get_post(post, uid, r2),
        list_post(post, listed),
    ensures
        r == Result::<bool, FieldErr>::Ok(true),
        fresh_uid_in(post.rows(), uid),
        r2 == Result::<Option<Vacancy>, FieldErr>::Ok(Option::None),
        forall|k: int| 0 <= k < listed.len() ==> (#[trigger] listed[k]).uid@ != uid,
{
    let i = uid_index(pre.rows(), uid);
    assert(0 <= i < pre.rows().len() && pre.rows()[i].uid@ == uid);
    pre.rows().remove_ensures(i);
    assert(post.rows() == pre.rows().remove(i));
    assert forall|k: int|
        0 <= k < post.rows().len() implies (#[trigger] post.rows()[k]).uid@ != uid by {
        if k < i {
            assert(post.rows()[k] == pre.rows()[k]);
            assert(pre.rows()[k].uid@ != pre.rows()[i].uid@);
        } else {
            assert(post.rows()[k] == pre.rows()[k + 1]);
            assert(pre.rows()[i].uid@ != pre.rows()[k + 1].uid@);
        }
    }
    lemma_get_missing_is_benign(post, uid, r2);
    assert forall|k: int| 0 <= k < listed.len() implies (#[trigger] listed[k]).uid@ != uid by {
        assert(listed[k] == post.rows()[post.rows().len() - 1 - k]);
    }
}

/// List ordering: under the store invariant, the listing is strictly
/// descending in creation time — rows created later come first.
pub proof fn lemma_listing_newest_first(s: Store, listed: Seq<Vacancy>)
    requires
        s.wf(),
        list_post(s, listed),
    ensures
        forall|p: int, q: int|
            0 <= p < q < listed.len() ==> creation_stamp(#[trigger] listed[p]) > creation_stamp(
                #[trigger] listed[q],
            ),
{
    assert forall|p: int, q: int|
        0 <= p < q < listed.len() implies creation_stamp(#[trigger] listed[p]) > creation_stamp(
        #[trigger] listed[q],
    ) by {
        let n = s.rows().len();
        assert(listed[p] == s.rows()[n - 1 - p]);
        assert(listed[q] == s.rows()[n - 1 - q]);
        assert(creation_stamp(s.rows()[n - 1 - q]) < creation_stamp(s.rows()[n - 1 - p]));
    }
}

} // verus!
