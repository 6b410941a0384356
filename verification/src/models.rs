//! Entity shapes for the vacancy service.
//!
//! A `Vacancy` is a persisted row: a store-assigned surrogate key `pk`
//! (never exposed across the operation boundary), an immutable public
//! identifier `uid`, the caller-supplied description fields, and two
//! store-managed timestamps. Timestamps are held as ticks of the store's
//! logical creation clock (`Option<i64>`): the store assigns them on
//! insert and update, and the caller never supplies them.

use vstd::prelude::*;

verus! {

/// A persisted vacancy row, as returned by the repository.
#[derive(Debug)]
pub struct Vacancy {
    /// Store-assigned surrogate key; kept inside the repository boundary.
    pub pk: i32,
    /// Public identifier: assigned once at creation, immutable, unique.
    pub uid: String,
    pub company_logo: String,
    pub company: String,
    pub title: String,
    pub description: String,
    pub location: String,
    /// Documented by convention as "On-site" / "Hybrid" / "Remote"; open string.
    pub workplace_type: Option<String>,
    pub url: String,
    pub company_url: String,
    /// Set by the store when the row is inserted.
    pub date_created: Option<i64>,
    /// Set by the store when the row is inserted, refreshed on update.
    pub date_modified: Option<i64>,
    pub experience_level: Option<String>,
    pub contract_type: Option<String>,
    /// The only field mutable through the partial-update path.
    pub status: Option<String>,
}

/// A row ready for insertion: the caller-supplied fields plus the freshly
/// drawn `uid` and the already-defaulted `status`. The store supplies the
/// surrogate key and the timestamps.
#[derive(Debug)]
pub struct NewVacancy {
    pub uid: String,
    pub company_logo: String,
    pub company: String,
    pub title: String,
    pub description: String,
    pub location: String,
    pub workplace_type: Option<String>,
    pub url: String,
    pub company_url: String,
    pub experience_level: Option<String>,
    pub contract_type: Option<String>,
    pub status: Option<String>,
}

/// The caller's input to `createVacancy`: every required field, the three
/// optional classification fields, and an optional initial `status`.
#[derive(Debug)]
pub struct VacancyInput {
    pub company_logo: String,
    pub company: String,
    pub title: String,
    pub description: String,
    pub location: String,
    pub workplace_type: Option<String>,
    pub url: String,
    pub company_url: String,
    pub experience_level: Option<String>,
    pub contract_type: Option<String>,
    pub status: Option<String>,
}

/// The caller's input to `updateVacancy`: the row to touch, and the new
/// `status`. A `None` status leaves the stored status as it was; the store
/// still refreshes `date_modified`.
#[derive(Debug)]
pub struct VacancyMutation {
    pub uid: String,
    pub status: Option<String>,
}

/// Clones an optional string, preserving the value exactly.
fn clone_opt_string(o: &Option<String>) -> (r: Option<String>)
    ensures
        r == *o,
{
    match o {
        Option::Some(s) => Option::Some(s.clone()),
        Option::None => Option::None,
    }
}

impl Clone for Vacancy {
    fn clone(&self) -> (r: Self)
        ensures
            r == *self,
    {
        Vacancy {
            pk: self.pk,
            uid: self.uid.clone(),
            company_logo: self.company_logo.clone(),
            company: self.company.clone(),
            title: self.title.clone(),
            description: self.description.clone(),
            location: self.location.clone(),
            workplace_type: clone_opt_string(&self.workplace_type),
            url: self.url.clone(),
            company_url: self.company_url.clone(),
            date_created: self.date_created,
            date_modified: self.date_modified,
            experience_level: clone_opt_string(&self.experience_level),
            contract_type: clone_opt_string(&self.contract_type),
            status: clone_opt_string(&self.status),
        }
    }
}

} // verus!
