//! The schema roots: `Query` and `Mutation`.
//!
//! Each field resolution acquires one connection from the context's
//! pool, delegates to the matching repository operation, and returns its
//! result verbatim — no further interpretation, wrapping or swallowing
//! of errors happens here. When the pool has no free connection, the
//! resolution fails with the recoverable `ResourceExhaustion` error
//! instead of aborting.

use vstd::prelude::*;
use crate::context::GraphQLContext;
use crate::data::FieldErr;
use crate::data::FieldResult;
use crate::data::Vacancies;
use crate::data::create_post;
use crate::data::delete_post;
use crate::data::get_post;
use crate::data::list_post;
use crate::data::update_post;
use crate::models::Vacancy;
use crate::models::VacancyInput;
use crate::models::VacancyMutation;

verus! {

/// The root query type.
pub struct Query;

impl Query {
    /// Delegates to [`Vacancies::all_vacancies`].
    pub fn all_vacancies(context: &GraphQLContext) -> (r: FieldResult<Vec<Vacancy>>)
        requires
            context.wf(),
        ensures
            context.pool.connections == 0 ==> (r matches Result::Err(e)
                && e is ResourceExhaustion),
            context.pool.connections > 0 ==> (r matches Result::Ok(list) && list_post(
                context.pool.store,
                list@,
            )),
    {
        if !context.pool.has_connection() {
            return Result::Err(FieldErr::ResourceExhaustion);
        }
        Vacancies::all_vacancies(&context.pool.store)
    }

    /// Delegates to [`Vacancies::get_vacancy`].
    pub fn get_vacancy(context: &GraphQLContext, uid: String) -> (r: FieldResult<Option<Vacancy>>)
        requires
            context.wf(),
        ensures
            context.pool.connections == 0 ==> (r matches Result::Err(e)
                && e is ResourceExhaustion),
            context.pool.connections > 0 ==> get_post(context.pool.store, uid@, r),
    {
        if !context.pool.has_connection() {
            return Result::Err(FieldErr::ResourceExhaustion);
        }
        Vacancies::get_vacancy(&context.pool.store, uid)
    }
}

/// The root mutation type.
pub struct Mutation;

impl Mutation {
    /// Delegates to [`Vacancies::create_vacancy`].
    pub fn create_vacancy(context: &mut GraphQLContext, input: VacancyInput) -> (r: FieldResult<
        Vacancy,
    >)
        requires
            old(context).wf(),
        ensures
            final(context).wf(),
            final(context).pool.connections == old(context).pool.connections,
            old(context).pool.connections == 0 ==> (r matches Result::Err(e)
                && e is ResourceExhaustion) && *final(context) == *old(context),
            old(context).pool.connections > 0 ==> exists|u: Seq<char>|
                u.len() == 36 && #[trigger] create_post(
                    old(context).pool.store,
                    input,
                    u,
                    final(context).pool.store,
                    r,
                ),
            r matches Result::Ok(v) ==> v.uid@.len() == 36,
    {
        if !context.pool.has_connection() {
            return Result::Err(FieldErr::ResourceExhaustion);
        }
        Vacancies::create_vacancy(&mut context.pool.store, input)
    }

    /// Delegates to [`Vacancies::delete_vacancy`].
    pub fn delete_vacancy(context: &mut GraphQLContext, uid: String) -> (r: FieldResult<bool>)
        requires
            old(context).wf(),
        ensures
            final(context).wf(),
            final(context).pool.connections == old(context).pool.connections,
            old(context).pool.connections == 0 ==> (r matches Result::Err(e)
                && e is ResourceExhaustion) && *final(context) == *old(context),
            old(context).pool.connections > 0 ==> delete_post(
                old(context).pool.store,
                uid@,
                final(context).pool.store,
                r,
            ),
    {
        if !context.pool.has_connection() {
            return Result::Err(FieldErr::ResourceExhaustion);
        }
        Vacancies::delete_vacancy(&mut context.pool.store, uid)
    }

    /// Delegates to [`Vacancies::update_vacancy`].
    pub fn update_vacancy(context: &mut GraphQLContext, input: VacancyMutation) -> (r: FieldResult<
        Vacancy,
    >)
        requires
            old(context).wf(),
        ensures
            final(context).wf(),
            final(context).pool.connections == old(context).pool.connections,
            old(context).pool.connections == 0 ==> (r matches Result::Err(e)
                && e is ResourceExhaustion) && *final(context) == *old(context),
            old(context).pool.connections > 0 ==> update_post(
                old(context).pool.store,
                input,
                final(context).pool.store,
                r,
            ),
    {
        if !context.pool.has_connection() {
            return Result::Err(FieldErr::ResourceExhaustion);
        }
        Vacancies::update_vacancy(&mut context.pool.store, input)
    }
}

} // verus!
