use joblog::context::GraphQLContext;
use joblog::data::FieldErr;
use joblog::db::{get_pool, Pool, DEFAULT_POOL_SIZE};
use joblog::graphql::{Mutation, Query};
use joblog::models::{VacancyInput, VacancyMutation};
use joblog::store::Store;

fn acme_input() -> VacancyInput {
    VacancyInput {
        company_logo: "logo.png".to_owned(),
        company: "Acme".to_owned(),
        title: "Engineer".to_owned(),
        description: "Build things.".to_owned(),
        location: "Remote".to_owned(),
        workplace_type: None,
        url: "https://jobs.acme.com/1".to_owned(),
        company_url: "https://acme.com".to_owned(),
        experience_level: None,
        contract_type: None,
        status: None,
    }
}

#[test]
fn acme_scenario_end_to_end() {
    let mut ctx = GraphQLContext::new(get_pool());

    let created = Mutation::create_vacancy(&mut ctx, acme_input()).unwrap();
    assert!(!created.uid.is_empty());
    assert_eq!(created.status.as_deref(), Some("Created"));
    assert!(created.date_created.is_some());

    assert!(Mutation::delete_vacancy(&mut ctx, created.uid.clone()).unwrap());
    assert!(Query::get_vacancy(&ctx, created.uid.clone()).unwrap().is_none());
}

#[test]
fn resolvers_delegate_one_to_one() {
    let mut ctx = GraphQLContext::new(get_pool());

    let created = Mutation::create_vacancy(&mut ctx, acme_input()).unwrap();
    let fetched = Query::get_vacancy(&ctx, created.uid.clone()).unwrap().unwrap();
    assert_eq!(fetched.uid, created.uid);
    assert_eq!(fetched.title, "Engineer");

    let updated = Mutation::update_vacancy(
        &mut ctx,
        VacancyMutation { uid: created.uid.clone(), status: Some("Reviewed".to_owned()) },
    )
    .unwrap();
    assert_eq!(updated.status.as_deref(), Some("Reviewed"));

    let listed = Query::all_vacancies(&ctx).unwrap();
    assert_eq!(listed.len(), 1);
    assert_eq!(listed[0].uid, created.uid);
    assert_eq!(listed[0].status.as_deref(), Some("Reviewed"));
}

#[test]
fn fresh_pool_has_default_size_and_empty_store() {
    let pool = get_pool();
    assert_eq!(pool.connections, DEFAULT_POOL_SIZE);
    assert_eq!(pool.store.count(), 0);
}

#[test]
fn exhausted_pool_is_a_recoverable_error() {
    let mut ctx = GraphQLContext::new(Pool::new(0, Store::new()));

    assert!(matches!(
        Query::all_vacancies(&ctx),
        Err(FieldErr::ResourceExhaustion)
    ));
    assert!(matches!(
        Query::get_vacancy(&ctx, "any".to_owned()),
        Err(FieldErr::ResourceExhaustion)
    ));
    assert!(matches!(
        Mutation::create_vacancy(&mut ctx, acme_input()),
        Err(FieldErr::ResourceExhaustion)
    ));
    assert!(matches!(
        Mutation::delete_vacancy(&mut ctx, "any".to_owned()),
        Err(FieldErr::ResourceExhaustion)
    ));
    assert!(matches!(
        Mutation::update_vacancy(
            &mut ctx,
            VacancyMutation { uid: "any".to_owned(), status: None }
        ),
        Err(FieldErr::ResourceExhaustion)
    ));
}
