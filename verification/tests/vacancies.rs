use joblog::data::{
    graphql_translate, rows_removed_to_result, translate_lookup, FieldErr, Vacancies,
};
use joblog::models::{VacancyInput, VacancyMutation};
use joblog::store::{Store, StoreOutcome};

fn sample_input() -> VacancyInput {
    VacancyInput {
        company_logo: "logo.png".to_owned(),
        company: "Acme".to_owned(),
        title: "Engineer".to_owned(),
        description: "Build things.".to_owned(),
        location: "Remote".to_owned(),
        workplace_type: Some("Remote".to_owned()),
        url: "https://jobs.acme.com/1".to_owned(),
        company_url: "https://acme.com".to_owned(),
        experience_level: Some("Mid-Senior".to_owned()),
        contract_type: Some("Full-time".to_owned()),
        status: None,
    }
}

fn input_titled(title: &str) -> VacancyInput {
    let mut input = sample_input();
    input.title = title.to_owned();
    input
}

#[test]
fn create_then_get_round_trips() {
    let mut store = Store::new();
    let created = Vacancies::create_vacancy(&mut store, sample_input()).unwrap();
    assert_eq!(created.uid.len(), 36);
    assert!(created.date_created.is_some());
    assert!(created.date_modified.is_some());

    let fetched = Vacancies::get_vacancy(&store, created.uid.clone())
        .unwrap()
        .expect("created row must be readable");
    assert_eq!(fetched.uid, created.uid);
    assert_eq!(fetched.pk, created.pk);
    assert_eq!(fetched.company, "Acme");
    assert_eq!(fetched.company_logo, "logo.png");
    assert_eq!(fetched.title, "Engineer");
    assert_eq!(fetched.description, "Build things.");
    assert_eq!(fetched.location, "Remote");
    assert_eq!(fetched.workplace_type.as_deref(), Some("Remote"));
    assert_eq!(fetched.url, "https://jobs.acme.com/1");
    assert_eq!(fetched.company_url, "https://acme.com");
    assert_eq!(fetched.experience_level.as_deref(), Some("Mid-Senior"));
    assert_eq!(fetched.contract_type.as_deref(), Some("Full-time"));
    assert_eq!(fetched.status.as_deref(), Some("Created"));
    assert_eq!(fetched.date_created, created.date_created);
    assert_eq!(fetched.date_modified, created.date_modified);
}

#[test]
fn identical_inputs_get_distinct_uids() {
    let mut store = Store::new();
    let first = Vacancies::create_vacancy(&mut store, sample_input()).unwrap();
    let second = Vacancies::create_vacancy(&mut store, sample_input()).unwrap();
    assert_eq!(first.uid.len(), 36);
    assert_eq!(second.uid.len(), 36);
    assert_ne!(first.uid, second.uid);
}

#[test]
fn supplied_status_is_kept() {
    let mut store = Store::new();
    let mut input = sample_input();
    input.status = Some("Reviewed".to_owned());
    let created = Vacancies::create_vacancy(&mut store, input).unwrap();
    assert_eq!(created.status.as_deref(), Some("Reviewed"));
}

#[test]
fn missing_uid_is_benign() {
    let mut store = Store::new();
    let _ = Vacancies::create_vacancy(&mut store, sample_input()).unwrap();

    let fetched = Vacancies::get_vacancy(&store, "no-such-uid".to_owned()).unwrap();
    assert!(fetched.is_none());

    let deleted = Vacancies::delete_vacancy(&mut store, "no-such-uid".to_owned()).unwrap();
    assert!(!deleted);
    assert_eq!(store.count(), 1);
}

#[test]
fn delete_removes_the_row() {
    let mut store = Store::new();
    let kept = Vacancies::create_vacancy(&mut store, input_titled("Kept")).unwrap();
    let doomed = Vacancies::create_vacancy(&mut store, input_titled("Doomed")).unwrap();

    assert!(Vacancies::delete_vacancy(&mut store, doomed.uid.clone()).unwrap());
    assert!(Vacancies::get_vacancy(&store, doomed.uid.clone()).unwrap().is_none());

    let listed = Vacancies::all_vacancies(&store).unwrap();
    assert_eq!(listed.len(), 1);
    assert_eq!(listed[0].uid, kept.uid);

    assert!(!Vacancies::delete_vacancy(&mut store, doomed.uid).unwrap());
}

#[test]
fn listing_is_newest_first() {
    let mut store = Store::new();
    let a = Vacancies::create_vacancy(&mut store, input_titled("A")).unwrap();
    let b = Vacancies::create_vacancy(&mut store, input_titled("B")).unwrap();
    let c = Vacancies::create_vacancy(&mut store, input_titled("C")).unwrap();

    let listed = Vacancies::all_vacancies(&store).unwrap();
    let titles: Vec<&str> = listed.iter().map(|v| v.title.as_str()).collect();
    assert_eq!(titles, ["C", "B", "A"]);
    assert_eq!(listed[0].uid, c.uid);
    assert_eq!(listed[1].uid, b.uid);
    assert_eq!(listed[2].uid, a.uid);
}

#[test]
fn empty_store_lists_nothing() {
    let store = Store::new();
    let listed = Vacancies::all_vacancies(&store).unwrap();
    assert!(listed.is_empty());
}

#[test]
fn update_changes_only_status_and_modified_stamp() {
    let mut store = Store::new();
    let created = Vacancies::create_vacancy(&mut store, sample_input()).unwrap();

    let updated = Vacancies::update_vacancy(
        &mut store,
        VacancyMutation { uid: created.uid.clone(), status: Some("Reviewed".to_owned()) },
    )
    .unwrap();

    assert_eq!(updated.status.as_deref(), Some("Reviewed"));
    assert_ne!(updated.date_modified, created.date_modified);
    assert_eq!(updated.uid, created.uid);
    assert_eq!(updated.pk, created.pk);
    assert_eq!(updated.company, created.company);
    assert_eq!(updated.company_logo, created.company_logo);
    assert_eq!(updated.title, created.title);
    assert_eq!(updated.description, created.description);
    assert_eq!(updated.location, created.location);
    assert_eq!(updated.workplace_type, created.workplace_type);
    assert_eq!(updated.url, created.url);
    assert_eq!(updated.company_url, created.company_url);
    assert_eq!(updated.experience_level, created.experience_level);
    assert_eq!(updated.contract_type, created.contract_type);
    assert_eq!(updated.date_created, created.date_created);

    let fetched = Vacancies::get_vacancy(&store, created.uid.clone()).unwrap().unwrap();
    assert_eq!(fetched.status.as_deref(), Some("Reviewed"));
}

#[test]
fn update_without_status_keeps_it_but_restamps() {
    let mut store = Store::new();
    let created = Vacancies::create_vacancy(&mut store, sample_input()).unwrap();

    let updated = Vacancies::update_vacancy(
        &mut store,
        VacancyMutation { uid: created.uid.clone(), status: None },
    )
    .unwrap();

    assert_eq!(updated.status.as_deref(), Some("Created"));
    assert_ne!(updated.date_modified, created.date_modified);
}

#[test]
fn update_of_missing_uid_is_a_store_error() {
    let mut store = Store::new();
    let result = Vacancies::update_vacancy(
        &mut store,
        VacancyMutation { uid: "no-such-uid".to_owned(), status: Some("Reviewed".to_owned()) },
    );
    match result {
        Err(FieldErr::StoreError(detail)) => assert_eq!(detail, "record not found"),
        other => panic!("expected a store error, got {:?}", other),
    }
}

#[test]
fn duplicate_uid_is_a_store_error() {
    let mut store = Store::new();
    let created =
        Vacancies::create_vacancy_with_uid(&mut store, sample_input(), "fixed-uid".to_owned())
            .unwrap();
    assert_eq!(created.uid, "fixed-uid");

    let clash =
        Vacancies::create_vacancy_with_uid(&mut store, sample_input(), "fixed-uid".to_owned());
    match clash {
        Err(FieldErr::StoreError(detail)) => assert_eq!(detail, "duplicate uid"),
        other => panic!("expected a store error, got {:?}", other),
    }
    assert_eq!(store.count(), 1);
}

#[test]
fn translate_passes_rows_and_faults_through() {
    assert_eq!(graphql_translate(StoreOutcome::Found(7u32)).unwrap(), 7);
    match graphql_translate::<u32>(StoreOutcome::NotFound) {
        Err(FieldErr::StoreError(detail)) => assert_eq!(detail, "record not found"),
        other => panic!("expected a store error, got {:?}", other),
    }
    match graphql_translate::<u32>(StoreOutcome::Fault("boom".to_owned())) {
        Err(FieldErr::StoreError(detail)) => assert_eq!(detail, "boom"),
        other => panic!("expected a store error, got {:?}", other),
    }
}

#[test]
fn lookup_translation_softens_not_found() {
    assert_eq!(translate_lookup(StoreOutcome::Found(7u32)).unwrap(), Some(7));
    assert_eq!(translate_lookup::<u32>(StoreOutcome::NotFound).unwrap(), None);
    match translate_lookup::<u32>(StoreOutcome::Fault("boom".to_owned())) {
        Err(FieldErr::StoreError(detail)) => assert_eq!(detail, "boom"),
        other => panic!("expected a store error, got {:?}", other),
    }
}

#[test]
fn affected_row_counts_translate_exactly() {
    assert_eq!(rows_removed_to_result(1).unwrap(), true);
    assert_eq!(rows_removed_to_result(0).unwrap(), false);
    match rows_removed_to_result(2) {
        Err(FieldErr::StoreError(detail)) => {
            assert_eq!(detail, "delete affected an unexpected number of rows")
        }
        other => panic!("expected a store error, got {:?}", other),
    }
}
