use lako::directory::{create_client, delete_client, delete_company, list_clients, list_companies};
use lako::error::AppError;
use lako::models::{ChangeClient, ChangeCompany, NewClient, NewCompany};
use lako::store::Store;

const NOW: i64 = 1_600_000_000;

fn new_client(owner: i32, name: &str, email: &str) -> NewClient {
    NewClient {
        user_id: owner,
        name: name.to_string(),
        email: email.to_string(),
        company_name: String::new(),
        address_1: String::new(),
        address_2: String::new(),
        city: String::new(),
        state: String::new(),
        zip_code: String::new(),
        country: String::new(),
        website: String::new(),
        notes: String::new(),
    }
}

fn no_client_changes() -> ChangeClient {
    ChangeClient {
        name: None,
        email: None,
        company_name: None,
        address_1: None,
        address_2: None,
        city: None,
        state: None,
        zip_code: None,
        country: None,
        website: None,
        notes: None,
    }
}

fn new_company(owner: i32, name: &str) -> NewCompany {
    NewCompany {
        user_id: owner,
        name: name.to_string(),
        address_1: String::new(),
        address_2: String::new(),
        city: String::new(),
        state: String::new(),
        zip_code: String::new(),
        country: String::new(),
    }
}

#[test]
fn create_client_validates_email() {
    let mut store = Store::new();
    let ok = create_client(&mut store, new_client(1, "ACME", "billing@acme.test"), NOW);
    assert!(ok.is_ok());

    let bad = create_client(&mut store, new_client(1, "NoAt", "not-an-email"), NOW);
    assert_eq!(bad.unwrap_err(), AppError::ValidationFailed);

    let unnamed = create_client(&mut store, new_client(1, "", "billing@acme.test"), NOW);
    assert_eq!(unnamed.unwrap_err(), AppError::ValidationFailed);
}

#[test]
fn client_ownership_isolation() {
    let mut store = Store::new();
    let a = create_client(&mut store, new_client(1, "Of user one", "a@acme.test"), NOW).unwrap();

    // User two cannot update, delete or list user one's client, and
    // the refusal reads "not found", never "forbidden".
    let mut changes = no_client_changes();
    changes.name = Some("stolen".to_string());
    assert_eq!(changes.update(&mut store, 2, a.id, NOW).unwrap_err(), AppError::NotFound);
    assert_eq!(delete_client(a.id, 2, &mut store), 0);
    let (rows, _) = list_clients(&store, 2, 1, None, None);
    assert!(rows.is_empty());

    // The row is untouched and still belongs to user one.
    let (rows, _) = list_clients(&store, 1, 1, None, None);
    assert_eq!(rows.len(), 1);
    assert_eq!(rows[0].name, "Of user one");
    assert_eq!(delete_client(a.id, 1, &mut store), 1);
}

#[test]
fn client_partial_update() {
    let mut store = Store::new();
    let a = create_client(&mut store, new_client(1, "Before", "a@acme.test"), NOW).unwrap();
    let mut changes = no_client_changes();
    changes.name = Some("After".to_string());
    let updated = changes.update(&mut store, 1, a.id, NOW + 5).unwrap();
    assert_eq!(updated.name, "After");
    assert_eq!(updated.email, "a@acme.test");
    assert_eq!(updated.user_id, 1);
    assert_eq!(updated.updated_at, NOW + 5);
}

#[test]
fn listing_is_newest_first_and_searchable() {
    let mut store = Store::new();
    create_client(&mut store, new_client(1, "Alpha", "a@x.test"), NOW).unwrap();
    create_client(&mut store, new_client(1, "alphonse", "b@x.test"), NOW + 1).unwrap();
    create_client(&mut store, new_client(1, "Beta", "c@x.test"), NOW + 2).unwrap();

    let (all, pages) = list_clients(&store, 1, 1, None, None);
    assert_eq!(pages, 1);
    let names: Vec<&str> = all.iter().map(|c| c.name.as_str()).collect();
    assert_eq!(names, vec!["Beta", "alphonse", "Alpha"]);

    // Prefix search folds ASCII case.
    let (hits, _) = list_clients(&store, 1, 1, None, Some("ALPH"));
    let names: Vec<&str> = hits.iter().map(|c| c.name.as_str()).collect();
    assert_eq!(names, vec!["alphonse", "Alpha"]);
}

#[test]
fn pagination_pages_and_counts() {
    let mut store = Store::new();
    for i in 0..7 {
        let name = format!("client{}", i);
        create_client(&mut store, new_client(1, &name, "a@x.test"), NOW + i).unwrap();
    }
    let (page1, pages) = list_clients(&store, 1, 1, Some(3), None);
    assert_eq!(pages, 3);
    assert_eq!(page1.len(), 3);
    assert_eq!(page1[0].name, "client6");
    let (page3, _) = list_clients(&store, 1, 3, Some(3), None);
    assert_eq!(page3.len(), 1);
    assert_eq!(page3[0].name, "client0");
    let (beyond, _) = list_clients(&store, 1, 4, Some(3), None);
    assert!(beyond.is_empty());
}

#[test]
fn per_page_is_capped_at_one_hundred() {
    let mut store = Store::new();
    for i in 0..101 {
        let name = format!("client{}", i);
        create_client(&mut store, new_client(1, &name, "a@x.test"), NOW + i).unwrap();
    }
    // Asking for a thousand rows a page silently serves one hundred.
    let (rows, pages) = list_clients(&store, 1, 1, Some(1000), None);
    assert_eq!(rows.len(), 100);
    assert_eq!(pages, 2);
}

#[test]
fn company_crud_mirrors_clients() {
    let mut store = Store::new();
    let c = new_company(1, "Lako GmbH").insert_company(&mut store, NOW).unwrap();
    assert_eq!(c.user_id, 1);

    let changes = ChangeCompany {
        name: Some("Lako AG".to_string()),
        address_1: None,
        address_2: None,
        city: None,
        state: None,
        zip_code: None,
        country: None,
    };
    assert_eq!(changes.update(&mut store, 2, c.id, NOW).unwrap_err(), AppError::NotFound);

    let changes = ChangeCompany {
        name: Some("Lako AG".to_string()),
        address_1: None,
        address_2: None,
        city: None,
        state: None,
        zip_code: None,
        country: None,
    };
    let updated = changes.update(&mut store, 1, c.id, NOW + 1).unwrap();
    assert_eq!(updated.name, "Lako AG");

    let (rows, pages) = list_companies(&store, 1, 1, Some(10), None);
    assert_eq!(rows.len(), 1);
    assert_eq!(pages, 1);

    assert_eq!(delete_company(c.id, 2, &mut store), 0);
    assert_eq!(delete_company(c.id, 1, &mut store), 1);
    assert_eq!(delete_company(c.id, 1, &mut store), 0);
}
