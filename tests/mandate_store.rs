use mandate_audit::mandate::{Mandate, MandateNew, MandateStatus, MandateUpdateInternal, StorageError};
use mandate_audit::store::{MandatePredicate, MandateStore};

fn new_mandate(merchant: &str, mandate: &str, customer: &str) -> MandateNew {
    MandateNew {
        mandate_id: mandate.to_string(),
        customer_id: customer.to_string(),
        merchant_id: merchant.to_string(),
        connector_mandate_id: None,
        mandate_status: MandateStatus::Pending,
        mandate_amount: Some(1000),
        mandate_currency: Some("USD".to_string()),
        amount_captured: None,
        created_at: 1_700_000_000,
    }
}

fn record(n: &MandateNew) -> Mandate {
    n.clone().into_record()
}

#[test]
fn insert_then_lookup_returns_inserted_record() {
    let mut store = MandateStore::new();
    let n = new_mandate("m1", "man_1", "c1");
    let inserted = n.clone().insert(&mut store).unwrap();
    assert_eq!(inserted, record(&n));
    let found = Mandate::find_by_merchant_id_mandate_id(&store, "m1", "man_1").unwrap();
    assert_eq!(found, record(&n));
    assert_eq!(store.len(), 1);
}

#[test]
fn lookup_is_exact_match_only() {
    let mut store = MandateStore::new();
    new_mandate("m1", "man_1", "c1").insert(&mut store).unwrap();
    assert_eq!(
        Mandate::find_by_merchant_id_mandate_id(&store, "m2", "man_1"),
        Err(StorageError::NotFound)
    );
    assert_eq!(
        Mandate::find_by_merchant_id_mandate_id(&store, "m1", "man_"),
        Err(StorageError::NotFound)
    );
    assert_eq!(
        Mandate::find_by_merchant_id_mandate_id(&store, "m1", "man_1x"),
        Err(StorageError::NotFound)
    );
}

#[test]
fn duplicate_insert_conflicts_and_keeps_first() {
    let mut store = MandateStore::new();
    let first = new_mandate("m1", "man_1", "c1");
    first.clone().insert(&mut store).unwrap();
    let mut second = new_mandate("m1", "man_1", "c2");
    second.mandate_status = MandateStatus::Active;
    assert_eq!(second.insert(&mut store), Err(StorageError::Conflict));
    assert_eq!(store.len(), 1);
    let found = Mandate::find_by_merchant_id_mandate_id(&store, "m1", "man_1").unwrap();
    assert_eq!(found, record(&first));
}

#[test]
fn same_mandate_id_under_other_merchant_is_allowed() {
    let mut store = MandateStore::new();
    new_mandate("m1", "man_1", "c1").insert(&mut store).unwrap();
    assert!(new_mandate("m2", "man_1", "c1").insert(&mut store).is_ok());
    assert_eq!(store.len(), 2);
}

#[test]
fn duplicate_connector_mandate_id_conflicts() {
    let mut store = MandateStore::new();
    let mut a = new_mandate("m1", "man_1", "c1");
    a.connector_mandate_id = Some("conn_abc".to_string());
    a.insert(&mut store).unwrap();
    let mut b = new_mandate("m1", "man_2", "c1");
    b.connector_mandate_id = Some("conn_abc".to_string());
    assert_eq!(b.insert(&mut store), Err(StorageError::Conflict));
    let mut c = new_mandate("m2", "man_2", "c1");
    c.connector_mandate_id = Some("conn_abc".to_string());
    assert!(c.insert(&mut store).is_ok());
    // Absent connector ids never collide.
    assert!(new_mandate("m1", "man_3", "c1").insert(&mut store).is_ok());
    assert!(new_mandate("m1", "man_4", "c1").insert(&mut store).is_ok());
}

#[test]
fn update_sets_connector_id_and_status() {
    let mut store = MandateStore::new();
    new_mandate("m1", "man_1", "c1").insert(&mut store).unwrap();
    let found = Mandate::find_by_merchant_id_mandate_id(&store, "m1", "man_1").unwrap();
    assert_eq!(found.mandate_status, MandateStatus::Pending);
    let patch = MandateUpdateInternal {
        mandate_status: Some(MandateStatus::Active),
        connector_mandate_id: Some("conn_abc".to_string()),
        amount_captured: None,
    };
    let updated = Mandate::update_by_merchant_id_mandate_id(&mut store, "m1", "man_1", patch).unwrap();
    assert_eq!(updated.mandate_status, MandateStatus::Active);
    assert_eq!(updated.connector_mandate_id, Some("conn_abc".to_string()));
    assert_eq!(updated.mandate_amount, Some(1000));
    let by_connector =
        Mandate::find_by_merchant_id_connector_mandate_id(&store, "m1", "conn_abc").unwrap();
    assert_eq!(by_connector.mandate_status, MandateStatus::Active);
    assert_eq!(by_connector.mandate_id, "man_1");
    assert_eq!(by_connector, updated);
}

#[test]
fn update_of_missing_key_is_not_found_and_changes_nothing() {
    let mut store = MandateStore::new();
    let n = new_mandate("m1", "man_1", "c1");
    n.clone().insert(&mut store).unwrap();
    let patch = MandateUpdateInternal {
        mandate_status: Some(MandateStatus::Revoked),
        connector_mandate_id: None,
        amount_captured: None,
    };
    assert_eq!(
        Mandate::update_by_merchant_id_mandate_id(&mut store, "m1", "man_missing", patch),
        Err(StorageError::NotFound)
    );
    assert_eq!(store.len(), 1);
    assert_eq!(
        Mandate::find_by_merchant_id_mandate_id(&store, "m1", "man_missing"),
        Err(StorageError::NotFound)
    );
    let found = Mandate::find_by_merchant_id_mandate_id(&store, "m1", "man_1").unwrap();
    assert_eq!(found, record(&n));
}

#[test]
fn update_on_empty_store_is_not_found() {
    let mut store = MandateStore::new();
    let patch = MandateUpdateInternal {
        mandate_status: Some(MandateStatus::Active),
        connector_mandate_id: None,
        amount_captured: None,
    };
    assert_eq!(
        Mandate::update_by_merchant_id_mandate_id(&mut store, "m1", "man_1", patch),
        Err(StorageError::NotFound)
    );
    assert_eq!(store.len(), 0);
}

#[test]
fn update_to_taken_connector_id_conflicts() {
    let mut store = MandateStore::new();
    let mut a = new_mandate("m1", "man_1", "c1");
    a.connector_mandate_id = Some("conn_abc".to_string());
    a.insert(&mut store).unwrap();
    let b = new_mandate("m1", "man_2", "c1");
    b.clone().insert(&mut store).unwrap();
    let patch = MandateUpdateInternal {
        mandate_status: Some(MandateStatus::Active),
        connector_mandate_id: Some("conn_abc".to_string()),
        amount_captured: None,
    };
    assert_eq!(
        Mandate::update_by_merchant_id_mandate_id(&mut store, "m1", "man_2", patch),
        Err(StorageError::Conflict)
    );
    let found = Mandate::find_by_merchant_id_mandate_id(&store, "m1", "man_2").unwrap();
    assert_eq!(found, record(&b));
    // Re-setting a row's own connector id is no conflict.
    let same = MandateUpdateInternal {
        mandate_status: None,
        connector_mandate_id: Some("conn_abc".to_string()),
        amount_captured: Some(250),
    };
    let updated = Mandate::update_by_merchant_id_mandate_id(&mut store, "m1", "man_1", same).unwrap();
    assert_eq!(updated.amount_captured, Some(250));
    assert_eq!(updated.mandate_status, MandateStatus::Pending);
}

#[test]
fn successive_updates_leave_last_patch() {
    let mut store = MandateStore::new();
    new_mandate("m1", "man_1", "c1").insert(&mut store).unwrap();
    let patches = vec![
        (MandateStatus::Active, 10),
        (MandateStatus::Inactive, 20),
        (MandateStatus::Revoked, 30),
    ];
    for (status, captured) in &patches {
        let patch = MandateUpdateInternal {
            mandate_status: Some(*status),
            connector_mandate_id: Some("conn_1".to_string()),
            amount_captured: Some(*captured),
        };
        Mandate::update_by_merchant_id_mandate_id(&mut store, "m1", "man_1", patch).unwrap();
    }
    let found = Mandate::find_by_merchant_id_mandate_id(&store, "m1", "man_1").unwrap();
    assert_eq!(found.mandate_status, MandateStatus::Revoked);
    assert_eq!(found.connector_mandate_id, Some("conn_1".to_string()));
    assert_eq!(found.amount_captured, Some(30));
    assert_eq!(store.len(), 1);
}

#[test]
fn connector_mandate_id_is_set_once() {
    let mut store = MandateStore::new();
    let mut n = new_mandate("m1", "man_1", "c1");
    n.connector_mandate_id = Some("conn_a".to_string());
    n.insert(&mut store).unwrap();
    let before = Mandate::find_by_merchant_id_mandate_id(&store, "m1", "man_1").unwrap();
    let replace = MandateUpdateInternal {
        mandate_status: Some(MandateStatus::Active),
        connector_mandate_id: Some("conn_b".to_string()),
        amount_captured: None,
    };
    assert_eq!(
        Mandate::update_by_merchant_id_mandate_id(&mut store, "m1", "man_1", replace),
        Err(StorageError::Conflict)
    );
    let after = Mandate::find_by_merchant_id_mandate_id(&store, "m1", "man_1").unwrap();
    assert_eq!(after, before);
    assert_eq!(
        Mandate::find_by_merchant_id_connector_mandate_id(&store, "m1", "conn_b"),
        Err(StorageError::NotFound)
    );
    // A patch without a connector id keeps the present one.
    let status_only = MandateUpdateInternal {
        mandate_status: Some(MandateStatus::Revoked),
        connector_mandate_id: None,
        amount_captured: None,
    };
    let updated =
        Mandate::update_by_merchant_id_mandate_id(&mut store, "m1", "man_1", status_only).unwrap();
    assert_eq!(updated.connector_mandate_id, Some("conn_a".to_string()));
    assert_eq!(updated.mandate_status, MandateStatus::Revoked);
}

#[test]
fn customer_listing_empty_when_none() {
    let mut store = MandateStore::new();
    assert!(Mandate::find_by_merchant_id_customer_id(&store, "m1", "c1").is_empty());
    new_mandate("m1", "man_1", "c2").insert(&mut store).unwrap();
    new_mandate("m2", "man_2", "c1").insert(&mut store).unwrap();
    assert!(Mandate::find_by_merchant_id_customer_id(&store, "m1", "c1").is_empty());
}

#[test]
fn customer_listing_ignores_unrelated_insertion_order() {
    let mut first = MandateStore::new();
    new_mandate("m1", "man_a", "c1").insert(&mut first).unwrap();
    new_mandate("m1", "other_1", "c9").insert(&mut first).unwrap();
    new_mandate("m2", "other_2", "c1").insert(&mut first).unwrap();
    new_mandate("m1", "man_b", "c1").insert(&mut first).unwrap();

    let mut second = MandateStore::new();
    new_mandate("m2", "other_2", "c1").insert(&mut second).unwrap();
    new_mandate("m1", "man_a", "c1").insert(&mut second).unwrap();
    new_mandate("m1", "man_b", "c1").insert(&mut second).unwrap();
    new_mandate("m1", "other_1", "c9").insert(&mut second).unwrap();

    let a = Mandate::find_by_merchant_id_customer_id(&first, "m1", "c1");
    let b = Mandate::find_by_merchant_id_customer_id(&second, "m1", "c1");
    assert_eq!(a, b);
    let ids: Vec<String> = a.iter().map(|m| m.mandate_id.clone()).collect();
    assert_eq!(ids, vec!["man_a".to_string(), "man_b".to_string()]);
}

#[test]
fn global_customer_listing_spans_merchants() {
    let mut store = MandateStore::new();
    new_mandate("m1", "man_1", "cust_g").insert(&mut store).unwrap();
    new_mandate("m2", "man_2", "cust_other").insert(&mut store).unwrap();
    new_mandate("m3", "man_3", "cust_g").insert(&mut store).unwrap();
    let found = Mandate::find_by_global_customer_id(&store, "cust_g");
    let ids: Vec<String> = found.iter().map(|m| m.merchant_id.clone()).collect();
    assert_eq!(ids, vec!["m1".to_string(), "m3".to_string()]);
    assert!(Mandate::find_by_global_customer_id(&store, "nobody").is_empty());
}

#[test]
fn predicate_filter_and_find_one() {
    let mut store = MandateStore::new();
    new_mandate("m1", "man_1", "c1").insert(&mut store).unwrap();
    new_mandate("m1", "man_2", "c1").insert(&mut store).unwrap();
    let pred = MandatePredicate {
        merchant_id: Some("m1".to_string()),
        mandate_id: None,
        connector_mandate_id: None,
        customer_id: Some("c1".to_string()),
    };
    assert_eq!(store.filter(&pred).len(), 2);
    assert_eq!(store.find_one(&pred).unwrap().mandate_id, "man_1");
    let none = MandatePredicate {
        merchant_id: None,
        mandate_id: None,
        connector_mandate_id: Some("conn_x".to_string()),
        customer_id: None,
    };
    assert_eq!(store.find_one(&none), Err(StorageError::NotFound));
    assert!(store.filter(&none).is_empty());
}
