use product_catalog::domain::StoreError;
use product_catalog::product_service::{
    apply_update, collapse_rows, JoinedProductRow, ProductColumn, ProductServiceImpl,
};
use product_catalog::store::CatalogStore;

fn store_with_category() -> CatalogStore {
    let mut store = CatalogStore::new();
    store.insert_category("Books".to_string(), 10, 100).unwrap();
    store
}

fn joined_row(user_id: Option<u128>, rating: Option<i32>) -> JoinedProductRow {
    JoinedProductRow {
        product_id: 77,
        name: "Go Guide".to_string(),
        description: None,
        price: "19.99".to_string(),
        stock: 5,
        category_name: "Books".to_string(),
        created_at: 200,
        updated_at: 200,
        user_id,
        comment: None,
        rating,
        review_created_at: user_id.map(|_| 300),
    }
}

#[test]
fn create_with_missing_category_writes_nothing() {
    let mut store = store_with_category();
    let r = ProductServiceImpl.save(
        &mut store,
        "Go Guide".to_string(),
        None,
        "19.99".to_string(),
        5,
        99,
    );
    assert_eq!(r, Err(StoreError::NotFound));
    assert!(store.products.is_empty());
}

#[test]
fn create_resolves_the_category_name() {
    let mut store = store_with_category();
    let p = ProductServiceImpl
        .save(&mut store, "Go Guide".to_string(), None, "19.99".to_string(), 5, 10)
        .expect("creating a product under an existing category succeeds");
    assert_eq!(p.name, "Go Guide");
    assert_eq!(p.category_name, "Books");
    assert_eq!(p.price, "19.99");
    assert_eq!(p.stock, 5);
    assert_eq!(p.created_at, p.updated_at);
    assert_eq!(store.products.len(), 1);
}

#[test]
fn create_with_fixed_id_persists_the_row() {
    let mut store = store_with_category();
    let p = store
        .insert_product(
            "Go Guide".to_string(),
            Some("a guide".to_string()),
            "19.99".to_string(),
            5,
            10,
            77,
            200,
        )
        .unwrap();
    assert_eq!(p.id, 77);
    assert_eq!(p.description, Some("a guide".to_string()));
    let fetched = ProductServiceImpl.fetch_by_id(&store, 77).unwrap();
    assert_eq!(fetched, p);
}

#[test]
fn fetch_by_id_missing_is_not_found() {
    let store = store_with_category();
    assert_eq!(ProductServiceImpl.fetch_by_id(&store, 77), Err(StoreError::NotFound));
}

#[test]
fn listing_excludes_products_whose_category_is_gone() {
    let mut store = store_with_category();
    store.insert_category("Games".to_string(), 11, 100).unwrap();
    store
        .insert_product("Go Guide".to_string(), None, "19.99".to_string(), 5, 10, 77, 200)
        .unwrap();
    store
        .insert_product("Chess".to_string(), None, "9.99".to_string(), 2, 11, 78, 201)
        .unwrap();
    store.delete_category(10).unwrap();
    let all = ProductServiceImpl.fetch_all(&store);
    assert_eq!(all.len(), 1);
    assert_eq!(all[0].name, "Chess");
    assert_eq!(all[0].category_name, "Games");
}

#[test]
fn noop_update_returns_the_record_unchanged() {
    let mut store = store_with_category();
    store
        .insert_product("Go Guide".to_string(), None, "19.99".to_string(), 5, 10, 77, 200)
        .unwrap();
    let before = ProductServiceImpl.fetch_by_id(&store, 77).unwrap();
    let updated = ProductServiceImpl
        .update(&mut store, 77, None, None, None, None)
        .expect("a no-op update is valid, not an error");
    assert_eq!(updated, before);
    let after = ProductServiceImpl.fetch_by_id(&store, 77).unwrap();
    assert_eq!(after, before);
}

#[test]
fn partial_update_changes_exactly_the_supplied_fields() {
    let mut store = store_with_category();
    store
        .insert_product(
            "Go Guide".to_string(),
            Some("a guide".to_string()),
            "19.99".to_string(),
            5,
            10,
            77,
            200,
        )
        .unwrap();
    let before = ProductServiceImpl.fetch_by_id(&store, 77).unwrap();
    let updated = ProductServiceImpl
        .update(&mut store, 77, None, None, Some("29.99".to_string()), Some(7))
        .unwrap();
    assert_eq!(updated.price, "29.99");
    assert_eq!(updated.stock, 7);
    assert_eq!(updated.name, before.name);
    assert_eq!(updated.description, before.description);
    assert_eq!(updated.category_name, before.category_name);
    assert_eq!(updated.created_at, before.created_at);
    assert_eq!(updated.updated_at, before.updated_at);
    let after = ProductServiceImpl.fetch_by_id(&store, 77).unwrap();
    assert_eq!(after, updated);
}

#[test]
fn update_missing_product_is_not_found() {
    let mut store = store_with_category();
    let r = ProductServiceImpl.update(&mut store, 77, Some("New".to_string()), None, None, None);
    assert_eq!(r, Err(StoreError::NotFound));
    assert!(store.products.is_empty());
}

#[test]
fn delete_removes_the_product_row() {
    let mut store = store_with_category();
    store
        .insert_product("Go Guide".to_string(), None, "19.99".to_string(), 5, 10, 77, 200)
        .unwrap();
    assert_eq!(ProductServiceImpl.delete(&mut store, 77), Ok(()));
    assert!(store.products.is_empty());
}

#[test]
fn delete_missing_product_is_not_found_never_silent_success() {
    let mut store = store_with_category();
    store
        .insert_product("Go Guide".to_string(), None, "19.99".to_string(), 5, 10, 77, 200)
        .unwrap();
    assert_eq!(ProductServiceImpl.delete(&mut store, 78), Err(StoreError::NotFound));
    assert_eq!(store.products.len(), 1);
}

#[test]
fn apply_update_builds_the_set_list_in_order() {
    let mut store = store_with_category();
    store
        .insert_product("Go Guide".to_string(), None, "19.99".to_string(), 5, 10, 77, 200)
        .unwrap();
    let current = ProductServiceImpl.fetch_by_id(&store, 77).unwrap();
    let (updated, columns) = apply_update(
        current,
        Some("Rust Guide".to_string()),
        None,
        Some("29.99".to_string()),
        None,
    );
    assert_eq!(columns, vec![ProductColumn::Name, ProductColumn::Price]);
    assert_eq!(updated.name, "Rust Guide");
    assert_eq!(updated.price, "29.99");
    assert_eq!(updated.stock, 5);
}

#[test]
fn apply_update_with_nothing_supplied_is_empty_and_identical() {
    let mut store = store_with_category();
    store
        .insert_product("Go Guide".to_string(), None, "19.99".to_string(), 5, 10, 77, 200)
        .unwrap();
    let current = ProductServiceImpl.fetch_by_id(&store, 77).unwrap();
    let expected = ProductServiceImpl.fetch_by_id(&store, 77).unwrap();
    let (updated, columns) = apply_update(current, None, None, None, None);
    assert!(columns.is_empty());
    assert_eq!(updated, expected);
}

#[test]
fn collapse_of_no_rows_is_not_found() {
    assert_eq!(collapse_rows(Vec::new()), Err(StoreError::NotFound));
}

#[test]
fn collapse_of_one_null_review_row_leaves_reviews_absent() {
    let p = collapse_rows(vec![joined_row(None, None)]).unwrap();
    assert_eq!(p.id, 77);
    assert_eq!(p.name, "Go Guide");
    assert_eq!(p.category_name, "Books");
    assert!(p.reviews.is_none());
}

#[test]
fn collapse_emits_one_entry_per_marked_row() {
    let rows = vec![
        joined_row(Some(5), Some(4)),
        joined_row(None, None),
        joined_row(Some(6), None),
    ];
    let p = collapse_rows(rows).unwrap();
    let reviews = p.reviews.expect("marked rows yield review entries");
    assert_eq!(reviews.len(), 2);
    assert_eq!(reviews[0].user_id, Some(5));
    assert_eq!(reviews[0].rating, Some(4));
    assert_eq!(reviews[0].created_at, Some(300));
    assert_eq!(reviews[1].user_id, Some(6));
    assert_eq!(reviews[1].rating, None);
}
