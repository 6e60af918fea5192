use product_catalog::domain::StoreError;
use product_catalog::product_service::ProductServiceImpl;
use product_catalog::review_service::ProductReviewServiceImpl;
use product_catalog::store::CatalogStore;

fn store_with_product() -> CatalogStore {
    let mut store = CatalogStore::new();
    store.insert_category("Books".to_string(), 10, 100).unwrap();
    store
        .insert_product("Go Guide".to_string(), None, "19.99".to_string(), 5, 10, 77, 200)
        .unwrap();
    store
}

#[test]
fn review_for_missing_product_writes_nothing() {
    let mut store = store_with_product();
    let r = ProductReviewServiceImpl.save(&mut store, 99, 5, None, Some(4));
    assert_eq!(r, Err(StoreError::NotFound));
    assert!(store.reviews.is_empty());
}

#[test]
fn review_echoes_inputs_and_stamps_equal_timestamps() {
    let mut store = store_with_product();
    let rv = ProductReviewServiceImpl
        .save(&mut store, 77, 5, Some("nice".to_string()), Some(4))
        .expect("reviewing an existing product succeeds");
    assert_eq!(rv.product_id, Some(77));
    assert_eq!(rv.user_id, Some(5));
    assert_eq!(rv.comment, Some("nice".to_string()));
    assert_eq!(rv.rating, Some(4));
    assert!(rv.id.is_some());
    assert_eq!(rv.created_at, rv.updated_at);
    assert_eq!(store.reviews.len(), 1);
}

#[test]
fn created_review_ids_are_unique() {
    let mut store = store_with_product();
    let a = ProductReviewServiceImpl.save(&mut store, 77, 5, None, Some(4)).unwrap();
    let b = ProductReviewServiceImpl.save(&mut store, 77, 6, None, Some(2)).unwrap();
    assert_ne!(a.id.unwrap(), b.id.unwrap());
}

#[test]
fn duplicate_review_id_is_a_conflict_and_writes_nothing() {
    let mut store = store_with_product();
    store.insert_review(77, 5, None, None, 500, 300).unwrap();
    let second = store.insert_review(77, 6, None, None, 500, 301);
    assert_eq!(second, Err(StoreError::Conflict));
    assert_eq!(store.reviews.len(), 1);
}

#[test]
fn fetch_with_reviews_on_unreviewed_product_leaves_reviews_absent() {
    let store = store_with_product();
    let p = ProductServiceImpl.fetch_by_id_with_reviews(&store, 77).unwrap();
    assert_eq!(p.id, 77);
    assert_eq!(p.name, "Go Guide");
    assert_eq!(p.category_name, "Books");
    assert!(p.reviews.is_none());
}

#[test]
fn fetch_with_reviews_returns_each_inserted_review() {
    let mut store = store_with_product();
    store.insert_review(77, 5, Some("nice".to_string()), Some(4), 500, 300).unwrap();
    store.insert_review(77, 6, None, None, 501, 301).unwrap();
    let p = ProductServiceImpl.fetch_by_id_with_reviews(&store, 77).unwrap();
    let reviews = p.reviews.expect("a reviewed product carries its reviews");
    assert_eq!(reviews.len(), 2);
    assert_eq!(reviews[0].user_id, Some(5));
    assert_eq!(reviews[0].comment, Some("nice".to_string()));
    assert_eq!(reviews[0].rating, Some(4));
    assert_eq!(reviews[0].created_at, Some(300));
    assert_eq!(reviews[1].user_id, Some(6));
    assert_eq!(reviews[1].comment, None);
    assert_eq!(reviews[1].rating, None);
    assert_eq!(reviews[1].created_at, Some(301));
}

#[test]
fn reviews_of_other_products_are_not_mixed_in() {
    let mut store = store_with_product();
    store
        .insert_product("Chess".to_string(), None, "9.99".to_string(), 2, 10, 78, 201)
        .unwrap();
    store.insert_review(77, 5, None, Some(4), 500, 300).unwrap();
    store.insert_review(78, 6, None, Some(1), 501, 301).unwrap();
    let p = ProductServiceImpl.fetch_by_id_with_reviews(&store, 77).unwrap();
    let reviews = p.reviews.unwrap();
    assert_eq!(reviews.len(), 1);
    assert_eq!(reviews[0].user_id, Some(5));
}

#[test]
fn fetch_with_reviews_on_missing_product_is_not_found() {
    let store = store_with_product();
    let r = ProductServiceImpl.fetch_by_id_with_reviews(&store, 99);
    assert_eq!(r, Err(StoreError::NotFound));
}
