use product_catalog::category_service::CategoryServiceImpl;
use product_catalog::product_service::ProductServiceImpl;
use product_catalog::review_service::ProductReviewServiceImpl;
use product_catalog::store::CatalogStore;

#[test]
fn create_browse_review_flow() {
    let mut store = CatalogStore::new();

    let category = CategoryServiceImpl
        .save(&mut store, "Books".to_string())
        .expect("creating the category succeeds");

    let product = ProductServiceImpl
        .save(&mut store, "Go Guide".to_string(), None, "19.99".to_string(), 5, category.id)
        .expect("creating the product under the fresh category succeeds");
    assert_eq!(product.category_name, "Books");
    assert_eq!(product.price, "19.99");
    assert_eq!(product.stock, 5);

    let fetched = ProductServiceImpl
        .fetch_by_id_with_reviews(&store, product.id)
        .expect("the fresh product is found");
    assert!(fetched.reviews.is_none());

    let review = ProductReviewServiceImpl
        .save(&mut store, product.id, 42, None, Some(5))
        .expect("reviewing the fresh product succeeds");
    assert_eq!(review.rating, Some(5));

    let fetched = ProductServiceImpl
        .fetch_by_id_with_reviews(&store, product.id)
        .expect("the reviewed product is found");
    let reviews = fetched.reviews.expect("the review shows up on re-fetch");
    assert_eq!(reviews.len(), 1);
    assert_eq!(reviews[0].rating, Some(5));
    assert_eq!(reviews[0].user_id, Some(42));
}
