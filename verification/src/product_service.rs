//! Product store operations: list and fetch through the category join,
//! the read-with-reviews aggregation that collapses a flattened left-join
//! row set back into a nested object, creation guarded by the category
//! lookup, the sparse update that touches only supplied columns, and
//! delete with the affected-row check.

use vstd::prelude::*;
use crate::domain::{Product, ProductWithReviews, Review, StoreError};
use crate::store::{clone_opt_string, CatalogStore, ProductRow, ReviewRow};
use crate::sys;

verus! {

/// One row of the flattened product–category–review left join. The review
/// columns are nullable: a product without reviews comes back as a single
/// row whose review columns are all null.
#[derive(Debug, PartialEq)]
pub struct JoinedProductRow {
    pub product_id: u128,
    pub name: String,
    pub description: Option<String>,
    pub price: String,
    pub stock: i32,
    pub category_name: String,
    pub created_at: i64,
    pub updated_at: i64,
    pub user_id: Option<u128>,
    pub comment: Option<String>,
    pub rating: Option<i32>,
    pub review_created_at: Option<i64>,
}

/// The review entry a joined row contributes when it carries one.
pub open spec fn spec_row_review(row: JoinedProductRow) -> Review {
    Review {
        user_id: row.user_id,
        comment: row.comment,
        rating: row.rating,
        created_at: row.review_created_at,
    }
}

/// The review entries hidden in a flattened row set: one per row whose
/// user-id column is non-null, in row order. The user identifier is the
/// review-presence marker — comment and rating are nullable independently
/// and must not be consulted.
pub open spec fn collapsed_reviews(rows: Seq<JoinedProductRow>) -> Seq<Review>
    decreases rows.len(),
{
    if rows.len() == 0 {
        Seq::empty()
    } else {
        let rest = collapsed_reviews(rows.drop_last());
        if rows.last().user_id is Some {
            rest.push(spec_row_review(rows.last()))
        } else {
            rest
        }
    }
}

/// The reviews of one product among a table's rows, in insertion order.
pub open spec fn product_reviews(rows: Seq<ReviewRow>, product_id: u128) -> Seq<Review>
    decreases rows.len(),
{
    if rows.len() == 0 {
        Seq::empty()
    } else {
        let rest = product_reviews(rows.drop_last(), product_id);
        if rows.last().product_id == product_id {
            rest.push(rows.last().spec_review())
        } else {
            rest
        }
    }
}

/// Rebuilds the nested product-with-reviews object from the flattened
/// left-join row set. An empty row set means the product does not exist.
/// Product-level fields come from the first row (they are identical across
/// rows); every row with a non-null user id contributes one review entry;
/// a non-empty review list is attached, an empty one is left absent.
pub fn collapse_rows(rows: Vec<JoinedProductRow>) -> (r: Result<ProductWithReviews, StoreError>)
    ensures
        rows@.len() == 0 ==> r == Err::<ProductWithReviews, StoreError>(StoreError::NotFound),
        rows@.len() > 0 ==> (r matches Ok(p) && {
            let first = rows@[0];
            &&& p.id == first.product_id
            &&& p.name == first.name
            &&& p.description == first.description
            &&& p.price == first.price
            &&& p.stock == first.stock
            &&& p.category_name == first.category_name
            &&& p.created_at == first.created_at
            &&& p.updated_at == first.updated_at
            &&& (collapsed_reviews(rows@).len() == 0 ==> p.reviews is None)
            &&& (collapsed_reviews(rows@).len() > 0 ==> (p.reviews matches Some(v) && v@
                == collapsed_reviews(rows@)))
        }),
{
    if rows.len() == 0 {
        return Err(StoreError::NotFound);
    }
    let mut reviews: Vec<Review> = Vec::new();
    let mut i: usize = 0;
    while i < rows.len()
        invariant
            i <= rows@.len(),
            reviews@ == collapsed_reviews(rows@.take(i as int)),
        decreases rows@.len() - i,
    {
        proof {
            assert(rows@.take(i as int + 1).drop_last() =~= rows@.take(i as int));
            assert(rows@.take(i as int + 1).last() == rows@[i as int]);
        }
        let row = &rows[i];
        if row.user_id.is_some() {
            reviews.push(
                Review {
                    user_id: row.user_id,
                    comment: clone_opt_string(&row.comment),
                    rating: row.rating,
                    created_at: row.review_created_at,
                },
            );
        }
        i += 1;
    }
    proof {
        assert(rows@.take(rows@.len() as int) =~= rows@);
    }
    let first = &rows[0];
    let found_reviews = if reviews.len() == 0 {
        None
    } else {
        Some(reviews)
    };
    Ok(
        ProductWithReviews {
            id: first.product_id,
            name: first.name.clone(),
            description: clone_opt_string(&first.description),
            price: first.price.clone(),
            stock: first.stock,
            category_name: first.category_name.clone(),
            reviews: found_reviews,
            created_at: first.created_at,
            updated_at: first.updated_at,
        },
    )
}

/// The columns a sparse product update assigns, in the order the SET list
/// names them.
#[derive(Clone, Copy, Debug, PartialEq, Eq, Structural)]
pub enum ProductColumn {
    Name,
    Description,
    Price,
    Stock,
}

/// The SET list built from the supplied fields, always in the fixed order
/// name, description, price, stock.
pub open spec fn spec_set_columns(
    has_name: bool,
    has_description: bool,
    has_price: bool,
    has_stock: bool,
) -> Seq<ProductColumn> {
    (if has_name {
        seq![ProductColumn::Name]
    } else {
        Seq::empty()
    }) + (if has_description {
        seq![ProductColumn::Description]
    } else {
        Seq::empty()
    }) + (if has_price {
        seq![ProductColumn::Price]
    } else {
        Seq::empty()
    }) + (if has_stock {
        seq![ProductColumn::Stock]
    } else {
        Seq::empty()
    })
}

/// The sparse-update builder: changes exactly the supplied fields of the
/// fetched record and names, in order, the columns the UPDATE statement
/// must assign. An empty column list means nothing was supplied and no
/// statement need be issued.
pub fn apply_update(
    current: Product,
    name: Option<String>,
    description: Option<String>,
    price: Option<String>,
    stock: Option<i32>,
) -> (r: (Product, Vec<ProductColumn>))
    ensures
        r.0.id == current.id,
        r.0.name == (if name is Some {
            name.unwrap()
        } else {
            current.name
        }),
        r.0.description == (if description is Some {
            description
        } else {
            current.description
        }),
        r.0.price == (if price is Some {
            price.unwrap()
        } else {
            current.price
        }),
        r.0.stock == (if stock is Some {
            stock.unwrap()
        } else {
            current.stock
        }),
        r.0.category_name == current.category_name,
        r.0.created_at == current.created_at,
        r.0.updated_at == current.updated_at,
        r.1@ == spec_set_columns(name is Some, description is Some, price is Some, stock is Some),
        r.1@.len() == 0 <==> name is None && description is None && price is None && stock is None,
        r.1@.len() == 0 ==> r.0 == current,
{
    let mut updated = current;
    let mut columns: Vec<ProductColumn> = Vec::new();
    match name {
        Some(n) => {
            updated.name = n;
            columns.push(ProductColumn::Name);
        },
        None => {},
    }
    match description {
        Some(d) => {
            updated.description = Some(d);
            columns.push(ProductColumn::Description);
        },
        None => {},
    }
    match price {
        Some(p) => {
            updated.price = p;
            columns.push(ProductColumn::Price);
        },
        None => {},
    }
    match stock {
        Some(s) => {
            updated.stock = s;
            columns.push(ProductColumn::Stock);
        },
        None => {},
    }
    proof {
        assert(columns@ =~= spec_set_columns(
            name is Some,
            description is Some,
            price is Some,
            stock is Some,
        ));
    }
    (updated, columns)
}

/// True when a sparse update supplies none of the optional fields.
pub open spec fn no_fields_supplied(
    name: Option<String>,
    description: Option<String>,
    price: Option<String>,
    stock: Option<i32>,
) -> bool {
    name is None && description is None && price is None && stock is None
}

/// A product row after a sparse update: the supplied columns replaced,
/// everything else — `updated_at` and the version column among them —
/// untouched.
pub open spec fn spec_updated_row(
    row: ProductRow,
    name: Option<String>,
    description: Option<String>,
    price: Option<String>,
    stock: Option<i32>,
) -> ProductRow {
    ProductRow {
        id: row.id,
        name: if name is Some {
            name.unwrap()
        } else {
            row.name
        },
        description: if description is Some {
            description
        } else {
            row.description
        },
        price: if price is Some {
            price.unwrap()
        } else {
            row.price
        },
        stock: if stock is Some {
            stock.unwrap()
        } else {
            row.stock
        },
        category_id: row.category_id,
        created_at: row.created_at,
        updated_at: row.updated_at,
        version: row.version,
    }
}

/// The products the inner-join listing returns, over the first `n` product
/// rows: each row joined with its category, in insertion order; a row
/// whose category was removed is silently absent.
pub open spec fn visible_products_prefix(store: CatalogStore, n: int) -> Seq<Product>
    decreases n,
{
    if n <= 0 {
        Seq::empty()
    } else {
        let rest = visible_products_prefix(store, n - 1);
        let row = store.products@[n - 1];
        if store.has_category(row.category_id) {
            rest.push(row.spec_product(store.category_row(row.category_id).name))
        } else {
            rest
        }
    }
}

/// Every product joined with its category, in insertion order.
pub open spec fn visible_products(store: CatalogStore) -> Seq<Product> {
    visible_products_prefix(store, store.products@.len() as int)
}

impl CatalogStore {
    /// The product insert: the category is resolved first and a missing
    /// one fails the whole operation with nothing written; a duplicate id
    /// is refused by the primary-key constraint. The new row carries one
    /// timestamp for both columns and a version seeded at zero.
    pub fn insert_product(
        &mut self,
        name: String,
        description: Option<String>,
        price: String,
        stock: i32,
        category_id: u128,
        id: u128,
        now: i64,
    ) -> (r: Result<Product, StoreError>)
        requires
            old(self).wf(),
        ensures
            final(self).wf(),
            !old(self).has_category(category_id) ==> r == Err::<Product, StoreError>(
                StoreError::NotFound,
            ) && *final(self) == *old(self),
            old(self).has_category(category_id) && old(self).has_product(id) ==> r == Err::<
                Product,
                StoreError,
            >(StoreError::Conflict) && *final(self) == *old(self),
            old(self).has_category(category_id) && !old(self).has_product(id) ==> {
                let category_name = old(self).category_row(category_id).name;
                &&& r == Ok::<Product, StoreError>(
                    (Product {
                        id,
                        name,
                        description,
                        price,
                        stock,
                        category_name,
                        created_at: now,
                        updated_at: now,
                    }),
                )
                &&& final(self).products@ == old(self).products@.push(
                    (ProductRow {
                        id,
                        name,
                        description,
                        price,
                        stock,
                        category_id,
                        created_at: now,
                        updated_at: now,
                        version: 0,
                    }),
                )
                &&& final(self).categories@ == old(self).categories@
                &&& final(self).reviews@ == old(self).reviews@
            },
    {
        let ci = match self.find_category(category_id) {
            Some(c) => c,
            None => {
                return Err(StoreError::NotFound);
            },
        };
        proof {
            self.lemma_category_index_of(ci as int, category_id);
        }
        if self.find_product(id).is_some() {
            return Err(StoreError::Conflict);
        }
        let category_name = self.categories[ci].name.clone();
        let row = ProductRow {
            id,
            name: name.clone(),
            description: clone_opt_string(&description),
            price: price.clone(),
            stock,
            category_id,
            created_at: now,
            updated_at: now,
            version: 0,
        };
        self.products.push(row);
        assert forall|i: int, j: int|
            0 <= i < j < self.products@.len() implies self.products@[i].id
            != self.products@[j].id by {
            if j < self.products@.len() - 1 {
                assert(old(self).products@[i].id != old(self).products@[j].id);
            }
        }
        Ok(Product { id, name, description, price, stock, category_name, created_at: now, updated_at: now })
    }

    /// The sparse product update: fetch the record through the join (a
    /// missing product or category is `NotFound`); change exactly the
    /// supplied columns; skip the write entirely when nothing was
    /// supplied — a no-op update is valid, not an error. Deliberately,
    /// this operation never bumps `updated_at`.
    pub fn update_product(
        &mut self,
        id: u128,
        name: Option<String>,
        description: Option<String>,
        price: Option<String>,
        stock: Option<i32>,
    ) -> (r: Result<Product, StoreError>)
        requires
            old(self).wf(),
        ensures
            final(self).wf(),
            !old(self).product_visible(id) ==> r == Err::<Product, StoreError>(
                StoreError::NotFound,
            ) && *final(self) == *old(self),
            old(self).product_visible(id) && no_fields_supplied(name, description, price, stock)
                ==> r == Ok::<Product, StoreError>(old(self).spec_product(id)) && *final(self)
                == *old(self),
            old(self).product_visible(id) && !no_fields_supplied(name, description, price, stock)
                ==> {
                let newrow = spec_updated_row(
                    old(self).product_row(id),
                    name,
                    description,
                    price,
                    stock,
                );
                &&& r == Ok::<Product, StoreError>(
                    newrow.spec_product(
                        old(self).category_row(old(self).product_row(id).category_id).name,
                    ),
                )
                &&& final(self).products@ == old(self).products@.update(
                    old(self).product_index(id),
                    newrow,
                )
                &&& final(self).categories@ == old(self).categories@
                &&& final(self).reviews@ == old(self).reviews@
            },
    {
        let pi = match self.find_product(id) {
            Some(i) => i,
            None => {
                return Err(StoreError::NotFound);
            },
        };
        proof {
            self.lemma_product_index_of(pi as int, id);
        }
        let ci = match self.find_category(self.products[pi].category_id) {
            Some(c) => c,
            None => {
                return Err(StoreError::NotFound);
            },
        };
        proof {
            self.lemma_category_index_of(ci as int, self.products@[pi as int].category_id);
        }
        let category_name = self.categories[ci].name.clone();
        if name.is_none() && description.is_none() && price.is_none() && stock.is_none() {
            return Ok(self.products[pi].to_product(category_name));
        }
        let row = &self.products[pi];
        let new_name = match &name {
            Some(n) => n.clone(),
            None => row.name.clone(),
        };
        let new_description = match &description {
            Some(d) => Some(d.clone()),
            None => clone_opt_string(&row.description),
        };
        let new_price = match &price {
            Some(p) => p.clone(),
            None => row.price.clone(),
        };
        let new_stock = match stock {
            Some(s) => s,
            None => row.stock,
        };
        let newrow = ProductRow {
            id: row.id,
            name: new_name,
            description: new_description,
            price: new_price,
            stock: new_stock,
            category_id: row.category_id,
            created_at: row.created_at,
            updated_at: row.updated_at,
            version: row.version,
        };
        let result = newrow.to_product(category_name);
        self.products.set(pi, newrow);
        assert forall|i: int, j: int|
            0 <= i < j < self.products@.len() implies self.products@[i].id
            != self.products@[j].id by {
            assert(old(self).products@[i].id != old(self).products@[j].id);
        }
        Ok(result)
    }

    /// The product delete: exactly one row must have been removed, else
    /// the outcome is `NotFound`.
    pub fn delete_product(&mut self, id: u128) -> (r: Result<(), StoreError>)
        requires
            old(self).wf(),
        ensures
            final(self).wf(),
            !old(self).has_product(id) ==> r == Err::<(), StoreError>(StoreError::NotFound)
                && *final(self) == *old(self),
            old(self).has_product(id) ==> {
                &&& r == Ok::<(), StoreError>(())
                &&& final(self).products@ == old(self).products@.remove(
                    old(self).product_index(id),
                )
                &&& final(self).categories@ == old(self).categories@
                &&& final(self).reviews@ == old(self).reviews@
            },
    {
        let idx = match self.find_product(id) {
            Some(i) => i,
            None => {
                return Err(StoreError::NotFound);
            },
        };
        proof {
            self.lemma_product_index_of(idx as int, id);
        }
        self.products.remove(idx);
        assert forall|i: int, j: int|
            0 <= i < j < self.products@.len() implies self.products@[i].id
            != self.products@[j].id by {
            let oi: int = if i < idx { i } else { i + 1 };
            let oj: int = if j < idx { j } else { j + 1 };
            assert(old(self).products@[oi].id != old(self).products@[oj].id);
        }
        Ok(())
    }
}

/// The one concrete product service.
pub struct ProductServiceImpl;

impl ProductServiceImpl {
    /// listAll: every product joined with its category, in insertion
    /// order; a product whose category was removed silently disappears
    /// from the listing (inner-join semantics).
    pub fn fetch_all(&self, store: &CatalogStore) -> (r: Vec<Product>)
        requires
            store.wf(),
        ensures
            r@ == visible_products(*store),
    {
        let mut out: Vec<Product> = Vec::new();
        let mut i: usize = 0;
        while i < store.products.len()
            invariant
                store.wf(),
                i <= store.products@.len(),
                out@ == visible_products_prefix(*store, i as int),
            decreases store.products@.len() - i,
        {
            let row = &store.products[i];
            match store.find_category(row.category_id) {
                Some(ci) => {
                    proof {
                        store.lemma_category_index_of(ci as int, row.category_id);
                    }
                    out.push(row.to_product(store.categories[ci].name.clone()));
                },
                None => {},
            }
            i += 1;
        }
        out
    }

    /// getById: the product joined with its category, or `NotFound` — for
    /// a missing product and for one whose category is gone alike.
    pub fn fetch_by_id(&self, store: &CatalogStore, id: u128) -> (r: Result<Product, StoreError>)
        requires
            store.wf(),
        ensures
            store.product_visible(id) ==> r == Ok::<Product, StoreError>(store.spec_product(id)),
            !store.product_visible(id) ==> r == Err::<Product, StoreError>(StoreError::NotFound),
    {
        let pi = match store.find_product(id) {
            Some(i) => i,
            None => {
                return Err(StoreError::NotFound);
            },
        };
        proof {
            store.lemma_product_index_of(pi as int, id);
        }
        let ci = match store.find_category(store.products[pi].category_id) {
            Some(c) => c,
            None => {
                return Err(StoreError::NotFound);
            },
        };
        proof {
            store.lemma_category_index_of(ci as int, store.products@[pi as int].category_id);
        }
        Ok(store.products[pi].to_product(store.categories[ci].name.clone()))
    }

    /// getByIdWithReviews: one left-join query across product, category
    /// and reviews, collapsed back into a nested object. A product with no
    /// reviews yields `reviews` absent; one with N reviews yields exactly
    /// the N entries, in insertion order.
    pub fn fetch_by_id_with_reviews(&self, store: &CatalogStore, id: u128) -> (r: Result<
        ProductWithReviews,
        StoreError,
    >)
        requires
            store.wf(),
        ensures
            !store.has_product(id) ==> r == Err::<ProductWithReviews, StoreError>(
                StoreError::NotFound,
            ),
            store.has_product(id) ==> (r matches Ok(p) && {
                let row = store.product_row(id);
                &&& p.id == id
                &&& p.name == row.name
                &&& p.description == row.description
                &&& p.price == row.price
                &&& p.stock == row.stock
                &&& p.category_name@ == (if store.has_category(row.category_id) {
                    store.category_row(row.category_id).name@
                } else {
                    Seq::<char>::empty()
                })
                &&& p.created_at == row.created_at
                &&& p.updated_at == row.updated_at
                &&& (product_reviews(store.reviews@, id).len() == 0 ==> p.reviews is None)
                &&& (product_reviews(store.reviews@, id).len() > 0 ==> (p.reviews matches Some(v)
                    && v@ == product_reviews(store.reviews@, id)))
            }),
    {
        let pi = match store.find_product(id) {
            Some(i) => i,
            None => {
                return Err(StoreError::NotFound);
            },
        };
        proof {
            store.lemma_product_index_of(pi as int, id);
        }
        let prow = &store.products[pi];
        let category_name: String = match store.find_category(prow.category_id) {
            Some(ci) => {
                proof {
                    store.lemma_category_index_of(ci as int, prow.category_id);
                }
                store.categories[ci].name.clone()
            },
            None => String::new(),
        };
        let mut rows: Vec<JoinedProductRow> = Vec::new();
        let mut i: usize = 0;
        while i < store.reviews.len()
            invariant
                store.wf(),
                i <= store.reviews@.len(),
                pi < store.products@.len(),
                store.products@[pi as int] == store.product_row(id),
                store.products@[pi as int].id == id,
                *prow == store.product_row(id),
                store.has_product(id),
                category_name@ == (if store.has_category(store.product_row(id).category_id) {
                    store.category_row(store.product_row(id).category_id).name@
                } else {
                    Seq::<char>::empty()
                }),
                collapsed_reviews(rows@) == product_reviews(store.reviews@.take(i as int), id),
                collapsed_reviews(rows@).len() == rows@.len(),
                forall|k: int| 0 <= k < rows@.len() ==> {
                    &&& (#[trigger] rows@[k]).product_id == id
                    &&& rows@[k].name == store.product_row(id).name
                    &&& rows@[k].description == store.product_row(id).description
                    &&& rows@[k].price == store.product_row(id).price
                    &&& rows@[k].stock == store.product_row(id).stock
                    &&& rows@[k].category_name == category_name
                    &&& rows@[k].created_at == store.product_row(id).created_at
                    &&& rows@[k].updated_at == store.product_row(id).updated_at
                    &&& rows@[k].user_id is Some
                },
            decreases store.reviews@.len() - i,
        {
            let ghost prev = rows@;
            let rv = &store.reviews[i];
            if rv.product_id == id {
                rows.push(
                    JoinedProductRow {
                        product_id: prow.id,
                        name: prow.name.clone(),
                        description: clone_opt_string(&prow.description),
                        price: prow.price.clone(),
                        stock: prow.stock,
                        category_name: category_name.clone(),
                        created_at: prow.created_at,
                        updated_at: prow.updated_at,
                        user_id: Some(rv.user_id),
                        comment: clone_opt_string(&rv.comment),
                        rating: rv.rating,
                        review_created_at: Some(rv.created_at),
                    },
                );
                proof {
                    assert(rows@.drop_last() =~= prev);
                    assert(spec_row_review(rows@.last()) == store.reviews@[i as int].spec_review());
                    assert(rows@[rows@.len() - 1] == rows@.last());
                    assert forall|k: int| 0 <= k < rows@.len() - 1 implies rows@[k] == prev[k] by {}
                    assert(collapsed_reviews(rows@) == collapsed_reviews(prev).push(
                        spec_row_review(rows@.last()),
                    ));
                }
            }
            proof {
                assert(store.reviews@.take(i as int + 1).drop_last() =~= store.reviews@.take(
                    i as int,
                ));
                assert(store.reviews@.take(i as int + 1).last() == store.reviews@[i as int]);
            }
            i += 1;
        }
        proof {
            assert(store.reviews@.take(store.reviews@.len() as int) =~= store.reviews@);
        }
        if rows.len() == 0 {
            rows.push(
                JoinedProductRow {
                    product_id: prow.id,
                    name: prow.name.clone(),
                    description: clone_opt_string(&prow.description),
                    price: prow.price.clone(),
                    stock: prow.stock,
                    category_name: category_name,
                    created_at: prow.created_at,
                    updated_at: prow.updated_at,
                    user_id: None,
                    comment: None,
                    rating: None,
                    review_created_at: None,
                },
            );
            proof {
                assert(rows@.drop_last() =~= Seq::<JoinedProductRow>::empty());
                assert(collapsed_reviews(Seq::<JoinedProductRow>::empty()) =~= Seq::<
                    Review,
                >::empty());
                assert(rows@.last().user_id is None);
                assert(collapsed_reviews(rows@).len() == 0);
            }
        }
        collapse_rows(rows)
    }

    /// create: resolves the category first (a missing one fails the whole
    /// operation with nothing written), generates a fresh id, stamps both
    /// timestamps with the same instant, and persists with a version
    /// seeded at zero. On an empty product table no drawn id can collide,
    /// so success is owed whenever the category exists.
    pub fn save(
        &self,
        store: &mut CatalogStore,
        name: String,
        description: Option<String>,
        price: String,
        stock: i32,
        category_id: u128,
    ) -> (r: Result<Product, StoreError>)
        requires
            old(store).wf(),
        ensures
            final(store).wf(),
            old(store).has_category(category_id) && old(store).products@.len() == 0 ==> r is Ok,
            r matches Err(e) ==> *final(store) == *old(store) && (e == StoreError::NotFound <==> !old(
                store,
            ).has_category(category_id)),
            r matches Ok(p) ==> {
                &&& old(store).has_category(category_id)
                &&& !old(store).has_product(p.id)
                &&& p.name == name
                &&& p.description == description
                &&& p.price == price
                &&& p.stock == stock
                &&& p.category_name == old(store).category_row(category_id).name
                &&& p.created_at == p.updated_at
                &&& p.created_at >= 0
                &&& final(store).products@ == old(store).products@.push(
                    (ProductRow {
                        id: p.id,
                        name,
                        description,
                        price,
                        stock,
                        category_id,
                        created_at: p.created_at,
                        updated_at: p.updated_at,
                        version: 0,
                    }),
                )
                &&& final(store).categories@ == old(store).categories@
                &&& final(store).reviews@ == old(store).reviews@
            },
    {
        let id = sys::new_uuid();
        let now = sys::now_millis();
        store.insert_product(name, description, price, stock, category_id, id, now)
    }

    /// update: the sparse update; only supplied fields change, a fully
    /// empty update skips the write and returns the record unchanged.
    pub fn update(
        &self,
        store: &mut CatalogStore,
        id: u128,
        name: Option<String>,
        description: Option<String>,
        price: Option<String>,
        stock: Option<i32>,
    ) -> (r: Result<Product, StoreError>)
        requires
            old(store).wf(),
        ensures
            final(store).wf(),
            !old(store).product_visible(id) ==> r == Err::<Product, StoreError>(
                StoreError::NotFound,
            ) && *final(store) == *old(store),
            old(store).product_visible(id) && no_fields_supplied(name, description, price, stock)
                ==> r == Ok::<Product, StoreError>(old(store).spec_product(id)) && *final(store)
                == *old(store),
            old(store).product_visible(id) && !no_fields_supplied(name, description, price, stock)
                ==> {
                let newrow = spec_updated_row(
                    old(store).product_row(id),
                    name,
                    description,
                    price,
                    stock,
                );
                &&& r == Ok::<Product, StoreError>(
                    newrow.spec_product(
                        old(store).category_row(old(store).product_row(id).category_id).name,
                    ),
                )
                &&& final(store).products@ == old(store).products@.update(
                    old(store).product_index(id),
                    newrow,
                )
                &&& final(store).categories@ == old(store).categories@
                &&& final(store).reviews@ == old(store).reviews@
            },
    {
        store.update_product(id, name, description, price, stock)
    }

    /// delete: removes the row; a missing id yields `NotFound`, never a
    /// silent success.
    pub fn delete(&self, store: &mut CatalogStore, id: u128) -> (r: Result<(), StoreError>)
        requires
            old(store).wf(),
        ensures
            final(store).wf(),
            !old(store).has_product(id) ==> r == Err::<(), StoreError>(StoreError::NotFound)
                && *final(store) == *old(store),
            old(store).has_product(id) ==> {
                &&& r == Ok::<(), StoreError>(())
                &&& final(store).products@ == old(store).products@.remove(
                    old(store).product_index(id),
                )
                &&& final(store).categories@ == old(store).categories@
                &&& final(store).reviews@ == old(store).reviews@
            },
    {
        store.delete_product(id)
    }
}

} // verus!
