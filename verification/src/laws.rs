//! The library's stated laws: properties that relate the spec-level model
//! functions beyond what each operation's own contract says.

use vstd::prelude::*;
use crate::store::{ProductRow, ReviewRow};
use crate::product_service::{
    collapsed_reviews, product_reviews, spec_updated_row, JoinedProductRow,
};
use crate::domain::Review;

verus! {

/// A sparse update that supplies none of the optional fields is the
/// identity on the row: the returned record is the fetched one, unchanged.
pub proof fn lemma_noop_update_is_identity(row: ProductRow)
    ensures
        spec_updated_row(row, None, None, None, None) == row,
{
}

/// A sparse update changes exactly the supplied columns: each supplied
/// field takes the supplied value, each omitted field stays identical to
/// the row before, and the columns no update may touch — id, category,
/// timestamps and version — always stay.
pub proof fn lemma_update_touches_only_supplied(
    row: ProductRow,
    name: Option<String>,
    description: Option<String>,
    price: Option<String>,
    stock: Option<i32>,
)
    ensures
        spec_updated_row(row, name, description, price, stock).name == (if name is Some {
            name.unwrap()
        } else {
            row.name
        }),
        spec_updated_row(row, name, description, price, stock).description == (
        if description is Some {
            description
        } else {
            row.description
        }),
        spec_updated_row(row, name, description, price, stock).price == (if price is Some {
            price.unwrap()
        } else {
            row.price
        }),
        spec_updated_row(row, name, description, price, stock).stock == (if stock is Some {
            stock.unwrap()
        } else {
            row.stock
        }),
        spec_updated_row(row, name, description, price, stock).id == row.id,
        spec_updated_row(row, name, description, price, stock).category_id == row.category_id,
        spec_updated_row(row, name, description, price, stock).created_at == row.created_at,
        spec_updated_row(row, name, description, price, stock).updated_at == row.updated_at,
        spec_updated_row(row, name, description, price, stock).version == row.version,
{
}

/// A flattened row set in which no row carries a review marker — the
/// left-join shape of a product without reviews — collapses to no review
/// entries at all, not to entries of nulls.
pub proof fn lemma_no_markers_no_reviews(rows: Seq<JoinedProductRow>)
    requires
        forall|k: int| 0 <= k < rows.len() ==> (#[trigger] rows[k]).user_id is None,
    ensures
        collapsed_reviews(rows).len() == 0,
    decreases rows.len(),
{
    if rows.len() > 0 {
        assert(rows.last() == rows[rows.len() - 1]);
        lemma_no_markers_no_reviews(rows.drop_last());
    }
}

/// The reviews read back for a product are exactly its review rows, in
/// insertion order, each entry matching one row's user, comment, rating
/// and creation time: one entry per row, nothing dropped, nothing
/// invented.
pub proof fn lemma_reviews_match_rows(rows: Seq<ReviewRow>, product_id: u128)
    ensures
        product_reviews(rows, product_id) == rows.filter(
            |r: ReviewRow| r.product_id == product_id,
        ).map_values(|r: ReviewRow| r.spec_review()),
    decreases rows.len(),
{
    reveal(Seq::filter);
    let pred = |r: ReviewRow| r.product_id == product_id;
    let to_review = |r: ReviewRow| r.spec_review();
    if rows.len() == 0 {
        assert(rows.filter(pred).map_values(to_review) =~= Seq::<Review>::empty());
    } else {
        lemma_reviews_match_rows(rows.drop_last(), product_id);
        if pred(rows.last()) {
            assert(rows.filter(pred) == rows.drop_last().filter(pred).push(rows.last()));
            assert(rows.filter(pred).map_values(to_review) =~= rows.drop_last().filter(
                pred,
            ).map_values(to_review).push(rows.last().spec_review()));
        } else {
            assert(rows.filter(pred) == rows.drop_last().filter(pred));
        }
    }
}

} // verus!
