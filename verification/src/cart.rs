//! Cart logic: looking a product up by identifier, folding an "add to
//! cart" into the cart's line list, and the running total, together with
//! the laws that hold of them.

use vstd::prelude::*;

use crate::types::CartProduct;
use crate::types::Product;

verus! {

/// The position of the first occurrence of `id` in `ids`, or `ids.len()`
/// if `id` does not occur at all.
pub open spec fn first_index(ids: Seq<i32>, id: i32) -> int
    decreases ids.len(),
{
    if ids.len() == 0 {
        0
    } else if ids[0] == id {
        0
    } else {
        1 + first_index(ids.drop_first(), id)
    }
}

/// `first_index` points at the first occurrence: it is in bounds exactly
/// when `id` occurs, it points at an occurrence, and nothing before it is one.
pub proof fn lemma_first_index(ids: Seq<i32>, id: i32)
    ensures
        0 <= first_index(ids, id) <= ids.len(),
        first_index(ids, id) < ids.len() ==> ids[first_index(ids, id)] == id,
        forall|k: int| 0 <= k < first_index(ids, id) ==> ids[k] != id,
        first_index(ids, id) == ids.len() ==> forall|k: int| 0 <= k < ids.len() ==> ids[k] != id,
    decreases ids.len(),
{
    if ids.len() == 0 {
    } else if ids[0] == id {
    } else {
        lemma_first_index(ids.drop_first(), id);
        assert forall|k: int| 0 <= k < first_index(ids, id) implies ids[k] != id by {
            if k > 0 {
                assert(ids.drop_first()[k - 1] == ids[k]);
            }
        }
        if first_index(ids, id) == ids.len() {
            assert forall|k: int| 0 <= k < ids.len() implies ids[k] != id by {
                if k > 0 {
                    assert(ids.drop_first()[k - 1] == ids[k]);
                }
            }
        }
    }
}

/// The identifiers of a product list, in order.
pub open spec fn product_ids(products: Seq<Product>) -> Seq<i32> {
    products.map_values(|p: Product| p.id)
}

/// The product identifiers of the cart's lines, in order.
pub open spec fn line_ids(cart: Seq<CartProduct>) -> Seq<i32> {
    cart.map_values(|line: CartProduct| line.product.id)
}

/// Whether some product of the catalog has identifier `id`.
pub open spec fn has_product(products: Seq<Product>, id: i32) -> bool {
    exists|j: int| 0 <= j < products.len() && products[j].id == id
}

/// A line's quantity after one more of its product is added: one more,
/// except that it stays put at the top of its machine range.
pub open spec fn bump_quantity(q: u32) -> u32 {
    if q < u32::MAX {
        (q + 1) as u32
    } else {
        q
    }
}

/// The cart after adding one of product `p`: if a line for `p`'s identifier
/// exists, its quantity grows by one; otherwise a new line with quantity 1
/// is appended.
pub open spec fn add_line(cart: Seq<CartProduct>, p: Product) -> Seq<CartProduct> {
    let j = first_index(line_ids(cart), p.id);
    if j < cart.len() {
        cart.update(
            j,
            CartProduct { product: cart[j].product, quantity: bump_quantity(cart[j].quantity) },
        )
    } else {
        cart.push(CartProduct { product: p, quantity: 1 })
    }
}

/// The cart's invariant: no product is represented by two distinct lines,
/// and every quantity is at least 1.
pub open spec fn cart_wf(cart: Seq<CartProduct>) -> bool {
    &&& forall|i: int, j: int|
        0 <= i < j < cart.len() ==> cart[i].product.id != cart[j].product.id
    &&& forall|i: int| 0 <= i < cart.len() ==> cart[i].quantity >= 1
}

/// Whether some cart line is for product identifier `id`.
pub open spec fn has_line(cart: Seq<CartProduct>, id: i32) -> bool {
    exists|j: int| 0 <= j < cart.len() && cart[j].product.id == id
}

/// How often `id` occurs in `ids`.
pub open spec fn count_of(ids: Seq<i32>, id: i32) -> int
    decreases ids.len(),
{
    if ids.len() == 0 {
        0
    } else {
        count_of(ids.drop_last(), id) + if ids.last() == id {
            1int
        } else {
            0int
        }
    }
}

/// An identifier occurs no more often than the run is long.
pub proof fn lemma_count_le_len(ids: Seq<i32>, id: i32)
    ensures
        0 <= count_of(ids, id) <= ids.len(),
    decreases ids.len(),
{
    if ids.len() > 0 {
        lemma_count_le_len(ids.drop_last(), id);
    }
}

/// Appending one identifier raises its count by one and no other.
pub proof fn lemma_count_push(ids: Seq<i32>, x: i32, id: i32)
    ensures
        count_of(ids.push(x), id) == count_of(ids, id) + if x == id {
            1int
        } else {
            0int
        },
{
    assert(ids.push(x).drop_last() =~= ids);
    assert(ids.push(x).last() == x);
}

/// The cart's state after a run of adds: every line's quantity is the
/// number of adds of its product, and a line exists exactly for the
/// identifiers added so far.
pub open spec fn cart_counts_adds(cart: Seq<CartProduct>, ids: Seq<i32>) -> bool {
    &&& forall|j: int|
        0 <= j < cart.len() ==> cart[j].quantity == count_of(ids, #[trigger] cart[j].product.id)
    &&& forall|id: i32| #[trigger] has_line(cart, id) <==> count_of(ids, id) > 0
}

/// Adding to a well-formed cart keeps it well-formed, and grows it by at
/// most the one new line.
pub proof fn lemma_add_line_wf(cart: Seq<CartProduct>, p: Product)
    requires
        cart_wf(cart),
    ensures
        cart_wf(add_line(cart, p)),
        cart.len() <= add_line(cart, p).len() <= cart.len() + 1,
{
    let lids = line_ids(cart);
    lemma_first_index(lids, p.id);
    let j = first_index(lids, p.id);
    assert(forall|k: int| 0 <= k < cart.len() ==> lids[k] == #[trigger] cart[k].product.id);
    if j < cart.len() {
        let cart2 = add_line(cart, p);
        assert(cart2[j].product.id == cart[j].product.id);
        assert(forall|k: int| 0 <= k < cart.len() && k != j ==> cart2[k] == cart[k]);
    }
}

/// One add keeps the cart's books straight: if every quantity counts the
/// adds so far, that stays true once `p.id` is appended to the adds.
pub proof fn lemma_add_line_counts(cart: Seq<CartProduct>, p: Product, ids: Seq<i32>)
    requires
        cart_wf(cart),
        cart_counts_adds(cart, ids),
        ids.len() < u32::MAX,
    ensures
        cart_wf(add_line(cart, p)),
        cart_counts_adds(add_line(cart, p), ids.push(p.id)),
{
    lemma_add_line_wf(cart, p);
    let lids = line_ids(cart);
    lemma_first_index(lids, p.id);
    lemma_count_le_len(ids, p.id);
    assert(forall|k: int| 0 <= k < cart.len() ==> lids[k] == #[trigger] cart[k].product.id);
    let j = first_index(lids, p.id);
    let cart2 = add_line(cart, p);
    let ids2 = ids.push(p.id);
    assert forall|id: i32| count_of(ids2, id) == count_of(ids, id) + (if id == p.id {
        1int
    } else {
        0int
    }) by {
        lemma_count_push(ids, p.id, id);
    }
    if j < cart.len() {
        assert(cart[j].product.id == p.id);
        assert(has_line(cart, p.id));
        assert(count_of(ids, p.id) > 0);
        assert(cart[j].quantity == count_of(ids, p.id));
        assert(cart[j].quantity < u32::MAX);
        assert(cart2[j].quantity == count_of(ids2, p.id));
        assert forall|k: int| 0 <= k < cart2.len() implies cart2[k].quantity == count_of(
            ids2,
            #[trigger] cart2[k].product.id,
        ) by {
            if k != j {
                assert(cart2[k] == cart[k]);
                assert(cart[k].product.id != p.id);
            }
        }
        assert forall|id: i32| #[trigger] has_line(cart2, id) <==> count_of(ids2, id) > 0 by {
            if has_line(cart2, id) {
                let w = choose|w: int| 0 <= w < cart2.len() && cart2[w].product.id == id;
                assert(cart[w].product.id == id);
                assert(has_line(cart, id));
            }
            if count_of(ids2, id) > 0 {
                if id == p.id {
                    assert(cart2[j].product.id == id);
                } else {
                    assert(count_of(ids, id) > 0);
                    assert(has_line(cart, id));
                    let w = choose|w: int| 0 <= w < cart.len() && cart[w].product.id == id;
                    assert(cart2[w].product.id == id);
                }
            }
        }
    } else {
        assert(forall|k: int| 0 <= k < cart.len() ==> #[trigger] cart[k].product.id != p.id);
        if has_line(cart, p.id) {
            let w = choose|w: int| 0 <= w < cart.len() && cart[w].product.id == p.id;
            assert(false);
        }
        assert(count_of(ids, p.id) == 0);
        assert(cart2 == cart.push(CartProduct { product: p, quantity: 1 }));
        assert(cart2[cart.len() as int].quantity == 1 == count_of(ids2, p.id));
        assert forall|k: int| 0 <= k < cart2.len() implies cart2[k].quantity == count_of(
            ids2,
            #[trigger] cart2[k].product.id,
        ) by {
            if k < cart.len() {
                assert(cart2[k] == cart[k]);
                assert(cart[k].product.id != p.id);
            }
        }
        assert forall|id: i32| #[trigger] has_line(cart2, id) <==> count_of(ids2, id) > 0 by {
            if has_line(cart2, id) {
                let w = choose|w: int| 0 <= w < cart2.len() && cart2[w].product.id == id;
                if w < cart.len() {
                    assert(has_line(cart, id));
                } else {
                    assert(id == p.id);
                }
            }
            if count_of(ids2, id) > 0 {
                if id == p.id {
                    assert(cart2[cart.len() as int].product.id == id);
                } else {
                    assert(count_of(ids, id) > 0);
                    assert(has_line(cart, id));
                    let w = choose|w: int| 0 <= w < cart.len() && cart[w].product.id == id;
                    assert(cart2[w].product.id == id);
                }
            }
        }
    }
}

/// The mathematical cart total: the sum over all lines of quantity times
/// unit price.
pub open spec fn total(cart: Seq<CartProduct>) -> int
    decreases cart.len(),
{
    if cart.len() == 0 {
        0
    } else {
        total(cart.drop_last()) + cart.last().quantity * cart.last().product.price
    }
}

/// The cart total, recomputed from the line list alone. The exact sum is
/// returned whenever it fits the result type; a sum beyond it comes back
/// as the type's maximum.
pub fn cart_total(cart: &Vec<CartProduct>) -> (r: u64)
    ensures
        total(cart@) <= u64::MAX ==> r == total(cart@),
        total(cart@) > u64::MAX ==> r == u64::MAX,
{
    let mut acc: u64 = 0;
    let mut i: usize = 0;
    while i < cart.len()
        invariant
            0 <= i <= cart@.len(),
            total(cart@.subrange(0, i as int)) <= u64::MAX ==> acc == total(
                cart@.subrange(0, i as int),
            ),
            total(cart@.subrange(0, i as int)) > u64::MAX ==> acc == u64::MAX,
        decreases cart@.len() - i,
    {
        let q = cart[i].quantity;
        let p = cart[i].product.price;
        proof {
            assert((q as int) * (p as int) <= (u32::MAX as int) * (u32::MAX as int))
                by (nonlinear_arith)
                requires
                    0 <= q as int <= u32::MAX as int,
                    0 <= p as int <= u32::MAX as int,
            ;
            assert(0 <= (q as int) * (p as int)) by (nonlinear_arith)
                requires
                    0 <= q as int,
                    0 <= p as int,
            ;
            let pre = cart@.subrange(0, i as int);
            let pre1 = cart@.subrange(0, i as int + 1);
            assert(pre1.drop_last() =~= pre);
            assert(pre1.last() == cart@[i as int]);
            assert(total(pre1) == total(pre) + (q as int) * (p as int));
        }
        let term: u64 = (q as u64) * (p as u64);
        if acc <= u64::MAX - term {
            acc = acc + term;
        } else {
            acc = u64::MAX;
        }
        i = i + 1;
    }
    proof {
        assert(cart@.subrange(0, cart@.len() as int) =~= cart@);
    }
    acc
}

} // verus!
