//! The general properties of the storefront, each stated over the
//! mathematical state machine and proved once and for all.

use vstd::prelude::*;

use crate::cart::add_line;
use crate::cart::cart_counts_adds;
use crate::cart::cart_wf;
use crate::home::cards_of;
use crate::home::render;
use crate::home::step;
use crate::home::LoadPhase;
use crate::home::MsgV;
use crate::home::PageV;
use crate::home::StateV;
use crate::types::FetchError;

verus! {

/// The state after a run of `AddToCart` messages, consumed left to right.
pub open spec fn apply_adds(s: StateV, ids: Seq<i32>) -> StateV
    decreases ids.len(),
{
    if ids.len() == 0 {
        s
    } else {
        step(apply_adds(s, ids.drop_last()), MsgV::AddToCart(ids.last()))
    }
}

/// Whether every identifier in `ids` names a product of `s`'s catalog.
pub open spec fn all_ids_valid(s: StateV, ids: Seq<i32>) -> bool {
    forall|k: int| 0 <= k < ids.len() ==> crate::cart::has_product(s.products, #[trigger] ids[k])
}

/// Law: a run of `AddToCart` messages whose identifiers all name catalog
/// products, starting from an empty cart, leaves exactly one cart line
/// per distinct identifier added, that line's quantity is the number of
/// times its identifier was added, and the catalog and load phase are
/// untouched. (`cart_wf` gives the uniqueness of the line,
/// `cart_counts_adds` its quantity and its existence.)
pub proof fn lemma_adds_give_counted_cart(s: StateV, ids: Seq<i32>)
    requires
        s.cart.len() == 0,
        all_ids_valid(s, ids),
        ids.len() <= u32::MAX,
    ensures
        cart_wf(apply_adds(s, ids).cart),
        cart_counts_adds(apply_adds(s, ids).cart, ids),
        apply_adds(s, ids).products == s.products,
        apply_adds(s, ids).phase == s.phase,
    decreases ids.len(),
{
    if ids.len() == 0 {
    } else {
        let pre = ids.drop_last();
        assert(all_ids_valid(s, pre)) by {
            assert(forall|k: int| 0 <= k < pre.len() ==> pre[k] == ids[k]);
        }
        lemma_adds_give_counted_cart(s, pre);
        let s1 = apply_adds(s, pre);
        let id = ids.last();
        let pids = crate::cart::product_ids(s1.products);
        assert(forall|k: int|
            0 <= k < s1.products.len() ==> pids[k] == #[trigger] s1.products[k].id);
        crate::cart::lemma_first_index(pids, id);
        let j = crate::cart::first_index(pids, id);
        assert(crate::cart::has_product(s.products, id));
        assert(j < s1.products.len()) by {
            if j == s1.products.len() {
                let w = choose|w: int|
                    0 <= w < s.products.len() && s.products[w].id == id;
                assert(pids[w] == id);
            }
        }
        let p = s1.products[j];
        assert(p.id == id);
        crate::cart::lemma_add_line_counts(s1.cart, p, pre);
        assert(apply_adds(s, ids).cart == add_line(s1.cart, p));
        assert(pre.push(p.id) =~= ids);
    }
}

/// Law: every message preserves the cart's invariant: no product has two
/// lines, and every quantity is at least 1.
pub proof fn lemma_step_preserves_cart_wf(s: StateV, m: MsgV)
    requires
        cart_wf(s.cart),
    ensures
        cart_wf(step(s, m).cart),
{
    match m {
        MsgV::AddToCart(id) => {
            let pids = crate::cart::product_ids(s.products);
            crate::cart::lemma_first_index(pids, id);
            if crate::cart::first_index(pids, id) < s.products.len() {
                crate::cart::lemma_add_line_wf(
                    s.cart,
                    s.products[crate::cart::first_index(pids, id)],
                );
            }
        },
        _ => {},
    }
}

/// Law: the product list is only ever replaced wholesale, by a successful
/// fetch; no other message touches it.
pub proof fn lemma_products_replaced_wholesale_only(s: StateV, m: MsgV)
    ensures
        (match m {
            MsgV::GetProductsSuccess(products) => step(s, m).products == products,
            _ => step(s, m).products == s.products,
        }),
{
}

/// Law: the cart persists across repeated fetches and re-renders: only
/// `AddToCart` ever changes it.
pub proof fn lemma_cart_persists_across_fetches(s: StateV, m: MsgV)
    ensures
        !(m is AddToCart) ==> step(s, m).cart == s.cart,
{
}

/// Law: a failed fetch enters the error view and preserves both the
/// product list and the cart exactly as they were.
pub proof fn lemma_failed_fetch_preserves_state(s: StateV, e: FetchError)
    ensures
        step(s, MsgV::GetProductsError(e)).products == s.products,
        step(s, MsgV::GetProductsError(e)).cart == s.cart,
        step(s, MsgV::GetProductsError(e)).phase == LoadPhase::Failed(e),
        render(step(s, MsgV::GetProductsError(e))) is LoadError,
{
}

/// Law: requesting the catalog and then receiving an empty product list
/// renders the loaded page with no cards, and with total 0 when the cart
/// was empty before.
pub proof fn lemma_empty_catalog_renders_empty(s: StateV)
    requires
        s.cart.len() == 0,
    ensures
        render(step(step(s, MsgV::GetProducts), MsgV::GetProductsSuccess(Seq::empty()))) == (
        PageV::Loaded { cards: Seq::empty(), cart_total: 0u64 }),
{
    let s2 = step(step(s, MsgV::GetProducts), MsgV::GetProductsSuccess(Seq::empty()));
    assert(crate::cart::total(s2.cart) == 0);
    assert(cards_of(s2.products) =~= Seq::empty());
}

/// Law: on the loaded page the rendered total is exactly the sum of
/// quantity times unit price over the cart, whenever that sum fits the
/// total's machine type.
pub proof fn lemma_rendered_total_is_sum(s: StateV)
    requires
        s.phase is Loaded,
        crate::cart::total(s.cart) <= u64::MAX,
    ensures
        render(s) == (PageV::Loaded {
            cards: cards_of(s.products),
            cart_total: crate::cart::total(s.cart) as u64,
        }),
{
}

/// Law: rendering reads the state alone: equal states render to equal
/// pages, so re-rendering an unchanged state repeats the very same page.
pub proof fn lemma_render_deterministic(a: StateV, b: StateV)
    requires
        a == b,
    ensures
        render(a) == render(b),
{
}

} // verus!
