//! The storefront page's view-model: its state, the messages that drive
//! it, the reducer that consumes them, and the page each state renders to.
//!
//! The catalog fetch itself is outside work: when the reducer is handed
//! `Msg::GetProducts` it answers with `Effect::FetchProducts`, and the
//! caller that runs the page starts the request and later hands the
//! outcome back as `Msg::GetProductsSuccess` or `Msg::GetProductsError`.

use vstd::prelude::*;

use crate::cart;
use crate::types::CartProduct;
use crate::types::FetchError;
use crate::types::Product;

verus! {

/// How far the catalog fetch has come: not yet answered (the page shows a
/// loading indicator), answered with a product list, or failed.
#[derive(Debug, PartialEq)]
pub enum LoadPhase {
    NotLoaded,
    Loaded,
    Failed(FetchError),
}

/// The page's whole state: the catalog as last fetched, the cart, and the
/// load phase. The product list is only ever replaced wholesale; the cart
/// persists across fetches.
#[derive(Debug, PartialEq)]
pub struct State {
    pub products: Vec<Product>,
    pub cart_products: Vec<CartProduct>,
    pub phase: LoadPhase,
}

/// The mathematical value of a `State`.
pub ghost struct StateV {
    pub products: Seq<Product>,
    pub cart: Seq<CartProduct>,
    pub phase: LoadPhase,
}

impl View for State {
    type V = StateV;

    open spec fn view(&self) -> StateV {
        StateV { products: self.products@, cart: self.cart_products@, phase: self.phase }
    }
}

/// The messages the view-model consumes.
#[derive(Debug)]
pub enum Msg {
    AddToCart(i32),
    GetProducts,
    GetProductsSuccess(Vec<Product>),
    GetProductsError(FetchError),
}

/// The mathematical value of a `Msg`.
pub ghost enum MsgV {
    AddToCart(i32),
    GetProducts,
    GetProductsSuccess(Seq<Product>),
    GetProductsError(FetchError),
}

impl View for Msg {
    type V = MsgV;

    open spec fn view(&self) -> MsgV {
        match self {
            Msg::AddToCart(id) => MsgV::AddToCart(*id),
            Msg::GetProducts => MsgV::GetProducts,
            Msg::GetProductsSuccess(products) => MsgV::GetProductsSuccess(products@),
            Msg::GetProductsError(e) => MsgV::GetProductsError(*e),
        }
    }
}

/// The outside work a message asks for. The reducer never performs the
/// catalog fetch itself; it hands this request to its caller.
#[derive(Debug, PartialEq, Eq, Structural, Clone, Copy)]
pub enum Effect {
    NoEffect,
    FetchProducts,
}

/// The state's initial value: empty catalog, empty cart, fetch not yet
/// answered.
pub open spec fn init() -> StateV {
    StateV { products: Seq::<Product>::empty(), cart: Seq::<CartProduct>::empty(), phase: LoadPhase::NotLoaded }
}

/// The one step of the state machine: what consuming message `m` in state
/// `s` leaves behind.
///
/// `GetProducts` re-enters the loading phase; a fetch outcome either
/// replaces the product list wholesale or records the error, and both mark
/// the fetch answered; `AddToCart` folds one purchase into the cart and
/// ignores identifiers absent from the catalog.
pub open spec fn step(s: StateV, m: MsgV) -> StateV {
    match m {
        MsgV::GetProducts => StateV { phase: LoadPhase::NotLoaded, ..s },
        MsgV::GetProductsSuccess(products) => StateV { products, phase: LoadPhase::Loaded, ..s },
        MsgV::GetProductsError(e) => StateV { phase: LoadPhase::Failed(e), ..s },
        MsgV::AddToCart(id) => {
            let j = cart::first_index(cart::product_ids(s.products), id);
            if j < s.products.len() {
                StateV { cart: cart::add_line(s.cart, s.products[j]), ..s }
            } else {
                s
            }
        },
    }
}

/// The effect each message asks its caller for: only `GetProducts` starts
/// outside work, the catalog fetch.
pub open spec fn effect_of(m: MsgV) -> Effect {
    match m {
        MsgV::GetProducts => Effect::FetchProducts,
        _ => Effect::NoEffect,
    }
}

/// What one product card shows, and the identifier its add-to-cart action
/// sends back.
#[derive(Debug, PartialEq)]
pub struct ProductCard {
    pub id: i32,
    pub name: String,
    pub price: u32,
}

/// The card a product renders to.
pub open spec fn card_of(p: Product) -> ProductCard {
    ProductCard { id: p.id, name: p.name, price: p.price }
}

/// The card list a product list renders to, in catalog order.
pub open spec fn cards_of(products: Seq<Product>) -> Seq<ProductCard> {
    products.map_values(|p: Product| card_of(p))
}

/// The rendered surface of the page: one of the three views the load
/// phase selects.
#[derive(Debug, PartialEq)]
pub enum RenderedPage {
    Loading,
    LoadError,
    Loaded { cards: Vec<ProductCard>, cart_total: u64 },
}

/// The mathematical value of a `RenderedPage`.
pub ghost enum PageV {
    Loading,
    LoadError,
    Loaded { cards: Seq<ProductCard>, cart_total: u64 },
}

impl View for RenderedPage {
    type V = PageV;

    open spec fn view(&self) -> PageV {
        match self {
            RenderedPage::Loading => PageV::Loading,
            RenderedPage::LoadError => PageV::LoadError,
            RenderedPage::Loaded { cards, cart_total } => PageV::Loaded {
                cards: cards@,
                cart_total: *cart_total,
            },
        }
    }
}

/// The page a state renders to: the loading view until the fetch answers,
/// the error view if it failed, and otherwise one card per catalog product
/// together with the cart total, recomputed from the cart lines.
pub open spec fn render(s: StateV) -> PageV {
    match s.phase {
        LoadPhase::NotLoaded => PageV::Loading,
        LoadPhase::Failed(_) => PageV::LoadError,
        LoadPhase::Loaded => PageV::Loaded {
            cards: cards_of(s.products),
            cart_total: if cart::total(s.cart) <= u64::MAX {
                cart::total(s.cart) as u64
            } else {
                u64::MAX
            },
        },
    }
}

/// The position of the first product with identifier `id`, or the list's
/// length if there is none.
fn find_product_index(products: &Vec<Product>, id: i32) -> (r: usize)
    ensures
        r as int == cart::first_index(cart::product_ids(products@), id),
{
    let n = products.len();
    let mut i: usize = 0;
    while i < n && products[i].id != id
        invariant
            0 <= i <= n,
            n == products@.len(),
            forall|k: int| 0 <= k < i ==> products@[k].id != id,
        decreases n - i,
    {
        i = i + 1;
    }
    proof {
        let pids = cart::product_ids(products@);
        assert(forall|k: int| 0 <= k < products@.len() ==> pids[k] == #[trigger] products@[k].id);
        cart::lemma_first_index(pids, id);
    }
    i
}

/// The position of the first cart line for identifier `id`, or the cart's
/// length if there is none.
fn find_line_index(cart_products: &Vec<CartProduct>, id: i32) -> (r: usize)
    ensures
        r as int == cart::first_index(cart::line_ids(cart_products@), id),
{
    let n = cart_products.len();
    let mut i: usize = 0;
    while i < n && cart_products[i].product.id != id
        invariant
            0 <= i <= n,
            n == cart_products@.len(),
            forall|k: int| 0 <= k < i ==> cart_products@[k].product.id != id,
        decreases n - i,
    {
        i = i + 1;
    }
    proof {
        let lids = cart::line_ids(cart_products@);
        assert(forall|k: int|
            0 <= k < cart_products@.len() ==> lids[k] == #[trigger] cart_products@[k].product.id);
        cart::lemma_first_index(lids, id);
    }
    i
}

/// One card per product, in catalog order.
fn render_cards(products: &Vec<Product>) -> (r: Vec<ProductCard>)
    ensures
        r@ == cards_of(products@),
{
    let n = products.len();
    let mut cards: Vec<ProductCard> = Vec::new();
    let mut i: usize = 0;
    while i < n
        invariant
            0 <= i <= n,
            n == products@.len(),
            cards@.len() == i,
            forall|k: int| 0 <= k < i ==> cards@[k] == card_of(#[trigger] products@[k]),
        decreases n - i,
    {
        let p = &products[i];
        cards.push(ProductCard { id: p.id, name: p.name.clone(), price: p.price });
        i = i + 1;
    }
    proof {
        assert(cards@ =~= cards_of(products@));
    }
    cards
}

/// The storefront page. Its state only ever changes through `update`, one
/// message at a time, and `view` derives the rendered page from the state
/// alone.
pub struct Home {
    pub state: State,
}

impl Home {
    /// A freshly mounted page: empty catalog, empty cart, loading. The
    /// caller that mounts the page dispatches `Msg::GetProducts` right
    /// away, as the rendered loading view promises.
    pub fn create() -> (h: Home)
        ensures
            h.state@ == init(),
    {
        Home {
            state: State {
                products: Vec::new(),
                cart_products: Vec::new(),
                phase: LoadPhase::NotLoaded,
            },
        }
    }

    /// Consume one message: the state moves exactly as `step` says, the
    /// first component of the result asks the caller to re-render (it
    /// always does), and the second names the outside work to start.
    /// A well-formed cart stays well-formed.
    pub fn update(&mut self, message: Msg) -> (r: (bool, Effect))
        ensures
            final(self).state@ == step(old(self).state@, message@),
            r.0,
            r.1 == effect_of(message@),
            cart::cart_wf(old(self).state@.cart) ==> cart::cart_wf(final(self).state@.cart),
    {
        proof {
            if cart::cart_wf(self.state@.cart) {
                crate::laws::lemma_step_preserves_cart_wf(self.state@, message@);
            }
        }
        match message {
            Msg::GetProducts => {
                self.state.phase = LoadPhase::NotLoaded;
                (true, Effect::FetchProducts)
            },
            Msg::GetProductsSuccess(products) => {
                self.state.products = products;
                self.state.phase = LoadPhase::Loaded;
                (true, Effect::NoEffect)
            },
            Msg::GetProductsError(error) => {
                self.state.phase = LoadPhase::Failed(error);
                (true, Effect::NoEffect)
            },
            Msg::AddToCart(product_id) => {
                self.add_to_cart(product_id);
                (true, Effect::NoEffect)
            },
        }
    }

    /// Fold one purchase into the cart: an existing line for the product
    /// grows by one, a first purchase appends a line with quantity 1, and
    /// an identifier absent from the catalog leaves the state unchanged.
    pub fn add_to_cart(&mut self, product_id: i32)
        ensures
            final(self).state@ == step(old(self).state@, MsgV::AddToCart(product_id)),
    {
        let n = self.state.products.len();
        let i = find_product_index(&self.state.products, product_id);
        proof {
            let pids = cart::product_ids(self.state.products@);
            assert(forall|k: int|
                0 <= k < self.state.products@.len() ==> pids[k]
                    == #[trigger] self.state.products@[k].id);
            cart::lemma_first_index(pids, product_id);
        }
        if i < n {
            let m = self.state.cart_products.len();
            let j = find_line_index(&self.state.cart_products, product_id);
            if j < m {
                let q = self.state.cart_products[j].quantity;
                let bumped = if q < u32::MAX {
                    q + 1
                } else {
                    q
                };
                self.state.cart_products[j].quantity = bumped;
            } else {
                let product = self.state.products[i].clone();
                self.state.cart_products.push(CartProduct { product, quantity: 1 });
            }
        }
    }

    /// Derive the rendered page from the current state, reading nothing
    /// else and changing nothing.
    pub fn view(&self) -> (r: RenderedPage)
        ensures
            r@ == render(self.state@),
    {
        match &self.state.phase {
            LoadPhase::NotLoaded => RenderedPage::Loading,
            LoadPhase::Failed(_) => RenderedPage::LoadError,
            LoadPhase::Loaded => {
                let cards = render_cards(&self.state.products);
                let cart_total = cart::cart_total(&self.state.cart_products);
                RenderedPage::Loaded { cards, cart_total }
            },
        }
    }

    /// The page has no properties of its own, so a property change always
    /// just re-renders.
    pub fn change(&self) -> (r: bool)
        ensures
            r,
    {
        true
    }
}

} // verus!
