use storefront::cart::cart_total;
use storefront::home::Effect;
use storefront::home::Home;
use storefront::home::LoadPhase;
use storefront::home::Msg;
use storefront::home::RenderedPage;
use storefront::types::CartProduct;
use storefront::types::FetchError;
use storefront::types::Product;

fn product(id: i32, name: &str, price: u32) -> Product {
    Product { id, name: name.to_string(), price }
}

fn fetch_error(message: &str) -> FetchError {
    FetchError { message: message.to_string() }
}

#[test]
fn create_starts_loading_with_nothing() {
    let h = Home::create();
    assert_eq!(h.state.products.len(), 0);
    assert_eq!(h.state.cart_products.len(), 0);
    assert_eq!(h.state.phase, LoadPhase::NotLoaded);
    assert_eq!(h.view(), RenderedPage::Loading);
}

#[test]
fn get_products_asks_for_the_fetch() {
    let mut h = Home::create();
    let (rerender, effect) = h.update(Msg::GetProducts);
    assert!(rerender);
    assert_eq!(effect, Effect::FetchProducts);
    assert_eq!(h.view(), RenderedPage::Loading);
}

#[test]
fn other_messages_ask_for_no_effect() {
    let mut h = Home::create();
    let (_, e1) = h.update(Msg::GetProductsSuccess(vec![product(1, "A", 10)]));
    let (_, e2) = h.update(Msg::AddToCart(1));
    let (_, e3) = h.update(Msg::GetProductsError(fetch_error("down")));
    assert_eq!(e1, Effect::NoEffect);
    assert_eq!(e2, Effect::NoEffect);
    assert_eq!(e3, Effect::NoEffect);
}

#[test]
fn empty_fetch_renders_empty_loaded_page() {
    let mut h = Home::create();
    h.update(Msg::GetProducts);
    h.update(Msg::GetProductsSuccess(Vec::new()));
    match h.view() {
        RenderedPage::Loaded { cards, cart_total } => {
            assert_eq!(cards.len(), 0);
            assert_eq!(cart_total, 0);
        },
        other => panic!("expected the loaded page, got {:?}", other),
    }
}

#[test]
fn failed_fetch_renders_error_and_keeps_products() {
    let mut h = Home::create();
    h.update(Msg::GetProductsSuccess(vec![product(1, "A", 1000)]));
    h.update(Msg::GetProducts);
    h.update(Msg::GetProductsError(fetch_error("catalog unreachable")));
    assert_eq!(h.view(), RenderedPage::LoadError);
    assert_eq!(h.state.products.len(), 1);
    assert_eq!(h.state.products[0], product(1, "A", 1000));
    assert_eq!(h.state.phase, LoadPhase::Failed(fetch_error("catalog unreachable")));
}

#[test]
fn reload_shows_loading_again() {
    let mut h = Home::create();
    h.update(Msg::GetProductsSuccess(vec![product(1, "A", 1000)]));
    h.update(Msg::GetProducts);
    assert_eq!(h.view(), RenderedPage::Loading);
    assert_eq!(h.state.products.len(), 1);
}

#[test]
fn scenario_two_products_three_adds() {
    let mut h = Home::create();
    h.update(Msg::GetProducts);
    h.update(Msg::GetProductsSuccess(vec![product(1, "A", 1000), product(2, "B", 2500)]));
    h.update(Msg::AddToCart(1));
    h.update(Msg::AddToCart(1));
    h.update(Msg::AddToCart(2));
    assert_eq!(h.state.cart_products.len(), 2);
    assert_eq!(h.state.cart_products[0].product.id, 1);
    assert_eq!(h.state.cart_products[0].quantity, 2);
    assert_eq!(h.state.cart_products[1].product.id, 2);
    assert_eq!(h.state.cart_products[1].quantity, 1);
    match h.view() {
        RenderedPage::Loaded { cards, cart_total } => {
            assert_eq!(cart_total, 4500);
            assert_eq!(cards.len(), 2);
            assert_eq!(cards[0].id, 1);
            assert_eq!(cards[0].name, "A");
            assert_eq!(cards[0].price, 1000);
            assert_eq!(cards[1].id, 2);
            assert_eq!(cards[1].name, "B");
            assert_eq!(cards[1].price, 2500);
        },
        other => panic!("expected the loaded page, got {:?}", other),
    }
}

#[test]
fn adds_count_once_per_distinct_id() {
    let mut h = Home::create();
    h.update(Msg::GetProductsSuccess(vec![product(1, "A", 3), product(2, "B", 5)]));
    for id in [1, 2, 1, 1, 2] {
        h.update(Msg::AddToCart(id));
    }
    assert_eq!(h.state.cart_products.len(), 2);
    assert_eq!(h.state.cart_products[0].product.id, 1);
    assert_eq!(h.state.cart_products[0].quantity, 3);
    assert_eq!(h.state.cart_products[1].product.id, 2);
    assert_eq!(h.state.cart_products[1].quantity, 2);
}

#[test]
fn unknown_id_is_a_no_op() {
    let mut h = Home::create();
    h.update(Msg::GetProductsSuccess(vec![product(1, "A", 1000)]));
    h.update(Msg::AddToCart(1));
    let (rerender, effect) = h.update(Msg::AddToCart(999));
    assert!(rerender);
    assert_eq!(effect, Effect::NoEffect);
    assert_eq!(h.state.cart_products.len(), 1);
    assert_eq!(h.state.cart_products[0].product.id, 1);
    assert_eq!(h.state.cart_products[0].quantity, 1);
}

#[test]
fn add_before_any_fetch_is_a_no_op() {
    let mut h = Home::create();
    h.update(Msg::AddToCart(1));
    assert_eq!(h.state.cart_products.len(), 0);
}

#[test]
fn total_is_the_sum_of_quantity_times_price() {
    let cart = vec![
        CartProduct { product: product(1, "A", 1000), quantity: 2 },
        CartProduct { product: product(2, "B", 2500), quantity: 1 },
        CartProduct { product: product(3, "C", 7), quantity: 11 },
    ];
    assert_eq!(cart_total(&cart), 2 * 1000 + 1 * 2500 + 11 * 7);
    assert_eq!(cart_total(&Vec::new()), 0);
}

#[test]
fn total_saturates_at_its_type_maximum() {
    let cart = vec![
        CartProduct { product: product(1, "A", u32::MAX), quantity: u32::MAX },
        CartProduct { product: product(2, "B", u32::MAX), quantity: u32::MAX },
    ];
    assert_eq!(cart_total(&cart), u64::MAX);
}

#[test]
fn quantity_saturates_at_its_type_maximum() {
    let mut h = Home::create();
    h.update(Msg::GetProductsSuccess(vec![product(1, "A", 10)]));
    h.state.cart_products.push(CartProduct { product: product(1, "A", 10), quantity: u32::MAX });
    h.update(Msg::AddToCart(1));
    assert_eq!(h.state.cart_products.len(), 1);
    assert_eq!(h.state.cart_products[0].quantity, u32::MAX);
}

#[test]
fn rerendering_unchanged_state_is_identical() {
    let mut h = Home::create();
    h.update(Msg::GetProductsSuccess(vec![product(1, "A", 1000), product(2, "B", 2500)]));
    h.update(Msg::AddToCart(2));
    let first = h.view();
    let second = h.view();
    assert_eq!(first, second);
    match first {
        RenderedPage::Loaded { cards, cart_total } => {
            assert_eq!(cards.len(), 2);
            assert_eq!(cart_total, 2500);
        },
        other => panic!("expected the loaded page, got {:?}", other),
    }
}

#[test]
fn change_always_rerenders() {
    let h = Home::create();
    assert!(h.change());
}
