//! The plain data the storefront works with: catalog products, cart lines,
//! and the error a failed catalog fetch surfaces.

use vstd::prelude::*;

verus! {

/// One catalog item. Products are delivered wholesale by the catalog fetch
/// and are immutable afterwards; the price is in the smallest currency unit.
#[derive(Debug, PartialEq)]
pub struct Product {
    pub id: i32,
    pub name: String,
    pub price: u32,
}

impl Clone for Product {
    fn clone(&self) -> (res: Self)
        ensures
            res == *self,
    {
        Product { id: self.id, name: self.name.clone(), price: self.price }
    }
}

/// One line of the shopping cart: a product together with how many of it
/// the user intends to buy. A line is only ever created with quantity 1.
#[derive(Debug, PartialEq)]
pub struct CartProduct {
    pub product: Product,
    pub quantity: u32,
}

impl Clone for CartProduct {
    fn clone(&self) -> (res: Self)
        ensures
            res == *self,
    {
        CartProduct { product: self.product.clone(), quantity: self.quantity }
    }
}

/// The one error class of the page: a catalog fetch that did not deliver a
/// product list, whatever the cause. The message is kept for display only.
#[derive(Debug, PartialEq)]
pub struct FetchError {
    pub message: String,
}

impl Clone for FetchError {
    fn clone(&self) -> (res: Self)
        ensures
            res == *self,
    {
        FetchError { message: self.message.clone() }
    }
}

} // verus!
