//! The shopping cart's rules.
use vstd::prelude::*;

verus! {

/// Why a cart request failed.
#[derive(Debug, Clone, Copy, PartialEq, Eq, Structural)]
pub enum CartError {
    ItemNotFound,
    ItemAlreadyInCart,
    CannotAddToCartOwnItem,
    ItemNotInCart,
    AuthenticationError,
}

/// The HTTP status and message of each cart error.
pub open spec fn cart_error_reply(e: CartError) -> (u16, Seq<char>) {
    match e {
        CartError::ItemNotFound => (404u16, "Item not found"@),
        CartError::ItemAlreadyInCart => (409u16, "Item already in cart"@),
        CartError::CannotAddToCartOwnItem => (403u16, "You cannot add your own item to the cart"@),
        CartError::ItemNotInCart => (404u16, "Item not in cart"@),
        CartError::AuthenticationError => (401u16, "Authentication required"@),
    }
}

impl CartError {
    /// The HTTP status of the error.
    pub fn status_code(&self) -> (r: u16)
        ensures
            r == cart_error_reply(*self).0,
    {
        match self {
            CartError::ItemNotFound => 404,
            CartError::ItemAlreadyInCart => 409,
            CartError::CannotAddToCartOwnItem => 403,
            CartError::ItemNotInCart => 404,
            CartError::AuthenticationError => 401,
        }
    }

    /// The message of the error.
    pub fn message(&self) -> (r: &'static str)
        ensures
            r@ == cart_error_reply(*self).1,
    {
        match self {
            CartError::ItemNotFound => "Item not found",
            CartError::ItemAlreadyInCart => "Item already in cart",
            CartError::CannotAddToCartOwnItem => "You cannot add your own item to the cart",
            CartError::ItemNotInCart => "Item not in cart",
            CartError::AuthenticationError => "Authentication required",
        }
    }
}

/// Whether `user_id` may put an item in their cart: the item must exist
/// (`item_seller` is `None` otherwise; its seller may be unknown), must not
/// be their own, and must not be in the cart already.
pub open spec fn add_to_cart_outcome(
    user_id: u128,
    item_seller: Option<Option<u128>>,
    already_in_cart: bool,
) -> Result<(), CartError> {
    match item_seller {
        None => Err(CartError::ItemNotFound),
        Some(seller) => if seller == Some(user_id) {
            Err(CartError::CannotAddToCartOwnItem)
        } else if already_in_cart {
            Err(CartError::ItemAlreadyInCart)
        } else {
            Ok(())
        },
    }
}

/// Decides whether `user_id` may add the item to their cart.
pub fn check_add_to_cart(user_id: u128, item_seller: Option<Option<u128>>, already_in_cart: bool) -> (r:
    Result<(), CartError>)
    ensures
        r == add_to_cart_outcome(user_id, item_seller, already_in_cart),
{
    match item_seller {
        None => Err(CartError::ItemNotFound),
        Some(seller) => {
            if seller == Some(user_id) {
                Err(CartError::CannotAddToCartOwnItem)
            } else if already_in_cart {
                Err(CartError::ItemAlreadyInCart)
            } else {
                Ok(())
            }
        },
    }
}

/// A removal that removed nothing reports that the item was not in the cart.
pub fn check_removed(rows_affected: u64) -> (r: Result<(), CartError>)
    ensures
        r is Ok <==> rows_affected > 0,
        r matches Err(e) ==> e == CartError::ItemNotInCart,
{
    if rows_affected == 0 {
        Err(CartError::ItemNotInCart)
    } else {
        Ok(())
    }
}

} // verus!
