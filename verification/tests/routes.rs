use backend::jwt_middleware::{bearer_token, token_from_query};
use backend::routes::admin::{escape_xml, require_admin, DashboardError};
use backend::routes::cart::{check_add_to_cart, check_removed, CartError};
use backend::routes::categories::{check_category_changed, CategoryError, CategoryRequest};
use backend::routes::recommendations::PaginationQuery;
use backend::routes::user_profile::{
    check_profile_access, needs_current_password, UserProfileError, UserStats,
};
use backend::routes::users::{CreateUserError, User};
use backend::domain::new_user::{CalendarDate, NewUser};

#[test]
fn bearer_tokens_come_after_the_scheme() {
    assert_eq!(bearer_token("Bearer abc.def"), Some("abc.def".to_string()));
    assert_eq!(bearer_token("Basic abc"), None);
    assert_eq!(bearer_token("Bearer "), Some("".to_string()));
}

#[test]
fn websocket_tokens_come_from_the_query() {
    assert_eq!(token_from_query("token=abc"), Some("abc".to_string()));
    assert_eq!(token_from_query("a=1&token=xyz&b=2"), Some("xyz".to_string()));
    assert_eq!(token_from_query("token&token=two"), Some("two".to_string()));
    assert_eq!(token_from_query("token=a=b"), Some("a".to_string()));
    assert_eq!(token_from_query("tokens=1"), None);
    assert_eq!(token_from_query(""), None);
}

#[test]
fn carts_refuse_own_missing_and_repeated_items() {
    assert_eq!(check_add_to_cart(1, None, false), Err(CartError::ItemNotFound));
    assert_eq!(check_add_to_cart(1, Some(Some(1)), false), Err(CartError::CannotAddToCartOwnItem));
    assert_eq!(check_add_to_cart(1, Some(Some(2)), true), Err(CartError::ItemAlreadyInCart));
    assert_eq!(check_add_to_cart(1, Some(None), false), Ok(()));
    assert_eq!(check_removed(0), Err(CartError::ItemNotInCart));
    assert_eq!(CartError::ItemAlreadyInCart.status_code(), 409);
    assert_eq!(CartError::CannotAddToCartOwnItem.message(), "You cannot add your own item to the cart");
}

#[test]
fn profiles_are_open_to_their_owner_and_admins() {
    assert_eq!(check_profile_access(1, 1, "user"), Ok(()));
    assert_eq!(check_profile_access(2, 1, "admin"), Ok(()));
    assert_eq!(check_profile_access(2, 1, "user"), Err(UserProfileError::Forbidden));
    assert!(needs_current_password("user"));
    assert!(!needs_current_password("admin"));
    let stats = UserStats::from_counts(2, 3, 1, 4, 5, 6);
    assert_eq!((stats.items_sold, stats.successful_bids), (5, 11));
    assert_eq!(UserProfileError::Unauthorized.status_code(), 401);
}

#[test]
fn category_requests_and_admin_pages() {
    assert!(CategoryRequest { name: "Test Category".to_string() }.into_new_category().is_ok());
    assert!(CategoryRequest { name: "".to_string() }.into_new_category().is_err());
    assert!(CategoryRequest { name: "a".repeat(101) }.into_new_category().is_err());
    assert_eq!(check_category_changed(0), Err(CategoryError::NotFound));
    assert_eq!(CategoryError::NotFound.reply(), (404, "Category not found"));
    assert_eq!(require_admin("admin"), Ok(()));
    assert_eq!(require_admin("user"), Err(DashboardError::AuthenticationError));
    assert_eq!(escape_xml("<a href=\"x\">Tom & Jerry's</a>"),
        "&lt;a href=&quot;x&quot;&gt;Tom &amp; Jerry&apos;s&lt;/a&gt;");
    assert_eq!(PaginationQuery { limit: None }.effective_limit(), 10);
    assert_eq!(PaginationQuery { limit: Some(80) }.effective_limit(), 50);
}

fn sign_up(username: &str, email: &str) -> User {
    User {
        username: username.to_string(),
        email: email.to_string(),
        password_hash: "themosagapw".to_string(),
        first_name: "marios".to_string(),
        last_name: "deathwish".to_string(),
        phone: "+696969696969".to_string(),
        date_of_birth: CalendarDate { year: 1821, month: 5, day: 15 },
        seller_rating: None,
        tax_id: None,
        location: None,
        country: None,
    }
}

#[test]
fn sign_ups_check_names_and_address() {
    let user = NewUser::try_from(sign_up("deathwish", "deathwish@tsimpouki.com")).expect("valid");
    assert_eq!(user.username.as_ref(), "deathwish");
    assert_eq!(
        NewUser::try_from(sign_up("", "deathwish@tsimpouki.com")).err(),
        Some(" is not a valid username.".to_string())
    );
    assert_eq!(
        NewUser::try_from(sign_up("deathwadish", "invalid-email-most-def")).err(),
        Some("invalid-email-most-def is not a valid user email.".to_string())
    );
    assert_eq!(CreateUserError::UsernameTaken.reply(), (400, "Username is taken"));
}
