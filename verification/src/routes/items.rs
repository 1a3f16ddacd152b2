//! Listings: building them from requests, searching, filtering and sorting
//! them, and answering purchases.
use crate::clock::{is_uuid_text, new_v4_text};
use crate::decimal::{decimal_order, reversed, Amount};
use crate::domain::item::{item_error, item_orders, NewItem};
use crate::services::purchase_service::{PurchaseInfo, PurchaseServiceError};
use crate::text::{
    before_first, before_first_chars, chars_of, contains_chars, contains_seq, is_blank, is_empty_text,
    is_blank_seq, lowercase, owned, push_str, str_eq, string_from_chars, to_lowercase, trim,
    trim_chars,
};
use vstd::multiset::Multiset;
use vstd::prelude::*;

verus! {

broadcast use vstd::seq_lib::group_to_multiset_ensures;

/// A listing as a client sends it. Identifiers are the 128-bit values of
/// UUIDs and times are microseconds since the Unix epoch; the coordinates
/// travel beside it, outside the library.
#[derive(Debug)]
pub struct ItemRequest {
    pub item_id: Option<String>,
    pub listing_type: String,
    pub name: String,
    pub price: Amount,
    pub currently: Option<Amount>,
    pub buy_price: Option<Amount>,
    pub number_of_bids: Option<i32>,
    pub location: Option<String>,
    pub country: Option<String>,
    pub started: i64,
    pub ends: Option<i64>,
    pub description: Option<String>,
    pub seller_user_id: u128,
    pub condition: Option<String>,
    pub shipping_cost: Option<Amount>,
    pub categories: Vec<String>,
}

/// `item` carries the request's fields, with the seller's rating, a fresh
/// UUID text where no identifier was given, and a shipping cost of zero where
/// none was given.
pub open spec fn built_from(item: NewItem, req: ItemRequest, seller_rating: Option<Amount>) -> bool {
    &&& (req.item_id matches Some(id) ==> item.item_id == id)
    &&& (req.item_id is None ==> is_uuid_text(item.item_id@))
    &&& item.listing_type == req.listing_type
    &&& item.name == req.name
    &&& item.price@ == req.price@
    &&& item.currently == req.currently
    &&& item.buy_price == req.buy_price
    &&& item.number_of_bids == req.number_of_bids
    &&& item.location == req.location
    &&& item.country == req.country
    &&& item.started == req.started
    &&& item.ends == req.ends
    &&& item.description == req.description
    &&& item.seller_user_id == req.seller_user_id
    &&& item.seller_rating == seller_rating
    &&& item.condition == req.condition
    &&& item.shipping_cost@ == match req.shipping_cost {
        Some(s) => s@,
        None => "0"@,
    }
    &&& item.categories == req.categories
}

impl ItemRequest {
    /// Turns the request into a listing and checks it. A request without an
    /// identifier gets a fresh random one.
    pub fn into_new_item_with_seller_rating(self, seller_rating: Option<Amount>) -> (r: Result<
        NewItem,
        String,
    >)
        ensures
            match r {
                Ok(item) => built_from(item, self, seller_rating) && item_error(
                    item,
                    item_orders(item),
                ) is None,
                Err(e) => exists|item: NewItem|
                    built_from(item, self, seller_rating) && item_error(item, item_orders(item))
                        == Some(e@),
            },
    {
        let ghost req = self;
        let item_id = match self.item_id {
            Some(id) => id,
            None => new_v4_text(),
        };
        let shipping_cost = match self.shipping_cost {
            Some(s) => s,
            None => Amount::zero(),
        };
        let item = NewItem {
            item_id,
            listing_type: self.listing_type,
            name: self.name,
            price: self.price,
            currently: self.currently,
            buy_price: self.buy_price,
            number_of_bids: self.number_of_bids,
            location: self.location,
            country: self.country,
            started: self.started,
            ends: self.ends,
            description: self.description,
            seller_user_id: self.seller_user_id,
            seller_rating,
            condition: self.condition,
            shipping_cost,
            categories: self.categories,
        };
        assert(built_from(item, req, seller_rating));
        match item.validate() {
            Ok(()) => Ok(item),
            Err(e) => Err(e),
        }
    }
}

/// Why a listing request failed.
#[derive(Debug, Clone, Copy, PartialEq, Eq, Structural)]
pub enum ItemError {
    ValidationError,
    NotFound,
    CategoriesNotFound,
}

impl ItemError {
    /// The HTTP status of the error.
    pub fn status_code(&self) -> (r: u16)
        ensures
            r == match *self {
                ItemError::ValidationError => 400u16,
                ItemError::NotFound => 404u16,
                ItemError::CategoriesNotFound => 400u16,
            },
    {
        match self {
            ItemError::ValidationError => 400,
            ItemError::NotFound => 404,
            ItemError::CategoriesNotFound => 400,
        }
    }

    /// The message of the error.
    pub fn message(&self) -> (r: &'static str)
        ensures
            r@ == match *self {
                ItemError::ValidationError => "Invalid item data provided"@,
                ItemError::NotFound => "Item not found"@,
                ItemError::CategoriesNotFound => "One or more categories not found"@,
            },
    {
        match self {
            ItemError::ValidationError => "Invalid item data provided",
            ItemError::NotFound => "Item not found",
            ItemError::CategoriesNotFound => "One or more categories not found",
        }
    }
}

/// Who may change a listing: its seller, or an administrator. A listing
/// without a known seller is not found.
pub open spec fn update_permission(
    requesting_user_id: u128,
    item_seller: Option<Option<u128>>,
    role: Seq<char>,
) -> Result<(), ItemError> {
    match item_seller {
        Some(Some(seller)) => if requesting_user_id != seller && role != "admin"@ {
            Err(ItemError::ValidationError)
        } else {
            Ok(())
        },
        _ => Err(ItemError::NotFound),
    }
}

/// Decides whether `requesting_user_id`, with `role`, may update a listing
/// whose stored seller is `item_seller` (`None` when the listing is missing).
pub fn may_update_item(requesting_user_id: u128, item_seller: Option<Option<u128>>, role: &str) -> (r:
    Result<(), ItemError>)
    ensures
        r == update_permission(requesting_user_id, item_seller, role@),
{
    match item_seller {
        Some(Some(seller)) => {
            if requesting_user_id != seller && !str_eq(role, "admin") {
                Err(ItemError::ValidationError)
            } else {
                Ok(())
            }
        },
        _ => Err(ItemError::NotFound),
    }
}

/// A stored listing as the catalogue shows it. Its images and coordinates
/// are attached outside the library.
#[derive(Debug)]
pub struct ListedItem {
    pub item_id: String,
    pub listing_type: String,
    pub name: String,
    pub price: Amount,
    pub currently: Option<Amount>,
    pub buy_price: Option<Amount>,
    pub number_of_bids: Option<i32>,
    pub location: Option<String>,
    pub country: Option<String>,
    pub started: i64,
    pub ends: Option<i64>,
    pub description: Option<String>,
    pub seller_user_id: u128,
    pub seller_rating: Option<Amount>,
    pub condition: Option<String>,
    pub shipping_cost: Amount,
    pub categories: Vec<String>,
    pub status: Option<String>,
}

/// The catalogue's search parameters.
#[derive(Debug, Clone)]
pub struct ItemsQuery {
    pub category: Option<i32>,
    pub q: Option<String>,
    pub min_price: Option<String>,
    pub max_price: Option<String>,
    pub sort_by: Option<String>,
    pub listing_type: Option<String>,
    pub location: Option<String>,
}

/// The price a listing is filtered and sorted by: an auction's current price
/// where it has one, else the listed price.
pub open spec fn price_key(item: ListedItem) -> Seq<char> {
    if item.listing_type@ == "auction"@ {
        match item.currently {
            Some(c) => c@,
            None => item.price@,
        }
    } else {
        item.price@
    }
}

/// The city of a location: the text before its first comma, trimmed.
pub open spec fn city_of(location: Seq<char>) -> Seq<char> {
    trim(before_first(location, ','))
}

/// Whether `item` passes the search `q`; `in_category` says whether it
/// belongs to the requested category. A blank search text, a blank location
/// and an empty price bound are ignored, and so is a bound that is not a
/// number.
pub open spec fn admits(item: ListedItem, q: ItemsQuery, in_category: bool) -> bool {
    &&& (q.listing_type matches Some(t) ==> item.listing_type@ == t@)
    &&& (q.category is Some ==> in_category)
    &&& (q.q matches Some(s) ==> (!is_blank_seq(s@) ==> (contains_seq(
        lowercase(item.name@),
        lowercase(s@),
    ) || (item.description matches Some(d) && contains_seq(lowercase(d@), lowercase(s@))))))
    &&& (q.location matches Some(l) ==> (!is_blank_seq(l@) ==> (item.location matches Some(loc)
        && lowercase(city_of(loc@)) == lowercase(l@))))
    &&& (q.min_price matches Some(m) ==> (m@.len() > 0 && decimal_order(m@, m@) is Some
        ==> decimal_order(price_key(item), m@) != Some(-1i8)))
    &&& (q.max_price matches Some(m) ==> (m@.len() > 0 && decimal_order(m@, m@) is Some
        ==> decimal_order(price_key(item), m@) != Some(1i8)))
}

/// The price a listing is filtered and sorted by.
pub fn effective_price(item: &ListedItem) -> (r: &Amount)
    ensures
        r@ == price_key(*item),
{
    if str_eq(item.listing_type.as_str(), "auction") {
        match &item.currently {
            Some(c) => c,
            None => &item.price,
        }
    } else {
        &item.price
    }
}

fn text_matches(text: &str, needle_lower: &Vec<char>) -> (r: bool)
    ensures
        r == contains_seq(lowercase(text@), needle_lower@),
{
    let lower = to_lowercase(text);
    let cs = chars_of(lower.as_str());
    contains_chars(&cs, needle_lower)
}

fn search_matches(item: &ListedItem, search: &str) -> (r: bool)
    ensures
        r == (contains_seq(lowercase(item.name@), lowercase(search@)) || (
        item.description matches Some(d) && contains_seq(lowercase(d@), lowercase(search@)))),
{
    let search_lower = to_lowercase(search);
    let needle = chars_of(search_lower.as_str());
    if text_matches(item.name.as_str(), &needle) {
        return true;
    }
    match &item.description {
        Some(d) => text_matches(d.as_str(), &needle),
        None => false,
    }
}

fn location_matches(item: &ListedItem, filter_location: &str) -> (r: bool)
    ensures
        r == (item.location matches Some(loc) && lowercase(city_of(loc@)) == lowercase(
            filter_location@,
        )),
{
    match &item.location {
        Some(loc) => {
            let cs = chars_of(loc.as_str());
            let head = before_first_chars(&cs, ',');
            let city = trim_chars(&head);
            let city_text = string_from_chars(&city);
            let city_lower = to_lowercase(city_text.as_str());
            let filter_lower = to_lowercase(filter_location);
            str_eq(city_lower.as_str(), filter_lower.as_str())
        },
        None => false,
    }
}

/// Whether `item` passes the search `query`.
pub fn item_admitted(item: &ListedItem, query: &ItemsQuery, in_category: bool) -> (r: bool)
    ensures
        r == admits(*item, *query, in_category),
{
    match &query.listing_type {
        Some(t) => {
            if !str_eq(item.listing_type.as_str(), t.as_str()) {
                return false;
            }
        },
        None => {},
    }
    if query.category.is_some() && !in_category {
        return false;
    }
    match &query.q {
        Some(s) => {
            if !is_blank(s.as_str()) && !search_matches(item, s.as_str()) {
                return false;
            }
        },
        None => {},
    }
    match &query.location {
        Some(l) => {
            if !is_blank(l.as_str()) && !location_matches(item, l.as_str()) {
                return false;
            }
        },
        None => {},
    }
    let price = effective_price(item);
    match &query.min_price {
        Some(m) => {
            if !is_empty_text(m.as_str()) {
                match price.compare_with(m.as_str()) {
                    Some(-1i8) => {
                        return false;
                    },
                    _ => {},
                }
            }
        },
        None => {},
    }
    match &query.max_price {
        Some(m) => {
            if !is_empty_text(m.as_str()) {
                match price.compare_with(m.as_str()) {
                    Some(1i8) => {
                        return false;
                    },
                    _ => {},
                }
            }
        },
        None => {},
    }
    true
}

/// The listings of `items` that pass the search, in order; `flags[i]` says
/// whether `items[i]` is in the requested category.
pub open spec fn admitted_items(items: Seq<ListedItem>, q: ItemsQuery, flags: Seq<bool>) -> Seq<
    ListedItem,
>
    decreases items.len(),
{
    if items.len() == 0 {
        Seq::empty()
    } else {
        let rest = admitted_items(items.drop_last(), q, flags.drop_last());
        if admits(items.last(), q, flags.last()) {
            rest.push(items.last())
        } else {
            rest
        }
    }
}

/// How the catalogue orders its results.
#[derive(Debug, Clone, Copy, PartialEq, Eq, Structural)]
pub enum SortOrder {
    PriceAscending,
    PriceDescending,
    EndingSoon,
    AsStored,
}

/// The order a `sortBy` parameter asks for.
pub open spec fn sort_order_for(sort_by: Option<Seq<char>>) -> SortOrder {
    match sort_by {
        Some(s) => if s == "price_asc"@ {
            SortOrder::PriceAscending
        } else if s == "price_desc"@ {
            SortOrder::PriceDescending
        } else if s == "ending_soon"@ {
            SortOrder::EndingSoon
        } else {
            SortOrder::AsStored
        },
        None => SortOrder::AsStored,
    }
}

/// Reads the `sortBy` parameter.
pub fn sort_order(sort_by: &Option<String>) -> (r: SortOrder)
    ensures
        r == sort_order_for(
            match sort_by {
                Some(s) => Some(s@),
                None => None,
            },
        ),
{
    match sort_by {
        Some(s) => {
            if str_eq(s.as_str(), "price_asc") {
                SortOrder::PriceAscending
            } else if str_eq(s.as_str(), "price_desc") {
                SortOrder::PriceDescending
            } else if str_eq(s.as_str(), "ending_soon") {
                SortOrder::EndingSoon
            } else {
                SortOrder::AsStored
            }
        },
        None => SortOrder::AsStored,
    }
}

/// `a` must come after `b` in `order`: its price is higher (lower, when
/// descending), or it ends later, or it has no end while `b` has one.
pub open spec fn goes_after(order: SortOrder, a: ListedItem, b: ListedItem) -> bool {
    match order {
        SortOrder::PriceAscending => decimal_order(price_key(a), price_key(b)) == Some(1i8),
        SortOrder::PriceDescending => decimal_order(price_key(b), price_key(a)) == Some(1i8),
        SortOrder::EndingSoon => match (a.ends, b.ends) {
            (Some(x), Some(y)) => x > y,
            (None, Some(_)) => true,
            _ => false,
        },
        SortOrder::AsStored => false,
    }
}

/// No listing of `s` must come after the one that follows it.
pub open spec fn is_sorted_by(order: SortOrder, s: Seq<ListedItem>) -> bool {
    forall|i: int| 0 <= i < s.len() - 1 ==> !goes_after(order, #[trigger] s[i], s[i + 1])
}

fn must_follow(order: SortOrder, a: &ListedItem, b: &ListedItem) -> (r: bool)
    ensures
        r == goes_after(order, *a, *b),
        r ==> !goes_after(order, *b, *a),
{
    match order {
        SortOrder::PriceAscending => {
            let x = effective_price(a);
            let y = effective_price(b);
            let c = x.compare(y);
            proof {
                assert(decimal_order(price_key(*b), price_key(*a)) == reversed(Some(c)));
            }
            c == 1
        },
        SortOrder::PriceDescending => {
            let x = effective_price(a);
            let y = effective_price(b);
            let c = y.compare(x);
            c == 1
        },
        SortOrder::EndingSoon => match (a.ends, b.ends) {
            (Some(x), Some(y)) => x > y,
            (None, Some(_)) => true,
            _ => false,
        },
        SortOrder::AsStored => false,
    }
}

/// Neither of `a` and `b` must come after the other in `order`.
pub open spec fn ties(order: SortOrder, a: ListedItem, b: ListedItem) -> bool {
    !goes_after(order, a, b) && !goes_after(order, b, a)
}

/// `p` tells where each listing of `output` stood in `input`: no position
/// is taken twice, and listings that tie stand in `output` in the order
/// they had in `input`.
pub open spec fn stable_arrangement(
    order: SortOrder,
    input: Seq<ListedItem>,
    output: Seq<ListedItem>,
    p: Seq<int>,
) -> bool {
    &&& p.len() == output.len()
    &&& forall|i: int| 0 <= i < p.len() ==> 0 <= #[trigger] p[i] < input.len() && output[i] == input[p[i]]
    &&& forall|i: int, j: int| 0 <= i < j < p.len() ==> #[trigger] p[i] != #[trigger] p[j]
    &&& forall|i: int, j: int|
        0 <= i < j < p.len() && ties(order, #[trigger] output[i], #[trigger] output[j]) ==> p[i]
            < p[j]
}

/// `output` is `input` sorted stably by `order`: it holds the same listings,
/// no listing must come after the one that follows it, and listings that tie
/// keep the order they had.
pub open spec fn stably_sorted(order: SortOrder, input: Seq<ListedItem>, output: Seq<ListedItem>) -> bool {
    &&& output.len() == input.len()
    &&& output.to_multiset() == input.to_multiset()
    &&& is_sorted_by(order, output)
    &&& exists|p: Seq<int>| stable_arrangement(order, input, output, p)
}

/// Putting `x` at `j`, after every listing that need not come after it and
/// before those that must, keeps `s` sorted.
proof fn lemma_insert_keeps_order(order: SortOrder, s: Seq<ListedItem>, x: ListedItem, j: int)
    requires
        0 <= j <= s.len(),
        is_sorted_by(order, s),
        j < s.len() ==> !goes_after(order, x, s[j]),
        j > 0 ==> !goes_after(order, s[j - 1], x),
    ensures
        is_sorted_by(order, s.insert(j, x)),
{
    let t = s.insert(j, x);
    assert forall|i: int| 0 <= i < t.len() - 1 implies !goes_after(order, #[trigger] t[i], t[i + 1]) by {
        if i < j - 1 {
            assert(t[i] == s[i] && t[i + 1] == s[i + 1]);
        } else if i == j - 1 {
            assert(t[i] == s[i] && t[i + 1] == x);
        } else if i == j {
            assert(t[i] == x && t[i + 1] == s[j]);
        } else {
            assert(t[i] == s[i - 1] && t[i + 1] == s[i]);
            assert(s[i - 1] == s[(i - 1)]);
        }
    }
}

/// The positions of the listings sorted so far, with `x`, taken from
/// position `k` of `all`, put at `j` ahead of every listing that must come
/// after it.
proof fn lemma_insert_keeps_arrangement(
    order: SortOrder,
    all: Seq<ListedItem>,
    s: Seq<ListedItem>,
    idx: Seq<int>,
    x: ListedItem,
    j: int,
    k: int,
)
    requires
        0 <= j <= s.len(),
        0 <= k < all.len(),
        x == all[k],
        idx.len() == s.len(),
        forall|i: int| 0 <= i < idx.len() ==> 0 <= #[trigger] idx[i] < k && s[i] == all[idx[i]],
        forall|a: int, b: int| 0 <= a < b < idx.len() ==> #[trigger] idx[a] != #[trigger] idx[b],
        forall|a: int, b: int|
            0 <= a < b < idx.len() && ties(order, #[trigger] s[a], #[trigger] s[b]) ==> idx[a] < idx[b],
        forall|m: int| j <= m < s.len() ==> goes_after(order, #[trigger] s[m], x),
    ensures
        ({
            let t = s.insert(j, x);
            let p = idx.insert(j, k);
            &&& p.len() == t.len()
            &&& forall|i: int| 0 <= i < p.len() ==> 0 <= #[trigger] p[i] < k + 1 && t[i] == all[p[i]]
            &&& forall|a: int, b: int| 0 <= a < b < p.len() ==> #[trigger] p[a] != #[trigger] p[b]
            &&& forall|a: int, b: int|
                0 <= a < b < p.len() && ties(order, #[trigger] t[a], #[trigger] t[b]) ==> p[a] < p[b]
        }),
{
    let t = s.insert(j, x);
    let p = idx.insert(j, k);
    assert forall|i: int| 0 <= i < p.len() implies 0 <= #[trigger] p[i] < k + 1 && t[i] == all[p[i]] by {
        if i < j {
            assert(p[i] == idx[i] && t[i] == s[i]);
        } else if i > j {
            assert(p[i] == idx[i - 1] && t[i] == s[i - 1]);
        }
    }
    assert forall|a: int, b: int| 0 <= a < b < p.len() implies #[trigger] p[a] != #[trigger] p[b] by {
        if a < j && b < j {
            assert(p[a] == idx[a] && p[b] == idx[b]);
        } else if a < j && b == j {
            assert(p[a] == idx[a]);
        } else if a < j {
            assert(p[a] == idx[a] && p[b] == idx[b - 1]);
        } else if a == j {
            assert(p[b] == idx[b - 1]);
        } else {
            assert(p[a] == idx[a - 1] && p[b] == idx[b - 1]);
        }
    }
    assert forall|a: int, b: int|
        0 <= a < b < p.len() && ties(order, #[trigger] t[a], #[trigger] t[b]) implies p[a] < p[b] by {
        if a < j && b < j {
            assert(p[a] == idx[a] && p[b] == idx[b]);
            assert(t[a] == s[a] && t[b] == s[b]);
        } else if a < j && b == j {
            assert(p[a] == idx[a]);
        } else if a < j {
            assert(p[a] == idx[a] && p[b] == idx[b - 1]);
            assert(t[a] == s[a] && t[b] == s[b - 1]);
        } else if a == j {
            assert(t[b] == s[b - 1]);
            assert(goes_after(order, s[b - 1], x));
        } else {
            assert(p[a] == idx[a - 1] && p[b] == idx[b - 1]);
            assert(t[a] == s[a - 1] && t[b] == s[b - 1]);
        }
    }
}

/// Sorts `items` stably by insertion: the result holds the same listings,
/// no listing must come after the one that follows it, and listings that
/// tie keep their order.
pub fn sort_items(items: Vec<ListedItem>, order: SortOrder) -> (r: Vec<ListedItem>)
    ensures
        stably_sorted(order, items@, r@),
{
    let ghost all = items@;
    let mut rest = items;
    let mut r: Vec<ListedItem> = Vec::new();
    let ghost mut idx: Seq<int> = Seq::empty();
    let ghost mut k: int = 0;
    assert(r@.to_multiset().add(rest@.to_multiset()) =~= all.to_multiset());
    assert(rest@ =~= all.skip(0));
    while rest.len() > 0
        invariant
            0 <= k <= all.len(),
            rest@ == all.skip(k),
            r@.len() == k,
            r@.to_multiset().add(rest@.to_multiset()) == all.to_multiset(),
            is_sorted_by(order, r@),
            idx.len() == r@.len(),
            forall|i: int| 0 <= i < idx.len() ==> 0 <= #[trigger] idx[i] < k && r@[i] == all[idx[i]],
            forall|i: int, j: int| 0 <= i < j < idx.len() ==> #[trigger] idx[i] != #[trigger] idx[j],
            forall|i: int, j: int|
                0 <= i < j < idx.len() && ties(order, #[trigger] r@[i], #[trigger] r@[j]) ==> idx[i]
                    < idx[j],
        decreases rest.len(),
    {
        let ghost rest_before = rest@;
        let x = rest.remove(0);
        proof {
            vstd::seq_lib::to_multiset_remove(rest_before, 0);
            assert(x == all[k]);
            assert(rest@ =~= all.skip(k + 1));
        }
        let mut j: usize = r.len();
        loop
            invariant
                j <= r.len(),
                is_sorted_by(order, r@),
                j < r.len() ==> !goes_after(order, x, r@[j as int]),
                forall|m: int| j <= m < r@.len() ==> goes_after(order, #[trigger] r@[m], x),
            ensures
                j <= r.len(),
                is_sorted_by(order, r@),
                j < r.len() ==> !goes_after(order, x, r@[j as int]),
                j > 0 ==> !goes_after(order, r@[j - 1], x),
                forall|m: int| j <= m < r@.len() ==> goes_after(order, #[trigger] r@[m], x),
            decreases j,
        {
            if j == 0 {
                break;
            }
            if !must_follow(order, &r[j - 1], &x) {
                break;
            }
            j = j - 1;
        }
        let ghost r_before = r@;
        let ghost idx_before = idx;
        r.insert(j, x);
        proof {
            idx = idx_before.insert(j as int, k);
            vstd::seq_lib::to_multiset_insert(r_before, j as int, x);
            lemma_insert_keeps_order(order, r_before, x, j as int);
            lemma_insert_keeps_arrangement(order, all, r_before, idx_before, x, j as int, k);
            assert(r@ == r_before.insert(j as int, x));
            k = k + 1;
            assert(r@.to_multiset().add(rest@.to_multiset()) =~= all.to_multiset());
        }
    }
    proof {
        assert(rest@.to_multiset() =~= Multiset::empty());
        assert(r@.to_multiset() =~= all.to_multiset());
        assert(stable_arrangement(order, all, r@, idx));
    }
    r
}

/// The catalogue's answer to a search: the listings that pass it, in stored
/// order or sorted as `sortBy` asks. `in_category[i]` says whether
/// `items[i]` belongs to the requested category.
pub fn select_items(items: Vec<ListedItem>, query: &ItemsQuery, in_category: &Vec<bool>) -> (r: Vec<
    ListedItem,
>)
    requires
        in_category.len() == items.len(),
    ensures
        ({
            let order = sort_order_for(
                match query.sort_by {
                    Some(s) => Some(s@),
                    None => None,
                },
            );
            let admitted = admitted_items(items@, *query, in_category@);
            &&& order == SortOrder::AsStored ==> r@ == admitted
            &&& stably_sorted(order, admitted, r@)
        }),
{
    let ghost all = items@;
    let mut rest = items;
    let mut kept: Vec<ListedItem> = Vec::new();
    let mut k: usize = 0;
    assert(all.take(0) =~= Seq::<ListedItem>::empty());
    assert(rest@ =~= all.skip(0));
    while rest.len() > 0
        invariant
            k <= all.len(),
            in_category.len() == all.len(),
            rest@ == all.skip(k as int),
            kept@ == admitted_items(all.take(k as int), *query, in_category@.take(k as int)),
        decreases rest.len(),
    {
        let x = rest.remove(0);
        proof {
            assert(all.take(k + 1).drop_last() =~= all.take(k as int));
            assert(in_category@.take(k + 1).drop_last() =~= in_category@.take(k as int));
            assert(all.take(k + 1).last() == x);
            assert(in_category@.take(k + 1).last() == in_category@[k as int]);
            assert(rest@ =~= all.skip(k + 1));
        }
        if item_admitted(&x, query, in_category[k]) {
            kept.push(x);
        }
        k = k + 1;
    }
    assert(all.take(k as int) =~= all);
    assert(in_category@.take(k as int) =~= in_category@);
    let order = sort_order(&query.sort_by);
    match order {
        SortOrder::AsStored => {
            proof {
                let p = Seq::new(kept@.len(), |i: int| i);
                assert(stable_arrangement(order, kept@, kept@, p));
            }
            kept
        },
        _ => sort_items(kept, order),
    }
}

/// Why a purchase request failed before the purchase was tried.
#[derive(Debug, Clone, Copy, PartialEq, Eq, Structural)]
pub enum PurchaseError {
    NotFound,
    NotAvailable,
    AlreadySold,
    IsAuction,
    UserNotFound,
    CannotPurchaseOwn,
}

/// The HTTP status and message of each purchase request error.
pub open spec fn purchase_error_reply(e: PurchaseError) -> (u16, Seq<char>) {
    match e {
        PurchaseError::NotFound => (404u16, "Item not found"@),
        PurchaseError::NotAvailable => (400u16, "Item is not available for purchase"@),
        PurchaseError::AlreadySold => (409u16, "Item has already been sold"@),
        PurchaseError::IsAuction => (400u16, "This item is an auction, use bidding instead"@),
        PurchaseError::UserNotFound => (404u16, "User not found"@),
        PurchaseError::CannotPurchaseOwn => (400u16, "Cannot purchase your own item"@),
    }
}

impl PurchaseError {
    /// The HTTP status of the error.
    pub fn status_code(&self) -> (r: u16)
        ensures
            r == purchase_error_reply(*self).0,
    {
        match self {
            PurchaseError::NotFound => 404,
            PurchaseError::NotAvailable => 400,
            PurchaseError::AlreadySold => 409,
            PurchaseError::IsAuction => 400,
            PurchaseError::UserNotFound => 404,
            PurchaseError::CannotPurchaseOwn => 400,
        }
    }

    /// The message of the error.
    pub fn message(&self) -> (r: &'static str)
        ensures
            r@ == purchase_error_reply(*self).1,
    {
        match self {
            PurchaseError::NotFound => "Item not found",
            PurchaseError::NotAvailable => "Item is not available for purchase",
            PurchaseError::AlreadySold => "Item has already been sold",
            PurchaseError::IsAuction => "This item is an auction, use bidding instead",
            PurchaseError::UserNotFound => "User not found",
            PurchaseError::CannotPurchaseOwn => "Cannot purchase your own item",
        }
    }
}

/// The body of the answer to a purchase.
#[derive(Debug)]
pub struct PurchaseResponse {
    pub success: bool,
    pub message: String,
    pub purchase_info: Option<PurchaseInfo>,
}

/// The HTTP status and message answering a failed purchase.
pub open spec fn failed_purchase_reply(e: PurchaseServiceError) -> (u16, Seq<char>) {
    match e {
        PurchaseServiceError::ItemNotFound => (404u16, "Item not found"@),
        PurchaseServiceError::ItemNotAvailable => (400u16, "Item is not available for purchase"@),
        PurchaseServiceError::ItemAlreadySold => (409u16, "Item has already been sold"@),
        PurchaseServiceError::ItemIsAuction => (
            400u16,
            "This item is an auction, use bidding instead"@,
        ),
        PurchaseServiceError::UserNotFound => (404u16, "User not found"@),
        PurchaseServiceError::CannotPurchaseOwnItem => (400u16, "Cannot purchase your own item"@),
        _ => (500u16, "Purchase failed"@),
    }
}

/// Answers a purchase: success with the purchase and a message naming the
/// item, or failure with the status and message of its cause.
pub fn purchase_response(outcome: Result<PurchaseInfo, PurchaseServiceError>) -> (r: (
    u16,
    PurchaseResponse,
))
    ensures
        match outcome {
            Ok(info) => r.0 == 200 && r.1.success && r.1.message@ == "Successfully purchased item '"@
                + info.item_name@ + "'"@ && r.1.purchase_info == Some(info),
            Err(e) => r.0 == failed_purchase_reply(e).0 && !r.1.success && r.1.message@
                == failed_purchase_reply(e).1 && r.1.purchase_info is None,
        },
{
    match outcome {
        Ok(info) => {
            let mut message = owned("Successfully purchased item '");
            push_str(&mut message, info.item_name.as_str());
            push_str(&mut message, "'");
            (200, PurchaseResponse { success: true, message, purchase_info: Some(info) })
        },
        Err(e) => {
            let (status, text): (u16, &str) = match e {
                PurchaseServiceError::ItemNotFound => (404, "Item not found"),
                PurchaseServiceError::ItemNotAvailable => (
                    400,
                    "Item is not available for purchase",
                ),
                PurchaseServiceError::ItemAlreadySold => (409, "Item has already been sold"),
                PurchaseServiceError::ItemIsAuction => (
                    400,
                    "This item is an auction, use bidding instead",
                ),
                PurchaseServiceError::UserNotFound => (404, "User not found"),
                PurchaseServiceError::CannotPurchaseOwnItem => (
                    400,
                    "Cannot purchase your own item",
                ),
                _ => (500, "Purchase failed"),
            };
            (status, PurchaseResponse { success: false, message: owned(text), purchase_info: None })
        },
    }
}

/// Every listing the search keeps is one of the listings searched and passes
/// the search, with the category answer given for it.
pub proof fn lemma_admitted_items_pass(items: Seq<ListedItem>, q: ItemsQuery, flags: Seq<bool>)
    requires
        flags.len() == items.len(),
    ensures
        forall|k: int|
            0 <= k < admitted_items(items, q, flags).len() ==> exists|i: int|
                0 <= i < items.len() && items[i] == #[trigger] admitted_items(items, q, flags)[k]
                    && admits(items[i], q, flags[i]),
        admitted_items(items, q, flags).len() <= items.len(),
    decreases items.len(),
{
    if items.len() > 0 {
        let d = items.drop_last();
        let fd = flags.drop_last();
        lemma_admitted_items_pass(d, q, fd);
        let rest = admitted_items(d, q, fd);
        let r = admitted_items(items, q, flags);
        assert forall|k: int| 0 <= k < r.len() implies exists|i: int|
            0 <= i < items.len() && items[i] == #[trigger] r[k] && admits(items[i], q, flags[i]) by {
            if k < rest.len() {
                assert(r[k] == rest[k]);
                let i = choose|i: int| 0 <= i < d.len() && d[i] == rest[k] && admits(d[i], q, fd[i]);
                assert(items[i] == d[i] && flags[i] == fd[i]);
            } else {
                assert(r[k] == items.last());
                assert(items[items.len() - 1] == items.last());
            }
        }
    }
}

/// Every listing that passes the search, with the category answer given for
/// it, is kept: with `lemma_admitted_items_pass`, a listing is in the result
/// exactly when it is one of the listings searched and passes the search.
pub proof fn lemma_passing_items_admitted(items: Seq<ListedItem>, q: ItemsQuery, flags: Seq<bool>)
    requires
        flags.len() == items.len(),
    ensures
        forall|i: int|
            0 <= i < items.len() && admits(#[trigger] items[i], q, flags[i]) ==> admitted_items(
                items,
                q,
                flags,
            ).contains(items[i]),
    decreases items.len(),
{
    if items.len() > 0 {
        let d = items.drop_last();
        let fd = flags.drop_last();
        lemma_passing_items_admitted(d, q, fd);
        let rest = admitted_items(d, q, fd);
        let r = admitted_items(items, q, flags);
        assert forall|i: int| 0 <= i < items.len() && admits(#[trigger] items[i], q, flags[i]) implies r.contains(
            items[i],
        ) by {
            if i < items.len() - 1 {
                assert(items[i] == d[i] && flags[i] == fd[i]);
                assert(rest.contains(d[i]));
                let w = choose|w: int| 0 <= w < rest.len() && rest[w] == d[i];
                if admits(items.last(), q, flags.last()) {
                    assert(r[w] == rest[w]);
                }
            } else {
                assert(items[i] == items.last() && flags[i] == flags.last());
                assert(r[r.len() - 1] == items.last());
            }
        }
    }
}

/// A listing is kept by the search exactly when it is one of the listings
/// searched and passes the search with the category answer given for it.
pub proof fn lemma_admitted_membership(
    items: Seq<ListedItem>,
    q: ItemsQuery,
    flags: Seq<bool>,
    x: ListedItem,
)
    requires
        flags.len() == items.len(),
    ensures
        admitted_items(items, q, flags).contains(x) <==> exists|i: int|
            0 <= i < items.len() && #[trigger] items[i] == x && admits(items[i], q, flags[i]),
{
    lemma_admitted_items_pass(items, q, flags);
    lemma_passing_items_admitted(items, q, flags);
    let r = admitted_items(items, q, flags);
    if r.contains(x) {
        let k = choose|k: int| 0 <= k < r.len() && r[k] == x;
        assert(exists|i: int| 0 <= i < items.len() && items[i] == #[trigger] r[k] && admits(items[i], q, flags[i]));
    }
}


/// The location filter ignores case: two filter texts that lowercase alike
/// (and are both blank or both not) admit the same listings, and a filter
/// that spells a listing's city exactly admits it.
pub proof fn lemma_location_filter_ignores_case(
    item: ListedItem,
    q: ItemsQuery,
    in_category: bool,
    l1: String,
    l2: String,
)
    requires
        lowercase(l1@) == lowercase(l2@),
        is_blank_seq(l1@) == is_blank_seq(l2@),
    ensures
        admits(item, ItemsQuery { location: Some(l1), ..q }, in_category) == admits(
            item,
            ItemsQuery { location: Some(l2), ..q },
            in_category,
        ),
        item.location matches Some(loc) && city_of(loc@) == l1@ ==> (admits(
            item,
            ItemsQuery { location: Some(l1), ..q },
            in_category,
        ) == admits(item, ItemsQuery { location: None, ..q }, in_category)),
{
}


/// The text search ignores case: two search texts that lowercase alike (and
/// are both blank or both not) admit the same listings.
pub proof fn lemma_text_search_ignores_case(
    item: ListedItem,
    q: ItemsQuery,
    in_category: bool,
    s1: String,
    s2: String,
)
    requires
        lowercase(s1@) == lowercase(s2@),
        is_blank_seq(s1@) == is_blank_seq(s2@),
    ensures
        admits(item, ItemsQuery { q: Some(s1), ..q }, in_category) == admits(
            item,
            ItemsQuery { q: Some(s2), ..q },
            in_category,
        ),
{
}

/// A price bound that is not a number is ignored, and a listing priced at or
/// above the lower bound (at or below the upper bound) passes it.
pub proof fn lemma_price_bounds(item: ListedItem, q: ItemsQuery, in_category: bool, m: String)
    ensures
        decimal_order(m@, m@) is None ==> admits(item, ItemsQuery { min_price: Some(m), ..q }, in_category)
            == admits(item, ItemsQuery { min_price: None, ..q }, in_category) && admits(
            item,
            ItemsQuery { max_price: Some(m), ..q },
            in_category,
        ) == admits(item, ItemsQuery { max_price: None, ..q }, in_category),
        (decimal_order(price_key(item), m@) == Some(0i8) || decimal_order(price_key(item), m@)
            == Some(1i8)) ==> admits(item, ItemsQuery { min_price: Some(m), ..q }, in_category)
            == admits(item, ItemsQuery { min_price: None, ..q }, in_category),
        (decimal_order(price_key(item), m@) == Some(0i8) || decimal_order(price_key(item), m@)
            == Some(-1i8)) ==> admits(item, ItemsQuery { max_price: Some(m), ..q }, in_category)
            == admits(item, ItemsQuery { max_price: None, ..q }, in_category),
        decimal_order(m@, m@) is Some && m@.len() > 0 && decimal_order(price_key(item), m@) == Some(
            -1i8,
        ) ==> !admits(item, ItemsQuery { min_price: Some(m), ..q }, in_category),
        decimal_order(m@, m@) is Some && m@.len() > 0 && decimal_order(price_key(item), m@) == Some(
            1i8,
        ) ==> !admits(item, ItemsQuery { max_price: Some(m), ..q }, in_category),
{
}

} // verus!
