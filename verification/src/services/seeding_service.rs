//! Seeding the database with two sellers and their listings.
use crate::clock::{is_uuid_text, new_v4_text};
use crate::configuration::SeedingSettings;
use crate::decimal::{decimal_order, Amount};
use crate::domain::hash_password;
use crate::domain::password::argon2_phc;
use crate::domain::item::{item_error, item_orders, NewItem};
use crate::domain::new_user::{CalendarDate, NewUser};
use crate::domain::user_email::{is_valid_user_email, UserEmail};
use crate::domain::username::{is_valid_username, Username};
use crate::text::{lemma_utf8_len_at_most_four, owned, push_str, str_eq, to_lowercase, lowercase};
use vstd::prelude::*;

verus! {

/// A day, in microseconds.
pub const DAY_MICROS: i64 = 86400000000;

/// An hour, in microseconds.
pub const HOUR_MICROS: i64 = 3600000000;

/// How far from the Unix epoch, in microseconds, seeding may run: its dates
/// lie within 30 days of the current time and must fit in an `i64`.
pub const SEED_TIME_BOUND: i64 = 9000000000000000000;

/// Why seeding failed.
#[derive(Debug, Clone, PartialEq, Eq)]
pub enum SeedingError {
    DatabaseError(String),
    UserServiceError(String),
    ItemServiceError(String),
    ValidationError(String),
    AlreadyCompleted,
    UnexpectedError(String),
}

/// The message shown for each seeding error.
pub open spec fn seeding_error_text(e: SeedingError) -> Seq<char> {
    match e {
        SeedingError::DatabaseError(d) => "Database error: "@ + d@,
        SeedingError::UserServiceError(d) => "User service error: "@ + d@,
        SeedingError::ItemServiceError(d) => "Item service error: "@ + d@,
        SeedingError::ValidationError(d) => "Validation error: "@ + d@,
        SeedingError::AlreadyCompleted => "Seeding already completed"@,
        SeedingError::UnexpectedError(d) => "Unexpected error: "@ + d@,
    }
}

fn prefixed(prefix: &str, detail: &String) -> (r: String)
    ensures
        r@ == prefix@ + detail@,
{
    let mut m = owned(prefix);
    push_str(&mut m, detail.as_str());
    m
}

impl SeedingError {
    /// The error's message.
    pub fn message(&self) -> (r: String)
        ensures
            r@ == seeding_error_text(*self),
    {
        match self {
            SeedingError::DatabaseError(d) => prefixed("Database error: ", d),
            SeedingError::UserServiceError(d) => prefixed("User service error: ", d),
            SeedingError::ItemServiceError(d) => prefixed("Item service error: ", d),
            SeedingError::ValidationError(d) => prefixed("Validation error: ", d),
            SeedingError::AlreadyCompleted => owned("Seeding already completed"),
            SeedingError::UnexpectedError(d) => prefixed("Unexpected error: ", d),
        }
    }
}

/// A listing of the seed catalogue. Amounts are decimal text; times are
/// microseconds since the Unix epoch. The coordinates of each seller's
/// listings travel beside them, outside the library.
#[derive(Debug, Clone)]
pub struct SeedItem {
    pub item_id: String,
    pub listing_type: String,
    pub name: String,
    pub first_bid: String,
    pub currently: String,
    pub buy_price: Option<String>,
    pub number_of_bids: i32,
    pub location: String,
    pub country: String,
    pub started: i64,
    pub ends: i64,
    pub description: String,
    pub seller_rating: String,
    pub condition: String,
    pub shipping_cost: String,
    pub categories: Vec<String>,
}

/// The texts `ts`, as owned strings.
fn texts(ts: &[&str]) -> (r: Vec<String>)
    ensures
        r@.len() == ts@.len(),
        forall|i: int| 0 <= i < ts@.len() ==> (#[trigger] r@[i])@ == ts@[i]@,
{
    let mut r: Vec<String> = Vec::new();
    let mut i: usize = 0;
    while i < ts.len()
        invariant
            i <= ts@.len(),
            r@.len() == i,
            forall|j: int| 0 <= j < i ==> (#[trigger] r@[j])@ == ts@[j]@,
        decreases ts@.len() - i,
    {
        r.push(owned(ts[i]));
        i = i + 1;
    }
    r
}

/// `item` is the seed listing described by the other arguments, offered from
/// `location`, `country`, with no bids yet and a fresh UUID text as its
/// identifier.
pub open spec fn is_seed(
    item: SeedItem,
    listing_type: Seq<char>,
    name: Seq<char>,
    first_bid: Seq<char>,
    currently: Seq<char>,
    buy_price: Option<Seq<char>>,
    started: int,
    ends: int,
    description: Seq<char>,
    seller_rating: Seq<char>,
    condition: Seq<char>,
    shipping_cost: Seq<char>,
    categories: Seq<Seq<char>>,
    location: Seq<char>,
    country: Seq<char>,
) -> bool {
    &&& is_uuid_text(item.item_id@)
    &&& item.listing_type@ == listing_type
    &&& item.name@ == name
    &&& item.first_bid@ == first_bid
    &&& item.currently@ == currently
    &&& match item.buy_price {
        Some(b) => buy_price == Some(b@),
        None => buy_price is None,
    }
    &&& item.number_of_bids == 0
    &&& item.location@ == location
    &&& item.country@ == country
    &&& item.started == started
    &&& item.ends == ends
    &&& item.description@ == description
    &&& item.seller_rating@ == seller_rating
    &&& item.condition@ == condition
    &&& item.shipping_cost@ == shipping_cost
    &&& item.categories@.len() == categories.len()
    &&& forall|i: int| 0 <= i < categories.len() ==> (#[trigger] item.categories@[i])@ == categories[i]
}

fn seed_item(
    listing_type: &str,
    name: &str,
    first_bid: &str,
    currently: &str,
    buy_price: Option<&str>,
    started: i64,
    ends: i64,
    description: &str,
    seller_rating: &str,
    condition: &str,
    shipping_cost: &str,
    categories: Vec<String>,
    location: &str,
    country: &str,
) -> (r: SeedItem)
    ensures
        is_uuid_text(r.item_id@),
        r.listing_type@ == listing_type@,
        r.name@ == name@,
        r.first_bid@ == first_bid@,
        r.currently@ == currently@,
        match r.buy_price {
            Some(b) => buy_price matches Some(p) && b@ == p@,
            None => buy_price is None,
        },
        r.number_of_bids == 0,
        r.location@ == location@,
        r.country@ == country@,
        r.started == started,
        r.ends == ends,
        r.description@ == description@,
        r.seller_rating@ == seller_rating@,
        r.condition@ == condition@,
        r.shipping_cost@ == shipping_cost@,
        r.categories == categories,
{
    SeedItem {
        item_id: new_v4_text(),
        listing_type: owned(listing_type),
        name: owned(name),
        first_bid: owned(first_bid),
        currently: owned(currently),
        buy_price: match buy_price {
            Some(p) => Some(owned(p)),
            None => None,
        },
        number_of_bids: 0,
        location: owned(location),
        country: owned(country),
        started,
        ends,
        description: owned(description),
        seller_rating: owned(seller_rating),
        condition: owned(condition),
        shipping_cost: owned(shipping_cost),
        categories,
    }
}

/// The amounts of `seed` all read as numbers.
pub open spec fn seed_amounts_parse(seed: SeedItem) -> bool {
    &&& decimal_order(seed.first_bid@, seed.first_bid@) is Some
    &&& decimal_order(seed.currently@, seed.currently@) is Some
    &&& (seed.buy_price matches Some(b) ==> decimal_order(b@, b@) is Some)
    &&& decimal_order(seed.seller_rating@, seed.seller_rating@) is Some
    &&& decimal_order(seed.shipping_cost@, seed.shipping_cost@) is Some
}

/// `item` lists `seed` for `seller_user_id`: a fixed price listing has no
/// current price, bid count or end.
pub open spec fn built_from_seed(item: NewItem, seed: SeedItem, seller_user_id: u128) -> bool {
    let fixed = seed.listing_type@ == "fixed_price"@;
    &&& item.item_id == seed.item_id
    &&& item.listing_type == seed.listing_type
    &&& item.name == seed.name
    &&& item.price@ == seed.first_bid@
    &&& (if fixed {
        item.currently is None
    } else {
        item.currently matches Some(c) && c@ == seed.currently@
    })
    &&& match (item.buy_price, seed.buy_price) {
        (Some(a), Some(b)) => a@ == b@,
        (None, None) => true,
        _ => false,
    }
    &&& item.number_of_bids == if fixed {
        None
    } else {
        Some(seed.number_of_bids)
    }
    &&& item.location == Some(seed.location)
    &&& item.country == Some(seed.country)
    &&& item.started == seed.started
    &&& item.ends == if fixed {
        None
    } else {
        Some(seed.ends)
    }
    &&& item.description == Some(seed.description)
    &&& item.seller_user_id == seller_user_id
    &&& (item.seller_rating matches Some(r) && r@ == seed.seller_rating@)
    &&& item.condition == Some(seed.condition)
    &&& item.shipping_cost@ == seed.shipping_cost@
    &&& item.categories == seed.categories
}

/// The first amount of `seed` that is not a number, in the order the
/// listing reads them: first bid, current price, buy-now price, seller
/// rating, shipping cost.
pub open spec fn first_bad_amount(seed: SeedItem) -> Option<Seq<char>> {
    if decimal_order(seed.first_bid@, seed.first_bid@) is None {
        Some(seed.first_bid@)
    } else if decimal_order(seed.currently@, seed.currently@) is None {
        Some(seed.currently@)
    } else if seed.buy_price matches Some(b) && decimal_order(b@, b@) is None {
        Some(seed.buy_price->0@)
    } else if decimal_order(seed.seller_rating@, seed.seller_rating@) is None {
        Some(seed.seller_rating@)
    } else if decimal_order(seed.shipping_cost@, seed.shipping_cost@) is None {
        Some(seed.shipping_cost@)
    } else {
        None
    }
}

/// `seed` is refused for `seller_user_id` with the message `m`: the first
/// amount that is not a number, or else the first listing rule that the
/// listing built from it breaks.
pub open spec fn seed_refused_with(seed: SeedItem, seller_user_id: u128, m: Seq<char>) -> bool {
    match first_bad_amount(seed) {
        Some(t) => m == "Invalid amount: "@ + t,
        None => exists|item: NewItem|
            built_from_seed(item, seed, seller_user_id) && item_error(item, item_orders(item))
                == Some(m),
    }
}

/// `seed` is listed for `seller_user_id`: its amounts are numbers and the
/// listing built from it passes the listing rules.
pub open spec fn seed_accepted(seed: SeedItem, seller_user_id: u128) -> bool {
    seed_amounts_parse(seed) && exists|item: NewItem|
        built_from_seed(item, seed, seller_user_id) && item_error(item, item_orders(item)) is None
}

fn amount_of(text: &String) -> (r: Result<Amount, SeedingError>)
    ensures
        match r {
            Ok(a) => a@ == text@ && decimal_order(text@, text@) is Some,
            Err(e) => decimal_order(text@, text@) is None && (e matches SeedingError::ValidationError(m)
                && m@ == "Invalid amount: "@ + text@),
        },
{
    match Amount::parse(text.clone()) {
        Some(a) => Ok(a),
        None => {
            let mut m = owned("Invalid amount: ");
            push_str(&mut m, text.as_str());
            Err(SeedingError::ValidationError(m))
        },
    }
}

/// The first refusal of a seeded seller's record: a name that is not a valid
/// user name, an address that is not valid, or a rating that is not a number.
pub open spec fn seller_refusal(
    username: Seq<char>,
    email: Seq<char>,
    first_name: Seq<char>,
    last_name: Seq<char>,
    rating: Seq<char>,
) -> Option<Seq<char>> {
    if !is_valid_username(username) {
        Some(username + " is not a valid username."@)
    } else if !is_valid_user_email(email) {
        Some(email + " is not a valid user email."@)
    } else if !is_valid_username(first_name) {
        Some(first_name + " is not a valid username."@)
    } else if !is_valid_username(last_name) {
        Some(last_name + " is not a valid username."@)
    } else if decimal_order(rating, rating) is None {
        Some("Invalid amount: "@ + rating)
    } else {
        None
    }
}

/// `u` is the seller record made of the other arguments.
pub open spec fn is_seller(
    u: NewUser,
    username: Seq<char>,
    email: Seq<char>,
    first_name: Seq<char>,
    last_name: Seq<char>,
    phone: Seq<char>,
    date_of_birth: CalendarDate,
    rating: Seq<char>,
    tax_id: Seq<char>,
    location: Seq<char>,
    country: Seq<char>,
    password_hash: Seq<char>,
) -> bool {
    &&& u.username.text() == username
    &&& u.email.text() == email
    &&& u.first_name.text() == first_name
    &&& u.last_name.text() == last_name
    &&& u.password_hash@ == password_hash
    &&& u.phone@ == phone
    &&& u.date_of_birth == date_of_birth
    &&& (u.seller_rating matches Some(a) && a@ == rating)
    &&& (u.tax_id matches Some(t) && t@ == tax_id)
    &&& (u.location matches Some(l) && l@ == location)
    &&& (u.country matches Some(c) && c@ == country)
}

/// A file of a listing's image directory that is an image: a regular file
/// whose extension names an image, in any case.
pub open spec fn is_seed_image(file: Option<String>) -> bool {
    file matches Some(e) && is_seed_image_extension(lowercase(e@))
}

/// How many of `files` are images.
pub open spec fn images_among(files: Seq<Option<String>>) -> nat
    decreases files.len(),
{
    if files.len() == 0 {
        0
    } else {
        images_among(files.drop_last()) + if is_seed_image(files.last()) {
            1nat
        } else {
            0nat
        }
    }
}

proof fn lemma_images_among_step(files: Seq<Option<String>>, i: int)
    requires
        0 <= i < files.len(),
    ensures
        images_among(files.take(i + 1)) == images_among(files.take(i)) + if is_seed_image(files[i]) {
            1nat
        } else {
            0nat
        },
{
    assert(files.take(i + 1).drop_last() =~= files.take(i));
    assert(files.take(i + 1).last() == files[i]);
}

proof fn lemma_images_among_monotone(files: Seq<Option<String>>, i: int, j: int)
    requires
        0 <= i <= j <= files.len(),
    ensures
        images_among(files.take(i)) <= images_among(files.take(j)),
    decreases j - i,
{
    if i < j {
        lemma_images_among_monotone(files, i, j - 1);
        lemma_images_among_step(files, j - 1);
    }
}

/// A file extension the seed images may have, in any case.
pub open spec fn is_seed_image_extension(ext_lower: Seq<char>) -> bool {
    ext_lower == "jpg"@ || ext_lower == "jpeg"@ || ext_lower == "png"@ || ext_lower == "webp"@
}

/// At most this many images are loaded for a seed listing.
pub const MAX_SEED_IMAGES: usize = 5;


/// Seeding the database.
pub struct SeedingService;

impl SeedingService {
    /// Seeding runs once: a completed seeding refuses to run again.
    pub fn check_not_seeded(completed: bool) -> (r: Result<(), SeedingError>)
        ensures
            r is Ok <==> !completed,
            r matches Err(e) ==> e == SeedingError::AlreadyCompleted,
    {
        if completed {
            Err(SeedingError::AlreadyCompleted)
        } else {
            Ok(())
        }
    }

    /// The listings of the first seller: a camera, records, a guitar, pottery and books, offered from `seller_location`,
    /// `seller_country`, started before `now` and ending after it.
    pub fn get_paliatzis_seed_items(seller_location: &str, seller_country: &str, now: i64) -> (r: Vec<SeedItem>)
        requires
            -SEED_TIME_BOUND <= now <= SEED_TIME_BOUND,
        ensures
            r@.len() == 5,
            is_seed(
                r@[0],
                "auction"@,
                "Nikon DSLR Φωτογραφική Μηχανή D850 Full Frame"@,
                "1500.00"@,
                "1500.00"@,
                Some("2200.00"@),
                now - 3 * DAY_MICROS,
                now + 4 * DAY_MICROS,
                "Ο γρήγορος αισθητήρας με φορμά FX και εξαιρετικά υψηλή ανάλυση της D850 χρησιμοποιεί τα 45,7 megapixel της ωφέλιμης ανάλυσης για τη δημιουργία αρχείων 45,4 MP με πλούσιες λεπτομέρειες. Εκτυπώστε εικόνες εξαιρετικά υψηλής ανάλυσης σε ιδιαίτερα μεγάλα φορμά. Τραβήξτε video που είναι πραγματικά πλήρους κάδρου σε ποιότητα 4K. Ο αισθητήρας CMOS με οπίσθιο φωτισμό δεν έχει οπτικό χαμηλοπερατό φίλτρο και περιλαμβάνει φακούς micro on-chip με σχεδίαση χωρίς κενά καθώς και μη ανακλαστική επίστρωση."@,
                "98"@,
                "Excellent"@,
                "15.00"@,
                seq!["Electronics"@],
                seller_location@,
                seller_country@,
            ),
            is_seed(
                r@[1],
                "auction"@,
                "Vintage Vinyl Collection - Classic Rock"@,
                "25.00"@,
                "85.00"@,
                None,
                now - 6 * DAY_MICROS,
                now + 18 * HOUR_MICROS,
                "Rare collection of vintage vinyl records including Dire Straits and Fleetwood Mac. All records in excellent condition with minimal wear. A must-have for collectors."@,
                "96"@,
                "Very Good"@,
                "8.50"@,
                seq!["Collectibles"@, "Music"@],
                seller_location@,
                seller_country@,
            ),
            is_seed(
                r@[2],
                "fixed_price"@,
                "Acoustic Guitar"@,
                "280.00"@,
                "280.00"@,
                Some("280.00"@),
                now - 2 * DAY_MICROS,
                now + 30 * DAY_MICROS,
                "Beautiful handcrafted acoustic guitar made by local luthier. Rich, warm sound with excellent projection. Perfect for both beginners and experienced players."@,
                "99"@,
                "Like New"@,
                "25.00"@,
                seq!["Musical Instruments"@],
                seller_location@,
                seller_country@,
            ),
            is_seed(
                r@[3],
                "fixed_price"@,
                "Ancient Ceramic Pottery Replica"@,
                "89.99"@,
                "89.99"@,
                Some("89.99"@),
                now - 1 * DAY_MICROS,
                now + 30 * DAY_MICROS,
                "A creation of my wife from her pottery class"@,
                "95"@,
                "New"@,
                "12.50"@,
                seq!["Art"@],
                seller_location@,
                seller_country@,
            ),
            is_seed(
                r@[4],
                "auction"@,
                "Greek Philosophers"@,
                "200.00"@,
                "320.00"@,
                Some("500.00"@),
                now - 12 * HOUR_MICROS,
                now + 7 * DAY_MICROS,
                "Sovaro book, sovari timh"@,
                "97"@,
                "Good"@,
                "5.00"@,
                seq!["Books"@],
                seller_location@,
                seller_country@,
            ),
    {
        let mut r: Vec<SeedItem> = Vec::new();
        r.push(
            seed_item(
                "auction",
                "Nikon DSLR Φωτογραφική Μηχανή D850 Full Frame",
                "1500.00",
                "1500.00",
                Some("2200.00"),
                now - 3 * DAY_MICROS,
                now + 4 * DAY_MICROS,
                "Ο γρήγορος αισθητήρας με φορμά FX και εξαιρετικά υψηλή ανάλυση της D850 χρησιμοποιεί τα 45,7 megapixel της ωφέλιμης ανάλυσης για τη δημιουργία αρχείων 45,4 MP με πλούσιες λεπτομέρειες. Εκτυπώστε εικόνες εξαιρετικά υψηλής ανάλυσης σε ιδιαίτερα μεγάλα φορμά. Τραβήξτε video που είναι πραγματικά πλήρους κάδρου σε ποιότητα 4K. Ο αισθητήρας CMOS με οπίσθιο φωτισμό δεν έχει οπτικό χαμηλοπερατό φίλτρο και περιλαμβάνει φακούς micro on-chip με σχεδίαση χωρίς κενά καθώς και μη ανακλαστική επίστρωση.",
                "98",
                "Excellent",
                "15.00",
                texts(&["Electronics"]),
                seller_location,
                seller_country,
            ),
        );
        r.push(
            seed_item(
                "auction",
                "Vintage Vinyl Collection - Classic Rock",
                "25.00",
                "85.00",
                None,
                now - 6 * DAY_MICROS,
                now + 18 * HOUR_MICROS,
                "Rare collection of vintage vinyl records including Dire Straits and Fleetwood Mac. All records in excellent condition with minimal wear. A must-have for collectors.",
                "96",
                "Very Good",
                "8.50",
                texts(&["Collectibles", "Music"]),
                seller_location,
                seller_country,
            ),
        );
        r.push(
            seed_item(
                "fixed_price",
                "Acoustic Guitar",
                "280.00",
                "280.00",
                Some("280.00"),
                now - 2 * DAY_MICROS,
                now + 30 * DAY_MICROS,
                "Beautiful handcrafted acoustic guitar made by local luthier. Rich, warm sound with excellent projection. Perfect for both beginners and experienced players.",
                "99",
                "Like New",
                "25.00",
                texts(&["Musical Instruments"]),
                seller_location,
                seller_country,
            ),
        );
        r.push(
            seed_item(
                "fixed_price",
                "Ancient Ceramic Pottery Replica",
                "89.99",
                "89.99",
                Some("89.99"),
                now - 1 * DAY_MICROS,
                now + 30 * DAY_MICROS,
                "A creation of my wife from her pottery class",
                "95",
                "New",
                "12.50",
                texts(&["Art"]),
                seller_location,
                seller_country,
            ),
        );
        r.push(
            seed_item(
                "auction",
                "Greek Philosophers",
                "200.00",
                "320.00",
                Some("500.00"),
                now - 12 * HOUR_MICROS,
                now + 7 * DAY_MICROS,
                "Sovaro book, sovari timh",
                "97",
                "Good",
                "5.00",
                texts(&["Books"]),
                seller_location,
                seller_country,
            ),
        );
        r
    }

    /// The listings of the second seller: fishing gear, offered from `seller_location`,
    /// `seller_country`, started before `now` and ending after it.
    pub fn get_psaras_seed_items(seller_location: &str, seller_country: &str, now: i64) -> (r: Vec<SeedItem>)
        requires
            -SEED_TIME_BOUND <= now <= SEED_TIME_BOUND,
        ensures
            r@.len() == 3,
            is_seed(
                r@[0],
                "auction"@,
                "MVD Predator Spearfishing gun 110cm"@,
                "150.00"@,
                "150.00"@,
                Some("350.00"@),
                now - 2 * DAY_MICROS,
                now + 5 * DAY_MICROS,
                "Το MVD Carbon Predator S είναι σοβαρο εργαλείο και αντιπροσωπεύει την κορυφή της απόδοσης και της καινοτομίας στην κατηγορία Ψαροντούφεκα. Κατασκευασμένο από 100% carbon, προσφέρει απαράμιλλη αντοχή, απόδοση και ακρίβεια, χάρη στις τεχνικές κατασκευής αιχμής."@,
                "95"@,
                "Very Good"@,
                "20.00"@,
                seq!["Fishing"@],
                seller_location@,
                seller_country@,
            ),
            is_seed(
                r@[1],
                "fixed_price"@,
                "Spearfishing Wetsuit"@,
                "120.00"@,
                "120.00"@,
                Some("120.00"@),
                now - 1 * DAY_MICROS,
                now + 30 * DAY_MICROS,
                "Komple spearfishing wetsuit."@,
                "95"@,
                "Excellent"@,
                "15.00"@,
                seq!["Fishing"@, "Clothing"@],
                seller_location@,
                seller_country@,
            ),
            is_seed(
                r@[2],
                "auction"@,
                "Shimano Dialuna 2.9m"@,
                "150.00"@,
                "150.00"@,
                Some("300.00"@),
                now - 6 * HOUR_MICROS,
                now + 6 * DAY_MICROS,
                "Lightweight carbon fiber fishing rod, 2.9m length. Perfect for sea fishing from rocks or boat. Tromero exw vgalei trela pragmata me auto."@,
                "95"@,
                "Good"@,
                "12.00"@,
                seq!["Fishing"@],
                seller_location@,
                seller_country@,
            ),
    {
        let mut r: Vec<SeedItem> = Vec::new();
        r.push(
            seed_item(
                "auction",
                "MVD Predator Spearfishing gun 110cm",
                "150.00",
                "150.00",
                Some("350.00"),
                now - 2 * DAY_MICROS,
                now + 5 * DAY_MICROS,
                "Το MVD Carbon Predator S είναι σοβαρο εργαλείο και αντιπροσωπεύει την κορυφή της απόδοσης και της καινοτομίας στην κατηγορία Ψαροντούφεκα. Κατασκευασμένο από 100% carbon, προσφέρει απαράμιλλη αντοχή, απόδοση και ακρίβεια, χάρη στις τεχνικές κατασκευής αιχμής.",
                "95",
                "Very Good",
                "20.00",
                texts(&["Fishing"]),
                seller_location,
                seller_country,
            ),
        );
        r.push(
            seed_item(
                "fixed_price",
                "Spearfishing Wetsuit",
                "120.00",
                "120.00",
                Some("120.00"),
                now - 1 * DAY_MICROS,
                now + 30 * DAY_MICROS,
                "Komple spearfishing wetsuit.",
                "95",
                "Excellent",
                "15.00",
                texts(&["Fishing", "Clothing"]),
                seller_location,
                seller_country,
            ),
        );
        r.push(
            seed_item(
                "auction",
                "Shimano Dialuna 2.9m",
                "150.00",
                "150.00",
                Some("300.00"),
                now - 6 * HOUR_MICROS,
                now + 6 * DAY_MICROS,
                "Lightweight carbon fiber fishing rod, 2.9m length. Perfect for sea fishing from rocks or boat. Tromero exw vgalei trela pragmata me auto.",
                "95",
                "Good",
                "12.00",
                texts(&["Fishing"]),
                seller_location,
                seller_country,
            ),
        );
        r
    }

    /// Turns a seed listing into a listing of `seller_user_id` and checks it
    /// against the listing rules of `NewItem::validate`.
    pub fn seed_item_to_new_item(seed: SeedItem, seller_user_id: u128) -> (r: Result<
        NewItem,
        SeedingError,
    >)
        ensures
            match r {
                Ok(item) => seed_amounts_parse(seed) && built_from_seed(item, seed, seller_user_id)
                    && item_error(item, item_orders(item)) is None,
                Err(e) => e matches SeedingError::ValidationError(m) && seed_refused_with(
                    seed,
                    seller_user_id,
                    m@,
                ),
            },
    {
        let ghost given = seed;
        let price = amount_of(&seed.first_bid)?;
        let currently = amount_of(&seed.currently)?;
        let buy_price = match &seed.buy_price {
            Some(b) => Some(amount_of(b)?),
            None => None,
        };
        let seller_rating = amount_of(&seed.seller_rating)?;
        let shipping_cost = amount_of(&seed.shipping_cost)?;
        let is_fixed_price = str_eq(seed.listing_type.as_str(), "fixed_price");
        let item = NewItem {
            item_id: seed.item_id,
            listing_type: seed.listing_type,
            name: seed.name,
            price,
            currently: if is_fixed_price {
                None
            } else {
                Some(currently)
            },
            buy_price,
            number_of_bids: if is_fixed_price {
                None
            } else {
                Some(seed.number_of_bids)
            },
            location: Some(seed.location),
            country: Some(seed.country),
            started: seed.started,
            ends: if is_fixed_price {
                None
            } else {
                Some(seed.ends)
            },
            description: Some(seed.description),
            seller_user_id,
            seller_rating: Some(seller_rating),
            condition: Some(seed.condition),
            shipping_cost,
            categories: seed.categories,
        };
        assert(built_from_seed(item, given, seller_user_id));
        match item.validate() {
            Ok(()) => Ok(item),
            Err(e) => Err(SeedingError::ValidationError(e)),
        }
    }

    /// Turns every seed listing into a listing of `seller_user_id`, stopping at
    /// the first one that fails and reporting its refusal.
    pub fn prepare_seed_items(seeds: Vec<SeedItem>, seller_user_id: u128) -> (r: Result<
        Vec<NewItem>,
        SeedingError,
    >)
        ensures
            match r {
                Ok(items) => items@.len() == seeds@.len() && forall|i: int|
                    0 <= i < seeds@.len() ==> seed_amounts_parse(seeds@[i]) && built_from_seed(
                        #[trigger] items@[i],
                        seeds@[i],
                        seller_user_id,
                    ) && item_error(items@[i], item_orders(items@[i])) is None,
                Err(e) => e matches SeedingError::ValidationError(m) && exists|k: int|
                    0 <= k < seeds@.len() && seed_refused_with(#[trigger] seeds@[k], seller_user_id, m@)
                        && forall|j: int| 0 <= j < k ==> seed_accepted(#[trigger] seeds@[j], seller_user_id),
            },
    {
        let ghost all = seeds@;
        let mut rest = seeds;
        let mut items: Vec<NewItem> = Vec::new();
        let mut k: usize = 0;
        let total = rest.len();
        while rest.len() > 0
            invariant
                k <= all.len(),
                all == seeds@,
                all.len() == total,
                rest@ == all.skip(k as int),
                rest.len() + k == all.len(),
                items@.len() == k,
                forall|i: int|
                    0 <= i < k ==> seed_amounts_parse(all[i]) && built_from_seed(
                        #[trigger] items@[i],
                        all[i],
                        seller_user_id,
                    ) && item_error(items@[i], item_orders(items@[i])) is None,
            decreases rest.len(),
        {
            let seed = rest.remove(0);
            assert(seed == all[k as int]);
            assert(rest@ =~= all.skip(k + 1));
            match SeedingService::seed_item_to_new_item(seed, seller_user_id) {
                Ok(item) => {
                    items.push(item);
                },
                Err(e) => {
                    assert forall|j: int| 0 <= j < k implies seed_accepted(
                        #[trigger] all[j],
                        seller_user_id,
                    ) by {
                        assert(built_from_seed(items@[j], all[j], seller_user_id));
                    }
                    assert(seed_refused_with(all[k as int], seller_user_id, e->ValidationError_0@));
                    return Err(e);
                },
            }
            k = k + 1;
        }
        Ok(items)
    }

    /// The files of a listing's image directory that are loaded: in directory
    /// order, the regular files whose extension names an image, at most five:
    /// exactly the first five such files, or all of them when there are fewer.
    /// `files[i]` is `Some(ext)` for a regular file with extension `ext` (empty
    /// when it has none) and `None` for anything else.
    pub fn pick_seed_images(files: &Vec<Option<String>>) -> (r: Vec<usize>)
        ensures
            r@.len() <= MAX_SEED_IMAGES,
            forall|j: int| 0 <= j < r@.len() ==> (#[trigger] r@[j]) < files@.len(),
            forall|j: int| 0 <= j < r@.len() ==> is_seed_image(files@[(#[trigger] r@[j]) as int]),
            forall|j: int, k: int| 0 <= j < k < r@.len() ==> r@[j] < r@[k],
            forall|i: int|
                0 <= i < files@.len() && is_seed_image(#[trigger] files@[i]) && images_among(
                    files@.take(i),
                ) < MAX_SEED_IMAGES ==> r@.contains(i as usize),
    {
        let mut r: Vec<usize> = Vec::new();
        let mut i: usize = 0;
        assert(files@.take(0) =~= Seq::<Option<String>>::empty());
        while i < files.len()
            invariant
                i <= files.len(),
                r@.len() < MAX_SEED_IMAGES,
                r@.len() == images_among(files@.take(i as int)),
                forall|j: int| 0 <= j < r@.len() ==> (#[trigger] r@[j]) < i,
                forall|j: int|
                    0 <= j < r@.len() ==> is_seed_image(files@[(#[trigger] r@[j]) as int]),
                forall|j: int, k: int| 0 <= j < k < r@.len() ==> r@[j] < r@[k],
                forall|m: int|
                    0 <= m < i && is_seed_image(#[trigger] files@[m]) ==> r@.contains(m as usize),
            decreases files.len() - i,
        {
            proof {
                lemma_images_among_step(files@, i as int);
            }
            match &files[i] {
                Some(ext) => {
                    let lower = to_lowercase(ext.as_str());
                    let l = lower.as_str();
                    if str_eq(l, "jpg") || str_eq(l, "jpeg") || str_eq(l, "png") || str_eq(l, "webp") {
                        let ghost before = r@;
                        r.push(i);
                        assert(r@[r@.len() - 1] == i);
                        assert forall|m: int|
                            0 <= m <= i && is_seed_image(#[trigger] files@[m]) implies r@.contains(
                            m as usize,
                        ) by {
                            if m < i {
                                let w = choose|w: int| 0 <= w < before.len() && before[w] == m as usize;
                                assert(r@[w] == m as usize);
                            }
                        }
                        if r.len() >= MAX_SEED_IMAGES {
                            proof {
                                assert forall|m: int|
                                    0 <= m < files@.len() && is_seed_image(#[trigger] files@[m])
                                        && images_among(files@.take(m)) < MAX_SEED_IMAGES implies r@.contains(
                                    m as usize,
                                ) by {
                                    if m > i {
                                        lemma_images_among_monotone(files@, i + 1, m);
                                    }
                                }
                            }
                            return r;
                        }
                    }
                },
                None => {},
            }
            i = i + 1;
        }
        assert(files@.take(files@.len() as int) =~= files@);
        r
    }

    /// The record of a seeded seller, with `password_hash` as its hash: the
    /// names and the address are checked in this order and the rating must
    /// read as a number; the first refusal is reported.
    pub fn seller_record(
        username: String,
        email: String,
        first_name: String,
        last_name: String,
        phone: String,
        date_of_birth: CalendarDate,
        rating: &str,
        tax_id: &str,
        location: &str,
        country: &str,
        password_hash: String,
    ) -> (r: Result<NewUser, SeedingError>)
        ensures
            match r {
                Ok(u) => seller_refusal(username@, email@, first_name@, last_name@, rating@) is None
                    && is_seller(
                    u,
                    username@,
                    email@,
                    first_name@,
                    last_name@,
                    phone@,
                    date_of_birth,
                    rating@,
                    tax_id@,
                    location@,
                    country@,
                    password_hash@,
                ),
                Err(e) => e matches SeedingError::ValidationError(m) && seller_refusal(
                    username@,
                    email@,
                    first_name@,
                    last_name@,
                    rating@,
                ) == Some(m@),
            },
    {
        let username = match Username::parse(username) {
            Ok(n) => n,
            Err(e) => {
                return Err(SeedingError::ValidationError(e));
            },
        };
        let email = match UserEmail::parse(email) {
            Ok(n) => n,
            Err(e) => {
                return Err(SeedingError::ValidationError(e));
            },
        };
        let first_name = match Username::parse(first_name) {
            Ok(n) => n,
            Err(e) => {
                return Err(SeedingError::ValidationError(e));
            },
        };
        let last_name = match Username::parse(last_name) {
            Ok(n) => n,
            Err(e) => {
                return Err(SeedingError::ValidationError(e));
            },
        };
        let rating = amount_of(&owned(rating))?;
        Ok(
            NewUser {
                username,
                email,
                password_hash,
                first_name,
                last_name,
                phone,
                date_of_birth,
                seller_rating: Some(rating),
                tax_id: Some(owned(tax_id)),
                location: Some(owned(location)),
                country: Some(owned(country)),
            },
        )
    }

    /// The seller record of the first seeded seller, from the settings: born
    /// 15 May 1980, rated 97, in Manolates, Greece, with the password
    /// `paliatzis123` hashed under a fresh salt. The only refusal is a record
    /// the rules refuse, reported as a `ValidationError`.
    pub fn paliatzis_seller(settings: &SeedingSettings) -> (r: Result<NewUser, SeedingError>)
        ensures
            match r {
                Ok(u) => seller_refusal(
                    settings.seller_username@,
                    settings.seller_email@,
                    settings.seller_first_name@,
                    settings.seller_last_name@,
                    "97"@,
                ) is None && exists|salt: Seq<char>|
                    is_seller(
                        u,
                        settings.seller_username@,
                        settings.seller_email@,
                        settings.seller_first_name@,
                        settings.seller_last_name@,
                        settings.seller_phone@,
                        CalendarDate { year: 1980, month: 5, day: 15 },
                        "97"@,
                        "123456789"@,
                        "Manolates"@,
                        "Greece"@,
                        argon2_phc("paliatzis123"@, salt),
                    ),
                Err(e) => (e matches SeedingError::ValidationError(m) && seller_refusal(
                    settings.seller_username@,
                    settings.seller_email@,
                    settings.seller_first_name@,
                    settings.seller_last_name@,
                    "97"@,
                ) == Some(m@)),
            },
    {
        proof {
            reveal_strlit("paliatzis123");
            lemma_utf8_len_at_most_four("paliatzis123"@);
        }
        let password_hash = match hash_password("paliatzis123") {
            Ok(h) => h,
            Err(e) => {
                return Err(SeedingError::UnexpectedError(e));
            },
        };
        SeedingService::seller_record(
            settings.seller_username.clone(),
            settings.seller_email.clone(),
            settings.seller_first_name.clone(),
            settings.seller_last_name.clone(),
            settings.seller_phone.clone(),
            CalendarDate { year: 1980, month: 5, day: 15 },
            "97",
            "123456789",
            "Manolates",
            "Greece",
            password_hash,
        )
    }

    /// The seller record of the second seeded seller, `o psaras`: born
    /// 20 March 1975, rated 95, in Balos, Greece, with the password `psaras123`
    /// hashed under a fresh salt. The only refusal is a record the rules
    /// refuse, reported as a `ValidationError`.
    pub fn psaras_seller() -> (r: Result<NewUser, SeedingError>)
        ensures
            match r {
                Ok(u) => seller_refusal(
                    "o psaras"@,
                    "psaras@example.com"@,
                    "o"@,
                    "psaras"@,
                    "95"@,
                ) is None && exists|salt: Seq<char>|
                    is_seller(
                        u,
                        "o psaras"@,
                        "psaras@example.com"@,
                        "o"@,
                        "psaras"@,
                        "+306947123456"@,
                        CalendarDate { year: 1975, month: 3, day: 20 },
                        "95"@,
                        "987654321"@,
                        "Balos"@,
                        "Greece"@,
                        argon2_phc("psaras123"@, salt),
                    ),
                Err(e) => (e matches SeedingError::ValidationError(m) && seller_refusal(
                    "o psaras"@,
                    "psaras@example.com"@,
                    "o"@,
                    "psaras"@,
                    "95"@,
                ) == Some(m@)),
            },
    {
        proof {
            reveal_strlit("psaras123");
            lemma_utf8_len_at_most_four("psaras123"@);
        }
        let password_hash = match hash_password("psaras123") {
            Ok(h) => h,
            Err(e) => {
                return Err(SeedingError::UnexpectedError(e));
            },
        };
        SeedingService::seller_record(
            owned("o psaras"),
            owned("psaras@example.com"),
            owned("o"),
            owned("psaras"),
            owned("+306947123456"),
            CalendarDate { year: 1975, month: 3, day: 20 },
            "95",
            "987654321",
            "Balos",
            "Greece",
            password_hash,
        )
    }
}

} // verus!
