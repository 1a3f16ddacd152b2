use backend::configuration::SeedingSettings;
use backend::domain::new_user::CalendarDate;
use backend::services::seeding_service::{SeedingError, SeedingService};

fn is_uuid_text(s: &str) -> bool {
    s.len() == 36
        && s.char_indices().all(|(i, c)| {
            if [8, 13, 18, 23].contains(&i) { c == '-' } else { c.is_ascii_digit() || ('a'..='f').contains(&c) }
        })
        && &s[14..15] == "4"
}

const NOW: i64 = 1_700_000_000_000_000;

#[test]
fn the_seed_catalogue_passes_the_listing_rules() {
    let first = SeedingService::get_paliatzis_seed_items("Manolates", "Greece", NOW);
    let second = SeedingService::get_psaras_seed_items("Balos", "Greece", NOW);
    assert_eq!(first.len(), 5);
    assert_eq!(second.len(), 3);
    assert_eq!(first[0].name, "Nikon DSLR Φωτογραφική Μηχανή D850 Full Frame");
    assert_eq!(second[2].categories, vec!["Fishing".to_string()]);
    let items = SeedingService::prepare_seed_items(first, 11).expect("valid seeds");
    assert_eq!(items.len(), 5);
    // fixed price seeds lose their current price, bid count and end
    assert!(items[2].currently.is_none() && items[2].ends.is_none());
    assert!(items[0].ends.is_some());
    assert_eq!(items[0].location.as_deref(), Some("Manolates"));
    assert!(SeedingService::prepare_seed_items(second, 12).is_ok());
}

#[test]
fn seed_items_with_bad_amounts_are_refused() {
    let mut seeds = SeedingService::get_psaras_seed_items("Balos", "Greece", NOW);
    seeds[1].first_bid = "free".to_string();
    assert!(matches!(
        SeedingService::prepare_seed_items(seeds, 12),
        Err(SeedingError::ValidationError(_))
    ));
}

#[test]
fn seeding_runs_once() {
    assert_eq!(SeedingService::check_not_seeded(false), Ok(()));
    assert_eq!(SeedingService::check_not_seeded(true), Err(SeedingError::AlreadyCompleted));
    assert_eq!(SeedingError::AlreadyCompleted.message(), "Seeding already completed");
}

#[test]
fn seed_images_are_pictures_at_most_five() {
    let files = vec![
        Some("JPG".to_string()),
        None,
        Some("txt".to_string()),
        Some("png".to_string()),
        Some("webp".to_string()),
        Some("jpeg".to_string()),
        Some("jpg".to_string()),
        Some("png".to_string()),
    ];
    assert_eq!(SeedingService::pick_seed_images(&files), vec![0, 3, 4, 5, 6]);
    assert_eq!(SeedingService::pick_seed_images(&vec![Some("gif".to_string())]), Vec::<usize>::new());
}

#[test]
fn seeded_sellers_have_their_records() {
    let psaras = SeedingService::psaras_seller().expect("valid seller");
    assert_eq!(psaras.username.as_ref(), "o psaras");
    assert_eq!(psaras.location.as_deref(), Some("Balos"));
    assert!(psaras.password_hash.starts_with("$argon2"));
    let paliatzis = SeedingService::paliatzis_seller(&SeedingSettings::default()).expect("valid seller");
    assert_eq!(paliatzis.username.as_ref(), "o paliatzis");
    assert_eq!(paliatzis.seller_rating.as_ref().map(|r| r.as_str()), Some("97"));
}

#[test]
fn seed_listings_get_fresh_uuid_identifiers() {
    let seeds = SeedingService::get_paliatzis_seed_items("Manolates", "Greece", NOW);
    assert!(seeds.iter().all(|s| is_uuid_text(&s.item_id)));
    assert_ne!(seeds[0].item_id, seeds[1].item_id);
}

#[test]
fn seller_records_report_the_first_refusal() {
    let ok = SeedingService::seller_record(
        "o psaras".to_string(),
        "psaras@example.com".to_string(),
        "o".to_string(),
        "psaras".to_string(),
        "+306947123456".to_string(),
        CalendarDate { year: 1975, month: 3, day: 20 },
        "95",
        "987654321",
        "Balos",
        "Greece",
        "hash".to_string(),
    )
    .expect("valid seller");
    assert_eq!(ok.password_hash, "hash");
    assert_eq!(ok.tax_id.as_deref(), Some("987654321"));
    let refused = SeedingService::seller_record(
        "o psaras".to_string(),
        "not an address".to_string(),
        "  ".to_string(),
        "psaras".to_string(),
        "+306947123456".to_string(),
        CalendarDate { year: 1975, month: 3, day: 20 },
        "95",
        "987654321",
        "Balos",
        "Greece",
        "hash".to_string(),
    );
    assert_eq!(
        refused.err(),
        Some(SeedingError::ValidationError("not an address is not a valid user email.".to_string()))
    );
    let bad_rating = SeedingService::seller_record(
        "o psaras".to_string(),
        "psaras@example.com".to_string(),
        "o".to_string(),
        "psaras".to_string(),
        "+306947123456".to_string(),
        CalendarDate { year: 1975, month: 3, day: 20 },
        "high",
        "987654321",
        "Balos",
        "Greece",
        "hash".to_string(),
    );
    assert_eq!(bad_rating.err(), Some(SeedingError::ValidationError("Invalid amount: high".to_string())));
}

#[test]
fn password_hashes_use_a_fresh_salt_each_time() {
    let a = backend::domain::hash_password("secret").expect("hashed");
    let b = backend::domain::hash_password("secret").expect("hashed");
    assert!(a.starts_with("$argon2id$"));
    assert_ne!(a, b);
}

#[test]
fn a_refused_seed_reports_its_first_problem() {
    let mut seeds = SeedingService::get_psaras_seed_items("Balos", "Greece", NOW);
    seeds[1].currently = "lots".to_string();
    seeds[1].shipping_cost = "free".to_string();
    seeds[2].first_bid = "none".to_string();
    assert_eq!(
        SeedingService::prepare_seed_items(seeds, 12).err(),
        Some(SeedingError::ValidationError("Invalid amount: lots".to_string()))
    );
}
