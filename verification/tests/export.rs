use backend::routes::admin::{
    group_export_rows, render_export_xml, ExportData, ExportFormat, ExportQuery, ExportRow,
};

fn row(item_id: &str, listing_type: &str) -> ExportRow {
    ExportRow {
        item_id: item_id.to_string(),
        name: format!("Item <{}>", item_id),
        listing_type: listing_type.to_string(),
        price: "10.00".to_string(),
        current_price: None,
        location: Some("Athens".to_string()),
        start_time: "2024-01-01T00:00:00+00:00".to_string(),
        end_time: None,
        seller_rating: None,
        seller_username: "seller".to_string(),
        description: None,
        category_name: "Books".to_string(),
        bidder_username: None,
        bidder_tax_id: None,
        bidder_location: None,
        bidder_country: None,
        bid_time: None,
        bid_amount: None,
        bid_city: None,
        bid_country: None,
        buyer_username: None,
        buyer_tax_id: None,
        buyer_user_location: None,
        buyer_user_country: None,
        purchase_price: None,
        purchased_at: None,
    }
}

fn bid_row(item_id: &str, bidder: &str, amount: &str) -> ExportRow {
    let mut r = row(item_id, "auction");
    r.bidder_username = Some(bidder.to_string());
    r.bid_time = Some("2024-01-02T00:00:00+00:00".to_string());
    r.bid_amount = Some(amount.to_string());
    r.bid_city = Some("Patras".to_string());
    r
}

#[test]
fn export_rows_group_into_items_with_their_bids_and_buyer() {
    let mut bought = row("f", "fixed_price");
    bought.buyer_username = Some("buyer".to_string());
    bought.purchase_price = Some("12.00".to_string());
    bought.purchased_at = Some("2024-01-03T00:00:00+00:00".to_string());
    let rows = vec![
        bid_row("a", "ann", "11.00"),
        bought,
        bid_row("a", "bob", "12.50"),
        row("e", "auction"),
    ];
    let now = "2024-02-01T00:00:00+00:00";
    let items = group_export_rows(&rows, now);
    let ids: Vec<&str> = items.iter().map(|i| i.item_id.as_str()).collect();
    assert_eq!(ids, vec!["a", "f", "e"]);
    assert_eq!(items[0].bids.len(), 2);
    assert_eq!(items[0].bids[1].username, "bob");
    assert_eq!(items[0].bids[0].city, Some("Patras".to_string()));
    assert_eq!(items[0].current_price, "0");
    assert_eq!(items[0].end_time, now);
    assert!(items[0].buyer.is_none());
    assert_eq!(items[1].buyer.as_ref().map(|b| b.purchase_price.clone()), Some("12.00".to_string()));
    assert!(items[2].bids.is_empty());
}

#[test]
fn the_xml_export_lists_items_bids_and_buyers() {
    let mut bought = row("f", "fixed_price");
    bought.buyer_username = Some("buyer".to_string());
    bought.purchase_price = Some("12.00".to_string());
    bought.purchased_at = Some("2024-01-03T00:00:00+00:00".to_string());
    let rows = vec![bid_row("a", "ann & co", "11.00"), bought];
    let items = group_export_rows(&rows, "2024-02-01T00:00:00+00:00");
    let data = ExportData::from_items(items, "2024-02-01T00:00:00+00:00".to_string());
    assert_eq!(data.total_items, 2);
    let xml = render_export_xml(&data);
    assert!(xml.starts_with("<?xml version=\"1.0\" encoding=\"UTF-8\"?>\n<ExportData>\n"));
    assert!(xml.contains("  <ExportedAt>2024-02-01T00:00:00+00:00</ExportedAt>\n  <TotalItems>2</TotalItems>\n"));
    assert!(xml.contains("      <Name>Item &lt;a&gt;</Name>\n"));
    assert!(xml.contains("      <Bids>\n        <Bid>\n          <Username>ann &amp; co</Username>\n"));
    assert!(xml.contains("          <Amount>11.00</Amount>\n        </Bid>\n      </Bids>\n"));
    assert!(xml.contains("      <SellerRating>0</SellerRating>\n"));
    assert!(xml.contains("      <Buyer>\n        <BuyerUsername>buyer</BuyerUsername>\n"));
    assert!(xml.ends_with("    </Item>\n  </Items>\n</ExportData>"));
    assert_eq!(xml.matches("<Bids>").count(), 1);
}

#[test]
fn exports_are_json_unless_xml_is_asked_for() {
    assert_eq!(ExportQuery { format: None }.export_format(), ExportFormat::Json);
    assert_eq!(ExportQuery { format: Some("XML".to_string()) }.export_format(), ExportFormat::Xml);
    assert_eq!(ExportQuery { format: Some("csv".to_string()) }.export_format(), ExportFormat::Json);
}
