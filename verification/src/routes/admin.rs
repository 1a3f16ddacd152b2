//! The administrators' listings export: rows of the listing query grouped
//! into items, and the XML document built from them.
use crate::text::{chars_of, lowercase, push_char, push_decimal, push_str, str_eq, to_lowercase};
use vstd::prelude::*;

verus! {

/// The XML escape of one character.
pub open spec fn xml_escape_char(c: char) -> Seq<char> {
    if c == '&' {
        seq!['&', 'a', 'm', 'p', ';']
    } else if c == '<' {
        seq!['&', 'l', 't', ';']
    } else if c == '>' {
        seq!['&', 'g', 't', ';']
    } else if c == '"' {
        seq!['&', 'q', 'u', 'o', 't', ';']
    } else if c == '\'' {
        seq!['&', 'a', 'p', 'o', 's', ';']
    } else {
        seq![c]
    }
}

/// `s` with `& < > " '` replaced by their XML entities.
pub open spec fn xml_escape(s: Seq<char>) -> Seq<char>
    decreases s.len(),
{
    if s.len() == 0 {
        Seq::empty()
    } else {
        xml_escape(s.drop_last()) + xml_escape_char(s.last())
    }
}

fn push_escaped_char(out: &mut String, c: char)
    ensures
        final(out)@ == old(out)@ + xml_escape_char(c),
{
    if c == '&' {
        push_char(out, '&');
        push_char(out, 'a');
        push_char(out, 'm');
        push_char(out, 'p');
        push_char(out, ';');
    } else if c == '<' {
        push_char(out, '&');
        push_char(out, 'l');
        push_char(out, 't');
        push_char(out, ';');
    } else if c == '>' {
        push_char(out, '&');
        push_char(out, 'g');
        push_char(out, 't');
        push_char(out, ';');
    } else if c == '"' {
        push_char(out, '&');
        push_char(out, 'q');
        push_char(out, 'u');
        push_char(out, 'o');
        push_char(out, 't');
        push_char(out, ';');
    } else if c == '\'' {
        push_char(out, '&');
        push_char(out, 'a');
        push_char(out, 'p');
        push_char(out, 'o');
        push_char(out, 's');
        push_char(out, ';');
    } else {
        push_char(out, c);
    }
    assert(final(out)@ =~= old(out)@ + xml_escape_char(c));
}

/// Appends the XML escape of `s` to `out`.
pub fn push_escaped(out: &mut String, s: &str)
    ensures
        final(out)@ == old(out)@ + xml_escape(s@),
{
    let cs = chars_of(s);
    let mut i: usize = 0;
    while i < cs.len()
        invariant
            i <= cs.len(),
            cs@ == s@,
            out@ == old(out)@ + xml_escape(cs@.take(i as int)),
        decreases cs.len() - i,
    {
        let ghost before = out@;
        push_escaped_char(out, cs[i]);
        proof {
            assert(cs@.take(i + 1).drop_last() =~= cs@.take(i as int));
            assert(out@ =~= old(out)@ + xml_escape(cs@.take(i + 1)));
        }
        i = i + 1;
    }
    assert(cs@.take(cs.len() as int) =~= cs@);
}

/// `s` with `& < > " '` replaced by `&amp; &lt; &gt; &quot; &apos;`.
pub fn escape_xml(s: &str) -> (r: String)
    ensures
        r@ == xml_escape(s@),
{
    let mut out = String::new();
    push_escaped(&mut out, s);
    assert(Seq::<char>::empty() + xml_escape(s@) =~= xml_escape(s@));
    out
}

/// The text of an optional value, empty when absent.
pub open spec fn or_empty(s: Option<String>) -> Seq<char> {
    match s {
        Some(t) => t@,
        None => Seq::empty(),
    }
}

/// One bid of an exported auction item. Times are RFC 3339 text and
/// amounts decimal text, as the export prints them.
pub struct BidData {
    pub username: String,
    pub tax_id: Option<String>,
    pub city: Option<String>,
    pub region: Option<String>,
    pub country: Option<String>,
    pub time: String,
    pub amount: String,
}

/// The buyer of an exported fixed-price item.
pub struct BuyerData {
    pub buyer_username: String,
    pub buyer_tax_id: Option<String>,
    pub buyer_city: Option<String>,
    pub buyer_country: Option<String>,
    pub purchase_price: String,
    pub purchased_at: String,
}

/// One exported item, with its bids or its buyer.
pub struct ItemData {
    pub item_id: String,
    pub name: String,
    pub category: String,
    pub listing_type: String,
    pub price: String,
    pub current_price: String,
    pub location: Option<String>,
    pub start_time: String,
    pub end_time: String,
    pub seller_rating: Option<String>,
    pub seller_username: String,
    pub description: Option<String>,
    pub bids: Vec<BidData>,
    pub buyer: Option<BuyerData>,
}

/// The whole export.
pub struct ExportData {
    pub items: Vec<ItemData>,
    pub exported_at: String,
    pub total_items: usize,
}

impl ExportData {
    /// The export of `items`, made at `exported_at`, counting its items.
    pub fn from_items(items: Vec<ItemData>, exported_at: String) -> (d: ExportData)
        ensures
            d.items@ == items@,
            d.exported_at == exported_at,
            d.total_items == items@.len(),
    {
        let total_items = items.len();
        ExportData { items, exported_at, total_items }
    }
}

/// `<tag>content</tag>` on a line of its own, after `indent`.
#[verifier::opaque]
pub open spec fn element(indent: Seq<char>, open: Seq<char>, content: Seq<char>, close: Seq<char>) -> Seq<char> {
    indent + open + content + close + "\n"@
}

/// The XML of one bid.
#[verifier::opaque]
pub open spec fn bid_xml(b: BidData) -> Seq<char> {
    "        <Bid>\n"@ + element("          "@, "<Username>"@, xml_escape(b.username@), "</Username>"@)
        + element("          "@, "<TaxID>"@, xml_escape(or_empty(b.tax_id)), "</TaxID>"@)
        + element("          "@, "<City>"@, xml_escape(or_empty(b.city)), "</City>"@)
        + element("          "@, "<Region>"@, xml_escape(or_empty(b.region)), "</Region>"@)
        + element("          "@, "<Country>"@, xml_escape(or_empty(b.country)), "</Country>"@)
        + element("          "@, "<Time>"@, b.time@, "</Time>"@)
        + element("          "@, "<Amount>"@, b.amount@, "</Amount>"@) + "        </Bid>\n"@
}

/// The XML of the bids `bs`, in order.
pub open spec fn bids_xml(bs: Seq<BidData>) -> Seq<char>
    decreases bs.len(),
{
    if bs.len() == 0 {
        Seq::empty()
    } else {
        bids_xml(bs.drop_last()) + bid_xml(bs.last())
    }
}

/// The XML of a buyer.
#[verifier::opaque]
pub open spec fn buyer_xml(b: BuyerData) -> Seq<char> {
    "      <Buyer>\n"@ + element(
        "        "@,
        "<BuyerUsername>"@,
        xml_escape(b.buyer_username@),
        "</BuyerUsername>"@,
    ) + element("        "@, "<BuyerTaxID>"@, xml_escape(or_empty(b.buyer_tax_id)), "</BuyerTaxID>"@)
        + element("        "@, "<BuyerCity>"@, xml_escape(or_empty(b.buyer_city)), "</BuyerCity>"@)
        + element(
        "        "@,
        "<BuyerCountry>"@,
        xml_escape(or_empty(b.buyer_country)),
        "</BuyerCountry>"@,
    ) + element("        "@, "<PurchasePrice>"@, b.purchase_price@, "</PurchasePrice>"@) + element(
        "        "@,
        "<PurchasedAt>"@,
        b.purchased_at@,
        "</PurchasedAt>"@,
    ) + "      </Buyer>\n"@
}

/// The fields of an item, before its bids or buyer.
#[verifier::opaque]
pub open spec fn item_fields_xml(item: ItemData) -> Seq<char> {
    element("      "@, "<ItemID>"@, xml_escape(item.item_id@), "</ItemID>"@) + element(
        "      "@,
        "<Name>"@,
        xml_escape(item.name@),
        "</Name>"@,
    ) + element("      "@, "<Category>"@, xml_escape(item.category@), "</Category>"@) + element(
        "      "@,
        "<ListingType>"@,
        xml_escape(item.listing_type@),
        "</ListingType>"@,
    ) + element("      "@, "<Price>"@, item.price@, "</Price>"@) + element(
        "      "@,
        "<CurrentPrice>"@,
        item.current_price@,
        "</CurrentPrice>"@,
    ) + element("      "@, "<Location>"@, xml_escape(or_empty(item.location)), "</Location>"@)
        + element("      "@, "<StartTime>"@, item.start_time@, "</StartTime>"@) + element(
        "      "@,
        "<EndTime>"@,
        item.end_time@,
        "</EndTime>"@,
    ) + element(
        "      "@,
        "<SellerRating>"@,
        match item.seller_rating {
            Some(r) => r@,
            None => "0"@,
        },
        "</SellerRating>"@,
    ) + element(
        "      "@,
        "<SellerUsername>"@,
        xml_escape(item.seller_username@),
        "</SellerUsername>"@,
    ) + element(
        "      "@,
        "<Description>"@,
        xml_escape(or_empty(item.description)),
        "</Description>"@,
    )
}

/// The XML of one item: its fields, then its bids when it is an auction,
/// then its buyer when it is a fixed-price item that was bought.
pub open spec fn item_xml(item: ItemData) -> Seq<char> {
    "    <Item>\n"@ + item_fields_xml(item) + bids_section(item) + buyer_section(item)
        + "    </Item>\n"@
}

/// The XML of the items `items`, in order.
pub open spec fn items_xml(items: Seq<ItemData>) -> Seq<char>
    decreases items.len(),
{
    if items.len() == 0 {
        Seq::empty()
    } else {
        items_xml(items.drop_last()) + item_xml(items.last())
    }
}

/// The XML document of an export.
pub open spec fn export_xml(data: ExportData) -> Seq<char> {
    "<?xml version=\"1.0\" encoding=\"UTF-8\"?>\n"@ + "<ExportData>\n"@ + element(
        "  "@,
        "<ExportedAt>"@,
        data.exported_at@,
        "</ExportedAt>"@,
    ) + element("  "@, "<TotalItems>"@, crate::text::decimal_text(data.total_items as nat), "</TotalItems>"@)
        + "  <Items>\n"@ + items_xml(data.items@) + "  </Items>\n"@ + "</ExportData>"@
}

fn push_element(out: &mut String, indent: &str, open: &str, content: &str, close: &str)
    ensures
        final(out)@ == old(out)@ + element(indent@, open@, content@, close@),
{
    push_str(out, indent);
    push_str(out, open);
    push_str(out, content);
    push_str(out, close);
    push_str(out, "\n");
    reveal(element);
    assert(final(out)@ =~= old(out)@ + element(indent@, open@, content@, close@));
}

fn push_escaped_element(out: &mut String, indent: &str, open: &str, content: &str, close: &str)
    ensures
        final(out)@ == old(out)@ + element(indent@, open@, xml_escape(content@), close@),
{
    push_str(out, indent);
    push_str(out, open);
    push_escaped(out, content);
    push_str(out, close);
    push_str(out, "\n");
    reveal(element);
    assert(final(out)@ =~= old(out)@ + element(indent@, open@, xml_escape(content@), close@));
}

fn opt_str(s: &Option<String>) -> (r: &str)
    ensures
        r@ == or_empty(*s),
{
    proof {
        reveal_strlit("");
    }
    match s {
        Some(t) => t.as_str(),
        None => "",
    }
}

fn push_bid(out: &mut String, b: &BidData)
    ensures
        final(out)@ == old(out)@ + bid_xml(*b),
{
    push_str(out, "        <Bid>\n");
    push_escaped_element(out, "          ", "<Username>", b.username.as_str(), "</Username>");
    push_escaped_element(out, "          ", "<TaxID>", opt_str(&b.tax_id), "</TaxID>");
    push_escaped_element(out, "          ", "<City>", opt_str(&b.city), "</City>");
    push_escaped_element(out, "          ", "<Region>", opt_str(&b.region), "</Region>");
    push_escaped_element(out, "          ", "<Country>", opt_str(&b.country), "</Country>");
    push_element(out, "          ", "<Time>", b.time.as_str(), "</Time>");
    push_element(out, "          ", "<Amount>", b.amount.as_str(), "</Amount>");
    push_str(out, "        </Bid>\n");
    reveal(bid_xml);
    assert(final(out)@ =~= old(out)@ + bid_xml(*b));
}

fn push_buyer(out: &mut String, b: &BuyerData)
    ensures
        final(out)@ == old(out)@ + buyer_xml(*b),
{
    push_str(out, "      <Buyer>\n");
    push_escaped_element(
        out,
        "        ",
        "<BuyerUsername>",
        b.buyer_username.as_str(),
        "</BuyerUsername>",
    );
    push_escaped_element(out, "        ", "<BuyerTaxID>", opt_str(&b.buyer_tax_id), "</BuyerTaxID>");
    push_escaped_element(out, "        ", "<BuyerCity>", opt_str(&b.buyer_city), "</BuyerCity>");
    push_escaped_element(
        out,
        "        ",
        "<BuyerCountry>",
        opt_str(&b.buyer_country),
        "</BuyerCountry>",
    );
    push_element(
        out,
        "        ",
        "<PurchasePrice>",
        b.purchase_price.as_str(),
        "</PurchasePrice>",
    );
    push_element(out, "        ", "<PurchasedAt>", b.purchased_at.as_str(), "</PurchasedAt>");
    push_str(out, "      </Buyer>\n");
    reveal(buyer_xml);
    assert(final(out)@ =~= old(out)@ + buyer_xml(*b));
}

fn push_item_fields(out: &mut String, item: &ItemData)
    ensures
        final(out)@ == old(out)@ + item_fields_xml(*item),
{
    push_escaped_element(out, "      ", "<ItemID>", item.item_id.as_str(), "</ItemID>");
    push_escaped_element(out, "      ", "<Name>", item.name.as_str(), "</Name>");
    push_escaped_element(out, "      ", "<Category>", item.category.as_str(), "</Category>");
    push_escaped_element(
        out,
        "      ",
        "<ListingType>",
        item.listing_type.as_str(),
        "</ListingType>",
    );
    push_element(out, "      ", "<Price>", item.price.as_str(), "</Price>");
    push_element(out, "      ", "<CurrentPrice>", item.current_price.as_str(), "</CurrentPrice>");
    push_escaped_element(out, "      ", "<Location>", opt_str(&item.location), "</Location>");
    push_element(out, "      ", "<StartTime>", item.start_time.as_str(), "</StartTime>");
    push_element(out, "      ", "<EndTime>", item.end_time.as_str(), "</EndTime>");
    let rating: &str = match &item.seller_rating {
        Some(r) => r.as_str(),
        None => "0",
    };
    push_element(out, "      ", "<SellerRating>", rating, "</SellerRating>");
    push_escaped_element(
        out,
        "      ",
        "<SellerUsername>",
        item.seller_username.as_str(),
        "</SellerUsername>",
    );
    push_escaped_element(
        out,
        "      ",
        "<Description>",
        opt_str(&item.description),
        "</Description>",
    );
    reveal(item_fields_xml);
    assert(final(out)@ =~= old(out)@ + item_fields_xml(*item));
}

/// The bids section of an item: present for auctions only.
pub open spec fn bids_section(item: ItemData) -> Seq<char> {
    if item.listing_type@ == "auction"@ {
        "      <Bids>\n"@ + bids_xml(item.bids@) + "      </Bids>\n"@
    } else {
        Seq::empty()
    }
}

/// The buyer section of an item: present for fixed-price items that were bought.
pub open spec fn buyer_section(item: ItemData) -> Seq<char> {
    if item.listing_type@ == "fixed_price"@ && item.buyer is Some {
        buyer_xml(item.buyer->0)
    } else {
        Seq::empty()
    }
}

fn push_bids_section(out: &mut String, item: &ItemData)
    ensures
        final(out)@ == old(out)@ + bids_section(*item),
{
    if str_eq(item.listing_type.as_str(), "auction") {
        push_str(out, "      <Bids>\n");
        let ghost start = out@;
        let mut i: usize = 0;
        assert(bids_xml(item.bids@.take(0)) =~= Seq::<char>::empty());
        assert(out@ =~= start + bids_xml(item.bids@.take(0)));
        while i < item.bids.len()
            invariant
                i <= item.bids.len(),
                out@ == start + bids_xml(item.bids@.take(i as int)),
            decreases item.bids.len() - i,
        {
            push_bid(out, &item.bids[i]);
            proof {
                assert(item.bids@.take(i + 1).drop_last() =~= item.bids@.take(i as int));
                assert(out@ =~= start + bids_xml(item.bids@.take(i + 1)));
            }
            i = i + 1;
        }
        assert(item.bids@.take(item.bids.len() as int) =~= item.bids@);
        push_str(out, "      </Bids>\n");
        assert(out@ =~= old(out)@ + bids_section(*item));
    } else {
        assert(out@ =~= old(out)@ + bids_section(*item));
    }
}

fn push_buyer_section(out: &mut String, item: &ItemData)
    ensures
        final(out)@ == old(out)@ + buyer_section(*item),
{
    if str_eq(item.listing_type.as_str(), "fixed_price") {
        match &item.buyer {
            Some(buyer) => {
                push_buyer(out, buyer);
                return;
            },
            None => {},
        }
    }
    assert(out@ =~= old(out)@ + buyer_section(*item));
}

fn push_item(out: &mut String, item: &ItemData)
    ensures
        final(out)@ == old(out)@ + item_xml(*item),
{
    let ghost o = old(out)@;
    push_str(out, "    <Item>\n");
    push_item_fields(out, item);
    push_bids_section(out, item);
    push_buyer_section(out, item);
    push_str(out, "    </Item>\n");
    proof {
        let a = "    <Item>\n"@;
        let f = item_fields_xml(*item);
        let x = bids_section(*item);
        let y = buyer_section(*item);
        let e = "    </Item>\n"@;
        assert(item_xml(*item) == a + f + x + y + e);
        assert(out@ == o + a + f + x + y + e);
        assert(o + a + f + x + y + e =~= o + (a + f + x + y + e));
    }
}

fn push_total(out: &mut String, n: usize)
    ensures
        final(out)@ == old(out)@ + element(
            "  "@,
            "<TotalItems>"@,
            crate::text::decimal_text(n as nat),
            "</TotalItems>"@,
        ),
{
    push_str(out, "  ");
    push_str(out, "<TotalItems>");
    push_decimal(out, n as u64);
    push_str(out, "</TotalItems>");
    push_str(out, "\n");
    reveal(element);
    assert(final(out)@ =~= old(out)@ + element(
        "  "@,
        "<TotalItems>"@,
        crate::text::decimal_text(n as nat),
        "</TotalItems>"@,
    ));
}

/// The XML document of `data`, as the export serves it.
pub fn render_export_xml(data: &ExportData) -> (xml: String)
    ensures
        xml@ == export_xml(*data),
{
    let mut out = String::new();
    assert(out@ =~= Seq::<char>::empty());
    push_str(&mut out, "<?xml version=\"1.0\" encoding=\"UTF-8\"?>\n");
    push_str(&mut out, "<ExportData>\n");
    push_element(&mut out, "  ", "<ExportedAt>", data.exported_at.as_str(), "</ExportedAt>");
    push_total(&mut out, data.total_items);
    push_str(&mut out, "  <Items>\n");
    let ghost start = out@;
    let mut i: usize = 0;
    while i < data.items.len()
        invariant
            i <= data.items.len(),
            out@ == start + items_xml(data.items@.take(i as int)),
        decreases data.items.len() - i,
    {
        push_item(&mut out, &data.items[i]);
        proof {
            assert(data.items@.take(i + 1).drop_last() =~= data.items@.take(i as int));
            assert(out@ =~= start + items_xml(data.items@.take(i + 1)));
        }
        i = i + 1;
    }
    assert(data.items@.take(data.items.len() as int) =~= data.items@);
    let ghost items_end = out@;
    push_str(&mut out, "  </Items>\n");
    push_str(&mut out, "</ExportData>");
    proof {
        let h = "<?xml version=\"1.0\" encoding=\"UTF-8\"?>\n"@ + "<ExportData>\n"@;
        let d = element("  "@, "<ExportedAt>"@, data.exported_at@, "</ExportedAt>"@);
        let t = element(
            "  "@,
            "<TotalItems>"@,
            crate::text::decimal_text(data.total_items as nat),
            "</TotalItems>"@,
        );
        let b = "  <Items>\n"@;
        let it = items_xml(data.items@);
        let c = "  </Items>\n"@;
        let z = "</ExportData>"@;
        assert(export_xml(*data) == h + d + t + b + it + c + z);
        assert(out@ =~= h + d + t + b + it + c + z);
    }
    out
}

/// The formats the export is served in.
#[derive(Debug, PartialEq, Eq, Structural, Clone, Copy)]
pub enum ExportFormat {
    Xml,
    Json,
}

/// The query of the export: `format`, `json` when absent.
pub struct ExportQuery {
    pub format: Option<String>,
}

impl ExportQuery {
    /// XML when the requested format is `xml` in any case, JSON otherwise.
    pub fn export_format(&self) -> (f: ExportFormat)
        ensures
            f == (if lowercase(
                match self.format {
                    Some(s) => s@,
                    None => "json"@,
                },
            ) == "xml"@ {
                ExportFormat::Xml
            } else {
                ExportFormat::Json
            }),
    {
        let requested: &str = match &self.format {
            Some(s) => s.as_str(),
            None => "json",
        };
        let lower = to_lowercase(requested);
        if str_eq(lower.as_str(), "xml") {
            ExportFormat::Xml
        } else {
            ExportFormat::Json
        }
    }
}

} // verus!

verus! {

/// One row of the listings query: an item, with at most one of its bids or
/// its purchase. Amounts are decimal text and times RFC 3339 text.
pub struct ExportRow {
    pub item_id: String,
    pub name: String,
    pub listing_type: String,
    pub price: String,
    pub current_price: Option<String>,
    pub location: Option<String>,
    pub start_time: String,
    pub end_time: Option<String>,
    pub seller_rating: Option<String>,
    pub seller_username: String,
    pub description: Option<String>,
    pub category_name: String,
    pub bidder_username: Option<String>,
    pub bidder_tax_id: Option<String>,
    pub bidder_location: Option<String>,
    pub bidder_country: Option<String>,
    pub bid_time: Option<String>,
    pub bid_amount: Option<String>,
    pub bid_city: Option<String>,
    pub bid_country: Option<String>,
    pub buyer_username: Option<String>,
    pub buyer_tax_id: Option<String>,
    pub buyer_user_location: Option<String>,
    pub buyer_user_country: Option<String>,
    pub purchase_price: Option<String>,
    pub purchased_at: Option<String>,
}

/// `a`, or `b` when `a` is absent.
pub open spec fn or_else(a: Option<String>, b: Option<String>) -> Option<String> {
    match a {
        Some(x) => Some(x),
        None => b,
    }
}

/// The row carries a bid.
pub open spec fn has_bid(r: ExportRow) -> bool {
    r.bidder_username is Some && r.bid_time is Some && r.bid_amount is Some
}

/// The bid a row carries: the bidder's own city and country, else those
/// recorded with the bid.
pub open spec fn bid_of(r: ExportRow) -> BidData {
    BidData {
        username: r.bidder_username->0,
        tax_id: r.bidder_tax_id,
        city: or_else(r.bidder_location, r.bid_city),
        region: None,
        country: or_else(r.bidder_country, r.bid_country),
        time: r.bid_time->0,
        amount: r.bid_amount->0,
    }
}

/// The row carries a purchase.
pub open spec fn has_buyer(r: ExportRow) -> bool {
    r.buyer_username is Some && r.purchase_price is Some && r.purchased_at is Some
}

/// The buyer a row carries.
pub open spec fn buyer_of(r: ExportRow) -> BuyerData {
    BuyerData {
        buyer_username: r.buyer_username->0,
        buyer_tax_id: r.buyer_tax_id,
        buyer_city: r.buyer_user_location,
        buyer_country: r.buyer_user_country,
        purchase_price: r.purchase_price->0,
        purchased_at: r.purchased_at->0,
    }
}

/// Some row before position `i` belongs to the same item as row `i`.
pub open spec fn seen_before(rows: Seq<ExportRow>, i: int) -> bool {
    exists|j: int| 0 <= j < i && (#[trigger] rows[j]).item_id@ == rows[i].item_id@
}

/// Positions of the first row of each item, in order.
pub open spec fn first_rows(rows: Seq<ExportRow>) -> Seq<int>
    decreases rows.len(),
{
    if rows.len() == 0 {
        Seq::empty()
    } else {
        let f = first_rows(rows.drop_last());
        if seen_before(rows, rows.len() - 1) {
            f
        } else {
            f.push(rows.len() - 1)
        }
    }
}

/// The bids of item `id`, in row order.
pub open spec fn bids_for(rows: Seq<ExportRow>, id: Seq<char>) -> Seq<BidData>
    decreases rows.len(),
{
    if rows.len() == 0 {
        Seq::empty()
    } else {
        let b = bids_for(rows.drop_last(), id);
        if rows.last().item_id@ == id && has_bid(rows.last()) {
            b.push(bid_of(rows.last()))
        } else {
            b
        }
    }
}

/// The buyer of item `id`: the last row of it that carries a purchase.
pub open spec fn buyer_for(rows: Seq<ExportRow>, id: Seq<char>) -> Option<BuyerData>
    decreases rows.len(),
{
    if rows.len() == 0 {
        None
    } else if rows.last().item_id@ == id && has_buyer(rows.last()) {
        Some(buyer_of(rows.last()))
    } else {
        buyer_for(rows.drop_last(), id)
    }
}

/// The item built from the first row `r` of it: no current price reads as
/// `0`, no end time as `now`.
pub open spec fn item_matches_row(item: ItemData, r: ExportRow, now: Seq<char>) -> bool {
    &&& item.item_id == r.item_id
    &&& item.name == r.name
    &&& item.category == r.category_name
    &&& item.listing_type == r.listing_type
    &&& item.price == r.price
    &&& item.current_price@ == match r.current_price {
        Some(p) => p@,
        None => "0"@,
    }
    &&& item.location == r.location
    &&& item.start_time == r.start_time
    &&& item.end_time@ == match r.end_time {
        Some(t) => t@,
        None => now,
    }
    &&& item.seller_rating == r.seller_rating
    &&& item.seller_username == r.seller_username
    &&& item.description == r.description
}

fn clone_opt(o: &Option<String>) -> (r: Option<String>)
    ensures
        r == *o,
{
    match o {
        Some(s) => Some(s.clone()),
        None => None,
    }
}

fn or_else_clone(a: &Option<String>, b: &Option<String>) -> (r: Option<String>)
    ensures
        r == or_else(*a, *b),
{
    match a {
        Some(s) => Some(s.clone()),
        None => clone_opt(b),
    }
}

fn seen_before_exec(rows: &Vec<ExportRow>, i: usize) -> (b: bool)
    requires
        i < rows.len(),
    ensures
        b == seen_before(rows@, i as int),
{
    let mut j: usize = 0;
    while j < i
        invariant
            j <= i < rows.len(),
            forall|k: int| 0 <= k < j ==> (#[trigger] rows@[k]).item_id@ != rows@[i as int].item_id@,
        decreases i - j,
    {
        if str_eq(rows[j].item_id.as_str(), rows[i].item_id.as_str()) {
            assert(rows@[j as int].item_id@ == rows@[i as int].item_id@);
            return true;
        }
        j = j + 1;
    }
    false
}

/// The item whose first row is `rows[f]`, with all its bids and its buyer.
fn build_item(rows: &Vec<ExportRow>, f: usize, now: &str) -> (item: ItemData)
    requires
        f < rows.len(),
    ensures
        item_matches_row(item, rows@[f as int], now@),
        item.bids@ == bids_for(rows@, rows@[f as int].item_id@),
        item.buyer == buyer_for(rows@, rows@[f as int].item_id@),
{
    let r = &rows[f];
    let ghost id = r.item_id@;
    let mut bids: Vec<BidData> = Vec::new();
    let mut buyer: Option<BuyerData> = None;
    let mut i: usize = 0;
    while i < rows.len()
        invariant
            i <= rows.len(),
            f < rows.len(),
            id == rows@[f as int].item_id@,
            bids@ == bids_for(rows@.take(i as int), id),
            buyer == buyer_for(rows@.take(i as int), id),
        decreases rows.len() - i,
    {
        let row = &rows[i];
        proof {
            assert(rows@.take(i + 1).drop_last() =~= rows@.take(i as int));
            assert(rows@.take(i + 1).last() == rows@[i as int]);
        }
        let same = str_eq(row.item_id.as_str(), rows[f].item_id.as_str());
        if same {
            match (&row.bidder_username, &row.bid_time, &row.bid_amount) {
                (Some(username), Some(time), Some(amount)) => {
                    bids.push(
                        BidData {
                            username: username.clone(),
                            tax_id: clone_opt(&row.bidder_tax_id),
                            city: or_else_clone(&row.bidder_location, &row.bid_city),
                            region: None,
                            country: or_else_clone(&row.bidder_country, &row.bid_country),
                            time: time.clone(),
                            amount: amount.clone(),
                        },
                    );
                },
                _ => {},
            }
            match (&row.buyer_username, &row.purchase_price, &row.purchased_at) {
                (Some(username), Some(price), Some(at)) => {
                    buyer = Some(
                        BuyerData {
                            buyer_username: username.clone(),
                            buyer_tax_id: clone_opt(&row.buyer_tax_id),
                            buyer_city: clone_opt(&row.buyer_user_location),
                            buyer_country: clone_opt(&row.buyer_user_country),
                            purchase_price: price.clone(),
                            purchased_at: at.clone(),
                        },
                    );
                },
                _ => {},
            }
        }
        i = i + 1;
    }
    assert(rows@.take(rows.len() as int) =~= rows@);
    let r = &rows[f];
    let current_price = match &r.current_price {
        Some(p) => p.clone(),
        None => "0".to_string(),
    };
    let end_time = match &r.end_time {
        Some(t) => t.clone(),
        None => crate::text::owned(now),
    };
    ItemData {
        item_id: r.item_id.clone(),
        name: r.name.clone(),
        category: r.category_name.clone(),
        listing_type: r.listing_type.clone(),
        price: r.price.clone(),
        current_price,
        location: clone_opt(&r.location),
        start_time: r.start_time.clone(),
        end_time,
        seller_rating: clone_opt(&r.seller_rating),
        seller_username: r.seller_username.clone(),
        description: clone_opt(&r.description),
        bids,
        buyer,
    }
}

/// Whether row `i` has an earlier row of its item does not depend on the rows
/// after it.
proof fn lemma_seen_before_prefix(rows: Seq<ExportRow>, n: int, i: int)
    requires
        0 <= i < n <= rows.len(),
    ensures
        seen_before(rows.take(n), i) == seen_before(rows, i),
{
    let d = rows.take(n);
    if seen_before(rows, i) {
        let j = choose|j: int| 0 <= j < i && (#[trigger] rows[j]).item_id@ == rows[i].item_id@;
        assert(d[j] == rows[j]);
    }
    if seen_before(d, i) {
        let j = choose|j: int| 0 <= j < i && (#[trigger] d[j]).item_id@ == d[i].item_id@;
        assert(d[j] == rows[j]);
    }
}

/// The first rows of the items lie in `rows`, in increasing order, and none
/// has an earlier row of its item.
pub proof fn lemma_first_rows_ordered(rows: Seq<ExportRow>)
    ensures
        forall|k: int|
            0 <= k < first_rows(rows).len() ==> 0 <= #[trigger] first_rows(rows)[k] < rows.len()
                && !seen_before(rows, first_rows(rows)[k]),
        forall|a: int, b: int|
            0 <= a < b < first_rows(rows).len() ==> #[trigger] first_rows(rows)[a]
                < #[trigger] first_rows(rows)[b],
    decreases rows.len(),
{
    if rows.len() > 0 {
        let d = rows.drop_last();
        lemma_first_rows_ordered(d);
        let fd = first_rows(d);
        let f = first_rows(rows);
        assert(d =~= rows.take(rows.len() - 1));
        assert forall|k: int| 0 <= k < f.len() implies 0 <= #[trigger] f[k] < rows.len()
            && !seen_before(rows, f[k]) by {
            if k < fd.len() {
                assert(f[k] == fd[k]);
                lemma_seen_before_prefix(rows, rows.len() - 1, fd[k]);
            }
        }
        assert forall|a: int, b: int| 0 <= a < b < f.len() implies #[trigger] f[a] < #[trigger] f[b] by {
            assert(f[a] == fd[a]);
            if b < fd.len() {
                assert(f[b] == fd[b]);
            }
        }
    }
}

/// Every row's item has a first row.
pub proof fn lemma_first_rows_cover(rows: Seq<ExportRow>, i: int)
    requires
        0 <= i < rows.len(),
    ensures
        exists|k: int|
            0 <= k < first_rows(rows).len() && (#[trigger] rows[first_rows(rows)[k]]).item_id@
                == rows[i].item_id@,
    decreases rows.len(),
{
    let d = rows.drop_last();
    let fd = first_rows(d);
    let f = first_rows(rows);
    let n = rows.len() - 1;
    assert(d =~= rows.take(n));
    if i < n {
        lemma_first_rows_cover(d, i);
        let k = choose|k: int| 0 <= k < fd.len() && (#[trigger] d[fd[k]]).item_id@ == d[i].item_id@;
        lemma_first_rows_ordered(d);
        assert(f[k] == fd[k] && rows[fd[k]] == d[fd[k]] && rows[i] == d[i]);
    } else if seen_before(rows, n) {
        let j = choose|j: int| 0 <= j < n && (#[trigger] rows[j]).item_id@ == rows[n].item_id@;
        lemma_first_rows_cover(d, j);
        let k = choose|k: int| 0 <= k < fd.len() && (#[trigger] d[fd[k]]).item_id@ == d[j].item_id@;
        lemma_first_rows_ordered(d);
        assert(f[k] == fd[k] && rows[fd[k]] == d[fd[k]] && rows[j] == d[j]);
    } else {
        assert(f[f.len() - 1] == n);
    }
}

/// Items grouped from `rows` carry distinct identifiers, and every row's
/// identifier is carried by one of them.
proof fn lemma_grouped_items_distinct(rows: Seq<ExportRow>, items: Seq<ItemData>, now: Seq<char>)
    requires
        items.len() == first_rows(rows).len(),
        forall|k: int|
            0 <= k < items.len() ==> item_matches_row(#[trigger] items[k], rows[first_rows(rows)[k]], now),
    ensures
        forall|a: int, b: int|
            0 <= a < b < items.len() ==> (#[trigger] items[a]).item_id@ != (#[trigger] items[b]).item_id@,
        forall|i: int|
            0 <= i < rows.len() ==> exists|k: int|
                0 <= k < items.len() && (#[trigger] items[k]).item_id@ == (#[trigger] rows[i]).item_id@,
{
    let f = first_rows(rows);
    lemma_first_rows_ordered(rows);
    assert forall|a: int, b: int| 0 <= a < b < items.len() implies (#[trigger] items[a]).item_id@
        != (#[trigger] items[b]).item_id@ by {
        assert(item_matches_row(items[a], rows[f[a]], now));
        assert(item_matches_row(items[b], rows[f[b]], now));
        assert(f[a] < f[b]);
        if rows[f[a]].item_id@ == rows[f[b]].item_id@ {
            assert(seen_before(rows, f[b]));
        }
    }
    assert forall|i: int| 0 <= i < rows.len() implies exists|k: int|
        0 <= k < items.len() && (#[trigger] items[k]).item_id@ == (#[trigger] rows[i]).item_id@ by {
        lemma_first_rows_cover(rows, i);
        let k = choose|k: int| 0 <= k < f.len() && (#[trigger] rows[f[k]]).item_id@ == rows[i].item_id@;
        assert(item_matches_row(items[k], rows[f[k]], now));
    }
}

/// Groups the rows of the listings query into items: one item per distinct
/// item identifier (no identifier twice, and every row's identifier has its
/// item), in the order of their first rows, each with the fields
/// of its first row, the bids of all its rows in order, and the purchase of
/// its last row that carries one.
pub fn group_export_rows(rows: &Vec<ExportRow>, now: &str) -> (items: Vec<ItemData>)
    ensures
        items.len() == first_rows(rows@).len(),
        forall|k: int|
            #![trigger items@[k]]
            0 <= k < items.len() ==> {
                let r = rows@[first_rows(rows@)[k]];
                &&& item_matches_row(items@[k], r, now@)
                &&& items@[k].bids@ == bids_for(rows@, r.item_id@)
                &&& items@[k].buyer == buyer_for(rows@, r.item_id@)
            },
        forall|a: int, b: int|
            0 <= a < b < items.len() ==> (#[trigger] items@[a]).item_id@ != (#[trigger] items@[b]).item_id@,
        forall|i: int|
            0 <= i < rows.len() ==> exists|k: int|
                0 <= k < items.len() && (#[trigger] items@[k]).item_id@ == (#[trigger] rows@[i]).item_id@,
{
    let mut items: Vec<ItemData> = Vec::new();
    let mut i: usize = 0;
    while i < rows.len()
        invariant
            i <= rows.len(),
            items.len() == first_rows(rows@.take(i as int)).len(),
            forall|k: int|
                0 <= k < first_rows(rows@.take(i as int)).len() ==> 0 <= #[trigger] first_rows(
                    rows@.take(i as int),
                )[k] < i,
            forall|k: int|
                #![trigger items@[k]]
                0 <= k < items.len() ==> {
                    let r = rows@[first_rows(rows@.take(i as int))[k]];
                    &&& item_matches_row(items@[k], r, now@)
                    &&& items@[k].bids@ == bids_for(rows@, r.item_id@)
                    &&& items@[k].buyer == buyer_for(rows@, r.item_id@)
                },
        decreases rows.len() - i,
    {
        let ghost prefix = rows@.take(i + 1);
        proof {
            assert(prefix.drop_last() =~= rows@.take(i as int));
            assert(prefix.last() == rows@[i as int]);
            assert(seen_before(prefix, i as int) == seen_before(rows@, i as int)) by {
                if seen_before(rows@, i as int) {
                    let j = choose|j: int| 0 <= j < i && (#[trigger] rows@[j]).item_id@ == rows@[i as int].item_id@;
                    assert(prefix[j] == rows@[j]);
                }
                if seen_before(prefix, i as int) {
                    let j = choose|j: int| 0 <= j < i && (#[trigger] prefix[j]).item_id@ == prefix[i as int].item_id@;
                    assert(prefix[j] == rows@[j]);
                }
            }
        }
        if !seen_before_exec(rows, i) {
            let item = build_item(rows, i, now);
            items.push(item);
        }
        i = i + 1;
    }
    assert(rows@.take(rows.len() as int) =~= rows@);
    proof {
        lemma_grouped_items_distinct(rows@, items@, now@);
    }
    items
}

/// Why an administrator's request failed.
#[derive(Debug, Clone, Copy, PartialEq, Eq, Structural)]
pub enum DashboardError {
    DataFetchFailed,
    AuthenticationError,
}

impl DashboardError {
    /// The HTTP status and message of the error.
    pub fn reply(&self) -> (r: (u16, &'static str))
        ensures
            match *self {
                DashboardError::DataFetchFailed => r.0 == 500 && r.1@
                    == "Failed to fetch dashboard data"@,
                DashboardError::AuthenticationError => r.0 == 403 && r.1@
                    == "Admin access required"@,
            },
    {
        match self {
            DashboardError::DataFetchFailed => (500, "Failed to fetch dashboard data"),
            DashboardError::AuthenticationError => (403, "Admin access required"),
        }
    }
}

/// The administrators' pages are open to the `admin` role only.
pub fn require_admin(role: &str) -> (r: Result<(), DashboardError>)
    ensures
        r is Ok <==> role@ == "admin"@,
        r matches Err(e) ==> e == DashboardError::AuthenticationError,
{
    if str_eq(role, "admin") {
        Ok(())
    } else {
        Err(DashboardError::AuthenticationError)
    }
}

/// Escaped text holds none of `< > " '`: whatever goes into an element
/// cannot open or close markup or end an attribute.
pub proof fn lemma_escaped_has_no_markup(s: Seq<char>)
    ensures
        forall|i: int|
            0 <= i < xml_escape(s).len() ==> {
                let c = #[trigger] xml_escape(s)[i];
                c != '<' && c != '>' && c != '"' && c != '\''
            },
    decreases s.len(),
{
    if s.len() > 0 {
        lemma_escaped_has_no_markup(s.drop_last());
        let a = xml_escape(s.drop_last());
        let b = xml_escape_char(s.last());
        assert forall|i: int| 0 <= i < xml_escape(s).len() implies {
            let c = #[trigger] xml_escape(s)[i];
            c != '<' && c != '>' && c != '"' && c != '\''
        } by {
            if i < a.len() {
                assert(xml_escape(s)[i] == a[i]);
            } else {
                assert(xml_escape(s)[i] == b[i - a.len()]);
            }
        }
    }
}

} // verus!
