//! Maker orders: the row stored for a new order, and the listing of stored
//! orders that the order views answer with.
use vstd::prelude::*;
use crate::ds::{
    full_hex, signature_debug_text, u256_decimal, MakeOrderStorageStruct, Orders,
};
use crate::error_logging::{json_quote, json_string, site_error, site_error_text};
use crate::text::{decimal, join};

verus! {

/// A fresh identifier as `uuid::Uuid::new_v4().to_simple().to_string()`
/// writes it: 32 hexadecimal digits in lower case. The digits are random.
#[verifier::external_body]
pub(crate) fn fresh_order_uuid() -> (res: String)
    ensures
        is_simple_uuid(res@),
{
    uuid::Uuid::new_v4().to_simple().to_string()
}

/// A lower-case hexadecimal digit character.
pub open spec fn is_lower_hex_char(c: char) -> bool {
    ('0' <= c <= '9') || ('a' <= c <= 'f')
}

/// The simple form of a UUID: 32 lower-case hexadecimal digits.
pub open spec fn is_simple_uuid(s: Seq<char>) -> bool {
    s.len() == 32 && forall|i: int| 0 <= i < 32 ==> is_lower_hex_char(#[trigger] s[i])
}

/// The report for order data that could not be turned into JSON.
pub open spec fn order_json_error() -> Seq<char> {
    site_error("serde"@, "makeorder"@, "diesel_postgres"@, "153"@, "failed to deserialize given JSON"@)
}

/// The report for an order that could not be inserted.
pub open spec fn order_insert_error() -> Seq<char> {
    site_error("Diesel"@, "makeorder"@, "diesel_postgres"@, "163"@, "failed to insert makeorder into table"@)
}

/// The row stored for `order` under `uuid`, with `makerorder` as the JSON text
/// of the order data: the amounts in decimal, the signature in full
/// hexadecimal, and the order active.
pub open spec fn is_order_row(row: Orders, order: MakeOrderStorageStruct, uuid: Seq<char>, makerorder: Seq<char>) -> bool {
    &&& row.uuid@ == uuid
    &&& row.signer@ == order.order_data.signer@
    &&& row.collection@ == order.order_data.collection@
    &&& row.price@ == decimal(order.order_data.price.value())
    &&& row.token_id@ == decimal(order.order_data.token_id.value())
    &&& row.amount@ == decimal(order.order_data.amount.value())
    &&& row.end_time@ == decimal(order.order_data.end_time.value())
    &&& row.is_order_ask == order.order_data.is_order_ask
    &&& row.signed_msg@ == full_hex(order.signed_msg@)
    &&& row.makerorder@ == makerorder
    &&& row.active
}

/// The row for a new order under `uuid`. `makerorder` is the JSON text of the
/// order data, or `None` where it could not be produced, which is reported.
pub fn new_order_row(order: &MakeOrderStorageStruct, uuid: String, makerorder: Option<String>) -> (res: Result<Orders, String>)
    ensures
        match makerorder {
            None => res matches Err(e) && e@ == order_json_error(),
            Some(json) => res matches Ok(row) && is_order_row(row, *order, uuid@, json@),
        },
        res matches Ok(row) ==> row.is_order_ask == order.order_data.is_order_ask && row.active && row.uuid@ == uuid@,
{
    match makerorder {
        None => Err(site_error_text("serde", "makeorder", "diesel_postgres", "153", "failed to deserialize given JSON")),
        Some(json) => Ok(Orders {
            uuid,
            signer: order.order_data.signer.clone(),
            collection: order.order_data.collection.clone(),
            price: u256_decimal(&order.order_data.price),
            token_id: u256_decimal(&order.order_data.token_id),
            amount: u256_decimal(&order.order_data.amount),
            end_time: u256_decimal(&order.order_data.end_time),
            is_order_ask: order.order_data.is_order_ask,
            signed_msg: signature_debug_text(&order.signed_msg),
            active: true,
            makerorder: json,
        }),
    }
}

/// The row for a newly submitted order, under a fresh random identifier.
pub fn make_order_row(order: &MakeOrderStorageStruct, makerorder: Option<String>) -> (res: Result<Orders, String>)
    ensures
        match makerorder {
            None => res matches Err(e) && e@ == order_json_error(),
            Some(json) => res matches Ok(row) && is_simple_uuid(row.uuid@) && is_order_row(row, *order, row.uuid@, json@),
        },
        res matches Ok(row) ==> row.is_order_ask == order.order_data.is_order_ask && row.active,
{
    let uuid = fresh_order_uuid();
    new_order_row(order, uuid, makerorder)
}

/// What follows the insertion of a new order: success, or the report.
pub fn make_order_after_insert(inserted: bool) -> (res: Result<(), String>)
    ensures
        inserted ==> res == Ok::<(), String>(()),
        !inserted ==> (res matches Err(e) && e@ == order_insert_error()),
{
    if inserted {
        Ok(())
    } else {
        Err(site_error_text("Diesel", "makeorder", "diesel_postgres", "163", "failed to insert makeorder into table"))
    }
}

/// One listed order: a two-element JSON array of the signature text and the
/// order data.
pub open spec fn listing_entry(row: Orders) -> Seq<char> {
    "["@ + json_string(row.signed_msg@) + ","@ + row.makerorder@ + "]"@
}

/// The listing of stored orders: a JSON array of their entries, in order.
pub open spec fn order_listing_text(rows: Seq<Orders>) -> Seq<char> {
    "["@ + join(rows.map_values(|r: Orders| listing_entry(r)), ","@) + "]"@
}

/// The JSON listing of `rows`, each as the pair (signature text, order data).
pub fn order_listing(rows: &Vec<Orders>) -> (res: String)
    ensures
        res@ == order_listing_text(rows@),
{
    let ghost entries = rows@.map_values(|r: Orders| listing_entry(r));
    let mut res = String::new();
    res.append("[");
    let ghost start = res@;
    let n = rows.len();
    let mut i: usize = 0;
    while i < n
        invariant
            n == rows@.len(),
            i <= n,
            entries == rows@.map_values(|r: Orders| listing_entry(r)),
            res@ == start + join(entries.take(i as int), ","@),
        decreases n - i,
    {
        let ghost before = res@;
        if i > 0 {
            res.append(",");
        }
        let ghost sep_part = res@;
        res.append("[");
        let q = json_quote(rows[i].signed_msg.as_str());
        res.append(q.as_str());
        res.append(",");
        res.append(rows[i].makerorder.as_str());
        res.append("]");
        assert(res@ =~= sep_part + entries[i as int]);
        assert(entries.take(i + 1).drop_last() =~= entries.take(i as int));
        assert(entries.take(i + 1).last() == entries[i as int]);
        proof {
            if i == 0 {
                assert(entries.take(1) =~= seq![entries[0]]);
            }
        }
        i = i + 1;
    }
    assert(entries.take(n as int) =~= entries);
    res.append("]");
    res
}

/// The name under which a per-token view reports its failures.
pub open spec fn view_orders_site(collection_id: Seq<char>, token: Seq<char>) -> Seq<char> {
    "vieworders/"@ + collection_id + "/"@ + token
}

/// The report for a per-token view whose orders could not be fetched.
pub open spec fn view_orders_fetch_error(collection_id: Seq<char>, token: Seq<char>) -> Seq<char> {
    site_error("Diesel"@, view_orders_site(collection_id, token), "diesel_postgres"@, "187"@, "failed to fetch orders from Postgres"@)
}

/// The answer to the view of the active orders for one token of a collection,
/// given the fetched rows or `None` where fetching failed.
pub fn view_orders_response(collection_id: &str, token: &str, fetched: Option<Vec<Orders>>) -> (res: Result<String, String>)
    ensures
        match fetched {
            None => res matches Err(e) && e@ == view_orders_fetch_error(collection_id@, token@),
            Some(rows) => res matches Ok(t) && t@ == order_listing_text(rows@),
        },
{
    match fetched {
        None => {
            let mut site = String::new();
            site.append("vieworders/");
            site.append(collection_id);
            site.append("/");
            site.append(token);
            Err(site_error_text("Diesel", site.as_str(), "diesel_postgres", "187", "failed to fetch orders from Postgres"))
        },
        Some(rows) => Ok(order_listing(&rows)),
    }
}

/// The report for the view of all orders when fetching failed.
pub open spec fn view_all_orders_fetch_error() -> Seq<char> {
    site_error("Diesel"@, "view_all_orders"@, "diesel_postgres"@, "229"@, "failed to fetch orders from Postgres"@)
}

/// The answer to the view of all stored orders, given the fetched rows or
/// `None` where fetching failed.
pub fn view_all_orders_response(fetched: Option<Vec<Orders>>) -> (res: Result<String, String>)
    ensures
        match fetched {
            None => res matches Err(e) && e@ == view_all_orders_fetch_error(),
            Some(rows) => res matches Ok(t) && t@ == order_listing_text(rows@),
        },
{
    match fetched {
        None => Err(site_error_text("Diesel", "view_all_orders", "diesel_postgres", "229", "failed to fetch orders from Postgres")),
        Some(rows) => Ok(order_listing(&rows)),
    }
}

/// Two submitted orders that agree in the signature and in every field that
/// the `orders` table stores.
pub open spec fn same_stored_fields(o1: MakeOrderStorageStruct, o2: MakeOrderStorageStruct) -> bool {
    &&& o1.signed_msg@ == o2.signed_msg@
    &&& o1.order_data.signer@ == o2.order_data.signer@
    &&& o1.order_data.collection@ == o2.order_data.collection@
    &&& o1.order_data.price.value() == o2.order_data.price.value()
    &&& o1.order_data.token_id.value() == o2.order_data.token_id.value()
    &&& o1.order_data.amount.value() == o2.order_data.amount.value()
    &&& o1.order_data.end_time.value() == o2.order_data.end_time.value()
    &&& o1.order_data.is_order_ask == o2.order_data.is_order_ask
}

/// Two rows that agree in every column but the identifier.
pub open spec fn rows_agree_but_uuid(r1: Orders, r2: Orders) -> bool {
    &&& r1.signer@ == r2.signer@
    &&& r1.collection@ == r2.collection@
    &&& r1.price@ == r2.price@
    &&& r1.token_id@ == r2.token_id@
    &&& r1.amount@ == r2.amount@
    &&& r1.end_time@ == r2.end_time@
    &&& r1.is_order_ask == r2.is_order_ask
    &&& r1.signed_msg@ == r2.signed_msg@
    &&& r1.makerorder@ == r2.makerorder@
    &&& r1.active == r2.active
}

/// Insertion into the `orders` table, whose key is the identifier: refused
/// (`None`) when a row with the same identifier is stored already, and
/// otherwise the table with the row added.
pub open spec fn insert_keyed(t: Seq<Orders>, row: Orders) -> Option<Seq<Orders>> {
    if exists|i: int| 0 <= i < t.len() && (#[trigger] t[i]).uuid@ == row.uuid@ {
        None
    } else {
        Some(t.push(row))
    }
}

/// Whether a row of `rows` holds the identifier `uuid`.
fn has_uuid(rows: &Vec<Orders>, uuid: &String) -> (res: bool)
    ensures
        res == exists|i: int| 0 <= i < rows@.len() && (#[trigger] rows@[i]).uuid@ == uuid@,
{
    let n = rows.len();
    let mut i: usize = 0;
    while i < n
        invariant
            n == rows@.len(),
            i <= n,
            forall|k: int| 0 <= k < i ==> (#[trigger] rows@[k]).uuid@ != uuid@,
        decreases n - i,
    {
        if rows[i].uuid == *uuid {
            return true;
        }
        i = i + 1;
    }
    false
}

/// Stores a new order row in the `orders` table held in `rows`, the
/// database's success at the insertion being given: the row is added when the
/// database carries out the insertion and the table's key admits it (no row
/// has its identifier), and otherwise the table is left as it was and the
/// insertion report is the answer.
pub fn store_order(rows: &mut Vec<Orders>, row: Orders, insert_ok: bool) -> (res: Result<(), String>)
    ensures
        match insert_keyed(old(rows)@, row) {
            Some(t) => if insert_ok {
                &&& final(rows)@ == t
                &&& res == Ok::<(), String>(())
            } else {
                &&& final(rows)@ == old(rows)@
                &&& (res matches Err(e) && e@ == order_insert_error())
            },
            None => {
                &&& final(rows)@ == old(rows)@
                &&& (res matches Err(e) && e@ == order_insert_error())
            },
        },
{
    let taken = has_uuid(rows, &row.uuid);
    let inserted = insert_ok && !taken;
    if inserted {
        rows.push(row);
    }
    make_order_after_insert(inserted)
}

/// Submitting the same order twice, with the same JSON text, stores two rows
/// when both insertions succeed: they agree in every column but the
/// identifier, and their identifiers differ.
pub proof fn same_order_stored_twice(
    t: Seq<Orders>,
    o1: MakeOrderStorageStruct,
    o2: MakeOrderStorageStruct,
    json: Seq<char>,
    r1: Orders,
    r2: Orders,
    t1: Seq<Orders>,
    t2: Seq<Orders>,
)
    requires
        same_stored_fields(o1, o2),
        is_order_row(r1, o1, r1.uuid@, json),
        is_order_row(r2, o2, r2.uuid@, json),
        insert_keyed(t, r1) == Some(t1),
        insert_keyed(t1, r2) == Some(t2),
    ensures
        t2 == t.push(r1).push(r2),
        rows_agree_but_uuid(r1, r2),
        r1.uuid@ != r2.uuid@,
{
    assert(t1 == t.push(r1));
    assert(t1[t.len() as int] == r1);
    if r1.uuid@ == r2.uuid@ {
        assert(exists|i: int| 0 <= i < t1.len() && (#[trigger] t1[i]).uuid@ == r2.uuid@);
    }
}

/// The row stored for an order carries each of the order's stored fields
/// unchanged in meaning: its own side (ask or bid), signer and collection,
/// the amounts in decimal, the signature in full hexadecimal, the given
/// identifier and JSON text, and it is active.
pub proof fn order_row_columns(row: Orders, order: MakeOrderStorageStruct, uuid: Seq<char>, makerorder: Seq<char>)
    requires
        is_order_row(row, order, uuid, makerorder),
    ensures
        row.is_order_ask == order.order_data.is_order_ask,
        row.uuid@ == uuid,
        row.makerorder@ == makerorder,
        row.signer@ == order.order_data.signer@,
        row.collection@ == order.order_data.collection@,
        row.price@ == decimal(order.order_data.price.value()),
        row.token_id@ == decimal(order.order_data.token_id.value()),
        row.amount@ == decimal(order.order_data.amount.value()),
        row.end_time@ == decimal(order.order_data.end_time.value()),
        row.signed_msg@ == full_hex(order.signed_msg@),
        row.active,
{
}

/// The listing of no rows is the empty JSON array.
pub proof fn order_listing_of_nothing()
    ensures
        order_listing_text(Seq::<Orders>::empty()) == "[]"@,
{
    reveal_strlit("[");
    reveal_strlit("]");
    reveal_strlit("[]");
    assert(Seq::<Orders>::empty().map_values(|r: Orders| listing_entry(r)) =~= Seq::<Seq<char>>::empty());
    assert(order_listing_text(Seq::<Orders>::empty()) =~= "[]"@);
}

/// Listing one more row appends exactly that row's entry, the two-element
/// array of its quoted signature text and its order data, after the entries
/// of the rows before it: one entry per row, in order.
pub proof fn order_listing_of_pushed(rows: Seq<Orders>, r: Orders)
    ensures
        rows.len() == 0 ==> order_listing_text(rows.push(r))
            == "["@ + ("["@ + json_string(r.signed_msg@) + ","@ + r.makerorder@ + "]"@) + "]"@,
        rows.len() > 0 ==> order_listing_text(rows.push(r))
            == order_listing_text(rows).drop_last() + ","@ + ("["@ + json_string(r.signed_msg@) + ","@ + r.makerorder@ + "]"@) + "]"@,
{
    reveal_strlit("]");
    let es = rows.map_values(|x: Orders| listing_entry(x));
    let es2 = rows.push(r).map_values(|x: Orders| listing_entry(x));
    assert(es2 =~= es.push(listing_entry(r)));
    assert(es2.drop_last() =~= es);
    if rows.len() == 0 {
        assert(join(es2, ","@) == listing_entry(r));
    } else {
        assert(join(es2, ","@) == join(es, ","@) + ","@ + listing_entry(r));
        let t = order_listing_text(rows);
        assert(t.drop_last() =~= "["@ + join(es, ","@));
        assert(order_listing_text(rows.push(r)) =~= t.drop_last() + ","@ + listing_entry(r) + "]"@);
    }
}

} // verus!
