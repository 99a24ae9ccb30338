//! The statements of the order table kept in Postgres: its creation, the
//! insertion of an order with its parameters, and the order queries.
use vstd::prelude::*;
use crate::ds::{short_hex, signature_text, u256_decimal, MakeOrderStorageStruct};
use crate::orders::{fresh_order_uuid, is_simple_uuid};
use crate::secrets::ORDER_TABLE_NAME;
use crate::text::{decimal, join, str_views};

verus! {

/// The statement that creates the order table where it does not exist yet.
pub open spec fn create_order_table_text() -> Seq<char> {
    CREATE_HEAD@ + ORDER_TABLE_NAME@ + CREATE_TAIL@
}

pub const CREATE_HEAD: &'static str = "CREATE TABLE IF NOT EXISTS ";
pub const CREATE_TAIL: &'static str = " (
            uuid TEXT PRIMARY KEY,
            signer TEXT NOT NULL,
            collection TEXT NOT NULL,
            price TEXT NOT NULL,
            token_id TEXT NOT NULL,
            end_time TEXT NOT NULL,
            is_order_ask TEXT NOT NULL,
            signed_msg TEXT NOT NULL
            makerorder JSON NOT NULL,
        )";

/// The statement that creates the order table where it does not exist yet.
pub fn create_order_table_statement() -> (res: String)
    ensures
        res@ == create_order_table_text(),
{
    let mut res = String::new();
    res.append(CREATE_HEAD);
    res.append(ORDER_TABLE_NAME);
    res.append(CREATE_TAIL);
    res
}

pub const INSERT_HEAD: &'static str = "INSERT INTO ";
pub const INSERT_MIDDLE: &'static str = " (";
pub const INSERT_TAIL: &'static str = ")
        VALUES ($1, $2, $3, $4, $5, $6, $7, $8, $9)";

/// The insertion statement for the listed columns, joined by commas, with
/// nine numbered parameters.
pub open spec fn insert_order_text(fields: Seq<Seq<char>>) -> Seq<char> {
    INSERT_HEAD@ + ORDER_TABLE_NAME@ + INSERT_MIDDLE@ + join(fields, ","@) + INSERT_TAIL@
}

/// The columns `fields` joined by commas.
pub fn join_fields(fields: &Vec<&str>) -> (res: String)
    ensures
        res@ == join(str_views(fields@), ","@),
{
    let ghost names = str_views(fields@);
    let mut res = String::new();
    let n = fields.len();
    let mut i: usize = 0;
    while i < n
        invariant
            n == fields@.len(),
            i <= n,
            names == str_views(fields@),
            res@ == join(names.take(i as int), ","@),
        decreases n - i,
    {
        assert(names[i as int] == fields@[i as int]@);
        if i > 0 {
            res.append(",");
        }
        res.append(fields[i]);
        assert(names.take(i + 1).drop_last() =~= names.take(i as int));
        assert(names.take(i + 1).last() == names[i as int]);
        proof {
            if i == 0 {
                assert(names.take(1) =~= seq![names[0]]);
                assert(res@ =~= names[0]);
            }
        }
        i = i + 1;
    }
    assert(names.take(n as int) =~= names);
    res
}

/// The insertion statement for an order into the columns `fields`.
pub fn insert_order_statement(fields: &Vec<&str>) -> (res: String)
    ensures
        res@ == insert_order_text(str_views(fields@)),
{
    let joined = join_fields(fields);
    let mut res = String::new();
    res.append(INSERT_HEAD);
    res.append(ORDER_TABLE_NAME);
    res.append(INSERT_MIDDLE);
    res.append(joined.as_str());
    res.append(INSERT_TAIL);
    res
}

/// The nine parameters of the insertion statement, in the order of its
/// numbered placeholders.
#[derive(Debug)]
pub struct OrderInsertParams {
    pub uuid: String,
    pub signer: String,
    pub collection: String,
    pub price: String,
    pub token_id: String,
    pub end_time: String,
    pub is_order_ask: bool,
    pub signed_msg: String,
    pub makerorder: String,
}

/// The parameters for inserting `order` under `uuid`, with `makerorder` the
/// JSON text of the order data: the amounts in decimal and the signature in
/// its short displayed form.
pub open spec fn is_insert_params(p: OrderInsertParams, order: MakeOrderStorageStruct, uuid: Seq<char>, makerorder: Seq<char>) -> bool {
    &&& p.uuid@ == uuid
    &&& p.signer@ == order.order_data.signer@
    &&& p.collection@ == order.order_data.collection@
    &&& p.price@ == decimal(order.order_data.price.value())
    &&& p.token_id@ == decimal(order.order_data.token_id.value())
    &&& p.end_time@ == decimal(order.order_data.end_time.value())
    &&& p.is_order_ask == order.order_data.is_order_ask
    &&& p.signed_msg@ == short_hex(order.signed_msg@)
    &&& p.makerorder@ == makerorder
}

/// The parameters for inserting `order` under `uuid`.
pub fn insert_order_params(order: &MakeOrderStorageStruct, uuid: String, makerorder: String) -> (res: OrderInsertParams)
    ensures
        is_insert_params(res, *order, uuid@, makerorder@),
        res.is_order_ask == order.order_data.is_order_ask,
        res.uuid@ == uuid@,
{
    OrderInsertParams {
        uuid,
        signer: order.order_data.signer.clone(),
        collection: order.order_data.collection.clone(),
        price: u256_decimal(&order.order_data.price),
        token_id: u256_decimal(&order.order_data.token_id),
        end_time: u256_decimal(&order.order_data.end_time),
        is_order_ask: order.order_data.is_order_ask,
        signed_msg: signature_text(&order.signed_msg),
        makerorder,
    }
}

/// The statement and parameters that store `order` in the columns `fields`
/// under a fresh random identifier.
pub fn collection_insert(fields: &Vec<&str>, order: &MakeOrderStorageStruct, makerorder: String) -> (res: (String, OrderInsertParams))
    ensures
        res.0@ == insert_order_text(str_views(fields@)),
        is_simple_uuid(res.1.uuid@),
        is_insert_params(res.1, *order, res.1.uuid@, makerorder@),
        res.1.is_order_ask == order.order_data.is_order_ask,
{
    let statement = insert_order_statement(fields);
    let uuid = fresh_order_uuid();
    (statement, insert_order_params(order, uuid, makerorder))
}

pub const FETCH_HEAD: &'static str = "
        SELECT
            signer,
            colletion,
            price,
            token_id,
            end_time,
            is_order_ask,
            signed_msg,
            makeorder_struct
        FROM
            ";
pub const FETCH_MIDDLE: &'static str = "
        WHERE
            collection=\"";
pub const FETCH_TOKEN: &'static str = "\" AND
            token_id=\"";
pub const FETCH_TAIL: &'static str = "\";
        ";

/// The query for the orders of one token of a collection; the two values are
/// written into the statement as they are.
pub open spec fn fetch_orders_text(collection: Seq<char>, token: Seq<char>) -> Seq<char> {
    FETCH_HEAD@ + ORDER_TABLE_NAME@ + FETCH_MIDDLE@ + collection + FETCH_TOKEN@ + token + FETCH_TAIL@
}

/// The query for the orders of one token of a collection.
pub fn fetch_orders_statement(collection: &str, token: &str) -> (res: String)
    ensures
        res@ == fetch_orders_text(collection@, token@),
{
    let mut res = String::new();
    res.append(FETCH_HEAD);
    res.append(ORDER_TABLE_NAME);
    res.append(FETCH_MIDDLE);
    res.append(collection);
    res.append(FETCH_TOKEN);
    res.append(token);
    res.append(FETCH_TAIL);
    res
}

pub const FETCH_ALL_HEAD: &'static str = "
        SELECT row_to_json(t)
        FROM (
            SELECT
                signer,
                colletion,
                price,
                token_id,
                end_time,
                is_order_ask,
                signed_msg,
                makeorder_struct
            FROM
                ";
pub const FETCH_ALL_TAIL: &'static str = "
        ) t
        ";

/// The query for every stored order, each row as one JSON value.
pub open spec fn fetch_all_orders_text() -> Seq<char> {
    FETCH_ALL_HEAD@ + ORDER_TABLE_NAME@ + FETCH_ALL_TAIL@
}

/// The query for every stored order.
pub fn fetch_all_orders_statement() -> (res: String)
    ensures
        res@ == fetch_all_orders_text(),
{
    let mut res = String::new();
    res.append(FETCH_ALL_HEAD);
    res.append(ORDER_TABLE_NAME);
    res.append(FETCH_ALL_TAIL);
    res
}

/// The parameters of an order's insertion carry the order's own side (ask or
/// bid), signer and collection, the amounts in decimal, the signature in its
/// short displayed form, and the given identifier and JSON text.
pub proof fn insert_params_columns(p: OrderInsertParams, order: MakeOrderStorageStruct, uuid: Seq<char>, makerorder: Seq<char>)
    requires
        is_insert_params(p, order, uuid, makerorder),
    ensures
        p.is_order_ask == order.order_data.is_order_ask,
        p.uuid@ == uuid,
        p.makerorder@ == makerorder,
        p.signer@ == order.order_data.signer@,
        p.collection@ == order.order_data.collection@,
        p.price@ == decimal(order.order_data.price.value()),
        p.token_id@ == decimal(order.order_data.token_id.value()),
        p.end_time@ == decimal(order.order_data.end_time.value()),
        p.signed_msg@ == short_hex(order.signed_msg@),
{
}

} // verus!
