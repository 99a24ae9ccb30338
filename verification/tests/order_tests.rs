use medici_orders::ds::{MakeOrderContractDataStruct, MakeOrderStorageStruct, Orders, U256Value};
use medici_orders::error_logging::{site_error_text, throw_json_error};
use medici_orders::orders::{
    make_order_after_insert, make_order_row, new_order_row, order_listing, store_order,
    view_all_orders_response, view_orders_response,
};

fn order() -> MakeOrderStorageStruct {
    let mut sig = [0u8; 65];
    for (i, b) in sig.iter_mut().enumerate() {
        *b = i as u8;
    }
    MakeOrderStorageStruct {
        signed_msg: sig,
        order_data: MakeOrderContractDataStruct {
            is_order_ask: true,
            signer: "0xsigner".to_string(),
            collection: "0xcollection".to_string(),
            price: U256Value::from_u64(1000),
            token_id: U256Value::from_u64(0),
            amount: U256Value { limbs: [0, 1, 0, 0] },
            strategy: "s".to_string(),
            currency: "c".to_string(),
            nonce: U256Value::from_u64(1),
            start_time: U256Value::from_u64(2),
            end_time: U256Value { limbs: [u64::MAX, u64::MAX, u64::MAX, u64::MAX] },
            min_percentage_to_ask: U256Value::from_u64(9000),
            params: String::new(),
        },
    }
}

#[test]
fn new_order_row_fields() {
    let o = order();
    let row = new_order_row(&o, "u".to_string(), Some("{\"a\":1}".to_string())).unwrap();
    assert_eq!(row.uuid, "u");
    assert_eq!(row.signer, "0xsigner");
    assert_eq!(row.collection, "0xcollection");
    assert_eq!(row.price, "1000");
    assert_eq!(row.token_id, "0");
    assert_eq!(row.amount, "18446744073709551616");
    assert_eq!(
        row.end_time,
        "115792089237316195423570985008687907853269984665640564039457584007913129639935"
    );
    assert!(row.is_order_ask);
    assert!(row.active);
    assert_eq!(row.makerorder, "{\"a\":1}");
    let expected_sig = format!("{:#?}", ethereum_types::H520(o.signed_msg));
    assert_eq!(row.signed_msg, expected_sig);
    assert_eq!(row.signed_msg.len(), 2 + 130);
    assert!(row.signed_msg.starts_with("0x000102"));
}

#[test]
fn new_order_row_without_json() {
    let e = new_order_row(&order(), "u".to_string(), None).err().unwrap();
    assert_eq!(e, site_error_text("serde", "makeorder", "diesel_postgres", "153", "failed to deserialize given JSON"));
}

#[test]
fn make_order_row_uses_fresh_simple_uuid() {
    let a = make_order_row(&order(), Some("{}".to_string())).unwrap();
    let b = make_order_row(&order(), Some("{}".to_string())).unwrap();
    assert_eq!(a.uuid.len(), 32);
    assert!(a.uuid.chars().all(|c| c.is_ascii_digit() || ('a'..='f').contains(&c)));
    assert_ne!(a.uuid, b.uuid);
}

#[test]
fn make_order_insert_outcomes() {
    assert_eq!(make_order_after_insert(true), Ok(()));
    assert_eq!(
        make_order_after_insert(false).unwrap_err(),
        site_error_text("Diesel", "makeorder", "diesel_postgres", "163", "failed to insert makeorder into table")
    );
}

fn row(sig: &str, json: &str) -> Orders {
    Orders {
        uuid: "u".to_string(),
        signer: "s".to_string(),
        collection: "c".to_string(),
        price: "1".to_string(),
        token_id: "2".to_string(),
        amount: "3".to_string(),
        end_time: "4".to_string(),
        is_order_ask: false,
        signed_msg: sig.to_string(),
        makerorder: json.to_string(),
        active: true,
    }
}

#[test]
fn listing_of_rows() {
    assert_eq!(order_listing(&vec![]), "[]");
    let rows = vec![row("0xab", "{\"price\":\"1\"}"), row("q\"t", "[1,2]")];
    let text = order_listing(&rows);
    assert_eq!(text, "[[\"0xab\",{\"price\":\"1\"}],[\"q\\\"t\",[1,2]]]");
    let pairs: Vec<(String, serde_json::Value)> = vec![
        ("0xab".to_string(), serde_json::from_str("{\"price\":\"1\"}").unwrap()),
        ("q\"t".to_string(), serde_json::from_str("[1,2]").unwrap()),
    ];
    assert_eq!(text, serde_json::to_string(&pairs).unwrap());
}

#[test]
fn view_responses() {
    let e = view_orders_response("0xc", "7", None).unwrap_err();
    assert_eq!(e, throw_json_error("Diesel", &vec!["vieworders/0xc/7"], "diesel_postgres", "187", "failed to fetch orders from Postgres"));
    let ok = view_orders_response("0xc", "7", Some(vec![row("a", "{}")])).unwrap();
    assert_eq!(ok, "[[\"a\",{}]]");
    let e = view_all_orders_response(None).unwrap_err();
    assert_eq!(e, site_error_text("Diesel", "view_all_orders", "diesel_postgres", "229", "failed to fetch orders from Postgres"));
    assert_eq!(view_all_orders_response(Some(vec![])).unwrap(), "[]");
}

#[test]
fn same_order_twice_gives_rows_differing_in_uuid_only() {
    let a = make_order_row(&order(), Some("{\"p\":1}".to_string())).unwrap();
    let b = make_order_row(&order(), Some("{\"p\":1}".to_string())).unwrap();
    assert_ne!(a.uuid, b.uuid);
    assert_eq!(
        (&a.signer, &a.collection, &a.price, &a.token_id, &a.amount, &a.end_time, a.is_order_ask, &a.signed_msg, &a.makerorder, a.active),
        (&b.signer, &b.collection, &b.price, &b.token_id, &b.amount, &b.end_time, b.is_order_ask, &b.signed_msg, &b.makerorder, b.active)
    );
}

#[test]
fn storing_orders_in_a_keyed_table() {
    let report = site_error_text("Diesel", "makeorder", "diesel_postgres", "163", "failed to insert makeorder into table");
    let mut table = vec![];
    let a = make_order_row(&order(), Some("{}".to_string())).unwrap();
    let b = make_order_row(&order(), Some("{}".to_string())).unwrap();
    let (ua, ub) = (a.uuid.clone(), b.uuid.clone());
    assert_eq!(store_order(&mut table, a, true), Ok(()));
    assert_eq!(store_order(&mut table, b, true), Ok(()));
    assert_eq!(table.len(), 2);
    assert_eq!((table[0].uuid.as_str(), table[1].uuid.as_str()), (ua.as_str(), ub.as_str()));
    // A row whose identifier is stored already is refused by the key.
    let dup = new_order_row(&order(), ua.clone(), Some("{}".to_string())).unwrap();
    assert_eq!(store_order(&mut table, dup, true), Err(report.clone()));
    // A failed insertion leaves the table as it was.
    let c = make_order_row(&order(), Some("{}".to_string())).unwrap();
    assert_eq!(store_order(&mut table, c, false), Err(report));
    assert_eq!(table.len(), 2);
}
