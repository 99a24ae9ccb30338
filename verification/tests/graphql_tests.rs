use medici_orders::graphql::{
    collection_query, post_request_result, rocket, stage_layout, BuildStep, Fairing, Method, PostOutcome,
};
use medici_orders::error_logging::throw_json_error;
use medici_orders::secrets::{COLLECTIONS_QUERY, INDEXER_URL, ORDER_TABLE_NAME};

#[test]
fn collection_query_text() {
    let name = "0xabc";
    let expected = format!("{{\n\"query\": \"{{tokenContract(id: \\\"{}\\\") {{id name numTokens numOwners tokens(orderBy:mintTime,orderDirection: asc){{ id tokenURI tokenID mintTime owner {{ id }}}}}}}}\"}}", name);
    assert_eq!(collection_query(name), expected);
}

#[test]
fn post_outcomes() {
    assert_eq!(post_request_result(vec!["collections"], PostOutcome::Body("{}".to_string())), Ok("{}".to_string()));
    let e = post_request_result(vec!["collection"], PostOutcome::SendFailed).unwrap_err();
    assert_eq!(e, throw_json_error("reqwest", &vec!["collection", "make_post_reqwest"], "main", "28", "failed to send POST request to graphql indexer"));
    let e = post_request_result(vec!["lyracollections"], PostOutcome::ReadFailed).unwrap_err();
    assert_eq!(e, throw_json_error("reqwest", &vec!["lyracollections", "make_post_reqwest"], "main", "42", "failed to extract text from graphql indexer response"));
}

fn describe(steps: Vec<BuildStep>) -> Vec<String> {
    steps
        .into_iter()
        .map(|s| match s {
            BuildStep::Attach(f) => format!("attach {:?}", f),
            BuildStep::Mount(r) => format!("mount {:?} {}", r.method, r.path),
        })
        .collect()
}

#[test]
fn layout_of_service() {
    let l = rocket();
    assert_eq!(l.base, "/");
    assert_eq!(
        describe(l.steps),
        vec![
            "attach Cors",
            "mount Get /collections",
            "mount Get /collection/<name>",
            "mount Get /lyracollections",
            "mount Get /health-check",
            "attach DieselPostgresStage",
        ]
    );
    let s = stage_layout();
    assert_eq!(s.base, "/");
    assert_eq!(describe(s.steps), vec!["attach OrdersDbPool", "attach DieselMigrations", "mount Post /makeorder"]);
    let _ = (Method::Get, Fairing::Cors);
}

#[test]
fn settings() {
    assert_eq!(ORDER_TABLE_NAME, "orders");
    assert!(INDEXER_URL.starts_with("http://localhost:8000/"));
    let v: serde_json::Value = serde_json::from_str(COLLECTIONS_QUERY).unwrap();
    assert!(v["query"].as_str().unwrap().contains("tokenContracts(orderBy: numOwners"));
}
