//! Fixed settings of the service: the indexer it queries and the table it uses.
use vstd::prelude::*;

verus! {

/// The GraphQL endpoint of the NFT indexer.
pub const INDEXER_URL: &'static str = "http://localhost:8000/subgraphs/name/wighawag/eip721-subgraph";

/// The table that holds the orders.
pub const ORDER_TABLE_NAME: &'static str = "orders";

/// The request body that asks the indexer for the hundred token contracts
/// with the most owners.
pub const COLLECTIONS_QUERY: &'static str = r#"{
	"query": "{tokenContracts(orderBy: numOwners, orderDirection: desc, first: 100) {id\n name\n numTokens\n numOwners\n supportsEIP721Metadata\n }\n }"
}"#;

} // verus!
