//! Order book service for NFT collections: signed maker orders, user
//! registration by Ethereum personal signatures, relays to an NFT indexer,
//! and the selection of Lyra-minted collections. The modules hold the
//! decisions and the texts the service produces; the I/O is left to callers.
pub mod text;
pub mod error_logging;
pub mod signing;
pub mod ds;
pub mod auth;
pub mod orders;
pub mod secrets;
pub mod db;
pub mod graphql;
pub mod lyra;
