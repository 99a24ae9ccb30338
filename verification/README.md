# medici_orders

The logic of a small NFT order-book backend, verified with Verus.

- `src/` is the library: error reports (`error_logging`), Ethereum
  personal-message digests and signature handling (`signing`, `auth`),
  order rows and listings (`orders`), the SQL statements of the order table
  (`db`), the indexer requests and route layout (`graphql`), and the
  selection of Lyra-minted collections (`lyra`).
- `app/` is the HTTP service built on Rocket, Diesel, Postgres and reqwest;
  it performs the I/O and hands plain values to the library.
- `tests/` exercises the library on concrete values.
