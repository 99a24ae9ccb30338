use medici_orders::signing::eth_message;
use medici_orders::text::append_decimal;

fn reference_digest(message: &str) -> [u8; 32] {
    web3::signing::keccak256(
        format!("{}{}{}", "\x19Ethereum Signed Message:\n", message.len(), message).as_bytes(),
    )
}

#[test]
fn eth_message_hello_world() {
    let digest = eth_message("hello world".to_string());
    assert_eq!(
        hex::encode(digest),
        "d9eba16ed0ecae432b71fe008c98cc872bb4cc214d3220a36f365326cf807d68"
    );
}

#[test]
fn eth_message_counts_utf8_bytes() {
    let message = "h\u{e9}llo \u{1f600}";
    assert_eq!(eth_message(message.to_string()), reference_digest(message));
}

#[test]
fn eth_message_empty_and_long() {
    assert_eq!(eth_message(String::new()), reference_digest(""));
    let long = "x".repeat(1234);
    assert_eq!(eth_message(long.clone()), reference_digest(&long));
}

#[test]
fn decimal_rendering() {
    for n in [0usize, 7, 10, 99, 100, 12345, usize::MAX] {
        let mut s = String::from("n=");
        append_decimal(&mut s, n);
        assert_eq!(s, format!("n={}", n));
    }
}
