use ckb_graphql::encoding::{
    quote, read_byte32, read_hash, read_index, read_number, render_decimal, same_hash,
};

fn enc_hash_text() -> String {
    String::from("0x365698b50ca0da75dca2c87f9e7b563811d3b5813736b8cc62cc3b106faceb17")
}

fn enc_hash_bytes() -> [u8; 32] {
    [
        0x36, 0x56, 0x98, 0xb5, 0x0c, 0xa0, 0xda, 0x75, 0xdc, 0xa2, 0xc8, 0x7f, 0x9e, 0x7b, 0x56,
        0x38, 0x11, 0xd3, 0xb5, 0x81, 0x37, 0x36, 0xb8, 0xcc, 0x62, 0xcc, 0x3b, 0x10, 0x6f, 0xac,
        0xeb, 0x17,
    ]
}

#[test]
fn hash_text_is_read_as_its_bytes() {
    assert_eq!(read_hash(&enc_hash_text()), Ok(enc_hash_bytes()));
    assert_eq!(read_byte32(&enc_hash_text()), Ok(enc_hash_bytes()));
}

#[test]
fn hash_text_may_use_upper_case_digits() {
    let text = "0x365698B50CA0DA75DCA2C87F9E7B563811D3B5813736B8CC62CC3B106FACEB17";
    assert_eq!(read_hash(text), Ok(enc_hash_bytes()));
    assert_eq!(read_byte32(text), Ok(enc_hash_bytes()));
}

#[test]
fn hash_text_needs_its_prefix() {
    let text = "365698b50ca0da75dca2c87f9e7b563811d3b5813736b8cc62cc3b106faceb17";
    assert!(read_hash(text).is_err());
    assert!(read_byte32(text).is_err());
    let padded = "00365698b50ca0da75dca2c87f9e7b563811d3b5813736b8cc62cc3b106faceb17";
    assert!(read_hash(padded).is_err());
    assert!(read_byte32(padded).is_err());
    let upper = "0X365698b50ca0da75dca2c87f9e7b563811d3b5813736b8cc62cc3b106faceb17";
    assert!(read_hash(upper).is_err());
    assert!(read_byte32(upper).is_err());
}

#[test]
fn hash_text_needs_sixty_four_digits() {
    let short = "0x365698b50ca0da75dca2c87f9e7b563811d3b5813736b8cc62cc3b106faceb";
    assert!(read_hash(short).is_err());
    assert!(read_byte32(short).is_err());
    let long = "0x365698b50ca0da75dca2c87f9e7b563811d3b5813736b8cc62cc3b106faceb1700";
    assert!(read_hash(long).is_err());
    assert!(read_byte32(long).is_err());
    assert!(read_hash("").is_err());
    assert!(read_byte32("").is_err());
    assert!(read_hash("0x").is_err());
    assert!(read_byte32("0x").is_err());
}

#[test]
fn hash_text_needs_hexadecimal_digits() {
    let text = "0x365698b50ca0da75dca2c87f9e7b563811d3b5813736b8cc62cc3b106facebxy";
    assert!(read_hash(text).is_err());
    assert!(read_byte32(text).is_err());
    let wide = "0x365698b50ca0da75dca2c87f9e7b563811d3b5813736b8cc62cc3b106faceb\u{e9}";
    assert_eq!(wide.len(), 66);
    assert!(read_hash(wide).is_err());
    assert!(read_byte32(wide).is_err());
}

#[test]
fn rejected_hash_text_carries_a_message() {
    let message = read_hash("0x12").unwrap_err();
    assert!(!message.is_empty());
    let message = read_byte32("0x12").unwrap_err();
    assert!(!message.is_empty());
}

#[test]
fn number_text_is_prefixed_hexadecimal() {
    assert_eq!(read_number("0x0"), Ok(0));
    assert_eq!(read_number("0x10"), Ok(16));
    assert_eq!(read_number("0xffffffffffffffff"), Ok(u64::MAX));
    assert_eq!(read_index("0x0"), Ok(0));
    assert_eq!(read_index("0x1a"), Ok(26));
    assert_eq!(read_index("0xffffffff"), Ok(u32::MAX));
}

#[test]
fn number_text_without_prefix_is_rejected() {
    assert!(read_number("10").is_err());
    assert!(read_index("10").is_err());
    assert!(read_number("").is_err());
    assert!(read_index("").is_err());
    assert!(read_number("0x").is_err());
    assert!(read_index("0x").is_err());
}

#[test]
fn number_text_with_leading_zero_is_rejected() {
    assert!(read_number("0x01").is_err());
    assert!(read_index("0x01").is_err());
}

#[test]
fn number_text_beyond_its_width_is_rejected() {
    assert!(read_number("0x10000000000000000").is_err());
    assert!(read_index("0x100000000").is_err());
}

#[test]
fn number_text_is_read_as_a_json_string() {
    assert!(read_number("0x1\"").is_err());
    assert!(read_index("0x1\"").is_err());
    assert_eq!(read_number("0\\u00781f"), Ok(31));
    assert_eq!(read_index("0\\u00781f"), Ok(31));
}

#[test]
fn quote_wraps_in_double_quotes() {
    assert_eq!(quote("0x1"), "\"0x1\"");
    assert_eq!(quote(""), "\"\"");
}

#[test]
fn decimal_rendering() {
    assert_eq!(render_decimal(0), "0");
    assert_eq!(render_decimal(7), "7");
    assert_eq!(render_decimal(10), "10");
    assert_eq!(render_decimal(1203), "1203");
    assert_eq!(render_decimal(u32::MAX), "4294967295");
}

#[test]
fn same_hash_compares_every_byte() {
    let a = enc_hash_bytes();
    let mut b = enc_hash_bytes();
    assert!(same_hash(&a, &b));
    b[31] ^= 1;
    assert!(!same_hash(&a, &b));
    b[31] ^= 1;
    b[0] ^= 0x80;
    assert!(!same_hash(&a, &b));
}
