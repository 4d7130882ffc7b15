use async_http2::query::encode_query;

fn pairs(entries: &[(&str, &str)]) -> Vec<(String, String)> {
    entries.iter().map(|(k, v)| (k.to_string(), v.to_string())).collect()
}

#[test]
fn empty_query_serializes_to_nothing() {
    assert_eq!(encode_query(&pairs(&[])), "");
}

#[test]
fn single_plain_pair() {
    assert_eq!(encode_query(&pairs(&[("a", "1")])), "a=1");
}

#[test]
fn space_becomes_plus() {
    assert_eq!(encode_query(&pairs(&[("a", "1"), ("b", "2 x")])), "a=1&b=2+x");
}

#[test]
fn both_pairs_present_in_either_order() {
    let forward = encode_query(&pairs(&[("a", "1"), ("b", "2 x")]));
    let backward = encode_query(&pairs(&[("b", "2 x"), ("a", "1")]));
    for q in [&forward, &backward] {
        assert!(q.contains("a=1"));
        assert!(q.contains("b=2+x"));
    }
    assert_eq!(backward, "b=2+x&a=1");
}

#[test]
fn reserved_bytes_are_percent_encoded_uppercase() {
    assert_eq!(encode_query(&pairs(&[("k", "a/b&c=d")])), "k=a%2Fb%26c%3Dd");
}

#[test]
fn unreserved_marks_pass_unchanged() {
    assert_eq!(encode_query(&pairs(&[("k", "*-._AZaz09")])), "k=*-._AZaz09");
    assert_eq!(encode_query(&pairs(&[("k", "~")])), "k=%7E");
}

#[test]
fn multibyte_characters_encode_their_utf8_bytes() {
    assert_eq!(encode_query(&pairs(&[("k", "\u{e9}")])), "k=%C3%A9");
    assert_eq!(encode_query(&pairs(&[("k", "\u{1f600}")])), "k=%F0%9F%98%80");
}

#[test]
fn control_bytes_get_a_leading_zero_digit() {
    assert_eq!(encode_query(&pairs(&[("k", "\n")])), "k=%0A");
}

#[test]
fn keys_are_encoded_like_values() {
    assert_eq!(encode_query(&pairs(&[("a key", "v")])), "a+key=v");
}
