use echo_bank::keys::derive_subscription_key;

fn key(
    subgraph: &[u8],
    directive: &[u8],
    parent_type: &[u8],
    field: &[u8],
    arguments: &[u8],
) -> Vec<u8> {
    derive_subscription_key(subgraph, directive, parent_type, field, arguments)
        .expect("a key is always derived")
}

#[test]
fn key_layout_is_length_prefixed() {
    let k = key(b"a", b"bc", b"", b"d", &[7, 8]);
    let mut expected: Vec<u8> = Vec::new();
    expected.extend([0, 0, 0, 0, 0, 0, 0, 1]);
    expected.extend(b"a");
    expected.extend([0, 0, 0, 0, 0, 0, 0, 2]);
    expected.extend(b"bc");
    expected.extend([0, 0, 0, 0, 0, 0, 0, 0]);
    expected.extend([0, 0, 0, 0, 0, 0, 0, 1]);
    expected.extend(b"d");
    expected.extend([0, 0, 0, 0, 0, 0, 0, 2]);
    expected.extend([7, 8]);
    assert_eq!(k, expected);
}

#[test]
fn key_is_deterministic() {
    let a = key(b"products", b"randomBankEvents", b"Subscription", b"bankEvents", b"{}");
    let b = key(b"products", b"randomBankEvents", b"Subscription", b"bankEvents", b"{}");
    assert_eq!(a, b);
}

#[test]
fn key_changes_with_subgraph_name() {
    let a = key(b"products", b"dir", b"Subscription", b"bankEvents", b"{}");
    let b = key(b"accounts", b"dir", b"Subscription", b"bankEvents", b"{}");
    assert_ne!(a, b);
}

#[test]
fn key_changes_with_field_name() {
    let a = key(b"products", b"dir", b"Subscription", b"bankEvents", b"{}");
    let b = key(b"products", b"dir", b"Subscription", b"otherField", b"{}");
    assert_ne!(a, b);
}

#[test]
fn key_changes_with_argument_bytes() {
    let a = key(b"products", b"dir", b"Subscription", b"bankEvents", b"{\"minimumAmount\":1000}");
    let b = key(b"products", b"dir", b"Subscription", b"bankEvents", b"{\"minimumAmount\":1001}");
    assert_ne!(a, b);
}

#[test]
fn key_does_not_alias_across_component_boundaries() {
    // Without length prefixes these two would concatenate to the same bytes.
    let a = key(b"ab", b"c", b"", b"", b"");
    let b = key(b"a", b"bc", b"", b"", b"");
    assert_ne!(a, b);
}
