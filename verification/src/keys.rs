//! Derivation of the subscription identity key.
//!
//! The host deduplicates equivalent subscriptions by an opaque byte key.
//! The key is derived from the subscription request's components: subgraph
//! name, directive name, parent type name, field name, and the raw directive
//! argument bytes. Each component is prefixed with its length as eight
//! big-endian bytes, so the concatenation can be split unambiguously and two
//! distinct requests can never alias to the same key.

use vstd::prelude::*;
use crate::bytes::push_bytes;

verus! {

/// The eight big-endian bytes of a 64-bit length.
pub open spec fn be64_bytes(n: u64) -> Seq<u8> {
    seq![
        (n >> 56) as u8,
        (n >> 48) as u8,
        (n >> 40) as u8,
        (n >> 32) as u8,
        (n >> 24) as u8,
        (n >> 16) as u8,
        (n >> 8) as u8,
        n as u8,
    ]
}

/// A component of the key: its length as eight big-endian bytes, then its bytes.
pub open spec fn length_prefixed(component: Seq<u8>) -> Seq<u8> {
    be64_bytes(component.len() as u64) + component
}

/// The subscription identity key: the five request components, each
/// length-prefixed, concatenated in a fixed order.
pub open spec fn subscription_key_of(
    subgraph: Seq<u8>,
    directive: Seq<u8>,
    parent_type: Seq<u8>,
    field: Seq<u8>,
    arguments: Seq<u8>,
) -> Seq<u8> {
    length_prefixed(subgraph) + length_prefixed(directive) + length_prefixed(parent_type)
        + length_prefixed(field) + length_prefixed(arguments)
}

fn push_be64(out: &mut Vec<u8>, n: u64)
    ensures
        final(out)@ == old(out)@ + be64_bytes(n),
{
    out.push((n >> 56) as u8);
    out.push((n >> 48) as u8);
    out.push((n >> 40) as u8);
    out.push((n >> 32) as u8);
    out.push((n >> 24) as u8);
    out.push((n >> 16) as u8);
    out.push((n >> 8) as u8);
    out.push(n as u8);
    proof {
        assert(out@ =~= old(out)@ + be64_bytes(n));
    }
}

fn push_length_prefixed(out: &mut Vec<u8>, component: &[u8])
    ensures
        final(out)@ == old(out)@ + length_prefixed(component@),
{
    push_be64(out, component.len() as u64);
    push_bytes(out, component);
    proof {
        assert(out@ =~= old(out)@ + length_prefixed(component@));
    }
}

/// Derives the identity key for a subscription request.
///
/// `Some` is returned for every input: the host uses `None` to opt out of
/// deduplication, and this extension never does, but the choice stays
/// expressible in the signature.
pub fn derive_subscription_key(
    subgraph_name: &[u8],
    directive_name: &[u8],
    parent_type_name: &[u8],
    field_name: &[u8],
    arguments: &[u8],
) -> (key: Option<Vec<u8>>)
    ensures
        key matches Some(k) && k@ == subscription_key_of(
            subgraph_name@,
            directive_name@,
            parent_type_name@,
            field_name@,
            arguments@,
        ),
{
    let mut id: Vec<u8> = Vec::new();
    push_length_prefixed(&mut id, subgraph_name);
    push_length_prefixed(&mut id, directive_name);
    push_length_prefixed(&mut id, parent_type_name);
    push_length_prefixed(&mut id, field_name);
    push_length_prefixed(&mut id, arguments);
    Some(id)
}

proof fn lemma_be64_injective(x: u64, y: u64)
    requires
        be64_bytes(x) == be64_bytes(y),
    ensures
        x == y,
{
    assert(be64_bytes(x)[0] == be64_bytes(y)[0]);
    assert(be64_bytes(x)[1] == be64_bytes(y)[1]);
    assert(be64_bytes(x)[2] == be64_bytes(y)[2]);
    assert(be64_bytes(x)[3] == be64_bytes(y)[3]);
    assert(be64_bytes(x)[4] == be64_bytes(y)[4]);
    assert(be64_bytes(x)[5] == be64_bytes(y)[5]);
    assert(be64_bytes(x)[6] == be64_bytes(y)[6]);
    assert(be64_bytes(x)[7] == be64_bytes(y)[7]);
    assert((x >> 56) as u8 == (y >> 56) as u8 && (x >> 48) as u8 == (y >> 48) as u8 && (x >> 40)
        as u8 == (y >> 40) as u8 && (x >> 32) as u8 == (y >> 32) as u8 && (x >> 24) as u8 == (y
        >> 24) as u8 && (x >> 16) as u8 == (y >> 16) as u8 && (x >> 8) as u8 == (y >> 8) as u8 && x
        as u8 == y as u8 ==> x == y) by (bit_vector);
}

/// A length-prefixed component can be split off unambiguously: if two
/// length-prefixed encodings followed by arbitrary tails agree as byte
/// sequences, the components agree and so do the tails.
proof fn lemma_length_prefixed_unambiguous(c1: Seq<u8>, r1: Seq<u8>, c2: Seq<u8>, r2: Seq<u8>)
    requires
        c1.len() <= u64::MAX,
        c2.len() <= u64::MAX,
        length_prefixed(c1) + r1 == length_prefixed(c2) + r2,
    ensures
        c1 == c2,
        r1 == r2,
{
    let s = length_prefixed(c1) + r1;
    assert(be64_bytes(c1.len() as u64) =~= s.subrange(0, 8));
    assert(be64_bytes(c2.len() as u64) =~= s.subrange(0, 8));
    lemma_be64_injective(c1.len() as u64, c2.len() as u64);
    assert(c1.len() == c2.len());
    let n = c1.len() as int;
    assert(c1 =~= s.subrange(8, 8 + n));
    assert(c2 =~= s.subrange(8, 8 + n));
    assert(r1 =~= s.subrange(8 + n, s.len() as int));
    assert(r2 =~= s.subrange(8 + n, s.len() as int));
}

/// Deriving the key is deterministic: equal request components give equal
/// keys, across calls and across process restarts.
pub proof fn lemma_key_deterministic(
    subgraph: Seq<u8>,
    directive: Seq<u8>,
    parent_type: Seq<u8>,
    field: Seq<u8>,
    arguments: Seq<u8>,
    subgraph2: Seq<u8>,
    directive2: Seq<u8>,
    parent_type2: Seq<u8>,
    field2: Seq<u8>,
    arguments2: Seq<u8>,
)
    requires
        subgraph == subgraph2,
        directive == directive2,
        parent_type == parent_type2,
        field == field2,
        arguments == arguments2,
    ensures
        subscription_key_of(subgraph, directive, parent_type, field, arguments)
            == subscription_key_of(subgraph2, directive2, parent_type2, field2, arguments2),
{
}

/// The key pins down every request component: two requests with the same key
/// have the same subgraph name, directive name, parent type name, field name
/// and argument bytes.
pub proof fn lemma_key_injective(
    subgraph: Seq<u8>,
    directive: Seq<u8>,
    parent_type: Seq<u8>,
    field: Seq<u8>,
    arguments: Seq<u8>,
    subgraph2: Seq<u8>,
    directive2: Seq<u8>,
    parent_type2: Seq<u8>,
    field2: Seq<u8>,
    arguments2: Seq<u8>,
)
    requires
        subgraph.len() <= u64::MAX,
        directive.len() <= u64::MAX,
        parent_type.len() <= u64::MAX,
        field.len() <= u64::MAX,
        arguments.len() <= u64::MAX,
        subgraph2.len() <= u64::MAX,
        directive2.len() <= u64::MAX,
        parent_type2.len() <= u64::MAX,
        field2.len() <= u64::MAX,
        arguments2.len() <= u64::MAX,
        subscription_key_of(subgraph, directive, parent_type, field, arguments)
            == subscription_key_of(subgraph2, directive2, parent_type2, field2, arguments2),
    ensures
        subgraph == subgraph2,
        directive == directive2,
        parent_type == parent_type2,
        field == field2,
        arguments == arguments2,
{
    let t1 = length_prefixed(directive) + length_prefixed(parent_type) + length_prefixed(field)
        + length_prefixed(arguments);
    let t2 = length_prefixed(directive2) + length_prefixed(parent_type2) + length_prefixed(field2)
        + length_prefixed(arguments2);
    assert(length_prefixed(subgraph) + t1 =~= subscription_key_of(
        subgraph,
        directive,
        parent_type,
        field,
        arguments,
    ));
    assert(length_prefixed(subgraph2) + t2 =~= subscription_key_of(
        subgraph2,
        directive2,
        parent_type2,
        field2,
        arguments2,
    ));
    lemma_length_prefixed_unambiguous(subgraph, t1, subgraph2, t2);
    let u1 = length_prefixed(parent_type) + length_prefixed(field) + length_prefixed(arguments);
    let u2 = length_prefixed(parent_type2) + length_prefixed(field2) + length_prefixed(arguments2);
    assert(length_prefixed(directive) + u1 =~= t1);
    assert(length_prefixed(directive2) + u2 =~= t2);
    lemma_length_prefixed_unambiguous(directive, u1, directive2, u2);
    let v1 = length_prefixed(field) + length_prefixed(arguments);
    let v2 = length_prefixed(field2) + length_prefixed(arguments2);
    assert(length_prefixed(parent_type) + v1 =~= u1);
    assert(length_prefixed(parent_type2) + v2 =~= u2);
    lemma_length_prefixed_unambiguous(parent_type, v1, parent_type2, v2);
    lemma_length_prefixed_unambiguous(field, length_prefixed(arguments), field2, length_prefixed(arguments2));
    lemma_length_prefixed_unambiguous(arguments, Seq::<u8>::empty(), arguments2, Seq::<u8>::empty());
}

/// A change in any one request component changes the key: in particular a
/// different subgraph name, field name or argument encoding can never land
/// two subscriptions on one stream.
pub proof fn lemma_key_sensitivity(
    subgraph: Seq<u8>,
    directive: Seq<u8>,
    parent_type: Seq<u8>,
    field: Seq<u8>,
    arguments: Seq<u8>,
    subgraph2: Seq<u8>,
    directive2: Seq<u8>,
    parent_type2: Seq<u8>,
    field2: Seq<u8>,
    arguments2: Seq<u8>,
)
    requires
        subgraph.len() <= u64::MAX,
        directive.len() <= u64::MAX,
        parent_type.len() <= u64::MAX,
        field.len() <= u64::MAX,
        arguments.len() <= u64::MAX,
        subgraph2.len() <= u64::MAX,
        directive2.len() <= u64::MAX,
        parent_type2.len() <= u64::MAX,
        field2.len() <= u64::MAX,
        arguments2.len() <= u64::MAX,
        subgraph != subgraph2 || directive != directive2 || parent_type != parent_type2 || field
            != field2 || arguments != arguments2,
    ensures
        subscription_key_of(subgraph, directive, parent_type, field, arguments)
            != subscription_key_of(subgraph2, directive2, parent_type2, field2, arguments2),
{
    if subscription_key_of(subgraph, directive, parent_type, field, arguments)
        == subscription_key_of(subgraph2, directive2, parent_type2, field2, arguments2) {
        lemma_key_injective(
            subgraph,
            directive,
            parent_type,
            field,
            arguments,
            subgraph2,
            directive2,
            parent_type2,
            field2,
            arguments2,
        );
    }
}

} // verus!
