use echo_bank::doc::{event_document, push_dec_u32};
use echo_bank::event::{generate_event, BankEvent};
use echo_bank::{AMOUNT_MAX, AMOUNT_MIN};

fn dec(n: u32) -> String {
    let mut out: Vec<u8> = Vec::new();
    push_dec_u32(&mut out, n);
    String::from_utf8(out).expect("decimal digits are ASCII")
}

#[test]
fn decimal_rendering_exact() {
    assert_eq!(dec(0), "0");
    assert_eq!(dec(7), "7");
    assert_eq!(dec(10), "10");
    assert_eq!(dec(999), "999");
    assert_eq!(dec(2000), "2000");
    assert_eq!(dec(u32::MAX), "4294967295");
}

#[test]
fn generated_events_stay_in_bounds() {
    let mut rng = rand::rng();
    for _ in 0..200 {
        let e = generate_event(&mut rng);
        assert!(AMOUNT_MIN <= e.amount && e.amount <= AMOUNT_MAX);
        assert_eq!(e.credit.len(), 36);
        assert_eq!(e.debit.len(), 36);
        assert_ne!(e.credit, e.debit);
        for pos in [8, 13, 18, 23] {
            assert_eq!(e.credit.as_bytes()[pos], b'-');
            assert_eq!(e.debit.as_bytes()[pos], b'-');
        }
    }
}

#[test]
fn event_document_exact_text() {
    let e = BankEvent::new(
        "aaaaaaaa-bbbb-cccc-dddd-eeeeeeeeeeee".to_string(),
        "11111111-2222-3333-4444-555555555555".to_string(),
        1234,
    );
    let doc = event_document(&e);
    let text = String::from_utf8(doc).expect("the document is ASCII");
    assert_eq!(
        text,
        "{\"credit\":\"aaaaaaaa-bbbb-cccc-dddd-eeeeeeeeeeee\",\"debit\":\"11111111-2222-3333-4444-555555555555\",\"amount\":1234}"
    );
}

#[test]
fn event_document_parses_back() {
    let e = BankEvent::new(
        "aaaaaaaa-bbbb-cccc-dddd-eeeeeeeeeeee".to_string(),
        "11111111-2222-3333-4444-555555555555".to_string(),
        42,
    );
    let doc = event_document(&e);
    let v: serde_json::Value = serde_json::from_slice(&doc).expect("the document is valid JSON");
    assert_eq!(v.get("credit").and_then(|c| c.as_str()), Some("aaaaaaaa-bbbb-cccc-dddd-eeeeeeeeeeee"));
    assert_eq!(v.get("debit").and_then(|d| d.as_str()), Some("11111111-2222-3333-4444-555555555555"));
    assert_eq!(v.get("amount").and_then(|a| a.as_i64()), Some(42));
}
