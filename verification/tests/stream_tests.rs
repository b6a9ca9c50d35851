use echo_bank::batch::{apply_outcomes, BatchItem, SelectionOutcome};
use echo_bank::json::echo;
use echo_bank::stream::BankEventStream;
use echo_bank::INTER_EVENT_MILLIS;

#[test]
fn echo_returns_input_verbatim() {
    let s = serde_json::Value::String("hello".to_string());
    assert_eq!(echo(s.clone()), s);

    let parsed: serde_json::Value =
        serde_json::from_str("{\"a\":[1,2,3],\"b\":null}").expect("valid JSON");
    assert_eq!(echo(parsed.clone()), parsed);

    let null = serde_json::Value::Null;
    assert_eq!(echo(null.clone()), null);
}

#[test]
fn inter_event_interval_is_fixed() {
    assert_eq!(INTER_EVENT_MILLIS, 500);
}

#[test]
fn apply_outcomes_keeps_order_and_prefixes_errors() {
    let one = serde_json::Value::Number(serde_json::Number::from(1));
    let two = serde_json::Value::Number(serde_json::Number::from(2));
    let outs = vec![
        SelectionOutcome::Value(one.clone()),
        SelectionOutcome::Error("boom".to_string()),
        SelectionOutcome::Value(two.clone()),
    ];
    let batch = apply_outcomes(outs);
    assert_eq!(batch.items.len(), 3);
    match &batch.items[0] {
        BatchItem::Data(v) => assert_eq!(v, &one),
        BatchItem::Failure(_) => panic!("first item should be a value"),
    }
    match &batch.items[1] {
        BatchItem::Failure(m) => assert_eq!(m, "Failed to process event: boom"),
        BatchItem::Data(_) => panic!("second item should be an error"),
    }
    match &batch.items[2] {
        BatchItem::Data(v) => assert_eq!(v, &two),
        BatchItem::Failure(_) => panic!("third item should be a value"),
    }
}

fn amount_of(v: &serde_json::Value) -> i64 {
    v.get("amount")
        .and_then(|a| a.as_i64())
        .expect("an emitted event has a numeric amount")
}

#[test]
fn selection_filters_low_amounts_out() {
    let mut stream = BankEventStream::new("select(.amount >= 1000) | .".to_string());
    let mut seen: usize = 0;
    for _ in 0..200 {
        let batch = stream.pull().expect("a valid selection never fails a pull");
        for item in &batch.items {
            match item {
                BatchItem::Data(v) => {
                    assert!(amount_of(v) >= 1000);
                    seen += 1;
                }
                BatchItem::Failure(m) => panic!("unexpected per-item error: {m}"),
            }
        }
    }
    assert!(seen > 0, "some amounts of 200 draws should reach 1000");
}

#[test]
fn per_item_errors_do_not_end_the_stream() {
    // The second branch adds a number to a string, which errors per item.
    let mut stream = BankEventStream::new(". , (.amount + \"x\")".to_string());
    for _ in 0..3 {
        let batch = stream.pull().expect("per-item errors never fail the pull");
        assert_eq!(batch.items.len(), 2);
        match &batch.items[0] {
            BatchItem::Data(v) => assert!(amount_of(v) >= 1),
            BatchItem::Failure(m) => panic!("first item should be the event: {m}"),
        }
        match &batch.items[1] {
            BatchItem::Failure(m) => {
                assert!(m.starts_with("Failed to process event: "), "message was: {m}")
            }
            BatchItem::Data(_) => panic!("second item should be an error"),
        }
    }
}

#[test]
fn invalid_selection_is_fatal_for_the_subscription() {
    let mut stream = BankEventStream::new("(((".to_string());
    let first = stream.pull();
    match first {
        Err(m) => assert!(m.starts_with("Failed to filter events: "), "message was: {m}"),
        Ok(_) => panic!("an invalid selection must fail the pull"),
    }
    let second = stream.pull();
    match second {
        Err(m) => assert_eq!(m, "subscription closed after a fatal error"),
        Ok(_) => panic!("a failed subscription must stay failed"),
    }
}

#[test]
fn subscribing_with_minimum_amount_yields_matching_events() {
    let minimum: i64 = 1000;
    let selection = format!("select(.amount >= {minimum}) | .");
    let mut stream = BankEventStream::new(selection);
    let mut collected: Vec<i64> = Vec::new();
    let mut pulls: usize = 0;
    while collected.len() < 3 && pulls < 2000 {
        let batch = stream.pull().expect("a valid selection never fails a pull");
        for item in &batch.items {
            match item {
                BatchItem::Data(v) => collected.push(amount_of(v)),
                BatchItem::Failure(m) => panic!("unexpected per-item error: {m}"),
            }
        }
        pulls += 1;
    }
    assert!(collected.len() >= 3, "three matching events should arrive");
    for amount in collected.iter().take(3) {
        assert!(*amount >= minimum);
    }
}

#[test]
fn multiple_results_keep_engine_order() {
    let mut stream = BankEventStream::new(".amount , .credit".to_string());
    let batch = stream.pull().expect("a valid selection never fails a pull");
    assert_eq!(batch.items.len(), 2);
    match &batch.items[0] {
        BatchItem::Data(v) => assert!(v.is_i64() || v.is_u64()),
        BatchItem::Failure(m) => panic!("first item should be the amount: {m}"),
    }
    match &batch.items[1] {
        BatchItem::Data(v) => assert!(v.is_string()),
        BatchItem::Failure(m) => panic!("second item should be the credit identifier: {m}"),
    }
}

#[test]
fn empty_selection_output_yields_empty_batch() {
    let mut stream = BankEventStream::new("empty".to_string());
    let batch = stream.pull().expect("a valid selection never fails a pull");
    assert!(batch.items.is_empty());
    let again = stream.pull().expect("an empty batch does not end the stream");
    assert!(again.items.is_empty());
}
