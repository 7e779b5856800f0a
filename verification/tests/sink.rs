use geyser_redis::event::{AccountEvent, SlotStatus};
use geyser_redis::record::{build_account_record, build_slot_status_record, FieldValue, Record};
use geyser_redis::sink::record_args;
use std::collections::HashMap;

fn raw(v: &FieldValue) -> Vec<u8> {
    match v {
        FieldValue::Text(s) => s.as_bytes().to_vec(),
        FieldValue::Bytes(b) => b.clone(),
    }
}

// The store-side meaning of one batched multi-field upsert: set each
// name/value pair under the key, leaving other fields of the key alone.
fn apply(store: &mut HashMap<Vec<u8>, HashMap<Vec<u8>, Vec<u8>>>, args: &[FieldValue]) {
    assert_eq!(raw(&args[0]), b"HSET".to_vec());
    assert_eq!(args.len() % 2, 0);
    let key = raw(&args[1]);
    let entry = store.entry(key).or_insert_with(HashMap::new);
    let mut i = 2;
    while i + 1 < args.len() {
        entry.insert(raw(&args[i]), raw(&args[i + 1]));
        i += 2;
    }
}

fn sample_record() -> Record {
    build_account_record(
        44,
        &AccountEvent {
            identity: vec![5u8; 32],
            owner: vec![6u8; 32],
            lamports: 3,
            executable: false,
            rent_epoch: 0,
            data: vec![9, 9],
            write_version: 2,
        },
    )
}

#[test]
fn command_args_shape() {
    let rec = sample_record();
    let args = record_args(&rec);
    assert_eq!(args.len(), 2 + 2 * rec.fields.len());
    assert_eq!(raw(&args[0]), b"HSET".to_vec());
    assert_eq!(raw(&args[1]), rec.key.as_bytes().to_vec());
    for (i, f) in rec.fields.iter().enumerate() {
        assert_eq!(raw(&args[2 + 2 * i]), f.name.as_bytes().to_vec());
        assert_eq!(raw(&args[3 + 2 * i]), raw(&f.value));
    }
}

#[test]
fn applying_twice_equals_applying_once() {
    let rec = sample_record();
    let args = record_args(&rec);
    let mut once: HashMap<Vec<u8>, HashMap<Vec<u8>, Vec<u8>>> = HashMap::new();
    apply(&mut once, &args);
    let mut twice = once.clone();
    apply(&mut twice, &args);
    assert_eq!(once, twice);
}

#[test]
fn reapplying_overwrites_every_field_exactly() {
    let first = record_args(&sample_record());
    let second = record_args(&build_slot_status_record(44, Some(43), SlotStatus::Rooted));
    // Two records under different keys live side by side; re-applying one
    // leaves the other untouched.
    let mut store: HashMap<Vec<u8>, HashMap<Vec<u8>, Vec<u8>>> = HashMap::new();
    apply(&mut store, &first);
    apply(&mut store, &second);
    let snapshot = store.clone();
    apply(&mut store, &first);
    assert_eq!(store, snapshot);
}
