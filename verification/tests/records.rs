use geyser_redis::codec::encode;
use geyser_redis::event::{
    AccountEvent, BlockMetadataEvent, Instruction, LegacyMessage, MessageHeader, Reward,
    RewardType, SlotStatus, TransactionEvent, TransactionMessage,
};
use geyser_redis::record::{
    build_account_record, build_block_metadata_record, build_slot_status_record,
    build_transaction_record, FieldValue, Record, RecordError,
};

fn text_of(v: &FieldValue) -> String {
    match v {
        FieldValue::Text(s) => s.clone(),
        FieldValue::Bytes(_) => panic!("expected a text value"),
    }
}

fn bytes_of(v: &FieldValue) -> Vec<u8> {
    match v {
        FieldValue::Text(_) => panic!("expected a bytes value"),
        FieldValue::Bytes(b) => b.clone(),
    }
}

fn names_of(r: &Record) -> Vec<String> {
    r.fields.iter().map(|f| f.name.clone()).collect()
}

fn sample_account_event() -> AccountEvent {
    AccountEvent {
        identity: vec![7u8; 32],
        owner: vec![3u8; 32],
        lamports: 1500,
        executable: true,
        rent_epoch: 12,
        data: vec![1, 2, 3, 4],
        write_version: 42,
    }
}

#[test]
fn account_record_has_exactly_seven_fields() {
    let r = build_account_record(99, &sample_account_event());
    assert_eq!(
        names_of(&r),
        vec![
            "lamports",
            "owner",
            "executable",
            "rent_epoch",
            "data",
            "write_version",
            "slot"
        ]
    );
}

#[test]
fn account_record_key_and_values() {
    let ev = sample_account_event();
    let r = build_account_record(99, &ev);
    assert_eq!(r.key, format!("account.{}", encode(&ev.identity)));
    assert_eq!(text_of(&r.fields[0].value), "1500");
    assert_eq!(text_of(&r.fields[1].value), encode(&ev.owner));
    assert_eq!(text_of(&r.fields[2].value), "1");
    assert_eq!(text_of(&r.fields[3].value), "12");
    assert_eq!(bytes_of(&r.fields[4].value), vec![1, 2, 3, 4]);
    assert_eq!(text_of(&r.fields[5].value), "42");
    assert_eq!(text_of(&r.fields[6].value), "99");
}

fn sample_legacy_event() -> TransactionEvent {
    TransactionEvent {
        signature: String::from("SiGnAtUrE"),
        is_vote: false,
        message_hash: vec![5u8; 32],
        message: TransactionMessage::Legacy(LegacyMessage {
            header: MessageHeader {
                num_required_signatures: 1,
                num_readonly_signed_accounts: 2,
                num_readonly_unsigned_accounts: 3,
            },
            account_keys: vec![vec![10u8; 32], vec![11u8; 32]],
            recent_blockhash: vec![9u8; 32],
            instructions: vec![
                Instruction {
                    program_id_index: 0,
                    account_indices: vec![0, 1],
                    data: vec![250, 251],
                },
                Instruction {
                    program_id_index: 1,
                    account_indices: vec![1],
                    data: vec![],
                },
            ],
        }),
    }
}

#[test]
fn transaction_record_field_count_and_order() {
    // N = 2 account keys and M = 2 instructions: 3 + 3 + N + 1 + 3M = 15.
    let r = build_transaction_record(7, &sample_legacy_event()).unwrap();
    assert_eq!(r.key, "transaction.SiGnAtUrE");
    assert_eq!(
        names_of(&r),
        vec![
            "slot",
            "is_vote",
            "message_hash",
            "message.header.num_required_signatures",
            "message.header.num_readonly_signed_accounts",
            "message.header.num_readonly_unsigned_accounts",
            "message.account.index_0",
            "message.account.index_1",
            "message.recent_blockhash",
            "message.instructions.index_0.program_id_index",
            "message.instructions.index_0.account_indices",
            "message.instructions.index_0.data",
            "message.instructions.index_1.program_id_index",
            "message.instructions.index_1.account_indices",
            "message.instructions.index_1.data",
        ]
    );
}

#[test]
fn transaction_record_values() {
    let ev = sample_legacy_event();
    let r = build_transaction_record(7, &ev).unwrap();
    assert_eq!(text_of(&r.fields[0].value), "7");
    assert_eq!(text_of(&r.fields[1].value), "0");
    assert_eq!(text_of(&r.fields[2].value), encode(&ev.message_hash));
    assert_eq!(text_of(&r.fields[3].value), "1");
    assert_eq!(text_of(&r.fields[4].value), "2");
    assert_eq!(text_of(&r.fields[5].value), "3");
    assert_eq!(text_of(&r.fields[6].value), encode(&vec![10u8; 32]));
    assert_eq!(text_of(&r.fields[7].value), encode(&vec![11u8; 32]));
    assert_eq!(text_of(&r.fields[8].value), encode(&vec![9u8; 32]));
    assert_eq!(text_of(&r.fields[9].value), "0");
    assert_eq!(bytes_of(&r.fields[10].value), vec![0, 1]);
    assert_eq!(bytes_of(&r.fields[11].value), vec![250, 251]);
    assert_eq!(text_of(&r.fields[12].value), "1");
    assert_eq!(bytes_of(&r.fields[13].value), vec![1]);
    assert_eq!(bytes_of(&r.fields[14].value), Vec::<u8>::new());
}

#[test]
fn versioned_message_is_refused() {
    let ev = TransactionEvent {
        signature: String::from("sig"),
        is_vote: false,
        message_hash: vec![5u8; 32],
        message: TransactionMessage::Versioned,
    };
    assert_eq!(
        build_transaction_record(7, &ev).err(),
        Some(RecordError::UnsupportedMessageVersion)
    );
}

#[test]
fn slot_status_record_without_parent() {
    let r = build_slot_status_record(5, None, SlotStatus::Rooted);
    assert_eq!(r.key, "slot.5");
    assert_eq!(names_of(&r), vec!["status"]);
    assert_eq!(text_of(&r.fields[0].value), "rooted");
}

#[test]
fn slot_status_record_with_parent() {
    let r = build_slot_status_record(6, Some(5), SlotStatus::Confirmed);
    assert_eq!(r.key, "slot.6");
    assert_eq!(names_of(&r), vec!["parent", "status"]);
    assert_eq!(text_of(&r.fields[0].value), "5");
    assert_eq!(text_of(&r.fields[1].value), "confirmed");
}

#[test]
fn slot_status_record_processed() {
    let r = build_slot_status_record(8, Some(7), SlotStatus::Processed);
    assert_eq!(text_of(&r.fields[1].value), "processed");
}

#[test]
fn block_metadata_record_full() {
    let ev = BlockMetadataEvent {
        slot: 300,
        blockhash: String::from("hash300"),
        rewards: vec![
            Reward {
                pubkey: String::from("validator1"),
                lamports: -5,
                post_balance: 1000,
                reward_type: Some(RewardType::Staking),
                commission: Some(10),
            },
            Reward {
                pubkey: String::from("validator2"),
                lamports: 77,
                post_balance: 2000,
                reward_type: None,
                commission: None,
            },
        ],
        block_time: Some(-1),
        block_height: Some(299),
    };
    let r = build_block_metadata_record(&ev);
    assert_eq!(r.key, "block.300");
    assert_eq!(
        names_of(&r),
        vec![
            "blockhash",
            "reward.index_0.pubkey",
            "reward.index_0.lamports",
            "reward.index_0.post_balance",
            "reward.index_0.reward_type",
            "reward.index_0.commission",
            "reward.index_1.pubkey",
            "reward.index_1.lamports",
            "reward.index_1.post_balance",
            "reward.index_1.commission",
            "block_time",
            "block_height",
        ]
    );
    assert_eq!(text_of(&r.fields[0].value), "hash300");
    assert_eq!(text_of(&r.fields[1].value), "validator1");
    assert_eq!(text_of(&r.fields[2].value), "-5");
    assert_eq!(text_of(&r.fields[3].value), "1000");
    assert_eq!(text_of(&r.fields[4].value), "Staking");
    assert_eq!(text_of(&r.fields[5].value), "10");
    // Absent commission is written as zero, by convention.
    assert_eq!(text_of(&r.fields[9].value), "0");
    assert_eq!(text_of(&r.fields[10].value), "-1");
    assert_eq!(text_of(&r.fields[11].value), "299");
}

#[test]
fn block_metadata_record_minimal() {
    let ev = BlockMetadataEvent {
        slot: 0,
        blockhash: String::from("genesis"),
        rewards: Vec::new(),
        block_time: None,
        block_height: None,
    };
    let r = build_block_metadata_record(&ev);
    assert_eq!(r.key, "block.0");
    assert_eq!(names_of(&r), vec!["blockhash"]);
}
