use geyser_redis::codec::encode;
use geyser_redis::config::{GeyserConfig, RedisDbCredentials};
use geyser_redis::dispatch::Dispatcher;
use geyser_redis::event::{
    AccountEvent, LegacyMessage, MessageHeader, SlotStatus, TransactionEvent, TransactionMessage,
};

fn credentials() -> RedisDbCredentials {
    RedisDbCredentials {
        username: String::from("user"),
        password: String::from("secret"),
        host: String::from("localhost"),
        port: String::from("6379"),
        database: String::from("0"),
    }
}

fn config_with_accounts(accounts: Option<Vec<String>>) -> GeyserConfig {
    GeyserConfig {
        redis_db_credentials: credentials(),
        account_data_notifications_enabled: None,
        transaction_data_notifications_enabled: None,
        ignore_system_accounts: None,
        ignore_vote_transactions: None,
        accounts,
    }
}

fn account_event(identity: Vec<u8>) -> AccountEvent {
    AccountEvent {
        identity,
        owner: vec![1u8; 32],
        lamports: 10,
        executable: false,
        rent_epoch: 1,
        data: vec![],
        write_version: 1,
    }
}

fn legacy_vote_event(is_vote: bool) -> TransactionEvent {
    TransactionEvent {
        signature: String::from("sig"),
        is_vote,
        message_hash: vec![2u8; 32],
        message: TransactionMessage::Legacy(LegacyMessage {
            header: MessageHeader {
                num_required_signatures: 1,
                num_readonly_signed_accounts: 0,
                num_readonly_unsigned_accounts: 0,
            },
            account_keys: vec![vec![4u8; 32]],
            recent_blockhash: vec![6u8; 32],
            instructions: vec![],
        }),
    }
}

#[test]
fn defaults_applied_when_flags_absent() {
    let d = Dispatcher::from_config(&config_with_accounts(None));
    assert!(d.account_notifications_enabled);
    assert!(!d.transaction_notifications_enabled);
    assert!(d.ignore_vote_transactions);
    assert!(d.target_accounts.is_empty());
}

#[test]
fn configured_flags_override_defaults() {
    let mut cfg = config_with_accounts(None);
    cfg.account_data_notifications_enabled = Some(false);
    cfg.transaction_data_notifications_enabled = Some(true);
    cfg.ignore_vote_transactions = Some(false);
    let d = Dispatcher::from_config(&cfg);
    assert!(!d.account_notifications_enabled);
    assert!(d.transaction_notifications_enabled);
    assert!(!d.ignore_vote_transactions);
    assert!(!d.is_account_notifications_enabled());
    assert!(d.is_transaction_notifications_enabled());
}

#[test]
fn allow_list_entries_decoded_to_bytes() {
    let x: Vec<u8> = vec![7u8; 32];
    let cfg = config_with_accounts(Some(vec![encode(&x)]));
    let d = Dispatcher::from_config(&cfg);
    assert_eq!(d.target_accounts, vec![x]);
}

#[test]
fn undecodable_allow_list_entry_is_skipped() {
    let x: Vec<u8> = vec![7u8; 32];
    let cfg = config_with_accounts(Some(vec![
        String::from("not-base58-0OIl"),
        encode(&x),
        String::from("abc"),
    ]));
    let d = Dispatcher::from_config(&cfg);
    assert_eq!(d.target_accounts, vec![x]);
}

#[test]
fn account_event_projected_for_allowed_identity() {
    let x: Vec<u8> = vec![8u8; 32];
    let cfg = config_with_accounts(Some(vec![encode(&x)]));
    let d = Dispatcher::from_config(&cfg);
    let r = d.dispatch_account(5, &account_event(x.clone()), false);
    let rec = r.expect("allowed identity must be projected");
    assert_eq!(rec.key, format!("account.{}", encode(&x)));
}

#[test]
fn account_event_dropped_for_other_identity() {
    let y: Vec<u8> = vec![9u8; 32];
    let cfg = config_with_accounts(Some(vec![encode(&y)]));
    let d = Dispatcher::from_config(&cfg);
    let x: Vec<u8> = vec![8u8; 32];
    assert!(d.dispatch_account(5, &account_event(x), false).is_none());
}

#[test]
fn startup_replay_is_not_projected() {
    let d = Dispatcher::from_config(&config_with_accounts(None));
    let x: Vec<u8> = vec![8u8; 32];
    assert!(d.dispatch_account(5, &account_event(x), true).is_none());
}

#[test]
fn vote_transaction_suppressed_by_default() {
    let mut cfg = config_with_accounts(None);
    cfg.transaction_data_notifications_enabled = Some(true);
    let d = Dispatcher::from_config(&cfg);
    assert!(d.dispatch_transaction(5, &legacy_vote_event(true)).unwrap().is_none());
    assert!(d.dispatch_transaction(5, &legacy_vote_event(false)).unwrap().is_some());
}

#[test]
fn transaction_dropped_when_notifications_off() {
    let d = Dispatcher::from_config(&config_with_accounts(None));
    assert!(d.dispatch_transaction(5, &legacy_vote_event(false)).unwrap().is_none());
}

#[test]
fn versioned_transaction_fails_after_filter() {
    let mut cfg = config_with_accounts(None);
    cfg.transaction_data_notifications_enabled = Some(true);
    let d = Dispatcher::from_config(&cfg);
    let ev = TransactionEvent {
        signature: String::from("sig"),
        is_vote: false,
        message_hash: vec![2u8; 32],
        message: TransactionMessage::Versioned,
    };
    assert!(d.dispatch_transaction(5, &ev).is_err());
}

#[test]
fn slot_and_block_events_always_projected() {
    let d = Dispatcher::from_config(&config_with_accounts(None));
    let r = d.dispatch_slot_status(6, Some(5), SlotStatus::Confirmed);
    assert_eq!(r.key, "slot.6");
    let ev = geyser_redis::event::BlockMetadataEvent {
        slot: 1,
        blockhash: String::from("h"),
        rewards: Vec::new(),
        block_time: None,
        block_height: None,
    };
    assert_eq!(d.dispatch_block_metadata(&ev).key, "block.1");
}
