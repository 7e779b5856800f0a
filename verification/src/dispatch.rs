//! Event dispatcher: the entry point invoked once per incoming event. It
//! applies the filter policy first, then builds the record, and reports
//! every per-event failure to the caller instead of stopping ingestion.

use crate::codec::{base58_decoded, decode, is_identity};
use crate::config::GeyserConfig;
use crate::event::{AccountEvent, SlotStatus, TransactionEvent, BlockMetadataEvent};
use crate::filter::{
    account_projected, byte_views, should_project_account, should_project_transaction,
    transaction_projected,
};
use crate::record::{
    account_record, block_metadata_record, build_account_record, build_block_metadata_record,
    build_slot_status_record, build_transaction_record, slot_status_record, transaction_record,
    Record, RecordError,
};
use vstd::prelude::*;

verus! {

/// The identities of the configured allow-list entries that decode to
/// exactly 32 bytes. An entry that does not is skipped — an explicit
/// policy: one bad entry must not abort the load.
pub open spec fn decoded_allow_list(names: Seq<String>) -> Seq<Seq<u8>>
    decreases names.len(),
{
    if names.len() == 0 {
        Seq::<Seq<u8>>::empty()
    } else {
        let rest = decoded_allow_list(names.drop_last());
        let d = base58_decoded(names.last()@);
        if d is Some && is_identity(d->0) {
            rest.push(d->0)
        } else {
            rest
        }
    }
}

/// The allow-list a configuration denotes: its decodable entries, or
/// nothing at all when no list is configured.
pub open spec fn config_allow_list(config: GeyserConfig) -> Seq<Seq<u8>> {
    match config.accounts {
        Some(accounts) => decoded_allow_list(accounts@),
        None => Seq::<Seq<u8>>::empty(),
    }
}

/// The per-event decision maker: holds the filtering configuration and a
/// snapshot of the account allow-list, and turns each event into either a
/// record to project or a reasoned skip.
pub struct Dispatcher {
    pub account_notifications_enabled: bool,
    pub transaction_notifications_enabled: bool,
    pub ignore_vote_transactions: bool,
    /// Raw 32-byte identities; comparison against events is on bytes.
    pub target_accounts: Vec<Vec<u8>>,
}

impl Dispatcher {
    /// Every held target account is a well-formed 32-byte identity.
    pub open spec fn wf(self) -> bool {
        forall|i: int|
            0 <= i < self.target_accounts@.len() ==> is_identity(
                #[trigger] self.target_accounts@[i]@,
            )
    }

    /// Builds the dispatcher from loaded configuration: absent flags take
    /// their defaults (account notifications on, transaction notifications
    /// off, vote suppression on), and each configured identity that does
    /// not decode to exactly 32 bytes is skipped.
    pub fn from_config(config: &GeyserConfig) -> (r: Dispatcher)
        ensures
            r.wf(),
            r.account_notifications_enabled == (match config.account_data_notifications_enabled {
                Some(b) => b,
                None => true,
            }),
            r.transaction_notifications_enabled == (
            match config.transaction_data_notifications_enabled {
                Some(b) => b,
                None => false,
            }),
            r.ignore_vote_transactions == (match config.ignore_vote_transactions {
                Some(b) => b,
                None => true,
            }),
            byte_views(r.target_accounts@) == config_allow_list(*config),
    {
        let account_notifications_enabled = match config.account_data_notifications_enabled {
            Some(b) => b,
            None => true,
        };
        let transaction_notifications_enabled = match config
            .transaction_data_notifications_enabled {
            Some(b) => b,
            None => false,
        };
        let ignore_vote_transactions = match config.ignore_vote_transactions {
            Some(b) => b,
            None => true,
        };
        let mut target_accounts: Vec<Vec<u8>> = Vec::new();
        match &config.accounts {
            Some(accounts) => {
                let n = accounts.len();
                let mut i: usize = 0;
                proof {
                    assert(byte_views(target_accounts@) =~~= decoded_allow_list(accounts@.take(0)));
                }
                while i < n
                    invariant
                        i <= n,
                        n == accounts@.len(),
                        forall|k: int|
                            0 <= k < target_accounts@.len() ==> is_identity(
                                #[trigger] target_accounts@[k]@,
                            ),
                        byte_views(target_accounts@) == decoded_allow_list(accounts@.take(i as int)),
                    decreases n - i,
                {
                    let ghost pre = target_accounts@;
                    let entry = &accounts[i];
                    match decode(entry.as_str()) {
                        Ok(identity) => {
                            proof {
                                assert(base58_decoded(entry@) is Some);
                                assert(base58_decoded(entry@)->0 == identity@);
                            }
                            target_accounts.push(identity);
                        },
                        Err(_) => {},
                    }
                    proof {
                        assert(accounts@.take(i as int + 1).drop_last() =~~= accounts@.take(
                            i as int,
                        ));
                        assert(accounts@.take(i as int + 1).last() == accounts@[i as int]);
                        assert(byte_views(target_accounts@) =~~= decoded_allow_list(
                            accounts@.take(i as int + 1),
                        ));
                    }
                    i = i + 1;
                }
                proof {
                    assert(accounts@.take(n as int) =~~= accounts@);
                }
            },
            None => {},
        }
        Dispatcher {
            account_notifications_enabled,
            transaction_notifications_enabled,
            ignore_vote_transactions,
            target_accounts,
        }
    }

    /// Whether the runtime should deliver account events at all.
    pub fn is_account_notifications_enabled(&self) -> (r: bool)
        ensures
            r == self.account_notifications_enabled,
    {
        self.account_notifications_enabled
    }

    /// Whether the runtime should deliver transaction events at all.
    pub fn is_transaction_notifications_enabled(&self) -> (r: bool)
        ensures
            r == self.transaction_notifications_enabled,
    {
        self.transaction_notifications_enabled
    }

    /// Handles one account event. A record comes back exactly when the
    /// event is not a startup replay, account notifications are on, and
    /// the allow-list admits the identity — and then it is the account
    /// record under the key the identity determines.
    pub fn dispatch_account(&self, slot: u64, ev: &AccountEvent, is_startup: bool) -> (r: Option<
        Record,
    >)
        requires
            ev.wf(),
        ensures
            (r is Some) == (!is_startup && self.account_notifications_enabled
                && account_projected(ev.identity@, byte_views(self.target_accounts@))),
            r matches Some(rec) ==> rec@ == account_record(slot, *ev),
    {
        if is_startup {
            return None;
        }
        if !self.account_notifications_enabled {
            return None;
        }
        if !should_project_account(&ev.identity, &self.target_accounts) {
            return None;
        }
        Some(build_account_record(slot, ev))
    }

    /// Handles one transaction event: the cheap filter decides first, the
    /// record is built only then. A versioned message that passes the
    /// filter is refused with its error — never silently mis-encoded.
    pub fn dispatch_transaction(&self, slot: u64, ev: &TransactionEvent) -> (r: Result<
        Option<Record>,
        RecordError,
    >)
        requires
            ev.wf(),
        ensures
            !(self.transaction_notifications_enabled && transaction_projected(
                ev.is_vote,
                self.ignore_vote_transactions,
            )) ==> r == Ok::<Option<Record>, RecordError>(None),
            self.transaction_notifications_enabled && transaction_projected(
                ev.is_vote,
                self.ignore_vote_transactions,
            ) && ev.message is Legacy ==> (r matches Ok(o) && o matches Some(rec) && rec@
                == transaction_record(slot, *ev)),
            self.transaction_notifications_enabled && transaction_projected(
                ev.is_vote,
                self.ignore_vote_transactions,
            ) && ev.message is Versioned ==> r == Err::<Option<Record>, RecordError>(
                RecordError::UnsupportedMessageVersion,
            ),
    {
        if !self.transaction_notifications_enabled {
            return Ok(None);
        }
        if !should_project_transaction(ev.is_vote, self.ignore_vote_transactions) {
            return Ok(None);
        }
        match build_transaction_record(slot, ev) {
            Ok(rec) => Ok(Some(rec)),
            Err(e) => Err(e),
        }
    }

    /// Handles one slot status transition; always projected.
    pub fn dispatch_slot_status(&self, slot: u64, parent: Option<u64>, status: SlotStatus) -> (r:
        Record)
        ensures
            r@ == slot_status_record(slot, parent, status),
    {
        build_slot_status_record(slot, parent, status)
    }

    /// Handles one block metadata event; always projected.
    pub fn dispatch_block_metadata(&self, ev: &BlockMetadataEvent) -> (r: Record)
        ensures
            r@ == block_metadata_record(*ev),
    {
        build_block_metadata_record(ev)
    }
}

} // verus!
