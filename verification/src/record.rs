//! The record builder: pure functions, one per event kind, that turn a
//! typed replica event into a canonical record — a string key plus an
//! ordered sequence of field/value pairs, values serialized as text except
//! for opaque byte sequences, which stay raw.

use crate::codec::{base58_of, encode};
use crate::event::{
    AccountEvent, BlockMetadataEvent, Instruction, LegacyMessage, MessageHeader, Reward,
    SlotStatus, TransactionEvent, TransactionMessage, reward_type_label, status_label,
};
use crate::text::{bool_text, bool_to_text, dec_digits, dec_int, i64_to_dec, u64_to_dec};
use vstd::prelude::*;
use vstd::slice::slice_to_vec;
use vstd::string::StringExecFns;

verus! {

/// Error of the record builder.
#[derive(Clone, Copy, Debug, PartialEq, Eq, Structural)]
pub enum RecordError {
    /// The event carried a versioned transaction message, which the builder
    /// refuses rather than emitting a partial record.
    UnsupportedMessageVersion,
}

/// One field value: text, or a raw byte sequence for opaque data.
pub enum FieldValue {
    Text(String),
    Bytes(Vec<u8>),
}

/// The mathematical value of a [`FieldValue`].
#[verifier::ext_equal]
pub enum ValueModel {
    Text(Seq<char>),
    Bytes(Seq<u8>),
}

impl View for FieldValue {
    type V = ValueModel;

    open spec fn view(&self) -> ValueModel {
        match self {
            FieldValue::Text(s) => ValueModel::Text(s@),
            FieldValue::Bytes(b) => ValueModel::Bytes(b@),
        }
    }
}

/// One named field of a record.
pub struct Field {
    pub name: String,
    pub value: FieldValue,
}

/// The mathematical value of a [`Field`].
#[verifier::ext_equal]
pub struct FieldModel {
    pub name: Seq<char>,
    pub value: ValueModel,
}

impl View for Field {
    type V = FieldModel;

    open spec fn view(&self) -> FieldModel {
        FieldModel { name: self.name@, value: self.value@ }
    }
}

/// The projection output: a canonical key and an ordered field sequence.
pub struct Record {
    pub key: String,
    pub fields: Vec<Field>,
}

/// The mathematical value of a [`Record`].
#[verifier::ext_equal]
pub struct RecordModel {
    pub key: Seq<char>,
    pub fields: Seq<FieldModel>,
}

/// The mathematical values of a sequence of fields.
pub open spec fn fields_view(fields: Seq<Field>) -> Seq<FieldModel> {
    Seq::new(fields.len(), |i: int| fields[i]@)
}

impl View for Record {
    type V = RecordModel;

    open spec fn view(&self) -> RecordModel {
        RecordModel { key: self.key@, fields: fields_view(self.fields@) }
    }
}

/// A text field.
pub open spec fn text_field(name: Seq<char>, value: Seq<char>) -> FieldModel {
    FieldModel { name: name, value: ValueModel::Text(value) }
}

/// A raw-bytes field.
pub open spec fn bytes_field(name: Seq<char>, value: Seq<u8>) -> FieldModel {
    FieldModel { name: name, value: ValueModel::Bytes(value) }
}

/// The record an account write projects to.
pub open spec fn account_record(slot: u64, ev: AccountEvent) -> RecordModel {
    RecordModel {
        key: "account."@ + base58_of(ev.identity@),
        fields: seq![
            text_field("lamports"@, dec_digits(ev.lamports as nat)),
            text_field("owner"@, base58_of(ev.owner@)),
            text_field("executable"@, bool_text(ev.executable)),
            text_field("rent_epoch"@, dec_digits(ev.rent_epoch as nat)),
            bytes_field("data"@, ev.data@),
            text_field("write_version"@, dec_digits(ev.write_version as nat)),
            text_field("slot"@, dec_digits(slot as nat)),
        ],
    }
}

/// Builds the record of an account write. Every one of its seven fields is
/// always present: this event kind has no optional parts.
pub fn build_account_record(slot: u64, ev: &AccountEvent) -> (r: Record)
    requires
        ev.wf(),
    ensures
        r@ == account_record(slot, *ev),
{
    let key = "account.".to_owned().concat(encode(&ev.identity).as_str());
    let mut fields: Vec<Field> = Vec::new();
    fields.push(
        Field { name: "lamports".to_owned(), value: FieldValue::Text(u64_to_dec(ev.lamports)) },
    );
    fields.push(
        Field { name: "owner".to_owned(), value: FieldValue::Text(encode(&ev.owner)) },
    );
    fields.push(
        Field {
            name: "executable".to_owned(),
            value: FieldValue::Text(bool_to_text(ev.executable)),
        },
    );
    fields.push(
        Field { name: "rent_epoch".to_owned(), value: FieldValue::Text(u64_to_dec(ev.rent_epoch)) },
    );
    fields.push(
        Field { name: "data".to_owned(), value: FieldValue::Bytes(slice_to_vec(ev.data.as_slice())) },
    );
    fields.push(
        Field {
            name: "write_version".to_owned(),
            value: FieldValue::Text(u64_to_dec(ev.write_version)),
        },
    );
    fields.push(
        Field { name: "slot".to_owned(), value: FieldValue::Text(u64_to_dec(slot)) },
    );
    let r = Record { key, fields };
    proof {
        assert(r@.fields =~~= account_record(slot, *ev).fields);
        assert(r@ =~~= account_record(slot, *ev));
    }
    r
}

/// Every account record has exactly the seven fields, in order: lamports,
/// owner, executable, rent_epoch, data, write_version, slot.
pub proof fn lemma_account_record_fields(slot: u64, ev: AccountEvent)
    ensures
        account_record(slot, ev).fields.len() == 7,
        account_record(slot, ev).fields[0].name == "lamports"@,
        account_record(slot, ev).fields[1].name == "owner"@,
        account_record(slot, ev).fields[2].name == "executable"@,
        account_record(slot, ev).fields[3].name == "rent_epoch"@,
        account_record(slot, ev).fields[4].name == "data"@,
        account_record(slot, ev).fields[5].name == "write_version"@,
        account_record(slot, ev).fields[6].name == "slot"@,
{
}

/// The record a slot status transition projects to: the status label
/// always, the parent only when the slot has one — its absence is the
/// genesis case, not an error.
pub open spec fn slot_status_record(slot: u64, parent: Option<u64>, status: SlotStatus) -> RecordModel {
    RecordModel {
        key: "slot."@ + dec_digits(slot as nat),
        fields: (if parent is Some {
            seq![text_field("parent"@, dec_digits(parent->0 as nat))]
        } else {
            Seq::<FieldModel>::empty()
        }) + seq![text_field("status"@, status_label(status))],
    }
}

/// Builds the record of a slot status transition.
pub fn build_slot_status_record(slot: u64, parent: Option<u64>, status: SlotStatus) -> (r: Record)
    ensures
        r@ == slot_status_record(slot, parent, status),
{
    let key = "slot.".to_owned().concat(u64_to_dec(slot).as_str());
    let mut fields: Vec<Field> = Vec::new();
    match parent {
        Some(p) => {
            fields.push(
                Field { name: "parent".to_owned(), value: FieldValue::Text(u64_to_dec(p)) },
            );
        },
        None => {},
    }
    fields.push(
        Field { name: "status".to_owned(), value: FieldValue::Text(status.label().to_owned()) },
    );
    let r = Record { key, fields };
    proof {
        assert(r@.fields =~~= slot_status_record(slot, parent, status).fields);
        assert(r@ =~~= slot_status_record(slot, parent, status));
    }
    r
}

/// The three fields of a message header.
pub open spec fn header_fields(h: MessageHeader) -> Seq<FieldModel> {
    seq![
        text_field(
            "message.header.num_required_signatures"@,
            dec_digits(h.num_required_signatures as nat),
        ),
        text_field(
            "message.header.num_readonly_signed_accounts"@,
            dec_digits(h.num_readonly_signed_accounts as nat),
        ),
        text_field(
            "message.header.num_readonly_unsigned_accounts"@,
            dec_digits(h.num_readonly_unsigned_accounts as nat),
        ),
    ]
}

/// The field of the account key at on-chain index `i`.
pub open spec fn account_key_field(key: Seq<u8>, i: int) -> FieldModel {
    text_field("message.account.index_"@ + dec_digits(i as nat), base58_of(key))
}

/// The fields of the first `n` account keys, in ascending index order.
pub open spec fn account_key_fields(keys: Seq<Vec<u8>>, n: int) -> Seq<FieldModel>
    decreases n,
{
    if n <= 0 {
        Seq::<FieldModel>::empty()
    } else {
        account_key_fields(keys, n - 1).push(account_key_field(keys[n - 1]@, n - 1))
    }
}

/// One field per account key.
pub proof fn lemma_account_key_fields_len(keys: Seq<Vec<u8>>, n: int)
    requires
        0 <= n,
    ensures
        account_key_fields(keys, n).len() == n,
    decreases n,
{
    if n > 0 {
        lemma_account_key_fields_len(keys, n - 1);
    }
}

/// The three fields of the instruction at index `i`, kept together:
/// program id index, account indices, data.
pub open spec fn instruction_fields(ins: Instruction, i: int) -> Seq<FieldModel> {
    seq![
        text_field(
            "message.instructions.index_"@ + dec_digits(i as nat) + ".program_id_index"@,
            dec_digits(ins.program_id_index as nat),
        ),
        bytes_field(
            "message.instructions.index_"@ + dec_digits(i as nat) + ".account_indices"@,
            ins.account_indices@,
        ),
        bytes_field(
            "message.instructions.index_"@ + dec_digits(i as nat) + ".data"@,
            ins.data@,
        ),
    ]
}

/// The fields of the first `n` instructions, in ascending index order.
pub open spec fn instructions_fields(instrs: Seq<Instruction>, n: int) -> Seq<FieldModel>
    decreases n,
{
    if n <= 0 {
        Seq::<FieldModel>::empty()
    } else {
        instructions_fields(instrs, n - 1) + instruction_fields(instrs[n - 1], n - 1)
    }
}

/// Three fields per instruction.
pub proof fn lemma_instructions_fields_len(instrs: Seq<Instruction>, n: int)
    requires
        0 <= n,
    ensures
        instructions_fields(instrs, n).len() == 3 * n,
    decreases n,
{
    if n > 0 {
        lemma_instructions_fields_len(instrs, n - 1);
    }
}

/// All fields of a legacy message, in their deterministic emission order:
/// header, account keys by ascending index, blockhash, instructions by
/// ascending index.
pub open spec fn legacy_message_fields(m: LegacyMessage) -> Seq<FieldModel> {
    header_fields(m.header) + account_key_fields(m.account_keys@, m.account_keys@.len() as int)
        + seq![text_field("message.recent_blockhash"@, base58_of(m.recent_blockhash@))]
        + instructions_fields(m.instructions@, m.instructions@.len() as int)
}

/// The record a legacy-message transaction projects to.
pub open spec fn transaction_record(slot: u64, ev: TransactionEvent) -> RecordModel {
    RecordModel {
        key: "transaction."@ + ev.signature@,
        fields: seq![
            text_field("slot"@, dec_digits(slot as nat)),
            text_field("is_vote"@, bool_text(ev.is_vote)),
            text_field("message_hash"@, base58_of(ev.message_hash@)),
        ] + legacy_message_fields(ev.message->Legacy_0),
    }
}

/// A legacy-message transaction record with `N` account keys and `M`
/// instructions has exactly `3 + 3 + N + 1 + 3*M` fields: the three
/// event-level fields, the three header counts, one per account key, the
/// blockhash, and three per instruction.
pub proof fn lemma_transaction_record_field_count(slot: u64, ev: TransactionEvent)
    requires
        ev.message is Legacy,
    ensures
        transaction_record(slot, ev).fields.len() == 7 + ev.message->Legacy_0.account_keys@.len()
            + 3 * ev.message->Legacy_0.instructions@.len(),
{
    let m = ev.message->Legacy_0;
    lemma_account_key_fields_len(m.account_keys@, m.account_keys@.len() as int);
    lemma_instructions_fields_len(m.instructions@, m.instructions@.len() as int);
}

/// Builds the record of a transaction. A versioned message is refused with
/// `UnsupportedMessageVersion` — never projected partially — and a legacy
/// message always builds.
pub fn build_transaction_record(slot: u64, ev: &TransactionEvent) -> (r: Result<
    Record,
    RecordError,
>)
    requires
        ev.wf(),
    ensures
        ev.message is Legacy ==> (r matches Ok(rec) && rec@ == transaction_record(slot, *ev)),
        (ev.message is Versioned) == (r is Err),
        r is Err ==> r == Err::<Record, RecordError>(RecordError::UnsupportedMessageVersion),
{
    match &ev.message {
        TransactionMessage::Versioned => Err(RecordError::UnsupportedMessageVersion),
        TransactionMessage::Legacy(m) => {
            let key = "transaction.".to_owned().concat(ev.signature.as_str());
            let mut fields: Vec<Field> = Vec::new();
            fields.push(
                Field { name: "slot".to_owned(), value: FieldValue::Text(u64_to_dec(slot)) },
            );
            fields.push(
                Field {
                    name: "is_vote".to_owned(),
                    value: FieldValue::Text(bool_to_text(ev.is_vote)),
                },
            );
            fields.push(
                Field {
                    name: "message_hash".to_owned(),
                    value: FieldValue::Text(encode(&ev.message_hash)),
                },
            );
            fields.push(
                Field {
                    name: "message.header.num_required_signatures".to_owned(),
                    value: FieldValue::Text(u64_to_dec(m.header.num_required_signatures as u64)),
                },
            );
            fields.push(
                Field {
                    name: "message.header.num_readonly_signed_accounts".to_owned(),
                    value: FieldValue::Text(
                        u64_to_dec(m.header.num_readonly_signed_accounts as u64),
                    ),
                },
            );
            fields.push(
                Field {
                    name: "message.header.num_readonly_unsigned_accounts".to_owned(),
                    value: FieldValue::Text(
                        u64_to_dec(m.header.num_readonly_unsigned_accounts as u64),
                    ),
                },
            );
            let ghost head = seq![
                text_field("slot"@, dec_digits(slot as nat)),
                text_field("is_vote"@, bool_text(ev.is_vote)),
                text_field("message_hash"@, base58_of(ev.message_hash@)),
            ] + header_fields(m.header);
            proof {
                assert(fields_view(fields@) =~~= head + account_key_fields(m.account_keys@, 0));
            }
            let n_keys = m.account_keys.len();
            let mut i: usize = 0;
            while i < n_keys
                invariant
                    ev.wf(),
                    ev.message is Legacy,
                    ev.message->Legacy_0 == *m,
                    i <= n_keys,
                    n_keys == m.account_keys@.len(),
                    fields_view(fields@) == head + account_key_fields(m.account_keys@, i as int),
                decreases n_keys - i,
            {
                let name = "message.account.index_".to_owned().concat(
                    u64_to_dec(i as u64).as_str(),
                );
                let f = Field { name, value: FieldValue::Text(encode(&m.account_keys[i])) };
                proof {
                    assert(f@ =~~= account_key_field(m.account_keys@[i as int]@, i as int));
                }
                let ghost pre = fields@;
                fields.push(f);
                proof {
                    assert(account_key_fields(m.account_keys@, i as int + 1)
                        == account_key_fields(m.account_keys@, i as int).push(
                            account_key_field(m.account_keys@[i as int]@, i as int),
                        ));
                    assert(fields@ == pre.push(f));
                    assert(fields_view(pre.push(f)) =~~= fields_view(pre).push(f@));
                    assert(fields_view(pre).push(f@) =~~= (head + account_key_fields(
                        m.account_keys@,
                        i as int,
                    )).push(f@));
                    assert((head + account_key_fields(m.account_keys@, i as int)).push(f@)
                        =~~= head + account_key_fields(m.account_keys@, i as int).push(f@));
                    assert(fields_view(fields@) =~~= head + account_key_fields(
                        m.account_keys@,
                        i + 1,
                    ));
                }
                i = i + 1;
            }
            fields.push(
                Field {
                    name: "message.recent_blockhash".to_owned(),
                    value: FieldValue::Text(encode(&m.recent_blockhash)),
                },
            );
            let ghost mid = head + account_key_fields(
                m.account_keys@,
                m.account_keys@.len() as int,
            ) + seq![text_field("message.recent_blockhash"@, base58_of(m.recent_blockhash@))];
            proof {
                assert(fields_view(fields@) =~~= mid + instructions_fields(m.instructions@, 0));
            }
            let n_instrs = m.instructions.len();
            let mut j: usize = 0;
            while j < n_instrs
                invariant
                    ev.wf(),
                    ev.message is Legacy,
                    ev.message->Legacy_0 == *m,
                    j <= n_instrs,
                    n_instrs == m.instructions@.len(),
                    fields_view(fields@) == mid + instructions_fields(m.instructions@, j as int),
                decreases n_instrs - j,
            {
                let prefix = "message.instructions.index_".to_owned().concat(
                    u64_to_dec(j as u64).as_str(),
                );
                let ins = &m.instructions[j];
                let f1 = Field {
                    name: prefix.clone().concat(".program_id_index"),
                    value: FieldValue::Text(u64_to_dec(ins.program_id_index as u64)),
                };
                let f2 = Field {
                    name: prefix.clone().concat(".account_indices"),
                    value: FieldValue::Bytes(slice_to_vec(ins.account_indices.as_slice())),
                };
                let f3 = Field {
                    name: prefix.concat(".data"),
                    value: FieldValue::Bytes(slice_to_vec(ins.data.as_slice())),
                };
                let ghost pre = fields@;
                proof {
                    assert(seq![f1@, f2@, f3@] =~~= instruction_fields(
                        m.instructions@[j as int],
                        j as int,
                    ));
                }
                fields.push(f1);
                fields.push(f2);
                fields.push(f3);
                proof {
                    assert(instructions_fields(m.instructions@, j as int + 1)
                        == instructions_fields(m.instructions@, j as int) + instruction_fields(
                            m.instructions@[j as int],
                            j as int,
                        ));
                    assert(fields@ == pre.push(f1).push(f2).push(f3));
                    assert(fields_view(pre.push(f1).push(f2).push(f3)) =~~= fields_view(pre)
                        + seq![f1@, f2@, f3@]);
                    assert(fields_view(pre) + seq![f1@, f2@, f3@] =~~= (mid + instructions_fields(
                        m.instructions@,
                        j as int,
                    )) + instruction_fields(m.instructions@[j as int], j as int));
                    assert((mid + instructions_fields(m.instructions@, j as int))
                        + instruction_fields(m.instructions@[j as int], j as int) =~~= mid
                        + instructions_fields(m.instructions@, j as int + 1));
                    assert(fields_view(fields@) =~~= mid + instructions_fields(
                        m.instructions@,
                        j + 1,
                    ));
                }
                j = j + 1;
            }
            let r = Record { key, fields };
            proof {
                assert(r@.fields =~~= transaction_record(slot, *ev).fields);
                assert(r@ =~~= transaction_record(slot, *ev));
            }
            Ok(r)
        },
    }
}

/// The fields of the reward at index `i`: pubkey, lamports and
/// post_balance always; reward_type only when present; commission always,
/// written as zero when absent — a deliberate convention, not an error.
pub open spec fn reward_fields(r: Reward, i: int) -> Seq<FieldModel> {
    seq![
        text_field("reward.index_"@ + dec_digits(i as nat) + ".pubkey"@, r.pubkey@),
        text_field(
            "reward.index_"@ + dec_digits(i as nat) + ".lamports"@,
            dec_int(r.lamports as int),
        ),
        text_field(
            "reward.index_"@ + dec_digits(i as nat) + ".post_balance"@,
            dec_digits(r.post_balance as nat),
        ),
    ] + (if r.reward_type is Some {
        seq![
            text_field(
                "reward.index_"@ + dec_digits(i as nat) + ".reward_type"@,
                reward_type_label(r.reward_type->0),
            ),
        ]
    } else {
        Seq::<FieldModel>::empty()
    }) + seq![
        text_field(
            "reward.index_"@ + dec_digits(i as nat) + ".commission"@,
            dec_digits(
                (if r.commission is Some {
                    r.commission->0
                } else {
                    0u8
                }) as nat,
            ),
        ),
    ]
}

/// The fields of the first `n` rewards, in ascending index order.
pub open spec fn rewards_fields(rs: Seq<Reward>, n: int) -> Seq<FieldModel>
    decreases n,
{
    if n <= 0 {
        Seq::<FieldModel>::empty()
    } else {
        rewards_fields(rs, n - 1) + reward_fields(rs[n - 1], n - 1)
    }
}

/// The record a block metadata event projects to: the blockhash always,
/// the rewards by ascending index, block time and block height each only
/// when present.
pub open spec fn block_metadata_record(ev: BlockMetadataEvent) -> RecordModel {
    RecordModel {
        key: "block."@ + dec_digits(ev.slot as nat),
        fields: seq![text_field("blockhash"@, ev.blockhash@)] + rewards_fields(
            ev.rewards@,
            ev.rewards@.len() as int,
        ) + (if ev.block_time is Some {
            seq![text_field("block_time"@, dec_int(ev.block_time->0 as int))]
        } else {
            Seq::<FieldModel>::empty()
        }) + (if ev.block_height is Some {
            seq![text_field("block_height"@, dec_digits(ev.block_height->0 as nat))]
        } else {
            Seq::<FieldModel>::empty()
        }),
    }
}

/// Builds the record of a block metadata event.
pub fn build_block_metadata_record(ev: &BlockMetadataEvent) -> (r: Record)
    ensures
        r@ == block_metadata_record(*ev),
{
    let key = "block.".to_owned().concat(u64_to_dec(ev.slot).as_str());
    let mut fields: Vec<Field> = Vec::new();
    fields.push(
        Field { name: "blockhash".to_owned(), value: FieldValue::Text(ev.blockhash.clone()) },
    );
    let ghost head = seq![text_field("blockhash"@, ev.blockhash@)];
    proof {
        assert(fields_view(fields@) =~~= head + rewards_fields(ev.rewards@, 0));
    }
    let n_rewards = ev.rewards.len();
    let mut i: usize = 0;
    while i < n_rewards
        invariant
            i <= n_rewards,
            n_rewards == ev.rewards@.len(),
            fields_view(fields@) == head + rewards_fields(ev.rewards@, i as int),
        decreases n_rewards - i,
    {
        let prefix = "reward.index_".to_owned().concat(u64_to_dec(i as u64).as_str());
        let re = &ev.rewards[i];
        let mut group: Vec<Field> = Vec::new();
        group.push(
            Field {
                name: prefix.clone().concat(".pubkey"),
                value: FieldValue::Text(re.pubkey.clone()),
            },
        );
        group.push(
            Field {
                name: prefix.clone().concat(".lamports"),
                value: FieldValue::Text(i64_to_dec(re.lamports)),
            },
        );
        group.push(
            Field {
                name: prefix.clone().concat(".post_balance"),
                value: FieldValue::Text(u64_to_dec(re.post_balance)),
            },
        );
        match &re.reward_type {
            Some(t) => {
                group.push(
                    Field {
                        name: prefix.clone().concat(".reward_type"),
                        value: FieldValue::Text(t.label().to_owned()),
                    },
                );
            },
            None => {},
        }
        let commission: u8 = match re.commission {
            Some(c) => c,
            None => 0,
        };
        group.push(
            Field {
                name: prefix.concat(".commission"),
                value: FieldValue::Text(u64_to_dec(commission as u64)),
            },
        );
        proof {
            assert(fields_view(group@) =~~= reward_fields(ev.rewards@[i as int], i as int));
        }
        let ghost pre = fields@;
        let ghost groupv = group@;
        fields.append(&mut group);
        proof {
            assert(rewards_fields(ev.rewards@, i as int + 1) == rewards_fields(
                ev.rewards@,
                i as int,
            ) + reward_fields(ev.rewards@[i as int], i as int));
            assert(fields@ == pre + groupv);
            assert(fields_view(pre + groupv) =~~= fields_view(pre) + fields_view(groupv));
            assert(fields_view(pre) + fields_view(groupv) =~~= (head + rewards_fields(
                ev.rewards@,
                i as int,
            )) + reward_fields(ev.rewards@[i as int], i as int));
            assert((head + rewards_fields(ev.rewards@, i as int)) + reward_fields(
                ev.rewards@[i as int],
                i as int,
            ) =~~= head + rewards_fields(ev.rewards@, i as int + 1));
            assert(fields_view(fields@) =~~= head + rewards_fields(ev.rewards@, i + 1));
        }
        i = i + 1;
    }
    match ev.block_time {
        Some(t) => {
            fields.push(
                Field { name: "block_time".to_owned(), value: FieldValue::Text(i64_to_dec(t)) },
            );
        },
        None => {},
    }
    match ev.block_height {
        Some(h) => {
            fields.push(
                Field { name: "block_height".to_owned(), value: FieldValue::Text(u64_to_dec(h)) },
            );
        },
        None => {},
    }
    let r = Record { key, fields };
    proof {
        assert(r@.fields =~~= block_metadata_record(*ev).fields);
        assert(r@ =~~= block_metadata_record(*ev));
    }
    r
}

} // verus!
