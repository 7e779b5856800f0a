//! Projection sink: the store-side meaning of applying a record — one
//! atomic multi-field upsert under the record's key — and the wire
//! arguments of that single batched write.

use crate::record::{FieldModel, FieldValue, Record, RecordModel, ValueModel};
use vstd::prelude::*;
use vstd::slice::slice_to_vec;
use vstd::string::StringExecFns;

verus! {

/// Classification of a failed store write.
#[derive(Clone, Copy, Debug, PartialEq, Eq, Structural)]
pub enum ProjectionError {
    /// Transient: the connection failed; the caller may retry the event.
    ConnectionError,
    /// The store rejected the command: a programming defect, not retried.
    ProtocolError,
}

/// The fields of one key after the fields `fs` are written over `m`, in
/// order: last write wins per field, untouched fields stay.
pub open spec fn fields_applied(m: Map<Seq<char>, ValueModel>, fs: Seq<FieldModel>) -> Map<
    Seq<char>,
    ValueModel,
>
    decreases fs.len(),
{
    if fs.len() == 0 {
        m
    } else {
        fields_applied(m.insert(fs[0].name, fs[0].value), fs.drop_first())
    }
}

/// The field names a field sequence writes.
pub open spec fn field_names(fs: Seq<FieldModel>) -> Set<Seq<char>> {
    Set::new(|n: Seq<char>| exists|i: int| 0 <= i < fs.len() && fs[i].name == n)
}

/// The store state after a record is applied: the record's fields written
/// over whatever the key held, other keys untouched.
pub open spec fn store_after(
    store: Map<Seq<char>, Map<Seq<char>, ValueModel>>,
    rec: RecordModel,
) -> Map<Seq<char>, Map<Seq<char>, ValueModel>> {
    let existing = if store.contains_key(rec.key) {
        store[rec.key]
    } else {
        Map::<Seq<char>, ValueModel>::empty()
    };
    store.insert(rec.key, fields_applied(existing, rec.fields))
}

/// A name the fields do not write is left exactly as it was.
proof fn lemma_fields_applied_frame(
    m: Map<Seq<char>, ValueModel>,
    fs: Seq<FieldModel>,
    n: Seq<char>,
)
    requires
        !field_names(fs).contains(n),
    ensures
        fields_applied(m, fs).contains_key(n) == m.contains_key(n),
        m.contains_key(n) ==> fields_applied(m, fs)[n] == m[n],
    decreases fs.len(),
{
    if fs.len() > 0 {
        assert(field_names(fs).contains(fs[0].name)) by {
            assert(fs[0].name == fs[0].name);
        }
        assert(!field_names(fs.drop_first()).contains(n)) by {
            if field_names(fs.drop_first()).contains(n) {
                let i = choose|i: int| 0 <= i < fs.drop_first().len() && fs.drop_first()[i].name == n;
                assert(fs[i + 1].name == n);
            }
        }
        lemma_fields_applied_frame(m.insert(fs[0].name, fs[0].value), fs.drop_first(), n);
    }
}

/// A name the fields do write ends with a value that depends on the
/// fields alone, whatever the key held before.
proof fn lemma_fields_applied_agree(
    m1: Map<Seq<char>, ValueModel>,
    m2: Map<Seq<char>, ValueModel>,
    fs: Seq<FieldModel>,
    n: Seq<char>,
)
    requires
        field_names(fs).contains(n),
    ensures
        fields_applied(m1, fs).contains_key(n),
        fields_applied(m1, fs)[n] == fields_applied(m2, fs)[n],
    decreases fs.len(),
{
    let i = choose|i: int| 0 <= i < fs.len() && fs[i].name == n;
    if field_names(fs.drop_first()).contains(n) {
        lemma_fields_applied_agree(
            m1.insert(fs[0].name, fs[0].value),
            m2.insert(fs[0].name, fs[0].value),
            fs.drop_first(),
            n,
        );
    } else {
        assert(i == 0) by {
            if i > 0 {
                assert(fs.drop_first()[i - 1].name == n);
                assert(field_names(fs.drop_first()).contains(n));
            }
        }
        lemma_fields_applied_frame(m1.insert(n, fs[0].value), fs.drop_first(), n);
        lemma_fields_applied_frame(m2.insert(n, fs[0].value), fs.drop_first(), n);
    }
}

/// Idempotence of the projection write: applying the same record twice
/// produces a store state identical to applying it once, so a retry after
/// a partial failure is always safe.
pub proof fn lemma_store_after_idempotent(
    store: Map<Seq<char>, Map<Seq<char>, ValueModel>>,
    rec: RecordModel,
)
    ensures
        store_after(store_after(store, rec), rec) == store_after(store, rec),
{
    let m0 = if store.contains_key(rec.key) {
        store[rec.key]
    } else {
        Map::<Seq<char>, ValueModel>::empty()
    };
    let m1 = fields_applied(m0, rec.fields);
    let m2 = fields_applied(m1, rec.fields);
    assert forall|n: Seq<char>| m2.contains_key(n) == m1.contains_key(n) by {
        if field_names(rec.fields).contains(n) {
            lemma_fields_applied_agree(m1, m0, rec.fields, n);
            lemma_fields_applied_agree(m0, m1, rec.fields, n);
        } else {
            lemma_fields_applied_frame(m1, rec.fields, n);
        }
    }
    assert forall|n: Seq<char>| #[trigger] m2.contains_key(n) implies m2[n] == m1[n] by {
        if field_names(rec.fields).contains(n) {
            lemma_fields_applied_agree(m1, m0, rec.fields, n);
        } else {
            lemma_fields_applied_frame(m1, rec.fields, n);
        }
    }
    assert(m2 =~= m1);
    assert(store_after(store_after(store, rec), rec) =~= store_after(store, rec));
}

/// A copy of a field value.
fn clone_value(v: &FieldValue) -> (r: FieldValue)
    ensures
        r@ == v@,
{
    match v {
        FieldValue::Text(s) => FieldValue::Text(s.clone()),
        FieldValue::Bytes(b) => FieldValue::Bytes(slice_to_vec(b.as_slice())),
    }
}

/// The mathematical values of a sequence of field values.
pub open spec fn values_view(s: Seq<FieldValue>) -> Seq<ValueModel> {
    Seq::new(s.len(), |i: int| s[i]@)
}

/// The name/value arguments of the first `n` fields, interleaved in field
/// order.
pub open spec fn field_args(fs: Seq<FieldModel>, n: int) -> Seq<ValueModel>
    decreases n,
{
    if n <= 0 {
        Seq::<ValueModel>::empty()
    } else {
        field_args(fs, n - 1) + seq![ValueModel::Text(fs[n - 1].name), fs[n - 1].value]
    }
}

/// The arguments of a record's single batched write: the multi-field
/// upsert command, the key, then each field's name and value in order.
pub open spec fn command_args(rec: RecordModel) -> Seq<ValueModel> {
    seq![ValueModel::Text("HSET"@), ValueModel::Text(rec.key)] + field_args(
        rec.fields,
        rec.fields.len() as int,
    )
}

/// Buffers a record into the argument list of one batched store command,
/// so the multi-field write is submitted atomically.
pub fn record_args(rec: &Record) -> (r: Vec<FieldValue>)
    ensures
        values_view(r@) == command_args(rec@),
{
    let mut args: Vec<FieldValue> = Vec::new();
    args.push(FieldValue::Text("HSET".to_owned()));
    args.push(FieldValue::Text(rec.key.clone()));
    let ghost head = seq![ValueModel::Text("HSET"@), ValueModel::Text(rec.key@)];
    proof {
        assert(values_view(args@) =~~= head + field_args(rec@.fields, 0));
    }
    let n = rec.fields.len();
    let mut i: usize = 0;
    while i < n
        invariant
            i <= n,
            n == rec.fields@.len(),
            values_view(args@) == head + field_args(rec@.fields, i as int),
        decreases n - i,
    {
        let f = &rec.fields[i];
        let a1 = FieldValue::Text(f.name.clone());
        let a2 = clone_value(&f.value);
        let ghost pre = args@;
        proof {
            assert(seq![a1@, a2@] =~~= seq![
                ValueModel::Text(rec@.fields[i as int].name),
                rec@.fields[i as int].value,
            ]);
        }
        args.push(a1);
        args.push(a2);
        proof {
            assert(field_args(rec@.fields, i as int + 1) == field_args(rec@.fields, i as int)
                + seq![ValueModel::Text(rec@.fields[i as int].name), rec@.fields[i as int].value]);
            assert(args@ == pre.push(a1).push(a2));
            assert(values_view(pre.push(a1).push(a2)) =~~= values_view(pre) + seq![a1@, a2@]);
            assert(values_view(pre) + seq![a1@, a2@] =~~= (head + field_args(
                rec@.fields,
                i as int,
            )) + seq![ValueModel::Text(rec@.fields[i as int].name), rec@.fields[i as int].value]);
            assert((head + field_args(rec@.fields, i as int)) + seq![
                ValueModel::Text(rec@.fields[i as int].name),
                rec@.fields[i as int].value,
            ] =~~= head + field_args(rec@.fields, i as int + 1));
            assert(values_view(args@) =~~= head + field_args(rec@.fields, i + 1));
        }
        i = i + 1;
    }
    proof {
        assert(values_view(args@) =~~= command_args(rec@));
    }
    args
}

} // verus!
