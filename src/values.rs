//! Flattening attribute values to text, and attribute lists to tags.

use vstd::prelude::*;
use crate::otlp::{AnyValue, KeyValue};
use crate::text::{bool_text, hex_of, int_text, push_char, push_int, push_text};

verus! {

/// `", "`, between the items of an array or a key-value list.
pub open spec fn sep() -> Seq<char> {
    seq![',', ' ']
}

/// The text of an attribute value.
pub open spec fn value_text(v: AnyValue) -> Seq<char>
    decreases v, 0int,
{
    match v {
        AnyValue::Empty => Seq::empty(),
        AnyValue::Str(s) => s@,
        AnyValue::Bool(b) => bool_text(b),
        AnyValue::Int(i) => int_text(i as int),
        AnyValue::Double(t) => t@,
        AnyValue::Bytes(b) => hex_of(b@),
        AnyValue::Array(items) => items_text(items@, items@.len() as int),
        AnyValue::KvList(kvs) => kvs_text(kvs@, kvs@.len() as int),
    }
}

/// The texts of the first `n` items, joined by `", "`.
pub open spec fn items_text(items: Seq<AnyValue>, n: int) -> Seq<char>
    decreases items, n,
{
    if n <= 0 || n > items.len() {
        Seq::empty()
    } else if n == 1 {
        value_text(items[0])
    } else {
        items_text(items, n - 1) + sep() + value_text(items[n - 1])
    }
}

/// `key=value` for the first `n` pairs, joined by `", "`.
pub open spec fn kvs_text(kvs: Seq<KeyValue>, n: int) -> Seq<char>
    decreases kvs, n,
{
    if n <= 0 || n > kvs.len() {
        Seq::empty()
    } else if n == 1 {
        kv_text(kvs[0])
    } else {
        kvs_text(kvs, n - 1) + sep() + kv_text(kvs[n - 1])
    }
}

/// `key=value`.
pub open spec fn kv_text(kv: KeyValue) -> Seq<char>
    decreases kv, 1int,
{
    kv.key@ + seq!['='] + value_text(kv.value)
}

/// Attribute pairs in their order; read as a map, a later key overrides an
/// earlier one.
pub type Tags = Vec<(String, String)>;

/// The view of attribute pairs.
pub open spec fn pairs_view(v: Seq<(String, String)>) -> Seq<(Seq<char>, Seq<char>)> {
    v.map_values(|p: (String, String)| (p.0@, p.1@))
}

/// The tags of an attribute list: each key with the text of its value.
pub open spec fn tags_of(attrs: Seq<KeyValue>) -> Seq<(Seq<char>, Seq<char>)> {
    attrs.map_values(|kv: KeyValue| (kv.key@, value_text(kv.value)))
}

/// Appends the text of `v`.
pub(crate) fn push_value_text(out: &mut String, v: &AnyValue)
    ensures
        final(out)@ == old(out)@ + value_text(*v),
    decreases *v,
{
    match v {
        AnyValue::Empty => {
            assert(old(out)@ + Seq::<char>::empty() == old(out)@);
        },
        AnyValue::Str(s) => push_text(out, s.as_str()),
        AnyValue::Bool(b) => {
            proof {
                reveal_strlit("true");
                reveal_strlit("false");
            }
            if *b {
                push_text(out, "true");
            } else {
                push_text(out, "false");
            }
        },
        AnyValue::Int(i) => push_int(out, *i),
        AnyValue::Double(t) => push_text(out, t.as_str()),
        AnyValue::Bytes(b) => {
            let h = crate::text::bytes_to_hex(b);
            push_text(out, h.as_str());
        },
        AnyValue::Array(items) => {
            let ghost start = out@;
            let mut i: usize = 0;
            while i < items.len()
                invariant
                    i <= items@.len(),
                    *v == AnyValue::Array(*items),
                    out@ == start + items_text(items@, i as int),
                decreases items@.len() - i,
            {
                if i > 0 {
                    push_char(out, ',');
                    push_char(out, ' ');
                }
                assert(decreases_to!(*items => items[i as int]));
                assert(decreases_to!(*v => (*v)->Array_0));
                assert(decreases_to!(*v => items[i as int]));
                push_value_text(out, &items[i]);
                i = i + 1;
            }
        },
        AnyValue::KvList(kvs) => {
            let ghost start = out@;
            let mut i: usize = 0;
            while i < kvs.len()
                invariant
                    i <= kvs@.len(),
                    *v == AnyValue::KvList(*kvs),
                    out@ == start + kvs_text(kvs@, i as int),
                decreases kvs@.len() - i,
            {
                if i > 0 {
                    push_char(out, ',');
                    push_char(out, ' ');
                }
                let kv = &kvs[i];
                push_text(out, kv.key.as_str());
                push_char(out, '=');
                assert(decreases_to!(*kvs => kvs[i as int]));
                assert(decreases_to!(*v => (*v)->KvList_0));
                assert(decreases_to!(*v => kvs[i as int].value));
                push_value_text(out, &kv.value);
                assert(kv_text(kvs@[i as int]) == kv.key@ + seq!['='] + value_text(kv.value));
                assert(out@ =~= start + kvs_text(kvs@, i + 1));
                i = i + 1;
            }
        },
    }
}

/// The text of an attribute value: strings as they are, booleans and
/// integers in their textual form, bytes as lowercase hex, arrays and
/// key-value lists flattened and joined by `", "`, a missing value empty.
pub fn any_value_to_string(value: AnyValue) -> (r: String)
    ensures
        r@ == value_text(value),
{
    let mut out = String::new();
    push_value_text(&mut out, &value);
    out
}

/// The text of an attribute value, read in place.
pub fn value_to_string(value: &AnyValue) -> (r: String)
    ensures
        r@ == value_text(*value),
{
    let mut out = String::new();
    push_value_text(&mut out, value);
    out
}

/// Each attribute's key with the text of its value, in order.
pub fn extract_tags(attrs: &Vec<KeyValue>) -> (r: Tags)
    ensures
        pairs_view(r@) == tags_of(attrs@),
{
    let mut out: Tags = Vec::new();
    let mut i: usize = 0;
    while i < attrs.len()
        invariant
            i <= attrs@.len(),
            out@.len() == i,
            pairs_view(out@) == tags_of(attrs@.take(i as int)),
        decreases attrs@.len() - i,
    {
        let kv = &attrs[i];
        let k = kv.key.clone();
        let v = value_to_string(&kv.value);
        let ghost before = out@;
        out.push((k, v));
        assert(out@ == before.push((k, v)));
        assert(k@ == kv.key@);
        assert(pairs_view(out@)[i as int] == (k@, v@));
        assert(tags_of(attrs@.take(i + 1))[i as int] == (kv.key@, value_text(kv.value)));
        assert(pairs_view(out@) =~= pairs_view(before).push((k@, v@)));
        assert(tags_of(attrs@.take(i + 1)) =~= tags_of(attrs@.take(i as int)).push(
            (kv.key@, value_text(kv.value)),
        ));
        i = i + 1;
    }
    assert(attrs@.take(attrs@.len() as int) =~= attrs@);
    out
}

} // verus!
