//! The producer's identity, extracted from an OTLP resource.

use vstd::prelude::*;
use crate::otlp::{KeyValue, Resource};
use crate::text::same_text;
use crate::values::{pairs_view, tags_of, value_to_string, value_text, Tags};

verus! {

/// Whether `k` is one of the four keys that are promoted to named fields.
pub open spec fn is_promoted(k: Seq<char>) -> bool {
    k == "service.name"@ || k == "service.version"@ || k == "service.namespace"@ || k
        == "service.instance.id"@
}

/// Keeps the attributes that are not promoted.
pub open spec fn kept() -> spec_fn(KeyValue) -> bool {
    |kv: KeyValue| !is_promoted(kv.key@)
}

/// The text of the last attribute with key `key`, or empty text if none has it.
pub open spec fn last_value(attrs: Seq<KeyValue>, key: Seq<char>) -> Seq<char>
    decreases attrs.len(),
{
    if attrs.len() == 0 {
        Seq::empty()
    } else if attrs.last().key@ == key {
        value_text(attrs.last().value)
    } else {
        last_value(attrs.drop_last(), key)
    }
}

/// The producer's identity.
#[derive(Debug, Clone)]
pub struct ResourceInfo {
    pub service_name: String,
    pub service_version: String,
    pub service_namespace: String,
    pub service_instance_id: String,
    /// Every attribute but the four promoted ones, in order.
    pub attributes: Tags,
}

/// `info` is what the attributes `attrs` give.
pub open spec fn describes(info: ResourceInfo, attrs: Seq<KeyValue>) -> bool {
    &&& info.service_name@ == last_value(attrs, "service.name"@)
    &&& info.service_version@ == last_value(attrs, "service.version"@)
    &&& info.service_namespace@ == last_value(attrs, "service.namespace"@)
    &&& info.service_instance_id@ == last_value(attrs, "service.instance.id"@)
    &&& pairs_view(info.attributes@) == tags_of(attrs.filter(kept()))
}

/// `info` is what an optional resource gives; none gives empty fields.
pub open spec fn describes_opt(info: ResourceInfo, r: Option<Resource>) -> bool {
    match r {
        Some(res) => describes(info, res.attributes@),
        None => describes(info, Seq::empty()),
    }
}

impl Default for ResourceInfo {
    fn default() -> (r: ResourceInfo)
        ensures
            describes(r, Seq::empty()),
    {
        let r = ResourceInfo {
            service_name: String::new(),
            service_version: String::new(),
            service_namespace: String::new(),
            service_instance_id: String::new(),
            attributes: Vec::new(),
        };
        assert(pairs_view(r.attributes@) =~= tags_of(Seq::<KeyValue>::empty().filter(kept())));
        r
    }
}

impl ResourceInfo {
    /// Promotes `service.name`, `service.version`, `service.namespace` and
    /// `service.instance.id` to their fields (a later one overrides an
    /// earlier one; missing ones stay empty) and keeps every other attribute.
    pub fn from(value: &Resource) -> (r: ResourceInfo)
        ensures
            describes(r, value.attributes@),
    {
        let mut info = ResourceInfo::default();
        let attrs = &value.attributes;
        let mut i: usize = 0;
        assert(attrs@.take(0) =~= Seq::<KeyValue>::empty());
        while i < attrs.len()
            invariant
                i <= attrs@.len(),
                attrs == &value.attributes,
                describes(info, attrs@.take(i as int)),
            decreases attrs@.len() - i,
        {
            proof {
                reveal_strlit("service.name");
                reveal_strlit("service.version");
                reveal_strlit("service.namespace");
                reveal_strlit("service.instance.id");
                assert("service.name"@.len() == 12);
                assert("service.version"@.len() == 15);
                assert("service.namespace"@.len() == 17);
                assert("service.instance.id"@.len() == 19);
            }
            let kv = &attrs[i];
            let ghost prev = attrs@.take(i as int);
            let ghost next = attrs@.take(i + 1);
            assert(next == prev.push(*kv));
            assert(next.drop_last() == prev);
            let text = value_to_string(&kv.value);
            if same_text(&kv.key, "service.name") {
                info.service_name = text;
            } else if same_text(&kv.key, "service.version") {
                info.service_version = text;
            } else if same_text(&kv.key, "service.namespace") {
                info.service_namespace = text;
            } else if same_text(&kv.key, "service.instance.id") {
                info.service_instance_id = text;
            } else {
                let ghost before = info.attributes@;
                info.attributes.push((kv.key.clone(), text));
                assert(pairs_view(info.attributes@) =~= pairs_view(before).push(
                    (kv.key@, value_text(kv.value)),
                ));
            }
            proof {
                prev.lemma_filter_push(*kv, kept());
            }
            assert(next.filter(kept()) == if kept()(*kv) {
                prev.filter(kept()).push(*kv)
            } else {
                prev.filter(kept())
            });
            assert(tags_of(next.filter(kept())) =~= if kept()(*kv) {
                tags_of(prev.filter(kept())).push((kv.key@, value_text(kv.value)))
            } else {
                tags_of(prev.filter(kept()))
            });
            assert(next.last() == *kv);
            i = i + 1;
        }
        assert(attrs@.take(attrs@.len() as int) == attrs@);
        info
    }
}

/// The value behind an optional reference.
pub open spec fn owned<T>(o: Option<&T>) -> Option<T> {
    match o {
        Some(x) => Some(*x),
        None => None,
    }
}

/// The identity that an optional resource gives.
pub fn resource_info_of(resource: Option<&Resource>) -> (r: ResourceInfo)
    ensures
        describes_opt(r, owned(resource)),
{
    match resource {
        Some(res) => ResourceInfo::from(res),
        None => ResourceInfo::default(),
    }
}

} // verus!
