//! Stamping gateway-attested tenant identity onto resource attributes.
//!
//! This is the trust boundary of the gateway: whatever a client wrote under
//! the reserved tenant keys is removed, and the identity of the tenant that
//! authenticated the request is written in its place.

use vstd::prelude::*;
use crate::codec::PayloadFormat;
use crate::error::ApiError;
use crate::keys::{IngestKeyType, ResolvedIngestKey};
use crate::otlp::{
    entry_attributes, entry_count, entry_scope_item_counts, invalid_payload, models,
    parse_request, parsed, resource_attributes, scope_item_counts, serialize_failure,
    serialize_request, serialized, set_entry_attributes, string_value, with_entry_attributes,
    AttributeModel, ParsedRequest, ResourceAttribute, ValueModel,
};
use crate::signal::Signal;
use crate::text::str_eq;

verus! {

/// The value of `maple_ingest_source` on everything that passed the gateway.
pub const INGEST_SOURCE: &'static str = "maple-ingest-gateway";

/// Whether `key` is one of the two reserved tenant identifiers that clients
/// may not set.
pub open spec fn is_tenant_key(key: Seq<char>) -> bool {
    key == "org_id"@ || key == "maple_org_id"@
}

/// The predicate "is not a reserved tenant identifier" on attributes.
pub open spec fn not_tenant_key() -> spec_fn(AttributeModel) -> bool {
    |a: AttributeModel| !is_tenant_key(a.key)
}

/// `attributes` without those under a reserved tenant identifier.
pub open spec fn without_tenant_keys(attributes: Seq<AttributeModel>) -> Seq<AttributeModel> {
    attributes.filter(not_tenant_key())
}

/// The predicate "has the key `key`" on attributes.
pub open spec fn with_key(key: Seq<char>) -> spec_fn(AttributeModel) -> bool {
    |a: AttributeModel| a.key == key
}

/// The predicate "has another key than `key`" on attributes.
pub open spec fn other_key(key: Seq<char>) -> spec_fn(AttributeModel) -> bool {
    |a: AttributeModel| a.key != key
}

/// The index of the first attribute with key `key`, or the length of the
/// list if there is none.
pub open spec fn position_of(attributes: Seq<AttributeModel>, key: Seq<char>) -> int
    decreases attributes.len(),
{
    if attributes.len() == 0 {
        0
    } else if attributes.first().key == key {
        0
    } else {
        1 + position_of(attributes.drop_first(), key)
    }
}

/// `attributes` after setting `key` to the string `text`. The first
/// attribute with that key gets the new value and stays where it is, and
/// every later attribute with that key is removed; if no attribute has the
/// key, a new one is appended. Either way exactly one attribute has the key
/// afterwards.
pub open spec fn upserted(attributes: Seq<AttributeModel>, key: Seq<char>, text: Seq<char>) -> Seq<
    AttributeModel,
> {
    let i = position_of(attributes, key);
    if i < attributes.len() {
        attributes.take(i).push(AttributeModel { value: ValueModel::Text(text), ..attributes[i] })
            + attributes.skip(i + 1).filter(other_key(key))
    } else {
        attributes.push(AttributeModel { key, value: ValueModel::Text(text), key_strindex: 0 })
    }
}

/// The attribute list of a resource after enrichment for the tenant
/// `org_id` authenticated by a key of kind `key_type`.
pub open spec fn enriched(
    attributes: Seq<AttributeModel>,
    org_id: Seq<char>,
    key_type: IngestKeyType,
) -> Seq<AttributeModel> {
    upserted(
        upserted(
            upserted(without_tenant_keys(attributes), "maple_org_id"@, org_id),
            "maple_ingest_key_type"@,
            key_type.label(),
        ),
        "maple_ingest_source"@,
        "maple-ingest-gateway"@,
    )
}

/// Exactly one attribute has the key `key`, and its value is the string `text`.
pub open spec fn holds_once(attributes: Seq<AttributeModel>, key: Seq<char>, text: Seq<char>) -> bool {
    let found = attributes.filter(with_key(key));
    found.len() == 1 && found[0].value == ValueModel::Text(text)
}

/// No attribute has the key `key`.
pub open spec fn holds_none(attributes: Seq<AttributeModel>, key: Seq<char>) -> bool {
    attributes.filter(with_key(key)).len() == 0
}

/// `position_of` is the least index holding `key`, and the length if no
/// index holds it.
pub proof fn lemma_position_of(attributes: Seq<AttributeModel>, key: Seq<char>)
    ensures
        0 <= position_of(attributes, key) <= attributes.len(),
        forall|j: int| 0 <= j < position_of(attributes, key) ==> (#[trigger] attributes[j]).key != key,
        position_of(attributes, key) < attributes.len() ==> attributes[position_of(
            attributes,
            key,
        )].key == key,
    decreases attributes.len(),
{
    if attributes.len() > 0 && attributes.first().key != key {
        let rest = attributes.drop_first();
        lemma_position_of(rest, key);
        assert forall|j: int| 0 <= j < position_of(attributes, key) implies (
        #[trigger] attributes[j]).key != key by {
            if j > 0 {
                assert(attributes[j] == rest[j - 1]);
            }
        }
    }
}

/// An index that holds `key` and is preceded by none that does is `position_of`.
pub proof fn lemma_position_is(attributes: Seq<AttributeModel>, key: Seq<char>, i: int)
    requires
        0 <= i <= attributes.len(),
        forall|j: int| 0 <= j < i ==> (#[trigger] attributes[j]).key != key,
        i < attributes.len() ==> attributes[i].key == key,
    ensures
        position_of(attributes, key) == i,
{
    lemma_position_of(attributes, key);
    let p = position_of(attributes, key);
    if p < i {
        assert(attributes[p].key != key);
    }
}

/// Where no element meets a predicate, filtering by it leaves nothing.
pub proof fn lemma_filter_none(attributes: Seq<AttributeModel>, pred: spec_fn(AttributeModel) -> bool)
    requires
        forall|j: int| 0 <= j < attributes.len() ==> !pred(#[trigger] attributes[j]),
    ensures
        attributes.filter(pred) == Seq::<AttributeModel>::empty(),
    decreases attributes.len(),
{
    reveal(Seq::filter);
    if attributes.len() > 0 {
        let shorter = attributes.drop_last();
        assert forall|j: int| 0 <= j < shorter.len() implies !pred(#[trigger] shorter[j]) by {
            assert(shorter[j] == attributes[j]);
        }
        lemma_filter_none(shorter, pred);
        assert(!pred(attributes[attributes.len() - 1]));
    }
}

/// Filtering by a predicate and then by a narrower one is filtering by the
/// narrower one.
pub proof fn lemma_filter_narrower(
    attributes: Seq<AttributeModel>,
    wide: spec_fn(AttributeModel) -> bool,
    narrow: spec_fn(AttributeModel) -> bool,
)
    requires
        forall|a: AttributeModel| #[trigger] narrow(a) ==> wide(a),
    ensures
        attributes.filter(wide).filter(narrow) == attributes.filter(narrow),
    decreases attributes.len(),
{
    reveal(Seq::filter);
    if attributes.len() > 0 {
        let shorter = attributes.drop_last();
        let last = attributes.last();
        lemma_filter_narrower(shorter, wide, narrow);
        if wide(last) {
            let kept = shorter.filter(wide);
            assert(kept.push(last).drop_last() =~= kept);
            assert(kept.push(last).last() == last);
        } else {
            assert(!narrow(last));
        }
    }
}

/// Filtering a list with one more element at its end.
pub proof fn lemma_filter_push(
    attributes: Seq<AttributeModel>,
    last: AttributeModel,
    pred: spec_fn(AttributeModel) -> bool,
)
    ensures
        attributes.push(last).filter(pred) == if pred(last) {
            attributes.filter(pred).push(last)
        } else {
            attributes.filter(pred)
        },
{
    reveal(Seq::filter);
    assert(attributes.push(last).drop_last() =~= attributes);
    assert(attributes.push(last).last() == last);
}

/// After an upsert exactly one attribute has the key, and its value is the
/// string written.
pub proof fn lemma_upserted_writes(
    attributes: Seq<AttributeModel>,
    key: Seq<char>,
    text: Seq<char>,
)
    ensures
        holds_once(upserted(attributes, key, text), key, text),
{
    lemma_position_of(attributes, key);
    let p = position_of(attributes, key);
    let pred = with_key(key);
    if p < attributes.len() {
        let head = attributes.take(p);
        let written = AttributeModel { value: ValueModel::Text(text), ..attributes[p] };
        let tail = attributes.skip(p + 1).filter(other_key(key));
        assert forall|j: int| 0 <= j < head.len() implies !pred(#[trigger] head[j]) by {
            assert(head[j] == attributes[j]);
        }
        lemma_filter_none(head, pred);
        lemma_filter_push(head, written, pred);
        assert forall|j: int| 0 <= j < tail.len() implies !pred(#[trigger] tail[j]) by {
            attributes.skip(p + 1).lemma_filter_pred(other_key(key), j);
        }
        lemma_filter_none(tail, pred);
        Seq::filter_distributes_over_add(head.push(written), tail, pred);
        assert(upserted(attributes, key, text).filter(pred) =~= seq![written]);
    } else {
        let written = AttributeModel { key, value: ValueModel::Text(text), key_strindex: 0 };
        lemma_filter_none(attributes, pred);
        lemma_filter_push(attributes, written, pred);
        assert(upserted(attributes, key, text).filter(pred) =~= seq![written]);
    }
}

/// An upsert leaves the attributes under every other key as they are, in
/// their order.
pub proof fn lemma_upserted_keeps(
    attributes: Seq<AttributeModel>,
    key: Seq<char>,
    text: Seq<char>,
    other: Seq<char>,
)
    requires
        other != key,
    ensures
        upserted(attributes, key, text).filter(with_key(other)) == attributes.filter(
            with_key(other),
        ),
{
    lemma_position_of(attributes, key);
    let p = position_of(attributes, key);
    let pred = with_key(other);
    if p < attributes.len() {
        let head = attributes.take(p);
        let written = AttributeModel { value: ValueModel::Text(text), ..attributes[p] };
        let rest = attributes.skip(p + 1);
        lemma_filter_push(head, written, pred);
        lemma_filter_push(head, attributes[p], pred);
        lemma_filter_narrower(rest, other_key(key), pred);
        Seq::filter_distributes_over_add(head.push(written), rest.filter(other_key(key)), pred);
        Seq::filter_distributes_over_add(head.push(attributes[p]), rest, pred);
        assert(attributes =~= head.push(attributes[p]) + rest);
    } else {
        let written = AttributeModel { key, value: ValueModel::Text(text), key_strindex: 0 };
        lemma_filter_push(attributes, written, pred);
    }
}

/// Removing the reserved tenant identifiers leaves nothing under them and
/// everything under other keys.
pub proof fn lemma_without_tenant_keys(attributes: Seq<AttributeModel>, key: Seq<char>)
    ensures
        without_tenant_keys(attributes).filter(with_key(key)) == if is_tenant_key(key) {
            Seq::<AttributeModel>::empty()
        } else {
            attributes.filter(with_key(key))
        },
{
    let kept = without_tenant_keys(attributes);
    if is_tenant_key(key) {
        assert forall|j: int| 0 <= j < kept.len() implies !with_key(key)(#[trigger] kept[j]) by {
            attributes.lemma_filter_pred(not_tenant_key(), j);
        }
        lemma_filter_none(kept, with_key(key));
    } else {
        lemma_filter_narrower(attributes, not_tenant_key(), with_key(key));
    }
}

/// The four attribute keys the gateway knows are pairwise different.
pub proof fn lemma_reserved_keys_differ()
    ensures
        "org_id"@ != "maple_org_id"@,
        "org_id"@ != "maple_ingest_key_type"@,
        "org_id"@ != "maple_ingest_source"@,
        "maple_org_id"@ != "maple_ingest_key_type"@,
        "maple_org_id"@ != "maple_ingest_source"@,
        "maple_ingest_key_type"@ != "maple_ingest_source"@,
{
    reveal_strlit("org_id");
    reveal_strlit("maple_org_id");
    reveal_strlit("maple_ingest_key_type");
    reveal_strlit("maple_ingest_source");
    assert("org_id"@.len() == 6);
    assert("maple_org_id"@.len() == 12);
    assert("maple_ingest_key_type"@.len() == 21);
    assert("maple_ingest_source"@.len() == 19);
}

/// Whatever the client sent, an enriched attribute list holds exactly one
/// `maple_org_id`, whose value is the authenticated tenant's organization;
/// exactly one `maple_ingest_key_type`, whose value is the label of the
/// key's kind; exactly one `maple_ingest_source`, whose value is the
/// gateway's name; and no `org_id`.
pub proof fn lemma_enriched_identity(
    attributes: Seq<AttributeModel>,
    org_id: Seq<char>,
    key_type: IngestKeyType,
)
    ensures
        holds_once(enriched(attributes, org_id, key_type), "maple_org_id"@, org_id),
        holds_once(
            enriched(attributes, org_id, key_type),
            "maple_ingest_key_type"@,
            key_type.label(),
        ),
        holds_once(
            enriched(attributes, org_id, key_type),
            "maple_ingest_source"@,
            "maple-ingest-gateway"@,
        ),
        holds_none(enriched(attributes, org_id, key_type), "org_id"@),
{
    lemma_reserved_keys_differ();
    let e0 = without_tenant_keys(attributes);
    let e1 = upserted(e0, "maple_org_id"@, org_id);
    let e2 = upserted(e1, "maple_ingest_key_type"@, key_type.label());
    lemma_upserted_writes(e0, "maple_org_id"@, org_id);
    lemma_upserted_keeps(e1, "maple_ingest_key_type"@, key_type.label(), "maple_org_id"@);
    lemma_upserted_keeps(e2, "maple_ingest_source"@, "maple-ingest-gateway"@, "maple_org_id"@);
    lemma_upserted_writes(e1, "maple_ingest_key_type"@, key_type.label());
    lemma_upserted_keeps(
        e2,
        "maple_ingest_source"@,
        "maple-ingest-gateway"@,
        "maple_ingest_key_type"@,
    );
    lemma_upserted_writes(e2, "maple_ingest_source"@, "maple-ingest-gateway"@);
    lemma_without_tenant_keys(attributes, "org_id"@);
    lemma_upserted_keeps(e0, "maple_org_id"@, org_id, "org_id"@);
    lemma_upserted_keeps(e1, "maple_ingest_key_type"@, key_type.label(), "org_id"@);
    lemma_upserted_keeps(e2, "maple_ingest_source"@, "maple-ingest-gateway"@, "org_id"@);
}

/// Enrichment leaves the attributes under every key but the reserved and
/// stamped ones as the client sent them, in their order.
pub proof fn lemma_enriched_keeps(
    attributes: Seq<AttributeModel>,
    org_id: Seq<char>,
    key_type: IngestKeyType,
    key: Seq<char>,
)
    requires
        !is_tenant_key(key),
        key != "maple_ingest_key_type"@,
        key != "maple_ingest_source"@,
    ensures
        enriched(attributes, org_id, key_type).filter(with_key(key)) == attributes.filter(
            with_key(key),
        ),
{
    let e0 = without_tenant_keys(attributes);
    let e1 = upserted(e0, "maple_org_id"@, org_id);
    let e2 = upserted(e1, "maple_ingest_key_type"@, key_type.label());
    lemma_without_tenant_keys(attributes, key);
    lemma_upserted_keeps(e0, "maple_org_id"@, org_id, key);
    lemma_upserted_keeps(e1, "maple_ingest_key_type"@, key_type.label(), key);
    lemma_upserted_keeps(e2, "maple_ingest_source"@, "maple-ingest-gateway"@, key);
}

/// Where every element meets a predicate, filtering by it changes nothing.
pub proof fn lemma_filter_all(attributes: Seq<AttributeModel>, pred: spec_fn(AttributeModel) -> bool)
    requires
        forall|j: int| 0 <= j < attributes.len() ==> pred(#[trigger] attributes[j]),
    ensures
        attributes.filter(pred) == attributes,
    decreases attributes.len(),
{
    reveal(Seq::filter);
    if attributes.len() > 0 {
        let shorter = attributes.drop_last();
        assert forall|j: int| 0 <= j < shorter.len() implies pred(#[trigger] shorter[j]) by {
            assert(shorter[j] == attributes[j]);
        }
        lemma_filter_all(shorter, pred);
        assert(pred(attributes[attributes.len() - 1]));
        assert(shorter.push(attributes.last()) =~= attributes);
    }
}

/// Where no attribute is found under a key, no index holds the key.
pub proof fn lemma_none_position(attributes: Seq<AttributeModel>, key: Seq<char>)
    requires
        holds_none(attributes, key),
    ensures
        forall|j: int| 0 <= j < attributes.len() ==> (#[trigger] attributes[j]).key != key,
{
    assert forall|j: int| 0 <= j < attributes.len() implies (#[trigger] attributes[j]).key
        != key by {
        if attributes[j].key == key {
            attributes.lemma_filter_contains(with_key(key), j);
        }
    }
}

/// Where exactly one attribute is found under a key, it is the one at
/// `position_of`, and no other index holds the key.
pub proof fn lemma_once_position(attributes: Seq<AttributeModel>, key: Seq<char>)
    requires
        attributes.filter(with_key(key)).len() == 1,
    ensures
        ({
            let p = position_of(attributes, key);
            &&& 0 <= p < attributes.len()
            &&& attributes[p] == attributes.filter(with_key(key))[0]
            &&& forall|j: int|
                0 <= j < attributes.len() && j != p ==> (#[trigger] attributes[j]).key != key
        }),
    decreases attributes.len(),
{
    reveal(Seq::filter);
    let pred = with_key(key);
    if attributes.len() > 0 {
        let shorter = attributes.drop_last();
        let last = attributes.last();
        if pred(last) {
            assert(shorter.filter(pred).push(last).len() == 1);
            lemma_none_position(shorter, key);
            assert forall|j: int| 0 <= j < attributes.len() - 1 implies (
            #[trigger] attributes[j]).key != key by {
                assert(attributes[j] == shorter[j]);
            }
            lemma_position_is(attributes, key, attributes.len() - 1);
        } else {
            lemma_once_position(shorter, key);
            lemma_position_of(shorter, key);
            let p = position_of(shorter, key);
            assert forall|j: int| 0 <= j < p implies (#[trigger] attributes[j]).key != key by {
                assert(attributes[j] == shorter[j]);
            }
            assert(attributes[p] == shorter[p]);
            lemma_position_is(attributes, key, p);
            assert forall|j: int| 0 <= j < attributes.len() && j != p implies (
            #[trigger] attributes[j]).key != key by {
                if j < shorter.len() {
                    assert(attributes[j] == shorter[j]);
                }
            }
        }
    }
}

/// Writing a value where the key already holds exactly that value, once,
/// changes nothing.
pub proof fn lemma_upserted_same(attributes: Seq<AttributeModel>, key: Seq<char>, text: Seq<char>)
    requires
        holds_once(attributes, key, text),
    ensures
        upserted(attributes, key, text) == attributes,
{
    lemma_once_position(attributes, key);
    let p = position_of(attributes, key);
    let rest = attributes.skip(p + 1);
    assert forall|j: int| 0 <= j < rest.len() implies other_key(key)(#[trigger] rest[j]) by {
        assert(rest[j] == attributes[p + 1 + j]);
    }
    lemma_filter_all(rest, other_key(key));
    assert(upserted(attributes, key, text) =~= attributes);
}

/// An upsert of a key that the list holds goes past an attribute of another
/// key appended to the list.
pub proof fn lemma_upserted_push(
    attributes: Seq<AttributeModel>,
    last: AttributeModel,
    key: Seq<char>,
    text: Seq<char>,
)
    requires
        position_of(attributes, key) < attributes.len(),
        last.key != key,
    ensures
        upserted(attributes.push(last), key, text) == upserted(attributes, key, text).push(last),
{
    lemma_position_of(attributes, key);
    let p = position_of(attributes, key);
    let longer = attributes.push(last);
    assert forall|j: int| 0 <= j < p implies (#[trigger] longer[j]).key != key by {
        assert(longer[j] == attributes[j]);
    }
    assert(longer[p] == attributes[p]);
    lemma_position_is(longer, key, p);
    assert(longer.take(p) =~= attributes.take(p));
    assert(longer.skip(p + 1) =~= attributes.skip(p + 1).push(last));
    lemma_filter_push(attributes.skip(p + 1), last, other_key(key));
    assert(upserted(longer, key, text) =~= upserted(attributes, key, text).push(last));
}

/// Stamping a list that holds no reserved tenant identifier and already
/// holds the key's kind and the gateway's name, each once, appends the
/// tenant's organization and changes nothing else.
pub proof fn lemma_stamps_settled(
    attributes: Seq<AttributeModel>,
    org_id: Seq<char>,
    key_type: IngestKeyType,
)
    requires
        forall|j: int| 0 <= j < attributes.len() ==> !is_tenant_key((#[trigger] attributes[j]).key),
        holds_once(attributes, "maple_ingest_key_type"@, key_type.label()),
        holds_once(attributes, "maple_ingest_source"@, "maple-ingest-gateway"@),
    ensures
        upserted(
            upserted(
                upserted(attributes, "maple_org_id"@, org_id),
                "maple_ingest_key_type"@,
                key_type.label(),
            ),
            "maple_ingest_source"@,
            "maple-ingest-gateway"@,
        ) == attributes.push(
            AttributeModel {
                key: "maple_org_id"@,
                value: ValueModel::Text(org_id),
                key_strindex: 0,
            },
        ),
{
    lemma_reserved_keys_differ();
    let stamp = AttributeModel {
        key: "maple_org_id"@,
        value: ValueModel::Text(org_id),
        key_strindex: 0,
    };
    lemma_position_is(attributes, "maple_org_id"@, attributes.len() as int);
    lemma_once_position(attributes, "maple_ingest_key_type"@);
    lemma_upserted_push(attributes, stamp, "maple_ingest_key_type"@, key_type.label());
    lemma_upserted_same(attributes, "maple_ingest_key_type"@, key_type.label());
    lemma_once_position(attributes, "maple_ingest_source"@);
    lemma_upserted_push(attributes, stamp, "maple_ingest_source"@, "maple-ingest-gateway"@);
    lemma_upserted_same(attributes, "maple_ingest_source"@, "maple-ingest-gateway"@);
}

/// Enrichment settles: a list that was enriched twice for a tenant is left
/// as it is by every further enrichment for that tenant. (The first
/// enrichment may still find the stamps where the client put them; the
/// second moves `maple_org_id` to the end, where it stays.)
pub proof fn lemma_enriched_settles(
    attributes: Seq<AttributeModel>,
    org_id: Seq<char>,
    key_type: IngestKeyType,
)
    ensures
        ({
            let twice = enriched(enriched(attributes, org_id, key_type), org_id, key_type);
            enriched(twice, org_id, key_type) == twice
        }),
{
    lemma_reserved_keys_differ();
    let once = enriched(attributes, org_id, key_type);
    let kept = without_tenant_keys(once);
    let stamp = AttributeModel {
        key: "maple_org_id"@,
        value: ValueModel::Text(org_id),
        key_strindex: 0,
    };
    lemma_enriched_identity(attributes, org_id, key_type);
    lemma_without_tenant_keys(once, "maple_ingest_key_type"@);
    lemma_without_tenant_keys(once, "maple_ingest_source"@);
    assert forall|j: int| 0 <= j < kept.len() implies !is_tenant_key((#[trigger] kept[j]).key) by {
        once.lemma_filter_pred(not_tenant_key(), j);
    }
    lemma_stamps_settled(kept, org_id, key_type);
    let twice = enriched(once, org_id, key_type);
    assert(twice == kept.push(stamp));
    lemma_filter_push(kept, stamp, not_tenant_key());
    lemma_filter_all(kept, not_tenant_key());
    assert(without_tenant_keys(twice) == kept);
}

/// The index of the first attribute with key `key`, or the length of the
/// list if there is none.
fn find_key(attributes: &Vec<ResourceAttribute>, key: &str) -> (r: usize)
    ensures
        r == position_of(models(attributes@), key@),
        r <= attributes.len(),
{
    let ghost all = models(attributes@);
    let mut i: usize = 0;
    while i < attributes.len()
        invariant
            i <= attributes.len(),
            all == models(attributes@),
            forall|j: int| 0 <= j < i ==> (#[trigger] all[j]).key != key@,
        decreases attributes.len() - i,
    {
        if str_eq(attributes[i].key.as_str(), key) {
            proof {
                lemma_position_is(all, key@, i as int);
            }
            return i;
        }
        i += 1;
    }
    proof {
        lemma_position_is(all, key@, all.len() as int);
    }
    i
}

/// What an upsert at `position` has written once the first `n` attributes
/// are dealt with.
spec fn upserted_upto(
    attributes: Seq<AttributeModel>,
    key: Seq<char>,
    text: Seq<char>,
    position: int,
    n: int,
) -> Seq<AttributeModel> {
    if n <= position {
        attributes.take(n)
    } else {
        attributes.take(position).push(
            AttributeModel { value: ValueModel::Text(text), ..attributes[position] },
        ) + attributes.subrange(position + 1, n).filter(other_key(key))
    }
}

/// Sets the attribute `key` to the string `value`: the first attribute with
/// that key gets the value and every later one with that key is removed; if
/// there is none, a new attribute is appended.
pub fn upsert_string_attribute(attributes: &mut Vec<ResourceAttribute>, key: &str, value: &str)
    ensures
        models(final(attributes)@) == upserted(models(old(attributes)@), key@, value@),
{
    let ghost before = models(attributes@);
    let position = find_key(attributes, key);
    if position == attributes.len() {
        attributes.push(
            ResourceAttribute {
                key: key.to_owned(),
                value: Some(string_value(value)),
                key_strindex: 0,
            },
        );
        assert(models(attributes@) =~= upserted(before, key@, value@));
        return ;
    }
    let mut all: Vec<ResourceAttribute> = Vec::new();
    std::mem::swap(attributes, &mut all);
    let mut kept: Vec<ResourceAttribute> = Vec::new();
    let mut n: usize = 0;
    for attribute in it: all.into_iter()
        invariant
            n == it.index(),
            models(it.seq()) == before,
            position < before.len() <= usize::MAX,
            models(kept@) == upserted_upto(before, key@, value@, position as int, n as int),
    {
        let ghost shorter = models(kept@);
        proof {
            reveal(Seq::filter);
            assert(before[n as int] == attribute@);
            if n < position {
                assert(before.take(n + 1) =~= before.take(n as int).push(before[n as int]));
            } else if n == position {
                assert(before.subrange(position + 1, n + 1) =~= Seq::<AttributeModel>::empty());
            } else {
                let longer = before.subrange(position + 1, n + 1);
                assert(longer.drop_last() =~= before.subrange(position + 1, n as int));
                assert(longer.last() == before[n as int]);
            }
        }
        if n == position {
            let mut written = attribute;
            written.value = Some(string_value(value));
            kept.push(written);
            assert(models(kept@) =~= upserted_upto(
                before,
                key@,
                value@,
                position as int,
                n + 1,
            ));
        } else if n < position || !str_eq(attribute.key.as_str(), key) {
            kept.push(attribute);
            assert(models(kept@) =~= shorter.push(attribute@));
            assert(models(kept@) =~= upserted_upto(
                before,
                key@,
                value@,
                position as int,
                n + 1,
            ));
        } else {
            assert(models(kept@) =~= upserted_upto(
                before,
                key@,
                value@,
                position as int,
                n + 1,
            ));
        }
        n = n + 1;
    }
    proof {
        assert(before.subrange(position + 1, before.len() as int) =~= before.skip(position + 1));
    }
    *attributes = kept;
}

/// Removes every attribute under a reserved tenant identifier.
fn remove_tenant_keys(attributes: &mut Vec<ResourceAttribute>)
    ensures
        models(final(attributes)@) == without_tenant_keys(models(old(attributes)@)),
{
    let ghost before = models(attributes@);
    let mut all: Vec<ResourceAttribute> = Vec::new();
    std::mem::swap(attributes, &mut all);
    let mut kept: Vec<ResourceAttribute> = Vec::new();
    proof {
        reveal(Seq::filter);
        assert(before.take(0) =~= Seq::<AttributeModel>::empty());
    }
    for attribute in it: all.into_iter()
        invariant
            models(it.seq()) == before,
            models(kept@) == without_tenant_keys(before.take(it.index() as int)),
    {
        let ghost n = it.index() as int;
        proof {
            reveal(Seq::filter);
            assert(before.take(n + 1).drop_last() =~= before.take(n));
            assert(before.take(n + 1).last() == attribute@);
        }
        let reserved = str_eq(attribute.key.as_str(), "org_id") || str_eq(
            attribute.key.as_str(),
            "maple_org_id",
        );
        if !reserved {
            let ghost shorter = models(kept@);
            kept.push(attribute);
            assert(models(kept@) =~= shorter.push(attribute@));
        }
    }
    proof {
        assert(before.take(before.len() as int) =~= before);
    }
    *attributes = kept;
}

/// Enriches the attribute list of one resource for the authenticated tenant:
/// strips `org_id` and `maple_org_id`, then writes `maple_org_id`,
/// `maple_ingest_key_type` and `maple_ingest_source`.
pub fn enrich_resource_attributes(
    attributes: &mut Vec<ResourceAttribute>,
    resolved_key: &ResolvedIngestKey,
)
    ensures
        models(final(attributes)@) == enriched(
            models(old(attributes)@),
            resolved_key.org_id@,
            resolved_key.key_type,
        ),
{
    remove_tenant_keys(attributes);
    upsert_string_attribute(attributes, "maple_org_id", resolved_key.org_id.as_str());
    upsert_string_attribute(attributes, "maple_ingest_key_type", resolved_key.key_type.as_str());
    upsert_string_attribute(attributes, "maple_ingest_source", INGEST_SOURCE);
}

/// `request` with the resources of its first `n` entries enriched.
pub open spec fn enriched_upto(
    request: ParsedRequest,
    n: nat,
    org_id: Seq<char>,
    key_type: IngestKeyType,
) -> ParsedRequest
    decreases n,
{
    if n == 0 {
        request
    } else {
        with_entry_attributes(
            enriched_upto(request, (n - 1) as nat, org_id, key_type),
            n - 1,
            enriched(resource_attributes(request)[n - 1], org_id, key_type),
        )
    }
}

/// `request` with the resource of every entry enriched.
pub open spec fn enriched_request(
    request: ParsedRequest,
    org_id: Seq<char>,
    key_type: IngestKeyType,
) -> ParsedRequest {
    enriched_upto(request, resource_attributes(request).len(), org_id, key_type)
}

/// Attribute lists, each enriched.
pub open spec fn enriched_lists(
    lists: Seq<Seq<AttributeModel>>,
    org_id: Seq<char>,
    key_type: IngestKeyType,
) -> Seq<Seq<AttributeModel>> {
    Seq::new(lists.len(), |i: int| enriched(lists[i], org_id, key_type))
}

/// Enriches every resource entry of a parsed request. An entry that came
/// without a resource gets one. Nothing but resource attributes changes.
pub fn enrich_request(request: &mut ParsedRequest, resolved_key: &ResolvedIngestKey)
    ensures
        *final(request) == enriched_request(
            *old(request),
            resolved_key.org_id@,
            resolved_key.key_type,
        ),
        resource_attributes(*final(request)) == enriched_lists(
            resource_attributes(*old(request)),
            resolved_key.org_id@,
            resolved_key.key_type,
        ),
        scope_item_counts(*final(request)) == scope_item_counts(*old(request)),
        final(request).signal() == old(request).signal(),
{
    let ghost lists = resource_attributes(*request);
    let ghost org_id = resolved_key.org_id@;
    let ghost key_type = resolved_key.key_type;
    let n: usize = entry_count(request);
    let mut i: usize = 0;
    while i < n
        invariant
            i <= n,
            n == lists.len(),
            lists == resource_attributes(*old(request)),
            org_id == resolved_key.org_id@,
            key_type == resolved_key.key_type,
            *request == enriched_upto(*old(request), i as nat, org_id, key_type),
            resource_attributes(*request).len() == n,
            forall|j: int| 0 <= j < i ==> #[trigger] resource_attributes(*request)[j] == enriched(
                lists[j],
                org_id,
                key_type,
            ),
            forall|j: int| i <= j < n ==> #[trigger] resource_attributes(*request)[j] == lists[j],
            scope_item_counts(*request) == scope_item_counts(*old(request)),
            request.signal() == old(request).signal(),
        decreases n - i,
    {
        let mut attributes = entry_attributes(request, i);
        enrich_resource_attributes(&mut attributes, resolved_key);
        set_entry_attributes(request, i, attributes);
        i += 1;
    }
    assert(resource_attributes(*request) =~= enriched_lists(lists, org_id, key_type));
}

/// The sum of a list of counts.
pub open spec fn sum(counts: Seq<nat>) -> nat
    decreases counts.len(),
{
    if counts.len() == 0 {
        0
    } else {
        sum(counts.drop_last()) + counts.last()
    }
}

/// The sum of all counts in a list of lists.
pub open spec fn total(counts: Seq<Seq<nat>>) -> nat
    decreases counts.len(),
{
    if counts.len() == 0 {
        0
    } else {
        total(counts.drop_last()) + sum(counts.last())
    }
}

/// The number of items (spans, log records or metric definitions) in `request`.
pub open spec fn item_total(request: ParsedRequest) -> nat {
    total(scope_item_counts(request))
}

/// `n`, or `usize::MAX` where `n` does not fit.
pub open spec fn clamped(n: nat) -> usize {
    if n <= usize::MAX {
        n as usize
    } else {
        usize::MAX
    }
}

/// The sum of `counts`, clamped to `usize::MAX`.
fn sum_counts(counts: &Vec<usize>) -> (r: usize)
    ensures
        r == clamped(sum(counts@.map_values(|n: usize| n as nat))),
{
    let ghost all = counts@.map_values(|n: usize| n as nat);
    let mut acc: usize = 0;
    let mut i: usize = 0;
    assert(all.take(0) =~= Seq::<nat>::empty());
    while i < counts.len()
        invariant
            i <= counts.len(),
            all == counts@.map_values(|n: usize| n as nat),
            acc == clamped(sum(all.take(i as int))),
        decreases counts.len() - i,
    {
        assert(all.take(i + 1).drop_last() =~= all.take(i as int));
        acc = acc.saturating_add(counts[i]);
        i += 1;
    }
    assert(all.take(i as int) =~= all);
    acc
}

/// Totals the items of a request over all resource entries and scopes. The
/// total is clamped to `usize::MAX`.
pub fn count_items(request: &ParsedRequest) -> (r: usize)
    ensures
        r == clamped(item_total(*request)),
{
    let ghost all = scope_item_counts(*request);
    let n: usize = entry_count(request);
    let mut acc: usize = 0;
    let mut i: usize = 0;
    assert(all.take(0) =~= Seq::<Seq<nat>>::empty());
    while i < n
        invariant
            i <= n,
            n == all.len(),
            all == scope_item_counts(*request),
            acc == clamped(total(all.take(i as int))),
        decreases n - i,
    {
        assert(all.take(i + 1).drop_last() =~= all.take(i as int));
        let counts = entry_scope_item_counts(request, i);
        acc = acc.saturating_add(sum_counts(&counts));
        i += 1;
    }
    assert(all.take(i as int) =~= all);
    acc
}

/// An enriched payload, ready to be encoded and forwarded.
#[derive(Debug)]
pub struct EnrichResult {
    pub payload: Vec<u8>,
    pub item_count: usize,
}

/// Parses a decoded body, enriches every resource for the authenticated
/// tenant, and serializes the request again in the format it came in.
pub fn enrich_payload(
    signal: Signal,
    payload_format: PayloadFormat,
    payload: &[u8],
    resolved_key: &ResolvedIngestKey,
) -> (r: Result<EnrichResult, ApiError>)
    ensures
        match parsed(signal, payload_format, payload@) {
            None => r matches Err(e) && e@ == invalid_payload(signal, payload_format),
            Some(request) => match serialized(
                enriched_request(request, resolved_key.org_id@, resolved_key.key_type),
                payload_format,
            ) {
                Some(bytes) => r matches Ok(out) && out.payload@ == bytes && out.item_count
                    == clamped(item_total(request)),
                None => r matches Err(e) && e@ == serialize_failure(signal),
            },
        },
{
    let mut request = match parse_request(signal, payload_format, payload) {
        Ok(request) => request,
        Err(e) => {
            return Err(e);
        },
    };
    enrich_request(&mut request, resolved_key);
    let item_count = count_items(&request);
    match serialize_request(&request, payload_format) {
        Ok(payload) => Ok(EnrichResult { payload, item_count }),
        Err(e) => Err(e),
    }
}

} // verus!
