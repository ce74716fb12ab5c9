//! Batches in the form that a delivery call takes: one JSON object per
//! batch. The JSON values are built by `serenity` and `serde_json`; they are
//! opaque to the proofs, which follow which value stands for which payload
//! and which arrays an object holds.

use vstd::prelude::*;
use crate::batch::{batched, lemma_batches_partition};
use crate::embed::{Embed, EmbedView, embed_views};

verus! {

/// A JSON value, opaque to the proofs.
#[verifier::external_type_specification]
#[verifier::external_body]
pub struct ExJsonValue(serde_json::Value);

/// A JSON object, opaque to the proofs.
#[verifier::external_type_specification]
#[verifier::external_body]
#[verifier::reject_recursive_types(K)]
#[verifier::reject_recursive_types(V)]
pub struct ExJsonObject<K, V>(serde_json::Map<K, V>);

/// The JSON of one payload, as `serenity::model::channel::Embed::fake` makes
/// it from the six parts.
pub uninterp spec fn embed_value(embed: EmbedView) -> serde_json::Value;

/// `serenity::model::channel::Embed::fake` with the builder calls for the
/// six parts of a payload: the JSON of one embed. It depends on the six
/// parts alone; nothing else is claimed of it.
#[verifier::external_body]
fn embed_json(embed: &Embed) -> (value: serde_json::Value)
    ensures
        value == embed_value(embed@),
{
    serenity::model::channel::Embed::fake(
        |e|
            e.author(|a| a.name(&embed.author_name)).color(embed.color).title(&embed.title)
                .description(&embed.description).url(&embed.url).thumbnail(&embed.thumbnail),
    )
}

/// The arrays that a JSON object holds: for each member whose value is an
/// array, the member's name and the array's entries in order.
pub uninterp spec fn array_entries(object: serde_json::Map<String, serde_json::Value>) -> Map<
    Seq<char>,
    Seq<serde_json::Value>,
>;

/// The names of the members that a JSON object holds.
pub uninterp spec fn member_names(object: serde_json::Map<String, serde_json::Value>) -> Set<
    Seq<char>,
>;

/// `serde_json::Map::insert` on a new map from `serde_json::Map::new`: the
/// JSON object with one member, the values as an array under the key.
#[verifier::external_body]
fn json_object_of(key: &str, values: Vec<serde_json::Value>) -> (object: serde_json::Map<
    String,
    serde_json::Value,
>)
    ensures
        member_names(object) == set![key@],
        array_entries(object) == map![key@ => values@],
{
    let mut object = serde_json::Map::new();
    object.insert(key.to_string(), serde_json::Value::Array(values));
    object
}

/// The JSON of each payload of a sequence, in the same order.
pub open spec fn body_entries(payloads: Seq<EmbedView>) -> Seq<serde_json::Value> {
    payloads.map_values(|e: EmbedView| embed_value(e))
}

/// The arrays of the body of a batch: `embeds` alone, which lists the JSON
/// of each payload of the batch in order.
pub open spec fn body_arrays(payloads: Seq<EmbedView>) -> Map<Seq<char>, Seq<serde_json::Value>> {
    map!["embeds"@ => body_entries(payloads)]
}

/// Renders one batch as the body of a delivery call: an object whose
/// `embeds` member lists the payloads of the batch in order.
fn render_batch(batch: &Vec<Embed>) -> (body: serde_json::Map<String, serde_json::Value>)
    ensures
        member_names(body) == set!["embeds"@],
        array_entries(body) == body_arrays(embed_views(batch@)),
{
    let mut values: Vec<serde_json::Value> = Vec::new();
    let mut i: usize = 0;
    while i < batch.len()
        invariant
            i <= batch.len(),
            values.len() == i,
            forall|k: int| 0 <= k < i ==> #[trigger] values@[k] == embed_value(batch@[k]@),
        decreases batch.len() - i,
    {
        values.push(embed_json(&batch[i]));
        i = i + 1;
    }
    assert(values@ =~= body_entries(embed_views(batch@)));
    json_object_of("embeds", values)
}

/// Renders every batch, keeping the order: the body at a position is that
/// of the batch at the same position. It holds `embeds` and nothing else,
/// and `embeds` lists the payloads of that batch in order.
pub fn render_batches(batches: &Vec<Vec<Embed>>) -> (bodies: Vec<
    serde_json::Map<String, serde_json::Value>,
>)
    ensures
        bodies.len() == batches.len(),
        forall|k: int|
            0 <= k < batches.len() ==> member_names(#[trigger] bodies@[k]) == set!["embeds"@],
        forall|k: int|
            0 <= k < batches.len() ==> array_entries(#[trigger] bodies@[k]) == body_arrays(
                embed_views(batches@[k]@),
            ),
{
    let mut bodies: Vec<serde_json::Map<String, serde_json::Value>> = Vec::new();
    let mut i: usize = 0;
    while i < batches.len()
        invariant
            i <= batches.len(),
            bodies.len() == i,
            forall|k: int| 0 <= k < i ==> member_names(#[trigger] bodies@[k]) == set!["embeds"@],
            forall|k: int|
                0 <= k < i ==> array_entries(#[trigger] bodies@[k]) == body_arrays(
                    embed_views(batches@[k]@),
                ),
        decreases batches.len() - i,
    {
        bodies.push(render_batch(&batches[i]));
        i = i + 1;
    }
    bodies
}

/// Nothing is dropped, repeated or reordered on the way into the bodies.
/// The entries of the bodies of the batches of a delivery, laid end to end
/// in batch order, are the JSON of the delivery's payloads in order.
pub proof fn lemma_bodies_carry_delivery(payloads: Seq<EmbedView>)
    ensures
        batched(payloads).map_values(|b: Seq<EmbedView>| body_entries(b)).flatten()
            == body_entries(payloads),
{
    let rendered = body_entries(payloads);
    let per_batch = batched(payloads).map_values(|b: Seq<EmbedView>| body_entries(b));
    lemma_batches_partition(rendered);
    assert(per_batch =~= batched(rendered)) by {
        assert forall|k: int| 0 <= k < per_batch.len() implies #[trigger] per_batch[k] == batched(
            rendered,
        )[k] by {
            assert(body_entries(batched(payloads)[k]) =~= batched(rendered)[k]);
        }
    }
}

} // verus!
