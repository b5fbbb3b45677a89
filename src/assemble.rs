//! Assembling a FeatureCollection document from pre-rendered Feature text.

use vstd::prelude::*;
use crate::text::{join, views, append_joined};

verus! {

/// One row of a tile query whose store already rendered it as GeoJSON
/// Feature text; `None` where the store gave no text.
#[derive(Debug, Clone)]
pub struct FeatureRecord {
    pub feature: Option<String>,
}

/// The FeatureCollection document whose features are the given fragments,
/// spliced in order with a comma between neighbours.
pub open spec fn collection_text(fragments: Seq<Seq<char>>) -> Seq<char> {
    "{\"type\":\"FeatureCollection\",\"features\":["@ + join(fragments, ","@) + "]}"@
}

/// Wraps pre-rendered Feature fragments in a FeatureCollection envelope,
/// without parsing or re-encoding any of them.
pub fn feature_collection(fragments: &Vec<String>) -> (r: String)
    ensures
        r@ == collection_text(views(fragments@)),
{
    let mut out = String::from_str("{\"type\":\"FeatureCollection\",\"features\":[");
    append_joined(&mut out, fragments, ",");
    out.append("]}");
    out
}

/// Every row carries its fragment.
pub open spec fn all_rendered(records: Seq<FeatureRecord>) -> bool {
    forall|i: int| 0 <= i < records.len() ==> (#[trigger] records[i]).feature is Some
}

/// The fragments of rows that all carry one.
pub open spec fn fragments_of(records: Seq<FeatureRecord>) -> Seq<Seq<char>> {
    records.map_values(|r: FeatureRecord| r.feature->Some_0@)
}

/// Splices the fragments of the rows of a tile query into one
/// FeatureCollection. A row without a fragment spoils the whole answer:
/// then the result is `None`, never a partial collection.
pub fn generate_features(records: &Vec<FeatureRecord>) -> (r: Option<String>)
    ensures
        r is Some <==> all_rendered(records@),
        r is Some ==> r->Some_0@ == collection_text(fragments_of(records@)),
{
    let mut fragments: Vec<String> = Vec::new();
    let n = records.len();
    let mut i: usize = 0;
    while i < n
        invariant
            n == records@.len(),
            0 <= i <= n,
            fragments@.len() == i,
            forall|k: int| 0 <= k < i ==> (#[trigger] records@[k]).feature is Some,
            forall|k: int|
                0 <= k < i ==> #[trigger] fragments@[k]@ == records@[k].feature->Some_0@,
        decreases n - i,
    {
        match &records[i].feature {
            Some(text) => {
                fragments.push(text.clone());
            },
            None => {
                return None;
            },
        }
        i = i + 1;
    }
    assert(views(fragments@) =~= fragments_of(records@));
    Some(feature_collection(&fragments))
}

/// Splicing no fragment gives an empty feature list, and splicing two gives
/// them in order with one comma between them and none after.
pub proof fn lemma_collection_text_shapes(a: Seq<char>, b: Seq<char>)
    ensures
        collection_text(Seq::empty()) == "{\"type\":\"FeatureCollection\",\"features\":["@
            + "]}"@,
        collection_text(seq![a, b]) == "{\"type\":\"FeatureCollection\",\"features\":["@ + a
            + ","@ + b + "]}"@,
{
    assert(Seq::<char>::empty() + "]}"@ =~= "]}"@);
    assert("{\"type\":\"FeatureCollection\",\"features\":["@ + Seq::<char>::empty() =~= "{\"type\":\"FeatureCollection\",\"features\":["@);
    assert(seq![a, b].drop_last() =~= seq![a]);
    reveal_with_fuel(join, 3);
}

} // verus!
