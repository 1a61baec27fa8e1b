use vstd::prelude::*;

use crate::model::{Idea, IdeaView};
use ic_stable_structures::{StableBTreeMap, VectorMemory};

verus! {

/// The candid message that encodes the fields of an idea, in declaration order.
pub uninterp spec fn idea_bytes(v: IdeaView) -> Seq<u8>;

/// What an idea map holds: encoded ideas by identifier.
pub uninterp spec fn idea_map_contents(m: IdeaMap) -> Map<u64, Seq<u8>>;

/// Whether `r` holds the idea that `b` encodes, wherever `b` encodes one.
pub open spec fn decodes_to(b: Seq<u8>, r: Option<Idea>) -> bool {
    forall|v: IdeaView| #[trigger] idea_bytes(v) == b ==> (r matches Some(i) && i@ == v)
}

/// Relies on candid::encode_args: the fields of an idea, encoded as one candid
/// message. The encoder reports errors only for empty, recursive and variable
/// types, none of which an idea's fields have, and writes into a `Vec`, which
/// cannot fail; so it always returns the message.
#[verifier::external_body]
pub(crate) fn encode_idea(idea: &Idea) -> (r: Option<Vec<u8>>)
    ensures
        r.is_some(),
        r matches Some(b) ==> b@ == idea_bytes(idea@),
{
    candid::encode_args((
        &idea.title, &idea.description, idea.funding_goal, idea.current_funding,
        &idea.legal_entity, &idea.status, &idea.contact_info, &idea.category,
        idea.business_registration, idea.created_at, idea.updated_at, &idea.doc_ids,
    )).ok()
}

/// Relies on candid::decode_args (with its default, quota-free configuration):
/// a message written by `encode_args` decodes back to the values it encodes.
#[verifier::external_body]
pub(crate) fn decode_idea(bytes: &Vec<u8>) -> (r: Option<Idea>)
    ensures
        decodes_to(bytes@, r),
{
    let decoded: Option<(String, String, u64, u64, String, Option<String>, String, String, u8, u64, u64, Vec<u64>)> =
        candid::decode_args(bytes).ok();
    decoded.map(|f| Idea {
        title: f.0, description: f.1, funding_goal: f.2, current_funding: f.3,
        legal_entity: f.4, status: f.5, contact_info: f.6, category: f.7,
        business_registration: f.8, created_at: f.9, updated_at: f.10, doc_ids: f.11,
    })
}

/// A stable-structures map from idea identifiers to encoded ideas, laid out
/// in a memory of its own.
#[verifier::external_body]
pub struct IdeaMap {
    map: StableBTreeMap<u64, Vec<u8>, VectorMemory>,
}

impl IdeaMap {
    /// Relies on ic_stable_structures::BTreeMap::new: a map created on a
    /// memory reserved for it alone holds nothing. Each call allocates a new
    /// `VectorMemory`, which no other map shares.
    #[verifier::external_body]
    pub(crate) fn new() -> (r: IdeaMap)
        ensures
            idea_map_contents(r) =~= Map::empty(),
    {
        IdeaMap { map: StableBTreeMap::new(VectorMemory::default()) }
    }

    /// Relies on ic_stable_structures::BTreeMap::get: the value stored under
    /// `key`, if any.
    #[verifier::external_body]
    pub(crate) fn get(&self, key: u64) -> (r: Option<Vec<u8>>)
        ensures
            r.is_some() == idea_map_contents(*self).contains_key(key),
            r matches Some(v) ==> v@ == idea_map_contents(*self)[key],
    {
        self.map.get(&key)
    }

    /// Relies on ic_stable_structures::BTreeMap::insert: `key` now maps to
    /// `value`, and every other entry is unchanged.
    #[verifier::external_body]
    pub(crate) fn insert(&mut self, key: u64, value: Vec<u8>)
        ensures
            idea_map_contents(*final(self)) == idea_map_contents(*old(self)).insert(key, value@),
    {
        self.map.insert(key, value);
    }
}

} // verus!
