//! Authorization requests.

use std::collections::HashMap;
use vstd::prelude::*;

verus! {

/// The named bearer tokens of a request. A name that is put in twice keeps
/// the value that came last.
#[derive(Debug, PartialEq)]
pub struct TokenMap {
    entries: Vec<(String, String)>,
}

/// The map that a list of named texts stands for: a later entry replaces an
/// earlier one of the same name.
pub open spec fn text_map(entries: Seq<(String, String)>) -> Map<Seq<char>, Seq<char>>
    decreases entries.len(),
{
    if entries.len() == 0 {
        Map::empty()
    } else {
        text_map(entries.drop_last()).insert(entries.last().0@, entries.last().1@)
    }
}

impl DeepView for TokenMap {
    type V = Map<Seq<char>, Seq<char>>;

    closed spec fn deep_view(&self) -> Map<Seq<char>, Seq<char>> {
        text_map(self.entries@)
    }
}

impl TokenMap {
    /// A map without tokens.
    pub fn new() -> (map: TokenMap)
        ensures
            map.deep_view() == Map::<Seq<char>, Seq<char>>::empty(),
    {
        TokenMap { entries: Vec::new() }
    }

    /// Puts a token under its name; a token that was there under the same
    /// name is replaced.
    pub fn insert(&mut self, name: String, value: String)
        ensures
            final(self).deep_view() == old(self).deep_view().insert(name@, value@),
    {
        self.entries.push((name, value));
        assert(self.entries@.drop_last() == old(self).entries@);
    }

    /// The token under a name, if there is one.
    pub fn get(&self, name: &str) -> (res: Option<String>)
        ensures
            match res {
                Some(value) => self.deep_view().contains_key(name@) && self.deep_view()[name@]
                    == value@,
                None => !self.deep_view().contains_key(name@),
            },
    {
        let mut i: usize = self.entries.len();
        assert(self.entries@.take(i as int) == self.entries@);
        while i > 0
            invariant
                i <= self.entries.len(),
                text_map(self.entries@).contains_key(name@) == text_map(
                    self.entries@.take(i as int),
                ).contains_key(name@),
                text_map(self.entries@).contains_key(name@) ==> text_map(self.entries@)[name@]
                    == text_map(self.entries@.take(i as int))[name@],
            decreases i,
        {
            i -= 1;
            assert(self.entries@.take(i + 1).drop_last() == self.entries@.take(i as int));
            if crate::text::str_eq(self.entries[i].0.as_str(), name) {
                return Some(self.entries[i].1.clone());
            }
        }
        None
    }

    /// Every token that was put in, oldest first; where a name occurs more
    /// than once, its last entry is the one that holds.
    pub fn entries(&self) -> (entries: &Vec<(String, String)>)
        ensures
            text_map(entries@) == self.deep_view(),
    {
        &self.entries
    }
}

/// The type and the identifier of an entity.
#[derive(Debug, PartialEq)]
pub struct CedarEntityMapping {
    pub id: String,
    pub entity_type: String,
}

pub struct CedarEntityMappingView {
    pub id: Seq<char>,
    pub entity_type: Seq<char>,
}

impl DeepView for CedarEntityMapping {
    type V = CedarEntityMappingView;

    open spec fn deep_view(&self) -> CedarEntityMappingView {
        CedarEntityMappingView { id: self.id@, entity_type: self.entity_type@ }
    }
}

/// An entity: what it is, and its attributes as the JSON text gave them.
#[derive(Debug, PartialEq)]
pub struct EntityData {
    pub cedar_mapping: CedarEntityMapping,
    pub attributes: HashMap<String, serde_json::Value>,
}

pub struct EntityDataView {
    pub cedar_mapping: CedarEntityMappingView,
    pub attributes: Map<String, serde_json::Value>,
}

impl DeepView for EntityData {
    type V = EntityDataView;

    open spec fn deep_view(&self) -> EntityDataView {
        EntityDataView {
            cedar_mapping: self.cedar_mapping.deep_view(),
            attributes: self.attributes@,
        }
    }
}

/// A request that names its principals by signed tokens.
#[derive(Debug, PartialEq)]
pub struct Request {
    pub tokens: TokenMap,
    pub action: String,
    pub resource: EntityData,
    pub context: serde_json::Value,
}

pub struct RequestView {
    pub tokens: Map<Seq<char>, Seq<char>>,
    pub action: Seq<char>,
    pub resource: EntityDataView,
    pub context: serde_json::Value,
}

impl DeepView for Request {
    type V = RequestView;

    open spec fn deep_view(&self) -> RequestView {
        RequestView {
            tokens: self.tokens.deep_view(),
            action: self.action@,
            resource: self.resource.deep_view(),
            context: self.context,
        }
    }
}

/// A request that lists its principals as entities.
#[derive(Debug, PartialEq)]
pub struct RequestUnsigned {
    pub principals: Vec<EntityData>,
    pub action: String,
    pub resource: EntityData,
    pub context: serde_json::Value,
}

pub struct RequestUnsignedView {
    pub principals: Seq<EntityDataView>,
    pub action: Seq<char>,
    pub resource: EntityDataView,
    pub context: serde_json::Value,
}

impl DeepView for RequestUnsigned {
    type V = RequestUnsignedView;

    open spec fn deep_view(&self) -> RequestUnsignedView {
        RequestUnsignedView {
            principals: self.principals.deep_view(),
            action: self.action@,
            resource: self.resource.deep_view(),
            context: self.context,
        }
    }
}

} // verus!
