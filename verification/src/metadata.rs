use std::collections::HashMap;
use vstd::prelude::*;
use crate::model::achievement_metadata;
use crate::types::{Error, Metadata, MetadataView, TokenId};

verus! {

broadcast use vstd::std_specs::hash::group_hash_axioms;

/// The record of each token.
#[derive(Clone, Debug)]
pub struct MetadataStore {
    records: HashMap<TokenId, Metadata>,
}

/// The catalog's record for the achievement `nft_type`: one of three known
/// achievements, or the generic record for any other symbol.
pub fn achievement_record(nft_type: &String) -> (m: Metadata)
    ensures
        m@ == achievement_metadata(nft_type@),
{
    if *nft_type == "tencontr".to_owned() {
        Metadata::new(
            "10 Completed Contracts".to_owned(),
            "Awarded for completing 10 contracts successfully.".to_owned(),
            "ipfs://10-completed-contracts".to_owned(),
        )
    } else if *nft_type == "5stars5x".to_owned() {
        Metadata::new(
            "5 Stars 5 Times".to_owned(),
            "Awarded for receiving five 5-star reviews.".to_owned(),
            "ipfs://5-stars-5-times".to_owned(),
        )
    } else if *nft_type == "toprated".to_owned() {
        Metadata::new(
            "Top Rated Freelancer".to_owned(),
            "Awarded for being a top-rated freelancer.".to_owned(),
            "ipfs://top-rated-freelancer".to_owned(),
        )
    } else {
        Metadata::new(
            "Achievement NFT".to_owned(),
            "Awarded for a special achievement.".to_owned(),
            "ipfs://achievement-generic".to_owned(),
        )
    }
}

impl MetadataStore {
    /// The record of each token, as mathematical text.
    pub closed spec fn records(&self) -> Map<TokenId, MetadataView> {
        self.records@.map_values(|m: Metadata| m@)
    }

    /// No record.
    pub fn new() -> (s: MetadataStore)
        ensures
            s.records() == Map::<TokenId, MetadataView>::empty(),
    {
        let s = MetadataStore { records: HashMap::new() };
        assert(s.records() =~= Map::<TokenId, MetadataView>::empty());
        s
    }

    /// Whether `token_id` has a record.
    pub fn has_metadata(&self, token_id: &TokenId) -> (r: bool)
        ensures
            r == self.records().contains_key(*token_id),
    {
        self.records.contains_key(token_id)
    }

    /// Writes the record of `token_id`.
    pub fn store_metadata(
        &mut self,
        token_id: &TokenId,
        name: String,
        description: String,
        uri: String,
    )
        ensures
            final(self).records() == old(self).records().insert(
                *token_id,
                (MetadataView { name: name@, description: description@, uri: uri@ }),
            ),
    {
        let record = Metadata::new(name, description, uri);
        self.records.insert(*token_id, record);
        assert(self.records() =~= old(self).records().insert(*token_id, record@));
    }

    /// The record of `token_id`, or `TokenNotFound` where it has none.
    pub fn get_metadata(&self, token_id: &TokenId) -> (r: Result<Metadata, Error>)
        ensures
            match r {
                Ok(m) => self.records().contains_key(*token_id) && m@ == self.records()[*token_id],
                Err(e) => !self.records().contains_key(*token_id) && e == Error::TokenNotFound,
            },
    {
        match self.records.get(token_id) {
            Some(record) => Ok(record.duplicate()),
            None => Err(Error::TokenNotFound),
        }
    }
}

} // verus!
