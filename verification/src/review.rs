//! Review records and their DTOs.
//!
//! Review dates are carried as milliseconds since the epoch.

use vstd::prelude::*;

use crate::deep_clone::{DeepClone, Reshape};
use crate::entity::{CreateDto, Entity, ReadDto, Selector, UpdateDto};

verus! {

/// Mathematical model of reader reactions to a review.
pub struct ReactionsView {
    pub overall: u64,
    pub nice: u64,
    pub love_it: u64,
    pub funny: u64,
    pub confusing: u64,
    pub informative: u64,
    pub well_written: u64,
    pub creative: u64,
}

/// Reader reactions to a review.
#[derive(Debug, Clone, PartialEq, Eq)]
pub struct Reactions {
    pub overall: u64,
    pub nice: u64,
    pub love_it: u64,
    pub funny: u64,
    pub confusing: u64,
    pub informative: u64,
    pub well_written: u64,
    pub creative: u64,
}

impl DeepView for Reactions {
    type V = ReactionsView;

    open spec fn deep_view(&self) -> ReactionsView {
        ReactionsView {
            overall: self.overall,
            nice: self.nice,
            love_it: self.love_it,
            funny: self.funny,
            confusing: self.confusing,
            informative: self.informative,
            well_written: self.well_written,
            creative: self.creative,
        }
    }
}

impl DeepClone for Reactions {
    fn deep_clone(&self) -> (r: Self)
        ensures
            r.deep_view() == self.deep_view(),
    {
        Reactions {
            overall: self.overall,
            nice: self.nice,
            love_it: self.love_it,
            funny: self.funny,
            confusing: self.confusing,
            informative: self.informative,
            well_written: self.well_written,
            creative: self.creative,
        }
    }
}

/// DTO shape of reader reactions to a review.
#[derive(Debug, Clone, PartialEq, Eq)]
pub struct ReactionsDto {
    pub overall: u64,
    pub nice: u64,
    pub love_it: u64,
    pub funny: u64,
    pub confusing: u64,
    pub informative: u64,
    pub well_written: u64,
    pub creative: u64,
}

impl DeepView for ReactionsDto {
    type V = ReactionsView;

    open spec fn deep_view(&self) -> ReactionsView {
        ReactionsView {
            overall: self.overall,
            nice: self.nice,
            love_it: self.love_it,
            funny: self.funny,
            confusing: self.confusing,
            informative: self.informative,
            well_written: self.well_written,
            creative: self.creative,
        }
    }
}

impl Reshape<Reactions> for ReactionsDto {
    fn reshape(a: &Reactions) -> (r: Self)
        ensures
            r.deep_view() == a.deep_view(),
    {
        ReactionsDto {
            overall: a.overall,
            nice: a.nice,
            love_it: a.love_it,
            funny: a.funny,
            confusing: a.confusing,
            informative: a.informative,
            well_written: a.well_written,
            creative: a.creative,
        }
    }
}

impl Reshape<ReactionsDto> for Reactions {
    fn reshape(a: &ReactionsDto) -> (r: Self)
        ensures
            r.deep_view() == a.deep_view(),
    {
        Reactions {
            overall: a.overall,
            nice: a.nice,
            love_it: a.love_it,
            funny: a.funny,
            confusing: a.confusing,
            informative: a.informative,
            well_written: a.well_written,
            creative: a.creative,
        }
    }
}

/// Mathematical model of a review record.
pub struct ReviewView {
    pub id: Option<Seq<char>>,
    pub mal_id: u64,
    pub url: Seq<char>,
    pub kind: Seq<char>,
    pub reactions: ReactionsView,
    pub date: i64,
    pub review: Seq<char>,
    pub score: u8,
    pub tags: Seq<Seq<char>>,
    pub is_spoiler: bool,
    pub is_preliminary: bool,
    pub episodes_watched: Option<u64>,
    pub entry: Seq<char>,
    pub user: Seq<char>,
}

/// A review record.
#[derive(Debug, Clone, PartialEq, Eq)]
pub struct Review {
    pub id: Option<String>,
    pub mal_id: u64,
    pub url: String,
    pub kind: String,
    pub reactions: Reactions,
    pub date: i64,
    pub review: String,
    pub score: u8,
    pub tags: Vec<String>,
    pub is_spoiler: bool,
    pub is_preliminary: bool,
    pub episodes_watched: Option<u64>,
    pub entry: String,
    pub user: String,
}

impl DeepView for Review {
    type V = ReviewView;

    open spec fn deep_view(&self) -> ReviewView {
        ReviewView {
            id: self.id.deep_view(),
            mal_id: self.mal_id,
            url: self.url.deep_view(),
            kind: self.kind.deep_view(),
            reactions: self.reactions.deep_view(),
            date: self.date,
            review: self.review.deep_view(),
            score: self.score,
            tags: self.tags.deep_view(),
            is_spoiler: self.is_spoiler,
            is_preliminary: self.is_preliminary,
            episodes_watched: self.episodes_watched.deep_view(),
            entry: self.entry.deep_view(),
            user: self.user.deep_view(),
        }
    }
}

impl DeepClone for Review {
    fn deep_clone(&self) -> (r: Self)
        ensures
            r.deep_view() == self.deep_view(),
    {
        Review {
            id: self.id.deep_clone(),
            mal_id: self.mal_id,
            url: self.url.deep_clone(),
            kind: self.kind.deep_clone(),
            reactions: self.reactions.deep_clone(),
            date: self.date,
            review: self.review.deep_clone(),
            score: self.score,
            tags: self.tags.deep_clone(),
            is_spoiler: self.is_spoiler,
            is_preliminary: self.is_preliminary,
            episodes_watched: self.episodes_watched,
            entry: self.entry.deep_clone(),
            user: self.user.deep_clone(),
        }
    }
}

impl Entity for Review {
    open spec fn model_id(m: ReviewView) -> Option<Seq<char>> {
        m.id
    }

    open spec fn model_with_id(m: ReviewView, id: Option<Seq<char>>) -> ReviewView {
        ReviewView { id, ..m }
    }

    proof fn lemma_model_with_id(m: ReviewView, id: Option<Seq<char>>) {
    }

    fn id(&self) -> (r: Option<String>) {
        self.id.deep_clone()
    }

    fn with_id(self, id: Option<String>) -> (r: Self) {
        Review { id, ..self }
    }
}

/// Read DTO of a review: the record as exposed externally.
#[derive(Debug, Clone, PartialEq, Eq)]
pub struct ReviewDto {
    pub id: Option<String>,
    pub mal_id: u64,
    pub url: String,
    pub kind: String,
    pub reactions: ReactionsDto,
    pub date: i64,
    pub review: String,
    pub score: u8,
    pub tags: Vec<String>,
    pub is_spoiler: bool,
    pub is_preliminary: bool,
    pub episodes_watched: Option<u64>,
    pub entry: String,
    pub user: String,
}

impl DeepView for ReviewDto {
    type V = ReviewView;

    open spec fn deep_view(&self) -> ReviewView {
        ReviewView {
            id: self.id.deep_view(),
            mal_id: self.mal_id,
            url: self.url.deep_view(),
            kind: self.kind.deep_view(),
            reactions: self.reactions.deep_view(),
            date: self.date,
            review: self.review.deep_view(),
            score: self.score,
            tags: self.tags.deep_view(),
            is_spoiler: self.is_spoiler,
            is_preliminary: self.is_preliminary,
            episodes_watched: self.episodes_watched.deep_view(),
            entry: self.entry.deep_view(),
            user: self.user.deep_view(),
        }
    }
}

impl ReadDto<Review> for ReviewDto {
    open spec fn of_model(m: ReviewView) -> ReviewView {
        m
    }

    fn of_entity(e: &Review) -> (r: Self) {
        ReviewDto {
            id: e.id.deep_clone(),
            mal_id: e.mal_id,
            url: e.url.deep_clone(),
            kind: e.kind.deep_clone(),
            reactions: Reshape::reshape(&e.reactions),
            date: e.date,
            review: e.review.deep_clone(),
            score: e.score,
            tags: e.tags.deep_clone(),
            is_spoiler: e.is_spoiler,
            is_preliminary: e.is_preliminary,
            episodes_watched: e.episodes_watched,
            entry: e.entry.deep_clone(),
            user: e.user.deep_clone(),
        }
    }
}

/// Create DTO of a review: external input for a new record; the identifier is left for storage to assign.
#[derive(Debug, Clone, PartialEq, Eq)]
pub struct CreateReviewDto {
    pub mal_id: u64,
    pub url: String,
    pub kind: String,
    pub reactions: ReactionsDto,
    pub date: i64,
    pub review: String,
    pub score: u8,
    pub tags: Vec<String>,
    pub is_spoiler: bool,
    pub is_preliminary: bool,
    pub episodes_watched: Option<u64>,
    pub entry: String,
    pub user: String,
}

impl CreateDto<Review> for CreateReviewDto {
    open spec fn entity_model(&self) -> ReviewView {
        ReviewView {
            id: None,
            mal_id: self.mal_id,
            url: self.url.deep_view(),
            kind: self.kind.deep_view(),
            reactions: self.reactions.deep_view(),
            date: self.date,
            review: self.review.deep_view(),
            score: self.score,
            tags: self.tags.deep_view(),
            is_spoiler: self.is_spoiler,
            is_preliminary: self.is_preliminary,
            episodes_watched: self.episodes_watched.deep_view(),
            entry: self.entry.deep_view(),
            user: self.user.deep_view(),
        }
    }

    fn into_entity(self) -> (e: Review) {
        Review {
            id: None,
            mal_id: self.mal_id,
            url: self.url,
            kind: self.kind,
            reactions: Reshape::reshape(&self.reactions),
            date: self.date,
            review: self.review,
            score: self.score,
            tags: self.tags,
            is_spoiler: self.is_spoiler,
            is_preliminary: self.is_preliminary,
            episodes_watched: self.episodes_watched,
            entry: self.entry,
            user: self.user,
        }
    }
}

/// Update DTO of a review: every field optional, absence meaning
/// "leave unchanged".
#[derive(Debug, Clone, PartialEq, Eq)]
pub struct UpdateReviewDto {
    pub mal_id: Option<u64>,
    pub url: Option<String>,
    pub kind: Option<String>,
    pub reactions: Option<ReactionsDto>,
    pub date: Option<i64>,
    pub review: Option<String>,
    pub score: Option<u8>,
    pub tags: Option<Vec<String>>,
    pub is_spoiler: Option<bool>,
    pub is_preliminary: Option<bool>,
    pub episodes_watched: Option<u64>,
    pub entry: Option<String>,
    pub user: Option<String>,
}

impl UpdateDto<Review> for UpdateReviewDto {
    open spec fn merged(&self, m: ReviewView) -> ReviewView {
        ReviewView {
            id: m.id,
            mal_id: if self.mal_id is Some {
                self.mal_id->0
            } else {
                m.mal_id
            },
            url: if self.url is Some {
                (self.url->0)@
            } else {
                m.url
            },
            kind: if self.kind is Some {
                (self.kind->0)@
            } else {
                m.kind
            },
            reactions: if self.reactions is Some {
                (self.reactions->0).deep_view()
            } else {
                m.reactions
            },
            date: if self.date is Some {
                self.date->0
            } else {
                m.date
            },
            review: if self.review is Some {
                (self.review->0)@
            } else {
                m.review
            },
            score: if self.score is Some {
                self.score->0
            } else {
                m.score
            },
            tags: if self.tags is Some {
                (self.tags->0).deep_view()
            } else {
                m.tags
            },
            is_spoiler: if self.is_spoiler is Some {
                self.is_spoiler->0
            } else {
                m.is_spoiler
            },
            is_preliminary: if self.is_preliminary is Some {
                self.is_preliminary->0
            } else {
                m.is_preliminary
            },
            episodes_watched: if self.episodes_watched is Some {
                Some(self.episodes_watched->0)
            } else {
                m.episodes_watched
            },
            entry: if self.entry is Some {
                (self.entry->0)@
            } else {
                m.entry
            },
            user: if self.user is Some {
                (self.user->0)@
            } else {
                m.user
            },
        }
    }

    proof fn lemma_merged_id(&self, m: ReviewView) {
    }

    fn apply(&self, e: &Review) -> (r: Review) {
        Review {
            id: e.id.deep_clone(),
            mal_id: match &self.mal_id {
                Some(v) => *v,
                None => e.mal_id,
            },
            url: match &self.url {
                Some(v) => v.deep_clone(),
                None => e.url.deep_clone(),
            },
            kind: match &self.kind {
                Some(v) => v.deep_clone(),
                None => e.kind.deep_clone(),
            },
            reactions: match &self.reactions {
                Some(v) => Reshape::reshape(v),
                None => e.reactions.deep_clone(),
            },
            date: match &self.date {
                Some(v) => *v,
                None => e.date,
            },
            review: match &self.review {
                Some(v) => v.deep_clone(),
                None => e.review.deep_clone(),
            },
            score: match &self.score {
                Some(v) => *v,
                None => e.score,
            },
            tags: match &self.tags {
                Some(v) => v.deep_clone(),
                None => e.tags.deep_clone(),
            },
            is_spoiler: match &self.is_spoiler {
                Some(v) => *v,
                None => e.is_spoiler,
            },
            is_preliminary: match &self.is_preliminary {
                Some(v) => *v,
                None => e.is_preliminary,
            },
            episodes_watched: match &self.episodes_watched {
                Some(v) => Some(*v),
                None => e.episodes_watched,
            },
            entry: match &self.entry {
                Some(v) => v.deep_clone(),
                None => e.entry.deep_clone(),
            },
            user: match &self.user {
                Some(v) => v.deep_clone(),
                None => e.user.deep_clone(),
            },
        }
    }
}

/// Equality conditions on a review fields; a record matches when
/// every present condition holds, as with the storage engine's
/// field-value filter documents.
#[derive(Debug, Clone, PartialEq, Eq)]
pub struct ReviewFilter {
    pub mal_id: Option<u64>,
    pub kind: Option<String>,
    pub user: Option<String>,
    pub is_spoiler: Option<bool>,
}

impl Selector<Review> for ReviewFilter {
    open spec fn selects(&self, m: ReviewView) -> bool {
        &&& (self.mal_id is Some ==> m.mal_id == self.mal_id->0)
        &&& (self.kind is Some ==> m.kind == (self.kind->0)@)
        &&& (self.user is Some ==> m.user == (self.user->0)@)
        &&& (self.is_spoiler is Some ==> m.is_spoiler == self.is_spoiler->0)
    }

    fn test(&self, e: &Review) -> (b: bool) {
        let mal_id_ok = match &self.mal_id {
            Some(v) => e.mal_id == *v,
            None => true,
        };
        let kind_ok = match &self.kind {
            Some(v) => e.kind == *v,
            None => true,
        };
        let user_ok = match &self.user {
            Some(v) => e.user == *v,
            None => true,
        };
        let is_spoiler_ok = match &self.is_spoiler {
            Some(v) => e.is_spoiler == *v,
            None => true,
        };
        mal_id_ok && kind_ok && user_ok && is_spoiler_ok
    }
}

} // verus!
