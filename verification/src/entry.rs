//! A lightweight entry DTO pointing at an anime or a manga.

use vstd::prelude::*;

use crate::deep_clone::DeepClone;
use crate::links::{Images, ImagesView};

verus! {

/// Mathematical model of a lightweight representation of either an anime or a manga entry.
pub struct EntryDtoView {
    pub id: Seq<char>,
    pub mal_id: u64,
    pub url: Seq<char>,
    pub images: ImagesView,
    pub title: Seq<char>,
}

/// A lightweight representation of either an anime or a manga entry.
#[derive(Debug, Clone, PartialEq, Eq)]
pub struct EntryDto {
    pub id: String,
    pub mal_id: u64,
    pub url: String,
    pub images: Images,
    pub title: String,
}

impl DeepView for EntryDto {
    type V = EntryDtoView;

    open spec fn deep_view(&self) -> EntryDtoView {
        EntryDtoView {
            id: self.id.deep_view(),
            mal_id: self.mal_id,
            url: self.url.deep_view(),
            images: self.images.deep_view(),
            title: self.title.deep_view(),
        }
    }
}

impl DeepClone for EntryDto {
    fn deep_clone(&self) -> (r: Self)
        ensures
            r.deep_view() == self.deep_view(),
    {
        EntryDto {
            id: self.id.deep_clone(),
            mal_id: self.mal_id,
            url: self.url.deep_clone(),
            images: self.images.deep_clone(),
            title: self.title.deep_clone(),
        }
    }
}

} // verus!
