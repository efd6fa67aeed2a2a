//! Link and image components shared by several entities.

use vstd::prelude::*;

use crate::deep_clone::DeepClone;

verus! {

/// Mathematical model of an external link for a title.
pub struct ExternalLinkView {
    pub name: Seq<char>,
    pub url: Seq<char>,
}

/// An external link for a title.
#[derive(Debug, Clone, PartialEq, Eq)]
pub struct ExternalLink {
    pub name: String,
    pub url: String,
}

impl DeepView for ExternalLink {
    type V = ExternalLinkView;

    open spec fn deep_view(&self) -> ExternalLinkView {
        ExternalLinkView {
            name: self.name.deep_view(),
            url: self.url.deep_view(),
        }
    }
}

impl DeepClone for ExternalLink {
    fn deep_clone(&self) -> (r: Self)
        ensures
            r.deep_view() == self.deep_view(),
    {
        ExternalLink {
            name: self.name.deep_clone(),
            url: self.url.deep_clone(),
        }
    }
}

/// Mathematical model of the image URLs of a title.
pub struct ImageUrlsView {
    pub image_url: Seq<char>,
    pub small_image_url: Seq<char>,
    pub large_image_url: Seq<char>,
}

/// The image urls of a title.
#[derive(Debug, Clone, PartialEq, Eq)]
pub struct ImageUrls {
    pub image_url: String,
    pub small_image_url: String,
    pub large_image_url: String,
}

impl DeepView for ImageUrls {
    type V = ImageUrlsView;

    open spec fn deep_view(&self) -> ImageUrlsView {
        ImageUrlsView {
            image_url: self.image_url.deep_view(),
            small_image_url: self.small_image_url.deep_view(),
            large_image_url: self.large_image_url.deep_view(),
        }
    }
}

impl DeepClone for ImageUrls {
    fn deep_clone(&self) -> (r: Self)
        ensures
            r.deep_view() == self.deep_view(),
    {
        ImageUrls {
            image_url: self.image_url.deep_clone(),
            small_image_url: self.small_image_url.deep_clone(),
            large_image_url: self.large_image_url.deep_clone(),
        }
    }
}

/// Mathematical model of the images of a title, by format.
pub struct ImagesView {
    pub jpg: ImageUrlsView,
    pub webp: ImageUrlsView,
}

/// The images of a title, by format.
#[derive(Debug, Clone, PartialEq, Eq)]
pub struct Images {
    pub jpg: ImageUrls,
    pub webp: ImageUrls,
}

impl DeepView for Images {
    type V = ImagesView;

    open spec fn deep_view(&self) -> ImagesView {
        ImagesView {
            jpg: self.jpg.deep_view(),
            webp: self.webp.deep_view(),
        }
    }
}

impl DeepClone for Images {
    fn deep_clone(&self) -> (r: Self)
        ensures
            r.deep_view() == self.deep_view(),
    {
        Images {
            jpg: self.jpg.deep_clone(),
            webp: self.webp.deep_clone(),
        }
    }
}

/// Mathematical model of the trailer of a title.
pub struct TrailerView {
    pub youtube_id: Seq<char>,
    pub url: Seq<char>,
    pub embed_url: Seq<char>,
}

/// The trailer of a title.
#[derive(Debug, Clone, PartialEq, Eq)]
pub struct Trailer {
    pub youtube_id: String,
    pub url: String,
    pub embed_url: String,
}

impl DeepView for Trailer {
    type V = TrailerView;

    open spec fn deep_view(&self) -> TrailerView {
        TrailerView {
            youtube_id: self.youtube_id.deep_view(),
            url: self.url.deep_view(),
            embed_url: self.embed_url.deep_view(),
        }
    }
}

impl DeepClone for Trailer {
    fn deep_clone(&self) -> (r: Self)
        ensures
            r.deep_view() == self.deep_view(),
    {
        Trailer {
            youtube_id: self.youtube_id.deep_clone(),
            url: self.url.deep_clone(),
            embed_url: self.embed_url.deep_clone(),
        }
    }
}

} // verus!
