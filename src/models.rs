use vstd::prelude::*;

verus! {

/// An AniList user as shown in the profile views.
#[derive(Clone, Debug)]
pub struct User {
    pub id: i32,
    pub name: String,
    pub avatar: Option<Avatar>,
    pub banner_image: Option<String>,
}

/// The URLs of a user's avatar images.
#[derive(Clone, Debug)]
pub struct Avatar {
    pub large: Option<String>,
    pub medium: Option<String>,
}

/// A media title in its several languages.
#[derive(Clone, Debug)]
pub struct MediaTitle {
    pub romaji: Option<String>,
    pub english: Option<String>,
    pub native: Option<String>,
}

/// The URLs of a media's cover images.
#[derive(Clone, Debug)]
pub struct MediaCoverImage {
    pub large: Option<String>,
    pub medium: Option<String>,
}

} // verus!
