//! Finding the preview image of a map pack.

use crate::text::{followed_by, join_path, joined};
use vstd::prelude::*;

verus! {

/// What an `ImageLoader` stands for.
pub struct ImageLoaderView {
    pub path: Seq<char>,
    pub map_id: Seq<char>,
    pub path_string: Seq<char>,
}

/// The search for the preview image of one pack.
#[derive(Debug, Default, PartialEq, Eq)]
pub struct ImageLoader {
    path: String,
    map_id: String,
    path_string: String,
}

impl View for ImageLoader {
    type V = ImageLoaderView;

    closed spec fn view(&self) -> ImageLoaderView {
        ImageLoaderView { path: self.path@, map_id: self.map_id@, path_string: self.path_string@ }
    }
}

/// The file name of the preview image of the pack `map_id`.
pub open spec fn image_name(map_id: Seq<char>) -> Seq<char> {
    map_id + ".jpg"@
}

/// The path of the image to show for a pack: its cached preview where
/// that is there or can still be fetched, the placeholder where it is
/// missing and the program works offline.
pub open spec fn image_path_of(
    map_id: Seq<char>,
    image_dir: Seq<char>,
    is_offline: bool,
    cached: bool,
) -> Seq<char> {
    if !cached && is_offline {
        joined(image_dir, "not_found.png"@)
    } else {
        joined(image_dir, image_name(map_id))
    }
}

impl ImageLoader {
    /// The search for the image of the pack `map_id`, shown at the list
    /// path `path_string`; no image is found yet.
    pub fn new(map_id: String, path_string: String) -> (r: Self)
        ensures
            r@ == (ImageLoaderView {
                path: Seq::empty(),
                map_id: map_id@,
                path_string: path_string@,
            }),
    {
        ImageLoader { path: String::new(), path_string, map_id }
    }

    /// The path of the image to show; empty before the search.
    pub fn path(&self) -> (r: &String)
        ensures
            r@ == self@.path,
    {
        &self.path
    }

    /// The pack's identifier.
    pub fn map_id(&self) -> (r: &String)
        ensures
            r@ == self@.map_id,
    {
        &self.map_id
    }

    /// The list path of the pack.
    pub fn path_string(&self) -> (r: &String)
        ensures
            r@ == self@.path_string,
    {
        &self.path_string
    }

    /// The path at which the pack's preview is cached below `image_dir`.
    pub fn cached_image_path(&self, image_dir: &str) -> (r: String)
        ensures
            r@ == joined(image_dir@, image_name(self@.map_id)),
    {
        let name = followed_by(self.map_id.as_str(), ".jpg");
        join_path(image_dir, name.as_str())
    }

    /// The address from which the pack's preview is fetched.
    pub fn image_url(&self) -> (r: String)
        ensures
            r@ == "https://www.quaddicted.com/reviews/screenshots/"@ + image_name(self@.map_id),
    {
        let name = followed_by(self.map_id.as_str(), ".jpg");
        followed_by("https://www.quaddicted.com/reviews/screenshots/", name.as_str())
    }

    /// Settles which image to show, given whether the preview is cached
    /// below `image_dir`. The result says whether the preview has to be
    /// fetched first: it is missing and the program works online.
    pub fn load_map_image(&mut self, is_offline: bool, image_dir: &str, cached: bool) -> (fetch:
        bool)
        ensures
            fetch == (!cached && !is_offline),
            final(self)@ == (ImageLoaderView {
                path: image_path_of(old(self)@.map_id, image_dir@, is_offline, cached),
                ..old(self)@
            }),
    {
        if !cached && is_offline {
            self.path = join_path(image_dir, "not_found.png");
            false
        } else {
            self.path = self.cached_image_path(image_dir);
            !cached
        }
    }
}

} // verus!
