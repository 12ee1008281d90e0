//! The "about" page: a description, the version, named links and pictures
//! drawn in Braille characters.

use vstd::prelude::*;

verus! {

/// A picture drawn in Braille characters.
pub struct BrailleImage {
    pub width: usize,
    pub height: usize,
    pub art: String,
}

/// What the about page shows.
pub struct AboutInfo {
    pub description: String,
    pub version: String,
    /// Named links, in the order of their names, each name once.
    pub links: Vec<(String, String)>,
    pub braille_images: Vec<BrailleImage>,
}

impl AboutInfo {
    /// No link name occurs twice.
    pub open spec fn wf(&self) -> bool {
        forall|i: int, j: int|
            0 <= i < j < self.links.len() ==> #[trigger] self.links@[i].0@ != #[trigger] self.links@[j].0@
    }

    /// The page shown when its file cannot be read: everything empty.
    pub fn empty() -> (r: AboutInfo)
        ensures
            r.wf(),
            r.description@.len() == 0,
            r.version@.len() == 0,
            r.links.len() == 0,
            r.braille_images.len() == 0,
    {
        AboutInfo {
            description: String::new(),
            version: String::new(),
            links: Vec::new(),
            braille_images: Vec::new(),
        }
    }
}

} // verus!
