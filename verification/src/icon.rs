//! Icons embedded in the program.

use vstd::prelude::*;

verus! {

/// An icon: the bytes of an image file under a unique name.
#[derive(Clone, Copy)]
pub struct Icon {
    uri: &'static str,
    image_bytes: &'static [u8],
}

impl Icon {
    /// The name of an icon.
    pub closed spec fn spec_uri(&self) -> Seq<char> {
        self.uri@
    }

    /// The bytes of an icon's image file.
    pub closed spec fn spec_image_bytes(&self) -> Seq<u8> {
        self.image_bytes@
    }

    /// An icon named `uri`, which usually ends in `.png` or `.svg`, holding
    /// the contents of that file.
    pub fn new(uri: &'static str, image_bytes: &'static [u8]) -> (r: Self)
        ensures
            r.spec_uri() == uri@,
            r.spec_image_bytes() == image_bytes@,
    {
        Icon { uri, image_bytes }
    }

    /// The name of the icon.
    pub fn uri(&self) -> (r: &'static str)
        ensures
            r@ == self.spec_uri(),
    {
        self.uri
    }

    /// The bytes of the icon's image file.
    pub fn image_bytes(&self) -> (r: &'static [u8])
        ensures
            r@ == self.spec_image_bytes(),
    {
        self.image_bytes
    }
}

} // verus!
