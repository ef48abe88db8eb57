//! Serialization traits: types that load from and save to flat bytes.
//! Reading and writing actual files is the caller's business; the
//! library only defines the formats.

use vstd::prelude::*;
use crate::bitmap::Bitmap;
use crate::image::BitmapLoadError;
use crate::tilemap::{Tilemap, TilemapError};

verus! {

/// A type that parses from a flat byte representation.
pub trait Load: Sized {
    type Error;

    fn load(bytes: &[u8]) -> Result<Self, Self::Error>;
}

/// A type that serializes to a flat byte representation.  A value must
/// satisfy its type's structural invariant to be saved.
pub trait Save {
    spec fn saveable(&self) -> bool;

    fn save(&self) -> Vec<u8>
        requires
            self.saveable(),
    ;
}

impl Load for Tilemap {
    type Error = TilemapError;

    fn load(bytes: &[u8]) -> Result<Self, TilemapError> {
        Tilemap::load(bytes)
    }
}

impl Save for Tilemap {
    open spec fn saveable(&self) -> bool {
        self.wf()
    }

    fn save(&self) -> Vec<u8> {
        Tilemap::save(self)
    }
}

impl Load for Bitmap {
    type Error = BitmapLoadError;

    fn load(bytes: &[u8]) -> Result<Self, BitmapLoadError> {
        Bitmap::from_bmp_bytes(bytes)
    }
}

} // verus!
