use vstd::prelude::*;

use crate::asset::AssetKind;
use crate::errors::Error;

verus! {

/// One asset as the engine-level loader hands it out: raw bytes plus the
/// kind they were classified as.
#[derive(Debug)]
pub struct Asset {
    pub raw: Vec<u8>,
    pub kind: AssetKind,
}

/// An asset loader: resolves a path to an asset, or to its raw bytes.
/// Implementations are supplied by the embedding application.
pub trait AssetLoader {
    fn load_as_bytes(&mut self, path: &str) -> Result<Vec<u8>, Error>;

    fn load(&mut self, path: &str) -> Result<Asset, Error>;
}

} // verus!
