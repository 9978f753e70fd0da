//! Per-vendor standalone filename types, one module per vendor
//! convention.

pub mod genewiz;
pub mod ruibio;
pub mod sangon;

use vstd::prelude::*;

use crate::vendors::genewiz::GenewizSangerFilename;
use crate::vendors::ruibio::RuibioSangerFilename;
use crate::vendors::sangon::SangonSangerFilename;

verus! {

/// A filename under any one of the vendor conventions, tagged by vendor.
#[derive(Clone, PartialEq, Debug)]
pub enum SangerFilenameVariant {
    Sangon(SangonSangerFilename),
    Ruibio(RuibioSangerFilename),
    Genewiz(GenewizSangerFilename),
}

impl SangerFilenameVariant {
    /// Returns the full path, whichever vendor named the file.
    pub fn get_full_path(&self) -> (r: String)
        ensures
            r@ == match self {
                SangerFilenameVariant::Sangon(f) => f.filename@,
                SangerFilenameVariant::Ruibio(f) => f.filename@,
                SangerFilenameVariant::Genewiz(f) => f.filename@,
            },
    {
        match self {
            SangerFilenameVariant::Sangon(f) => f.get_full_path(),
            SangerFilenameVariant::Ruibio(f) => f.get_full_path(),
            SangerFilenameVariant::Genewiz(f) => f.get_full_path(),
        }
    }
}

} // verus!
