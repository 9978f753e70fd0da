//! Batch-renaming of Sanger-sequencing result files.
//!
//! Three lab vendors each deliver chromatogram files under their own filename
//! convention. This library decomposes such filenames into structured
//! template / primer / vendor-id fields, keeps the decomposed entries in a
//! deduplicated registry, lets an operator override extracted labels in bulk,
//! stamps a capture date, and computes the standardized target name
//! `YYMMDD.template.primer.ext` for each file. An interactive wizard state
//! machine sequences these steps; terminal rendering and the actual
//! filesystem moves live outside this crate.

pub mod date;
pub mod decompose;
pub mod registry;
pub mod sanger_filename;
pub mod stages;
pub mod text;
pub mod vendor;
pub mod vendors;
pub mod wizard;

pub use date::Date;
pub use registry::{LabelKind, SangerFilenames, StrFilenames};
pub use sanger_filename::SangerFilename;
pub use stages::{KeyAction, Stage, StageTransition, VendorSelectionStage};
pub use stages::{ConfirmRenameStage, DateSelectionStage, PrimerRenameStage, TemplateRenameStage};
pub use vendor::Vendor;
pub use vendors::genewiz::GenewizSangerFilename;
pub use vendors::SangerFilenameVariant;
pub use vendors::ruibio::RuibioSangerFilename;
pub use vendors::sangon::SangonSangerFilename;
pub use wizard::App;
