//! A Sangon-delivered filename on its own: the Sangon decomposition rule
//! applied to one path.

use vstd::prelude::*;
use vstd::string::StringExecFns;

use crate::date::Date;
use crate::decompose::extract_primer_name;
use crate::decompose::extract_template_name;
use crate::decompose::extract_vendor_id;
use crate::decompose::format_standardized;
use crate::decompose::spec_primer_name;
use crate::decompose::spec_standardized_name;
use crate::decompose::spec_template_name;
use crate::decompose::spec_vendor_id;
use crate::text::file_stem;
use crate::text::spec_stem;
use crate::vendor::Vendor;

verus! {

/// One file named by Sangon's convention.
#[derive(Clone, PartialEq, Eq, Debug)]
pub struct SangonSangerFilename {
    pub filename: String,
}

impl From<String> for SangonSangerFilename {
    fn from(filename: String) -> (r: SangonSangerFilename) {
        SangonSangerFilename { filename }
    }
}

impl vstd::std_specs::convert::FromSpecImpl<String> for SangonSangerFilename {
    open spec fn obeys_from_spec() -> bool {
        true
    }

    open spec fn from_spec(filename: String) -> SangonSangerFilename {
        SangonSangerFilename { filename }
    }
}

impl<'a> From<&'a str> for SangonSangerFilename {
    fn from(filename: &'a str) -> (r: SangonSangerFilename) {
        SangonSangerFilename { filename: String::from_str(filename) }
    }
}

impl<'a> vstd::std_specs::convert::FromSpecImpl<&'a str> for SangonSangerFilename {
    open spec fn obeys_from_spec() -> bool {
        false
    }

    open spec fn from_spec(filename: &'a str) -> SangonSangerFilename {
        arbitrary()
    }
}

impl SangonSangerFilename {
    /// Wraps a filename string.
    pub fn new(filename: &str) -> (r: SangonSangerFilename)
        ensures
            r.filename@ == filename@,
    {
        SangonSangerFilename { filename: String::from_str(filename) }
    }

    /// Returns the full path.
    pub fn get_full_path(&self) -> (r: String)
        ensures
            r@ == self.filename@,
    {
        self.filename.clone()
    }

    /// Returns the stem of the path.
    pub fn get_file_stem(&self) -> (r: String)
        ensures
            r@ == spec_stem(self.filename@),
    {
        file_stem(self.filename.as_str())
    }

    /// Returns the template name: the part between the first `(` and the
    /// first `)`.
    pub fn get_template_name(&self) -> (r: String)
        ensures
            r@ == spec_template_name(Vendor::Sangon, self.filename@),
    {
        extract_template_name(Vendor::Sangon, self.filename.as_str())
    }

    /// Returns the primer name: the stem's part between the first `[` and
    /// the first `]`.
    pub fn get_primer_name(&self) -> (r: String)
        ensures
            r@ == spec_primer_name(Vendor::Sangon, self.filename@),
    {
        extract_primer_name(Vendor::Sangon, self.filename.as_str())
    }

    /// Returns the vendor id: the stem's second `_`-token.
    pub fn get_vendor_id(&self) -> (r: String)
        ensures
            r@ == spec_vendor_id(Vendor::Sangon, self.filename@),
    {
        extract_vendor_id(Vendor::Sangon, self.filename.as_str())
    }

    /// Accepts a new name; this type performs no filesystem work.
    pub fn rename(&self, new_name: &str) -> (r: Result<(), String>)
        ensures
            r is Ok,
    {
        let _ = new_name;
        Ok(())
    }

    /// Returns the vendor's display name.
    pub fn get_vendor_name(&self) -> (r: String)
        ensures
            r@ == Vendor::Sangon.spec_name(),
    {
        Vendor::Sangon.name()
    }

    /// Returns the standardized name for the given capture date, or for
    /// the current date when none is given.
    pub fn get_standardized_name(&self, date: Option<Date>) -> (r: String)
        requires
            match date {
                Some(d) => d.wf(),
                None => true,
            },
        ensures
            match date {
                Some(d) => r@ == spec_standardized_name(
                    d,
                    spec_template_name(Vendor::Sangon, self.filename@),
                    spec_primer_name(Vendor::Sangon, self.filename@),
                ),
                None => exists|d: Date|
                    d.wf() && r@ == spec_standardized_name(
                        d,
                        spec_template_name(Vendor::Sangon, self.filename@),
                        spec_primer_name(Vendor::Sangon, self.filename@),
                    ),
            },
    {
        let d = match date {
            Some(d) => d,
            None => crate::date::today(),
        };
        let template_name = self.get_template_name();
        let primer_name = self.get_primer_name();
        format_standardized(d, template_name.as_str(), primer_name.as_str())
    }
}

} // verus!
