//! A Genewiz-delivered filename on its own: the Genewiz decomposition rule
//! applied to one path.

use vstd::prelude::*;
use vstd::string::StringExecFns;

use crate::date::Date;
use crate::decompose::extract_primer_name;
use crate::decompose::extract_template_name;
use crate::decompose::extract_vendor_id;
use crate::decompose::format_standardized;
use crate::decompose::spec_primer_name;
use crate::decompose::spec_standardized_name;
use crate::decompose::spec_template_name;
use crate::decompose::spec_vendor_id;
use crate::text::file_stem;
use crate::text::spec_stem;
use crate::vendor::Vendor;

verus! {

/// One file named by Genewiz's convention.
#[derive(Clone, PartialEq, Eq, Debug)]
pub struct GenewizSangerFilename {
    pub filename: String,
}

impl From<String> for GenewizSangerFilename {
    fn from(filename: String) -> (r: GenewizSangerFilename) {
        GenewizSangerFilename { filename }
    }
}

impl vstd::std_specs::convert::FromSpecImpl<String> for GenewizSangerFilename {
    open spec fn obeys_from_spec() -> bool {
        true
    }

    open spec fn from_spec(filename: String) -> GenewizSangerFilename {
        GenewizSangerFilename { filename }
    }
}

impl<'a> From<&'a str> for GenewizSangerFilename {
    fn from(filename: &'a str) -> (r: GenewizSangerFilename) {
        GenewizSangerFilename { filename: String::from_str(filename) }
    }
}

impl<'a> vstd::std_specs::convert::FromSpecImpl<&'a str> for GenewizSangerFilename {
    open spec fn obeys_from_spec() -> bool {
        false
    }

    open spec fn from_spec(filename: &'a str) -> GenewizSangerFilename {
        arbitrary()
    }
}

impl GenewizSangerFilename {
    /// Wraps a filename string.
    pub fn new(filename: &str) -> (r: GenewizSangerFilename)
        ensures
            r.filename@ == filename@,
    {
        GenewizSangerFilename { filename: String::from_str(filename) }
    }

    /// Returns the full path.
    pub fn get_full_path(&self) -> (r: String)
        ensures
            r@ == self.filename@,
    {
        self.filename.clone()
    }

    /// Returns the stem of the path.
    pub fn get_file_stem(&self) -> (r: String)
        ensures
            r@ == spec_stem(self.filename@),
    {
        file_stem(self.filename.as_str())
    }

    /// Returns the template name: the stem's part before the last `-`
    /// that precedes the last `_`.
    pub fn get_template_name(&self) -> (r: String)
        ensures
            r@ == spec_template_name(Vendor::Genewiz, self.filename@),
    {
        extract_template_name(Vendor::Genewiz, self.filename.as_str())
    }

    /// Returns the primer name: the stem's part between the last `-`
    /// before the last `_` and that `_`.
    pub fn get_primer_name(&self) -> (r: String)
        ensures
            r@ == spec_primer_name(Vendor::Genewiz, self.filename@),
    {
        extract_primer_name(Vendor::Genewiz, self.filename.as_str())
    }

    /// Returns the vendor id: the stem's part after the last `_`.
    pub fn get_vendor_id(&self) -> (r: String)
        ensures
            r@ == spec_vendor_id(Vendor::Genewiz, self.filename@),
    {
        extract_vendor_id(Vendor::Genewiz, self.filename.as_str())
    }

    /// Accepts a new name; this type performs no filesystem work.
    pub fn rename(&self, new_name: &str) -> (r: Result<(), String>)
        ensures
            r is Ok,
    {
        let _ = new_name;
        Ok(())
    }

    /// Returns the vendor's display name.
    pub fn get_vendor_name(&self) -> (r: String)
        ensures
            r@ == Vendor::Genewiz.spec_name(),
    {
        Vendor::Genewiz.name()
    }

    /// Returns the standardized name for the given capture date, or for
    /// the current date when none is given.
    pub fn get_standardized_name(&self, date: Option<Date>) -> (r: String)
        requires
            match date {
                Some(d) => d.wf(),
                None => true,
            },
        ensures
            match date {
                Some(d) => r@ == spec_standardized_name(
                    d,
                    spec_template_name(Vendor::Genewiz, self.filename@),
                    spec_primer_name(Vendor::Genewiz, self.filename@),
                ),
                None => exists|d: Date|
                    d.wf() && r@ == spec_standardized_name(
                        d,
                        spec_template_name(Vendor::Genewiz, self.filename@),
                        spec_primer_name(Vendor::Genewiz, self.filename@),
                    ),
            },
    {
        let d = match date {
            Some(d) => d,
            None => crate::date::today(),
        };
        let template_name = self.get_template_name();
        let primer_name = self.get_primer_name();
        format_standardized(d, template_name.as_str(), primer_name.as_str())
    }
}

} // verus!
