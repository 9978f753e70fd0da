//! A Ruibio-delivered filename on its own: the Ruibio decomposition rule
//! applied to one path, with operator-editable labels and a capture date.

use vstd::prelude::*;
use vstd::string::StringExecFns;

use crate::date::Date;
use crate::decompose::extract_primer_name;
use crate::decompose::extract_template_name;
use crate::decompose::extract_vendor_id;
use crate::decompose::format_standardized;
use crate::decompose::spec_primer_name;
use crate::decompose::spec_standardized_name;
use crate::decompose::spec_template_name;
use crate::decompose::spec_vendor_id;
use crate::text::file_stem;
use crate::text::spec_stem;
use crate::vendor::Vendor;

verus! {

/// One file named by Ruibio's convention, together with the labels read
/// from it (or overridden) and the capture date, once selected.
#[derive(Clone, PartialEq, Eq, Debug)]
pub struct RuibioSangerFilename {
    pub filename: String,
    pub primer_name: String,
    pub template_name: String,
    pub date: Option<Date>,
}

impl From<String> for RuibioSangerFilename {
    fn from(filename: String) -> (r: RuibioSangerFilename) {
        let template_name = extract_template_name(Vendor::Ruibio, filename.as_str());
        let primer_name = extract_primer_name(Vendor::Ruibio, filename.as_str());
        RuibioSangerFilename { filename, primer_name, template_name, date: None }
    }
}

impl vstd::std_specs::convert::FromSpecImpl<String> for RuibioSangerFilename {
    open spec fn obeys_from_spec() -> bool {
        false
    }

    open spec fn from_spec(filename: String) -> RuibioSangerFilename {
        arbitrary()
    }
}

impl<'a> From<&'a str> for RuibioSangerFilename {
    fn from(filename: &'a str) -> (r: RuibioSangerFilename) {
        RuibioSangerFilename::new(filename)
    }
}

impl<'a> vstd::std_specs::convert::FromSpecImpl<&'a str> for RuibioSangerFilename {
    open spec fn obeys_from_spec() -> bool {
        false
    }

    open spec fn from_spec(filename: &'a str) -> RuibioSangerFilename {
        arbitrary()
    }
}

impl RuibioSangerFilename {
    /// Well-formedness: a stamped capture date is a real calendar date.
    pub open spec fn wf(self) -> bool {
        match self.date {
            Some(d) => d.wf(),
            None => true,
        }
    }

    /// The live template label: the stored field, or, while that is
    /// empty, whatever the rule extracts.
    pub open spec fn current_template(self) -> Seq<char> {
        if self.template_name@.len() > 0 {
            self.template_name@
        } else {
            spec_template_name(Vendor::Ruibio, self.filename@)
        }
    }

    /// The live primer label.
    pub open spec fn current_primer(self) -> Seq<char> {
        if self.primer_name@.len() > 0 {
            self.primer_name@
        } else {
            spec_primer_name(Vendor::Ruibio, self.filename@)
        }
    }

    /// Decomposes a filename string, extracting both labels eagerly.
    pub fn new(filename: &str) -> (r: RuibioSangerFilename)
        ensures
            r.filename@ == filename@,
            r.template_name@ == spec_template_name(Vendor::Ruibio, filename@),
            r.primer_name@ == spec_primer_name(Vendor::Ruibio, filename@),
            r.date is None,
            r.wf(),
    {
        let template_name = extract_template_name(Vendor::Ruibio, filename);
        let primer_name = extract_primer_name(Vendor::Ruibio, filename);
        RuibioSangerFilename {
            filename: String::from_str(filename),
            primer_name,
            template_name,
            date: None,
        }
    }

    /// Returns the full path.
    pub fn get_full_path(&self) -> (r: String)
        ensures
            r@ == self.filename@,
    {
        self.filename.clone()
    }

    /// Returns the stem of the path.
    pub fn get_file_stem(&self) -> (r: String)
        ensures
            r@ == spec_stem(self.filename@),
    {
        file_stem(self.filename.as_str())
    }

    /// Returns the live template label: the stem's part before the first
    /// `.`, unless overridden.
    pub fn get_template_name(&self) -> (r: String)
        ensures
            r@ == self.current_template(),
    {
        if self.template_name.as_str().unicode_len() > 0 {
            self.template_name.clone()
        } else {
            extract_template_name(Vendor::Ruibio, self.filename.as_str())
        }
    }

    /// Returns the live primer label: the stem's second `.`-token, unless
    /// overridden.
    pub fn get_primer_name(&self) -> (r: String)
        ensures
            r@ == self.current_primer(),
    {
        if self.primer_name.as_str().unicode_len() > 0 {
            self.primer_name.clone()
        } else {
            extract_primer_name(Vendor::Ruibio, self.filename.as_str())
        }
    }

    /// Overwrites the stored primer label.
    pub fn set_primer_name(&mut self, primer_name: &str) -> (r: Result<(), String>)
        ensures
            r is Ok,
            *final(self) == (RuibioSangerFilename {
                primer_name: final(self).primer_name,
                ..*old(self)
            }),
            final(self).primer_name@ == primer_name@,
    {
        self.primer_name = String::from_str(primer_name);
        Ok(())
    }

    /// Overwrites the stored template label.
    pub fn set_template_name(&mut self, template_name: &str) -> (r: Result<(), String>)
        ensures
            r is Ok,
            *final(self) == (RuibioSangerFilename {
                template_name: final(self).template_name,
                ..*old(self)
            }),
            final(self).template_name@ == template_name@,
    {
        self.template_name = String::from_str(template_name);
        Ok(())
    }

    /// Stamps the capture date.
    pub fn set_date(&mut self, date: Date) -> (r: Result<(), String>)
        requires
            date.wf(),
        ensures
            r is Ok,
            *final(self) == (RuibioSangerFilename { date: Some(date), ..*old(self) }),
    {
        self.date = Some(date);
        Ok(())
    }

    /// Returns the vendor id: the stem's last two `.`-tokens joined.
    pub fn get_vendor_id(&self) -> (r: String)
        ensures
            r@ == spec_vendor_id(Vendor::Ruibio, self.filename@),
    {
        extract_vendor_id(Vendor::Ruibio, self.filename.as_str())
    }

    /// Accepts a new name; this type performs no filesystem work.
    pub fn rename(&self, new_name: &str) -> (r: Result<(), String>)
        ensures
            r is Ok,
    {
        let _ = new_name;
        Ok(())
    }

    /// Returns the vendor's display name.
    pub fn get_vendor_name(&self) -> (r: String)
        ensures
            r@ == Vendor::Ruibio.spec_name(),
    {
        Vendor::Ruibio.name()
    }

    /// Returns the standardized name for the given capture date, or for
    /// the current date when none is given.
    pub fn get_standardized_name(&self, date: Option<Date>) -> (r: String)
        requires
            match date {
                Some(d) => d.wf(),
                None => true,
            },
        ensures
            match date {
                Some(d) => r@ == spec_standardized_name(
                    d,
                    self.current_template(),
                    self.current_primer(),
                ),
                None => exists|d: Date|
                    d.wf() && r@ == spec_standardized_name(
                        d,
                        self.current_template(),
                        self.current_primer(),
                    ),
            },
    {
        let d = match date {
            Some(d) => d,
            None => crate::date::today(),
        };
        let template_name = self.get_template_name();
        let primer_name = self.get_primer_name();
        format_standardized(d, template_name.as_str(), primer_name.as_str())
    }
}

} // verus!
