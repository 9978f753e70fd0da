//! One decomposed input file: its full path, the labels extracted from it
//! (or overridden by the operator), the selected capture date, and the
//! vendor whose rule applies.

use vstd::prelude::*;
use vstd::string::StringExecFns;

use crate::date::Date;
use crate::decompose::extract_primer_name;
use crate::decompose::extract_template_name;
use crate::decompose::extract_vendor_id;
use crate::decompose::format_standardized;
use crate::decompose::spec_primer_name;
use crate::decompose::spec_standardized_name;
use crate::decompose::spec_template_name;
use crate::decompose::spec_vendor_id;
use crate::text::dir_prefix;
use crate::text::extension;
use crate::text::file_name;
use crate::text::file_stem;
use crate::text::spec_base_start;
use crate::text::spec_extension;
use crate::text::spec_file_name;
use crate::text::spec_stem;
use crate::vendor::Vendor;

verus! {

/// A decomposed filename. The full path is the entry's identity; the two
/// label fields hold either the vendor rule's extraction or an operator
/// override, and an empty label means "not extractable", never an error.
#[derive(Debug)]
pub struct SangerFilename {
    pub filename: String,
    pub primer_name: String,
    pub template_name: String,
    pub date: Option<Date>,
    pub vendor: Vendor,
    pub renamed: bool,
}

impl Clone for SangerFilename {
    /// Clones the entry; the copy equals the original.
    fn clone(&self) -> (r: Self)
        ensures
            r == *self,
    {
        SangerFilename {
            filename: self.filename.clone(),
            primer_name: self.primer_name.clone(),
            template_name: self.template_name.clone(),
            date: self.date,
            vendor: self.vendor,
            renamed: self.renamed,
        }
    }
}

impl SangerFilename {
    /// Well-formedness: a stamped capture date is a real calendar date.
    pub open spec fn wf(self) -> bool {
        match self.date {
            Some(d) => d.wf(),
            None => true,
        }
    }

    /// The live template label: the stored field, or, while that is empty,
    /// whatever the vendor's rule extracts.
    pub open spec fn current_template(self) -> Seq<char> {
        if self.template_name@.len() > 0 {
            self.template_name@
        } else {
            spec_template_name(self.vendor, self.filename@)
        }
    }

    /// The live primer label: the stored field, or, while that is empty,
    /// whatever the vendor's rule extracts.
    pub open spec fn current_primer(self) -> Seq<char> {
        if self.primer_name@.len() > 0 {
            self.primer_name@
        } else {
            spec_primer_name(self.vendor, self.filename@)
        }
    }

    /// The standardized name for a given capture date (extension not
    /// included).
    pub open spec fn spec_standardized_for(self, d: Date) -> Seq<char> {
        spec_standardized_name(d, self.current_template(), self.current_primer())
    }

    /// The full target path for a given capture date: same directory,
    /// standardized name, the original extension re-appended.
    pub open spec fn spec_standardized_path_for(self, d: Date) -> Seq<char> {
        self.filename@.subrange(0, spec_base_start(self.filename@))
            + self.spec_standardized_for(d) + seq!['.'] + spec_extension(self.filename@)
    }

    /// Creates an entry for one file, extracting both labels by the
    /// vendor's rule. No capture date is set yet.
    pub fn new(filename: String, vendor: Vendor) -> (r: SangerFilename)
        ensures
            r.filename == filename,
            r.vendor == vendor,
            r.template_name@ == spec_template_name(vendor, filename@),
            r.primer_name@ == spec_primer_name(vendor, filename@),
            r.date is None,
            r.renamed == false,
            r.wf(),
    {
        let template_name = extract_template_name(vendor, filename.as_str());
        let primer_name = extract_primer_name(vendor, filename.as_str());
        SangerFilename { filename, primer_name, template_name, date: None, vendor, renamed: false }
    }

    /// Creates an entry from a filename string and a vendor choice.
    pub fn from_filename_with_vendor(filename: String, vendor: Vendor) -> (r: SangerFilename)
        ensures
            r.filename@ == filename@,
            r.vendor == vendor,
            r.template_name@ == spec_template_name(vendor, filename@),
            r.primer_name@ == spec_primer_name(vendor, filename@),
            r.date is None,
            r.renamed == false,
            r.wf(),
    {
        SangerFilename::new(filename, vendor)
    }

    /// Returns the full path.
    pub fn get_full_path(&self) -> (r: String)
        ensures
            r@ == self.filename@,
    {
        self.filename.clone()
    }

    /// Returns the stem: the file name without directory or final
    /// extension.
    pub fn get_file_stem(&self) -> (r: String)
        ensures
            r@ == spec_stem(self.filename@),
    {
        file_stem(self.filename.as_str())
    }

    /// Returns the file name with its extension but without the directory.
    pub fn show_file_name(&self) -> (r: String)
        ensures
            r@ == spec_file_name(self.filename@),
    {
        file_name(self.filename.as_str())
    }

    /// Returns the final extension, empty when there is none.
    pub fn get_extension_name(&self) -> (r: String)
        ensures
            r@ == spec_extension(self.filename@),
    {
        extension(self.filename.as_str())
    }

    /// Returns the live template label.
    pub fn get_template_name(&self) -> (r: String)
        ensures
            r@ == self.current_template(),
    {
        if self.template_name.as_str().unicode_len() > 0 {
            self.template_name.clone()
        } else {
            extract_template_name(self.vendor, self.filename.as_str())
        }
    }

    /// Returns the live primer label.
    pub fn get_primer_name(&self) -> (r: String)
        ensures
            r@ == self.current_primer(),
    {
        if self.primer_name.as_str().unicode_len() > 0 {
            self.primer_name.clone()
        } else {
            extract_primer_name(self.vendor, self.filename.as_str())
        }
    }

    /// Overwrites the stored primer label.
    pub fn set_primer_name(&mut self, primer_name: &str) -> (r: Result<(), String>)
        ensures
            r is Ok,
            *final(self) == (SangerFilename { primer_name: final(self).primer_name, ..*old(self) }),
            final(self).primer_name@ == primer_name@,
    {
        self.primer_name = String::from_str(primer_name);
        Ok(())
    }

    /// Overwrites the stored template label.
    pub fn set_template_name(&mut self, template_name: &str) -> (r: Result<(), String>)
        ensures
            r is Ok,
            *final(self) == (SangerFilename {
                template_name: final(self).template_name,
                ..*old(self)
            }),
            final(self).template_name@ == template_name@,
    {
        self.template_name = String::from_str(template_name);
        Ok(())
    }

    /// Stamps the capture date.
    pub fn set_date(&mut self, date: Date) -> (r: Result<(), String>)
        requires
            date.wf(),
        ensures
            r is Ok,
            *final(self) == (SangerFilename { date: Some(date), ..*old(self) }),
    {
        self.date = Some(date);
        Ok(())
    }

    /// Returns the vendor-internal tracking id extracted from the path.
    pub fn get_vendor_id(&self) -> (r: String)
        ensures
            r@ == spec_vendor_id(self.vendor, self.filename@),
    {
        extract_vendor_id(self.vendor, self.filename.as_str())
    }

    /// Returns the vendor's display name.
    pub fn get_vendor_name(&self) -> (r: String)
        ensures
            r@ == self.vendor.spec_name(),
    {
        self.vendor.name()
    }

    /// Returns the vendor.
    pub fn get_vendor(&self) -> (r: &Vendor)
        ensures
            *r == self.vendor,
    {
        &self.vendor
    }

    /// Switches the vendor, clearing both stored labels and re-extracting
    /// them under the new vendor's rule.
    pub fn set_vendor(&mut self, vendor: Vendor)
        ensures
            *final(self) == (SangerFilename {
                vendor,
                template_name: final(self).template_name,
                primer_name: final(self).primer_name,
                ..*old(self)
            }),
            final(self).template_name@ == spec_template_name(vendor, old(self).filename@),
            final(self).primer_name@ == spec_primer_name(vendor, old(self).filename@),
    {
        self.vendor = vendor;
        let primer_name = extract_primer_name(self.vendor, self.filename.as_str());
        let template_name = extract_template_name(self.vendor, self.filename.as_str());
        self.primer_name = primer_name;
        self.template_name = template_name;
    }

    /// The standardized name for a given capture date.
    pub fn standardized_name_for(&self, date: Date) -> (r: String)
        requires
            date.wf(),
        ensures
            r@ == self.spec_standardized_for(date),
    {
        let template_name = self.get_template_name();
        let primer_name = self.get_primer_name();
        format_standardized(date, template_name.as_str(), primer_name.as_str())
    }

    /// Returns the standardized name `YYMMDD.template.primer` built from
    /// the stamped capture date; while no date is stamped, from the current
    /// date instead.
    pub fn get_standardized_name(&self) -> (r: String)
        requires
            self.wf(),
        ensures
            match self.date {
                Some(d) => r@ == self.spec_standardized_for(d),
                None => exists|d: Date| d.wf() && r@ == self.spec_standardized_for(d),
            },
    {
        let date = match self.date {
            Some(d) => d,
            None => crate::date::today(),
        };
        self.standardized_name_for(date)
    }

    /// The full target path (same directory, standardized name, original
    /// extension) for a given capture date.
    pub fn standardized_path_for(&self, date: Date) -> (r: String)
        requires
            date.wf(),
        ensures
            r@ == self.spec_standardized_path_for(date),
    {
        proof {
            reveal_strlit(".");
        }
        let mut s = dir_prefix(self.filename.as_str());
        let name = self.standardized_name_for(date);
        let ext = self.get_extension_name();
        s.append(name.as_str());
        s.append(".");
        s.append(ext.as_str());
        proof {
            assert(s@ =~= self.spec_standardized_path_for(date));
        }
        s
    }

    /// Returns the full target path for the rename: built from the stamped
    /// capture date, or from the current date while none is stamped.
    pub fn get_standardized_path(&self) -> (r: String)
        requires
            self.wf(),
        ensures
            match self.date {
                Some(d) => r@ == self.spec_standardized_path_for(d),
                None => exists|d: Date| d.wf() && r@ == self.spec_standardized_path_for(d),
            },
    {
        let date = match self.date {
            Some(d) => d,
            None => crate::date::today(),
        };
        self.standardized_path_for(date)
    }

    /// Round trip: for an entry whose stored labels are what the vendor's
    /// rule extracts (as `new` leaves them), the standardized name for a
    /// fixed date is determined by the filename, the vendor and the date
    /// alone — the same triple always yields the same string, and no
    /// filesystem state enters.
    pub proof fn lemma_standardized_round_trip(self, d: Date)
        requires
            self.template_name@ == spec_template_name(self.vendor, self.filename@),
            self.primer_name@ == spec_primer_name(self.vendor, self.filename@),
        ensures
            self.spec_standardized_for(d) == spec_standardized_name(
                d,
                spec_template_name(self.vendor, self.filename@),
                spec_primer_name(self.vendor, self.filename@),
            ),
    {
    }

    /// Marks the entry as renamed (display only; the filesystem move is
    /// the caller's).
    pub fn set_renamed(&mut self, renamed: bool)
        ensures
            *final(self) == (SangerFilename { renamed, ..*old(self) }),
    {
        self.renamed = renamed;
    }
}

} // verus!
