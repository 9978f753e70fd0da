//! The closed set of sequencing vendors and vendor-string parsing.

use vstd::prelude::*;
use vstd::string::StringExecFns;
use vstd::string::StrSliceExecFns;

verus! {

/// One of the three lab vendors whose filename conventions are understood.
#[derive(Clone, Copy, PartialEq, Eq, Structural, Debug)]
pub enum Vendor {
    Sangon,
    Ruibio,
    Genewiz,
}

/// The code of an ASCII letter lowered to its lower-case form; any other
/// character keeps its code. Used to give vendor-string matching its
/// case-insensitive meaning.
pub open spec fn lower_code(c: char) -> int {
    if 65 <= c as int && c as int <= 90 {
        c as int + 32
    } else {
        c as int
    }
}

/// Two character sequences are equal up to ASCII case.
pub open spec fn eq_ignore_ascii_case(s: Seq<char>, t: Seq<char>) -> bool {
    s.len() == t.len() && forall|i: int| 0 <= i < s.len() ==> lower_code(s[i]) == lower_code(t[i])
}

/// Whether a vendor-selection string denotes this vendor (matched
/// case-insensitively).
pub open spec fn spec_vendor_of_str(s: Seq<char>) -> Option<Vendor> {
    if eq_ignore_ascii_case(s, "sangon"@) {
        Some(Vendor::Sangon)
    } else if eq_ignore_ascii_case(s, "ruibio"@) {
        Some(Vendor::Ruibio)
    } else if eq_ignore_ascii_case(s, "genewiz"@) {
        Some(Vendor::Genewiz)
    } else {
        None
    }
}

/// Compares two strings for equality up to ASCII case.
fn str_eq_ignore_ascii_case(s: &str, t: &str) -> (r: bool)
    ensures
        r == eq_ignore_ascii_case(s@, t@),
{
    let n = s.unicode_len();
    let m = t.unicode_len();
    if n != m {
        return false;
    }
    let mut i: usize = 0;
    while i < n
        invariant
            n == s@.len(),
            n == t@.len(),
            0 <= i <= n,
            forall|k: int| 0 <= k < i ==> lower_code(s@[k]) == lower_code(t@[k]),
        decreases n - i,
    {
        let a = s.get_char(i);
        let b = t.get_char(i);
        let ac: u32 = if 65 <= a as u32 && a as u32 <= 90 {
            a as u32 + 32
        } else {
            a as u32
        };
        let bc: u32 = if 65 <= b as u32 && b as u32 <= 90 {
            b as u32 + 32
        } else {
            b as u32
        };
        if ac != bc {
            return false;
        }
        i = i + 1;
    }
    true
}

impl Vendor {
    /// The vendor's display name.
    pub open spec fn spec_name(self) -> Seq<char> {
        match self {
            Vendor::Sangon => "Sangon"@,
            Vendor::Ruibio => "Ruibio"@,
            Vendor::Genewiz => "Genewiz"@,
        }
    }

    /// Returns the vendor's display name.
    pub fn name(&self) -> (r: String)
        ensures
            r@ == self.spec_name(),
    {
        match self {
            Vendor::Sangon => String::from_str("Sangon"),
            Vendor::Ruibio => String::from_str("Ruibio"),
            Vendor::Genewiz => String::from_str("Genewiz"),
        }
    }

    /// Parses a vendor-selection string, matching the vendor names
    /// case-insensitively; any other string is rejected.
    pub fn from_str(s: &str) -> (r: Result<Vendor, String>)
        ensures
            match r {
                Ok(v) => spec_vendor_of_str(s@) == Some(v),
                Err(m) => spec_vendor_of_str(s@) is None && m@ == "Unknown vendor: "@ + s@,
            },
    {
        if str_eq_ignore_ascii_case(s, "sangon") {
            Ok(Vendor::Sangon)
        } else if str_eq_ignore_ascii_case(s, "ruibio") {
            Ok(Vendor::Ruibio)
        } else if str_eq_ignore_ascii_case(s, "genewiz") {
            Ok(Vendor::Genewiz)
        } else {
            Err(String::from_str("Unknown vendor: ").concat(s))
        }
    }

    /// All vendors, in the order they are offered for selection.
    pub fn all() -> (r: Vec<Vendor>)
        ensures
            r@ == seq![Vendor::Sangon, Vendor::Ruibio, Vendor::Genewiz],
    {
        let mut v: Vec<Vendor> = Vec::new();
        v.push(Vendor::Sangon);
        v.push(Vendor::Ruibio);
        v.push(Vendor::Genewiz);
        proof {
            assert(v@ =~= seq![Vendor::Sangon, Vendor::Ruibio, Vendor::Genewiz]);
        }
        v
    }

    /// The number of vendors.
    pub open spec fn spec_count() -> int {
        3
    }

    /// The vendor offered at a given selection index, if any.
    pub open spec fn spec_from_index(index: int) -> Option<Vendor> {
        if index == 0 {
            Some(Vendor::Sangon)
        } else if index == 1 {
            Some(Vendor::Ruibio)
        } else if index == 2 {
            Some(Vendor::Genewiz)
        } else {
            None
        }
    }

    /// Returns the vendor at a selection index.
    pub fn from_index(index: usize) -> (r: Option<Vendor>)
        ensures
            r == Vendor::spec_from_index(index as int),
    {
        if index == 0 {
            Some(Vendor::Sangon)
        } else if index == 1 {
            Some(Vendor::Ruibio)
        } else if index == 2 {
            Some(Vendor::Genewiz)
        } else {
            None
        }
    }
}

} // verus!
