//! The per-vendor filename decomposition rules and the standardized-name
//! formatter.
//!
//! Each rule is a pure function of the filename: the specification functions
//! here state, over character sequences, exactly which substring each field
//! is, and the executable functions are proved to return it. A rule that
//! cannot find its delimiters yields the empty string, never an error.

use vstd::prelude::*;

use crate::date::Date;
use crate::text::find_first;
use crate::text::find_last;
use crate::text::file_stem;
use crate::text::spec_stem;
use crate::text::substring;
use crate::vendor::Vendor;

verus! {

/// The substring strictly between the first occurrence of `open` and the
/// first occurrence of `close`, empty unless the close delimiter comes
/// after the open one.
pub open spec fn spec_between_first(s: Seq<char>, open_c: char, close_c: char) -> Seq<char> {
    match (s.index_of_first(open_c), s.index_of_first(close_c)) {
        (Some(i), Some(j)) => if j > i {
            s.subrange(i + 1, j)
        } else {
            Seq::empty()
        },
        _ => Seq::empty(),
    }
}

/// The part before the first occurrence of `sep`, empty when `sep` does not
/// occur.
pub open spec fn spec_before_first(s: Seq<char>, sep: char) -> Seq<char> {
    match s.index_of_first(sep) {
        Some(i) => s.subrange(0, i),
        None => Seq::empty(),
    }
}

/// The second of the tokens obtained by splitting on `sep`: the part
/// between the first occurrence of `sep` and the following one (or the
/// end). Empty when `sep` does not occur at all.
pub open spec fn spec_second_token(s: Seq<char>, sep: char) -> Seq<char> {
    match s.index_of_first(sep) {
        Some(i) => {
            let rest = s.subrange(i + 1, s.len() as int);
            match rest.index_of_first(sep) {
                Some(j) => rest.subrange(0, j),
                None => rest,
            }
        },
        None => Seq::empty(),
    }
}

/// The part after the last occurrence of `sep`, empty when `sep` does not
/// occur.
pub open spec fn spec_after_last(s: Seq<char>, sep: char) -> Seq<char> {
    match s.index_of_last(sep) {
        Some(i) => s.subrange(i + 1, s.len() as int),
        None => Seq::empty(),
    }
}

/// The last two tokens of a split on `sep`, still joined by it: the part
/// after the second-to-last occurrence of `sep`. Empty unless `sep` occurs
/// at least twice.
pub open spec fn spec_last_two_tokens(s: Seq<char>, sep: char) -> Seq<char> {
    match s.index_of_last(sep) {
        Some(j) => {
            match s.subrange(0, j).index_of_last(sep) {
                Some(k) => s.subrange(k + 1, s.len() as int),
                None => Seq::empty(),
            }
        },
        None => Seq::empty(),
    }
}

/// In a Genewiz stem the last `_` separates the vendor id; the last `-`
/// before it separates template from primer. This yields the position pair
/// `(d, u)`, or None when either delimiter is missing.
pub open spec fn spec_genewiz_split(stem: Seq<char>) -> Option<(int, int)> {
    match stem.index_of_last('_') {
        Some(u) => match stem.subrange(0, u).index_of_last('-') {
            Some(d) => Some((d, u)),
            None => None,
        },
        None => None,
    }
}

/// The template name a vendor's rule extracts from a filename.
///
/// Sangon finds it between the first `(` and the first `)` of the full raw
/// filename; Ruibio takes the stem's part before the first `.`; Genewiz
/// takes the stem's part before the last `-` that precedes the last `_`.
pub open spec fn spec_template_name(vendor: Vendor, filename: Seq<char>) -> Seq<char> {
    match vendor {
        Vendor::Sangon => spec_between_first(filename, '(', ')'),
        Vendor::Ruibio => spec_before_first(spec_stem(filename), '.'),
        Vendor::Genewiz => match spec_genewiz_split(spec_stem(filename)) {
            Some(du) => spec_stem(filename).subrange(0, du.0),
            None => Seq::empty(),
        },
    }
}

/// The primer name a vendor's rule extracts from a filename.
///
/// Sangon finds it between the first `[` and the first `]` of the stem;
/// Ruibio takes the stem's second `.`-token; Genewiz the stem's part
/// between the last `-` before the last `_` and that `_` (so a primer may
/// itself contain `_`).
pub open spec fn spec_primer_name(vendor: Vendor, filename: Seq<char>) -> Seq<char> {
    match vendor {
        Vendor::Sangon => spec_between_first(spec_stem(filename), '[', ']'),
        Vendor::Ruibio => spec_second_token(spec_stem(filename), '.'),
        Vendor::Genewiz => match spec_genewiz_split(spec_stem(filename)) {
            Some(du) => spec_stem(filename).subrange(du.0 + 1, du.1),
            None => Seq::empty(),
        },
    }
}

/// The vendor-internal tracking id a vendor's rule extracts from a
/// filename.
///
/// Sangon takes the stem's second `_`-token; Ruibio the stem's last two
/// `.`-tokens joined by `.`; Genewiz the stem's part after the last `_`.
pub open spec fn spec_vendor_id(vendor: Vendor, filename: Seq<char>) -> Seq<char> {
    match vendor {
        Vendor::Sangon => spec_second_token(spec_stem(filename), '_'),
        Vendor::Ruibio => spec_last_two_tokens(spec_stem(filename), '.'),
        Vendor::Genewiz => spec_after_last(spec_stem(filename), '_'),
    }
}

/// Extracts the substring strictly between the first `open_c` and the first
/// `close_c`.
fn between_first(s: &str, open_c: char, close_c: char) -> (r: String)
    ensures
        r@ == spec_between_first(s@, open_c, close_c),
{
    match (find_first(s, open_c), find_first(s, close_c)) {
        (Some(i), Some(j)) => {
            if j > i {
                substring(s, i + 1, j)
            } else {
                String::new()
            }
        },
        _ => String::new(),
    }
}

/// Extracts the part before the first `sep`.
fn before_first(s: &str, sep: char) -> (r: String)
    ensures
        r@ == spec_before_first(s@, sep),
{
    match find_first(s, sep) {
        Some(i) => substring(s, 0, i),
        None => String::new(),
    }
}

/// Extracts the second `sep`-token.
fn second_token(s: &str, sep: char) -> (r: String)
    ensures
        r@ == spec_second_token(s@, sep),
{
    let n = s.unicode_len();
    match find_first(s, sep) {
        Some(i) => {
            let rest = s.substring_char(i + 1, n);
            match find_first(rest, sep) {
                Some(j) => substring(rest, 0, j),
                None => String::from_str(rest),
            }
        },
        None => String::new(),
    }
}

/// Extracts the part after the last `sep`.
fn after_last(s: &str, sep: char) -> (r: String)
    ensures
        r@ == spec_after_last(s@, sep),
{
    let n = s.unicode_len();
    match find_last(s, sep) {
        Some(i) => substring(s, i + 1, n),
        None => String::new(),
    }
}

/// Extracts the last two `sep`-tokens, still joined.
fn last_two_tokens(s: &str, sep: char) -> (r: String)
    ensures
        r@ == spec_last_two_tokens(s@, sep),
{
    let n = s.unicode_len();
    match find_last(s, sep) {
        Some(j) => {
            let pre = s.substring_char(0, j);
            match find_last(pre, sep) {
                Some(k) => substring(s, k + 1, n),
                None => String::new(),
            }
        },
        None => String::new(),
    }
}

/// Extracts the template name by the given vendor's rule.
pub fn extract_template_name(vendor: Vendor, filename: &str) -> (r: String)
    ensures
        r@ == spec_template_name(vendor, filename@),
{
    match vendor {
        Vendor::Sangon => between_first(filename, '(', ')'),
        Vendor::Ruibio => {
            let stem = file_stem(filename);
            before_first(stem.as_str(), '.')
        },
        Vendor::Genewiz => {
            let stem = file_stem(filename);
            match find_last(stem.as_str(), '_') {
                Some(u) => {
                    let before = stem.as_str().substring_char(0, u);
                    match find_last(before, '-') {
                        Some(d) => substring(stem.as_str(), 0, d),
                        None => String::new(),
                    }
                },
                None => String::new(),
            }
        },
    }
}

/// Extracts the primer name by the given vendor's rule.
pub fn extract_primer_name(vendor: Vendor, filename: &str) -> (r: String)
    ensures
        r@ == spec_primer_name(vendor, filename@),
{
    let stem = file_stem(filename);
    match vendor {
        Vendor::Sangon => between_first(stem.as_str(), '[', ']'),
        Vendor::Ruibio => second_token(stem.as_str(), '.'),
        Vendor::Genewiz => {
            match find_last(stem.as_str(), '_') {
                Some(u) => {
                    let before = stem.as_str().substring_char(0, u);
                    match find_last(before, '-') {
                        Some(d) => substring(stem.as_str(), d + 1, u),
                        None => String::new(),
                    }
                },
                None => String::new(),
            }
        },
    }
}

/// Extracts the vendor id by the given vendor's rule.
pub fn extract_vendor_id(vendor: Vendor, filename: &str) -> (r: String)
    ensures
        r@ == spec_vendor_id(vendor, filename@),
{
    let stem = file_stem(filename);
    match vendor {
        Vendor::Sangon => second_token(stem.as_str(), '_'),
        Vendor::Ruibio => last_two_tokens(stem.as_str(), '.'),
        Vendor::Genewiz => after_last(stem.as_str(), '_'),
    }
}

/// The character for one decimal digit.
pub open spec fn spec_digit_char(d: int) -> char {
    if d == 0 {
        '0'
    } else if d == 1 {
        '1'
    } else if d == 2 {
        '2'
    } else if d == 3 {
        '3'
    } else if d == 4 {
        '4'
    } else if d == 5 {
        '5'
    } else if d == 6 {
        '6'
    } else if d == 7 {
        '7'
    } else if d == 8 {
        '8'
    } else {
        '9'
    }
}

/// A number below 100 written as exactly two decimal digits.
pub open spec fn spec_two_digits(n: int) -> Seq<char> {
    seq![spec_digit_char(n / 10), spec_digit_char(n % 10)]
}

/// The standardized name: six date digits (two-digit year, month, day),
/// then the template and the primer, separated by dots. The caller appends
/// the original extension separately.
pub open spec fn spec_standardized_name(date: Date, template: Seq<char>, primer: Seq<char>) -> Seq<
    char,
> {
    spec_two_digits(date.year as int % 100) + spec_two_digits(date.month as int) + spec_two_digits(
        date.day as int,
    ) + seq!['.'] + template + seq!['.'] + primer
}

/// The one-character string for a decimal digit.
fn digit_str(d: u16) -> (r: &'static str)
    requires
        d < 10,
    ensures
        r@ == seq![spec_digit_char(d as int)],
{
    proof {
        reveal_strlit("0");
        reveal_strlit("1");
        reveal_strlit("2");
        reveal_strlit("3");
        reveal_strlit("4");
        reveal_strlit("5");
        reveal_strlit("6");
        reveal_strlit("7");
        reveal_strlit("8");
        reveal_strlit("9");
    }
    let r = if d == 0 {
        "0"
    } else if d == 1 {
        "1"
    } else if d == 2 {
        "2"
    } else if d == 3 {
        "3"
    } else if d == 4 {
        "4"
    } else if d == 5 {
        "5"
    } else if d == 6 {
        "6"
    } else if d == 7 {
        "7"
    } else if d == 8 {
        "8"
    } else {
        "9"
    };
    proof {
        assert(r@ =~= seq![spec_digit_char(d as int)]);
    }
    r
}

/// Appends a number below 100 as two decimal digits.
fn push_two_digits(s: &mut String, n: u16)
    requires
        n < 100,
    ensures
        final(s)@ == old(s)@ + spec_two_digits(n as int),
{
    s.append(digit_str(n / 10));
    s.append(digit_str(n % 10));
    proof {
        assert(s@ =~= old(s)@ + spec_two_digits(n as int));
    }
}

/// Formats a capture date and the two labels as the standardized name
/// `YYMMDD.template.primer` (without the extension).
pub fn format_standardized(date: Date, template: &str, primer: &str) -> (r: String)
    requires
        date.wf(),
    ensures
        r@ == spec_standardized_name(date, template@, primer@),
{
    proof {
        reveal_strlit(".");
    }
    let mut s = String::new();
    push_two_digits(&mut s, date.year % 100);
    push_two_digits(&mut s, date.month as u16);
    push_two_digits(&mut s, date.day as u16);
    s.append(".");
    s.append(template);
    s.append(".");
    s.append(primer);
    proof {
        assert(s@ =~= spec_standardized_name(date, template@, primer@));
    }
    s
}

/// Decomposition is a pure function of the filename: equal filenames give
/// equal template, primer and vendor-id fields, whatever else differs
/// between two runs.
pub proof fn lemma_decomposition_deterministic(vendor: Vendor, a: Seq<char>, b: Seq<char>)
    requires
        a == b,
    ensures
        spec_template_name(vendor, a) == spec_template_name(vendor, b),
        spec_primer_name(vendor, a) == spec_primer_name(vendor, b),
        spec_vendor_id(vendor, a) == spec_vendor_id(vendor, b),
{
}

} // verus!
