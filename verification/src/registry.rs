//! The deduplicated, ordered collection of decomposed filenames the wizard
//! operates on. The full path is the identity: adding a path a second time
//! is a no-op, so the registry never holds two entries for one file.

use vstd::prelude::*;
use vstd::pervasive::VecAdditionalExecFns;
use vstd::string::StringExecFns;

use crate::date::Date;
use crate::decompose::spec_primer_name;
use crate::decompose::spec_template_name;
use crate::sanger_filename::SangerFilename;
use crate::vendor::Vendor;

verus! {

/// Which of the two operator-editable labels an operation is about.
#[derive(Clone, Copy, PartialEq, Eq, Structural, Debug)]
pub enum LabelKind {
    Primer,
    Template,
}

/// The live label of an entry for the given kind.
pub open spec fn spec_current_label(e: SangerFilename, kind: LabelKind) -> Seq<char> {
    match kind {
        LabelKind::Primer => e.current_primer(),
        LabelKind::Template => e.current_template(),
    }
}

/// Whether some string of the sequence reads as the given label.
pub open spec fn seq_contains_label(s: Seq<String>, l: Seq<char>) -> bool {
    exists|j: int| 0 <= j < s.len() && s[j]@ == l
}

/// Whether the given label is the live label of some entry.
pub open spec fn label_of_some_entry(s: Seq<SangerFilename>, l: Seq<char>, kind: LabelKind) -> bool {
    exists|i: int| 0 <= i < s.len() && spec_current_label(s[i], kind) == l
}

/// Some occurrence of `p` among the raw strings comes strictly before
/// every occurrence of `q`.
pub open spec fn occurs_before(strs: Seq<String>, p: Seq<char>, q: Seq<char>) -> bool {
    exists|k: int|
        0 <= k < strs.len() && strs[k]@ == p && (forall|m: int| 0 <= m <= k ==> strs[m]@ != q)
}

/// The path occurs among the first `k` raw strings.
pub open spec fn path_in_prefix(strs: Seq<String>, k: int, p: Seq<char>) -> bool {
    exists|m: int| 0 <= m < k && strs[m]@ == p
}

/// An entry as a fresh decomposition of one of the raw strings leaves it:
/// the given vendor, both labels extracted by its rule, no capture date,
/// not renamed, and the path one of the strings.
pub open spec fn decomposed_from(e: SangerFilename, strs: Seq<String>, vendor: Vendor) -> bool {
    &&& e.vendor == vendor
    &&& e.date is None
    &&& e.renamed == false
    &&& e.template_name@ == spec_template_name(vendor, e.filename@)
    &&& e.primer_name@ == spec_primer_name(vendor, e.filename@)
    &&& exists|k: int| 0 <= k < strs.len() && strs[k]@ == e.filename@
}

/// One entry after an override commit: the stored label of the given kind
/// now reads `new_name`, everything else is as before.
pub open spec fn label_replaced(
    e_old: SangerFilename,
    e_new: SangerFilename,
    kind: LabelKind,
    new_name: Seq<char>,
) -> bool {
    match kind {
        LabelKind::Primer => e_new == (SangerFilename { primer_name: e_new.primer_name, ..e_old })
            && e_new.primer_name@ == new_name,
        LabelKind::Template => e_new == (SangerFilename {
            template_name: e_new.template_name,
            ..e_old
        }) && e_new.template_name@ == new_name,
    }
}

/// Override propagation, stated over entry sequences: exactly the entries
/// whose live label equals `key` got `new_name` as their stored label; the
/// others are untouched.
pub open spec fn labels_applied(
    old_s: Seq<SangerFilename>,
    new_s: Seq<SangerFilename>,
    kind: LabelKind,
    key: Seq<char>,
    new_name: Seq<char>,
) -> bool {
    &&& new_s.len() == old_s.len()
    &&& forall|i: int|
        #![trigger old_s[i]]
        0 <= i < old_s.len() ==> if spec_current_label(old_s[i], kind) == key {
            label_replaced(old_s[i], new_s[i], kind, new_name)
        } else {
            new_s[i] == old_s[i]
        }
}

/// Whether some entry of the sequence holds the given full path.
pub open spec fn seq_contains_path(s: Seq<SangerFilename>, p: Seq<char>) -> bool {
    exists|i: int| 0 <= i < s.len() && s[i].filename@ == p
}

/// Adding an entry to the registry: a no-op when its path is already
/// present, an append otherwise.
pub open spec fn spec_add(s: Seq<SangerFilename>, f: SangerFilename) -> Seq<SangerFilename> {
    if seq_contains_path(s, f.filename@) {
        s
    } else {
        s.push(f)
    }
}

/// Registry deduplication: adding a second entry with the same full path
/// leaves the registry exactly as the first add left it, whatever its
/// other fields hold.
pub proof fn lemma_add_same_path_idempotent(
    s: Seq<SangerFilename>,
    f: SangerFilename,
    g: SangerFilename,
)
    requires
        g.filename@ == f.filename@,
    ensures
        spec_add(spec_add(s, f), g) == spec_add(s, f),
{
    let s1 = spec_add(s, f);
    if seq_contains_path(s, f.filename@) {
        assert(seq_contains_path(s1, g.filename@));
    } else {
        assert(s1[s.len() as int].filename@ == g.filename@);
        assert(seq_contains_path(s1, g.filename@));
    }
}

/// In a deduplicated registry an entry's path occurs at its own index
/// only: adding the same full path twice yields exactly one entry for it.
pub proof fn lemma_paths_unique(s: Seq<SangerFilename>, i: int, j: int)
    requires
        forall|a: int, b: int|
            0 <= a < b < s.len() ==> s[a].filename@ != s[b].filename@,
        0 <= i < s.len(),
        0 <= j < s.len(),
        s[i].filename@ == s[j].filename@,
    ensures
        i == j,
{
}

/// The wizard's working set: decomposed filenames, `full_path`-keyed and
/// deduplicated, in insertion order.
pub struct SangerFilenames {
    pub filenames: Vec<SangerFilename>,
}

/// The raw filename strings handed over before a vendor is chosen.
pub struct StrFilenames {
    pub filenames: Vec<String>,
}

/// Whether some string of the vector reads the same as `s`.
fn vec_contains_str(v: &Vec<String>, s: &String) -> (r: bool)
    ensures
        r == seq_contains_label(v@, s@),
{
    let n = v.len();
    let mut j: usize = 0;
    while j < n
        invariant
            n == v@.len(),
            0 <= j <= n,
            forall|q: int| 0 <= q < j ==> (#[trigger] v@[q])@ != s@,
        decreases n - j,
    {
        if v[j] == *s {
            proof {
                assert((v@[j as int])@ == s@);
            }
            return true;
        }
        j = j + 1;
    }
    false
}

impl SangerFilenames {
    /// Well-formedness: entries are well-formed and no two share a path.
    pub open spec fn wf(self) -> bool {
        &&& forall|i: int| 0 <= i < self.filenames@.len() ==> (#[trigger] self.filenames@[i]).wf()
        &&& forall|i: int, j: int|
            0 <= i < j < self.filenames@.len() ==> self.filenames@[i].filename@
                != self.filenames@[j].filename@
    }

    /// Whether some entry holds the given full path.
    pub open spec fn contains_path(self, p: Seq<char>) -> bool {
        seq_contains_path(self.filenames@, p)
    }

    /// Creates an empty registry.
    pub fn new() -> (r: SangerFilenames)
        ensures
            r.filenames@.len() == 0,
            r.wf(),
    {
        SangerFilenames { filenames: Vec::new() }
    }

    /// Adds an entry unless its full path is already present.
    pub fn add_filename(&mut self, filename: SangerFilename)
        requires
            old(self).wf(),
            filename.wf(),
        ensures
            final(self).filenames@ == spec_add(old(self).filenames@, filename),
            final(self).wf(),
    {
        let n = self.filenames.len();
        let mut i: usize = 0;
        while i < n
            invariant
                self == old(self),
                old(self).wf(),
                filename.wf(),
                n == self.filenames@.len(),
                0 <= i <= n,
                forall|k: int| 0 <= k < i ==> self.filenames@[k].filename@ != filename.filename@,
            decreases n - i,
        {
            if self.filenames[i].filename == filename.filename {
                proof {
                    assert(seq_contains_path(self.filenames@, filename.filename@));
                }
                return;
            }
            i = i + 1;
        }
        proof {
            assert(!seq_contains_path(self.filenames@, filename.filename@));
        }
        self.filenames.push(filename);
    }

    /// Decomposes every raw filename under the given vendor and adds it.
    /// Existing entries stay untouched; each new path is appended the
    /// first time it occurs, so the new entries carry first-occurrence
    /// input order and duplicates collapse to one entry.
    pub fn add_decomposed(&mut self, str_filenames: &Vec<String>, vendor: Vendor)
        requires
            old(self).wf(),
        ensures
            final(self).wf(),
            old(self).filenames@.is_prefix_of(final(self).filenames@),
            forall|k: int|
                0 <= k < str_filenames@.len() ==> final(self).contains_path(
                    #[trigger] str_filenames@[k]@,
                ),
            forall|i: int|
                old(self).filenames@.len() <= i < final(self).filenames@.len()
                    ==> decomposed_from(
                    #[trigger] final(self).filenames@[i],
                    str_filenames@,
                    vendor,
                ),
            forall|i: int, j: int|
                #![trigger final(self).filenames@[i], final(self).filenames@[j]]
                old(self).filenames@.len() <= i < j < final(self).filenames@.len()
                    ==> occurs_before(
                    str_filenames@,
                    final(self).filenames@[i].filename@,
                    final(self).filenames@[j].filename@,
                ),
    {
        let ghost base = old(self).filenames@.len() as int;
        let n = str_filenames.len();
        let mut k: usize = 0;
        while k < n
            invariant
                n == str_filenames@.len(),
                0 <= k <= n,
                base == old(self).filenames@.len(),
                self.wf(),
                old(self).filenames@.is_prefix_of(self.filenames@),
                forall|m: int| 0 <= m < k ==> self.contains_path(#[trigger] str_filenames@[m]@),
                forall|i: int|
                    base <= i < self.filenames@.len() ==> decomposed_from(
                        #[trigger] self.filenames@[i],
                        str_filenames@,
                        vendor,
                    ),
                forall|i: int|
                    base <= i < self.filenames@.len() ==> path_in_prefix(
                        str_filenames@,
                        k as int,
                        (#[trigger] self.filenames@[i]).filename@,
                    ),
                forall|i: int, j: int|
                    #![trigger self.filenames@[i], self.filenames@[j]]
                    base <= i < j < self.filenames@.len() ==> occurs_before(
                        str_filenames@,
                        self.filenames@[i].filename@,
                        self.filenames@[j].filename@,
                    ),
            decreases n - k,
        {
            let entry = SangerFilename::new(str_filenames[k].clone(), vendor);
            let ghost rs = self.filenames@;
            let ghost ep = entry.filename@;
            self.add_filename(entry);
            proof {
                assert(ep == str_filenames@[k as int]@);
                if seq_contains_path(rs, ep) {
                    assert(self.filenames@ == rs);
                } else {
                    assert(self.filenames@ == rs.push(entry));
                    assert(self.filenames@[rs.len() as int].filename@ == ep);
                    // The path was not in the registry, so it cannot have
                    // occurred among the strings processed so far.
                    assert forall|mm: int| 0 <= mm < k implies str_filenames@[mm]@ != ep by {
                        if str_filenames@[mm]@ == ep {
                            assert(seq_contains_path(rs, ep));
                        }
                    }
                }
                assert(self.contains_path(str_filenames@[k as int]@));
                assert forall|m: int| 0 <= m < k + 1 implies self.contains_path(
                    #[trigger] str_filenames@[m]@,
                ) by {
                    if m < k {
                        let w = choose|q: int|
                            0 <= q < rs.len() && rs[q].filename@ == str_filenames@[m]@;
                        assert(self.filenames@[w].filename@ == str_filenames@[m]@);
                    }
                }
                assert(old(self).filenames@.is_prefix_of(self.filenames@));
                assert forall|i: int|
                    base <= i < self.filenames@.len() implies path_in_prefix(
                    str_filenames@,
                    k + 1 as int,
                    (#[trigger] self.filenames@[i]).filename@,
                ) by {
                    if i < rs.len() {
                        let w = choose|m: int|
                            0 <= m < k && str_filenames@[m]@ == rs[i].filename@;
                        assert(str_filenames@[w]@ == self.filenames@[i].filename@);
                    } else {
                        assert(str_filenames@[k as int]@ == self.filenames@[i].filename@);
                    }
                }
                assert forall|i: int, j: int|
                    #![trigger self.filenames@[i], self.filenames@[j]]
                    base <= i < j < self.filenames@.len() implies occurs_before(
                    str_filenames@,
                    self.filenames@[i].filename@,
                    self.filenames@[j].filename@,
                ) by {
                    if j < rs.len() {
                        assert(self.filenames@[i] == rs[i]);
                        assert(self.filenames@[j] == rs[j]);
                    } else {
                        // j is the freshly pushed entry; i occurred among
                        // the first k strings, and the new path nowhere
                        // before index k.
                        let w = choose|m: int|
                            0 <= m < k && str_filenames@[m]@ == rs[i].filename@;
                        assert(str_filenames@[w]@ == self.filenames@[i].filename@);
                        assert(forall|mm: int| 0 <= mm <= w ==> str_filenames@[mm]@ != ep);
                        assert(occurs_before(
                            str_filenames@,
                            self.filenames@[i].filename@,
                            self.filenames@[j].filename@,
                        ));
                    }
                }
            }
            k = k + 1;
        }
    }

    /// Builds a registry by decomposing each raw filename under the given
    /// vendor: one entry per distinct path, in first-occurrence order.
    pub fn from_str_filenames(str_filenames: Vec<String>, vendor: Vendor) -> (r: SangerFilenames)
        ensures
            r.wf(),
            forall|i: int|
                0 <= i < r.filenames@.len() ==> decomposed_from(
                    #[trigger] r.filenames@[i],
                    str_filenames@,
                    vendor,
                ),
            forall|k: int|
                0 <= k < str_filenames@.len() ==> r.contains_path(#[trigger] str_filenames@[k]@),
            forall|i: int, j: int|
                #![trigger r.filenames@[i], r.filenames@[j]]
                0 <= i < j < r.filenames@.len() ==> occurs_before(
                    str_filenames@,
                    r.filenames@[i].filename@,
                    r.filenames@[j].filename@,
                ),
    {
        let mut r = SangerFilenames::new();
        r.add_decomposed(&str_filenames, vendor);
        r
    }

    /// Number of entries.
    pub fn len(&self) -> (r: usize)
        ensures
            r == self.filenames@.len(),
    {
        self.filenames.len()
    }

    /// The entry at an index.
    pub fn index(&self, i: usize) -> (r: &SangerFilename)
        requires
            i < self.filenames@.len(),
        ensures
            *r == self.filenames@[i as int],
    {
        &self.filenames[i]
    }

    /// Clones all entries, in order.
    pub fn to_vec(&self) -> (r: Vec<SangerFilename>)
        ensures
            r@ == self.filenames@,
    {
        let n = self.filenames.len();
        let mut r: Vec<SangerFilename> = Vec::new();
        let mut i: usize = 0;
        while i < n
            invariant
                n == self.filenames@.len(),
                0 <= i <= n,
                r@ == self.filenames@.subrange(0, i as int),
            decreases n - i,
        {
            r.push(self.filenames[i].clone());
            proof {
                assert(r@ =~= self.filenames@.subrange(0, i + 1 as int));
            }
            i = i + 1;
        }
        proof {
            assert(r@ =~= self.filenames@);
        }
        r
    }

    /// Stamps the capture date onto every entry.
    pub fn set_date_for_all(&mut self, date: Date)
        requires
            old(self).wf(),
            date.wf(),
        ensures
            final(self).wf(),
            final(self).filenames@.len() == old(self).filenames@.len(),
            forall|i: int|
                0 <= i < old(self).filenames@.len() ==> final(self).filenames@[i]
                    == (SangerFilename { date: Some(date), ..old(self).filenames@[i] }),
    {
        let n = self.filenames.len();
        let mut i: usize = 0;
        while i < n
            invariant
                n == self.filenames@.len(),
                old(self).filenames@.len() == n,
                0 <= i <= n,
                date.wf(),
                forall|k: int|
                    0 <= k < i ==> self.filenames@[k] == (SangerFilename {
                        date: Some(date),
                        ..old(self).filenames@[k]
                    }),
                forall|k: int| i <= k < n ==> self.filenames@[k] == old(self).filenames@[k],
            decreases n - i,
        {
            let mut e = self.filenames[i].clone();
            let _ = e.set_date(date);
            self.filenames.set(i, e);
            i = i + 1;
        }
        proof {
            assert forall|a: int| 0 <= a < self.filenames@.len() implies (
            #[trigger] self.filenames@[a]).wf() by {
                assert(self.filenames@[a] == (SangerFilename {
                    date: Some(date),
                    ..old(self).filenames@[a]
                }));
            }
            assert forall|a: int, b: int|
                0 <= a < b < self.filenames@.len() implies self.filenames@[a].filename@
                != self.filenames@[b].filename@ by {
                assert(self.filenames@[a].filename@ == old(self).filenames@[a].filename@);
                assert(self.filenames@[b].filename@ == old(self).filenames@[b].filename@);
            }
        }
    }

    /// Marks every entry as renamed (display only; the filesystem moves
    /// are the caller's).
    pub fn set_renamed_for_all(&mut self)
        requires
            old(self).wf(),
        ensures
            final(self).wf(),
            final(self).filenames@.len() == old(self).filenames@.len(),
            forall|i: int|
                0 <= i < old(self).filenames@.len() ==> final(self).filenames@[i]
                    == (SangerFilename { renamed: true, ..old(self).filenames@[i] }),
    {
        let n = self.filenames.len();
        let mut i: usize = 0;
        while i < n
            invariant
                n == self.filenames@.len(),
                old(self).filenames@.len() == n,
                0 <= i <= n,
                forall|k: int|
                    0 <= k < i ==> self.filenames@[k] == (SangerFilename {
                        renamed: true,
                        ..old(self).filenames@[k]
                    }),
                forall|k: int| i <= k < n ==> self.filenames@[k] == old(self).filenames@[k],
            decreases n - i,
        {
            let mut e = self.filenames[i].clone();
            e.set_renamed(true);
            self.filenames.set(i, e);
            i = i + 1;
        }
        proof {
            assert forall|a: int| 0 <= a < self.filenames@.len() implies (
            #[trigger] self.filenames@[a]).wf() by {
                assert(self.filenames@[a].date == old(self).filenames@[a].date);
            }
            assert forall|a: int, b: int|
                0 <= a < b < self.filenames@.len() implies self.filenames@[a].filename@
                != self.filenames@[b].filename@ by {
                assert(self.filenames@[a].filename@ == old(self).filenames@[a].filename@);
                assert(self.filenames@[b].filename@ == old(self).filenames@[b].filename@);
            }
        }
    }

    /// Override propagation: rewrites the stored label of exactly those
    /// entries whose live label equals `key`, leaving every other entry,
    /// and every other field, unchanged.
    pub fn set_label_for_matching(&mut self, kind: LabelKind, key: &String, new_name: &String)
        requires
            old(self).wf(),
        ensures
            final(self).wf(),
            labels_applied(old(self).filenames@, final(self).filenames@, kind, key@, new_name@),
    {
        let n = self.filenames.len();
        let mut i: usize = 0;
        while i < n
            invariant
                n == self.filenames@.len(),
                old(self).filenames@.len() == n,
                0 <= i <= n,
                forall|k: int|
                    #![trigger old(self).filenames@[k]]
                    0 <= k < i ==> if spec_current_label(old(self).filenames@[k], kind) == key@ {
                        label_replaced(
                            old(self).filenames@[k],
                            self.filenames@[k],
                            kind,
                            new_name@,
                        )
                    } else {
                        self.filenames@[k] == old(self).filenames@[k]
                    },
                forall|k: int| i <= k < n ==> self.filenames@[k] == old(self).filenames@[k],
            decreases n - i,
        {
            let label = match kind {
                LabelKind::Primer => self.filenames[i].get_primer_name(),
                LabelKind::Template => self.filenames[i].get_template_name(),
            };
            if label == *key {
                let mut e = self.filenames[i].clone();
                let _ = match kind {
                    LabelKind::Primer => e.set_primer_name(new_name.as_str()),
                    LabelKind::Template => e.set_template_name(new_name.as_str()),
                };
                self.filenames.set(i, e);
            }
            i = i + 1;
        }
        proof {
            assert forall|a: int| 0 <= a < self.filenames@.len() implies (
            #[trigger] self.filenames@[a]).wf() by {
                assert(self.filenames@[a].date == old(self).filenames@[a].date);
            }
            assert forall|a: int, b: int|
                0 <= a < b < self.filenames@.len() implies self.filenames@[a].filename@
                != self.filenames@[b].filename@ by {
                assert(self.filenames@[a].filename@ == old(self).filenames@[a].filename@);
                assert(self.filenames@[b].filename@ == old(self).filenames@[b].filename@);
            }
        }
    }

    /// The distinct live labels of the given kind, in first-occurrence
    /// order: every entry's label appears, and no label twice.
    pub fn distinct_labels(&self, kind: LabelKind) -> (r: Vec<String>)
        ensures
            forall|i: int|
                0 <= i < self.filenames@.len() ==> seq_contains_label(
                    r@,
                    spec_current_label(#[trigger] self.filenames@[i], kind),
                ),
            forall|j: int|
                0 <= j < r@.len() ==> label_of_some_entry(
                    self.filenames@,
                    (#[trigger] r@[j])@,
                    kind,
                ),
            forall|j: int, k: int| 0 <= j < k < r@.len() ==> r@[j]@ != r@[k]@,
    {
        let n = self.filenames.len();
        let mut r: Vec<String> = Vec::new();
        let mut i: usize = 0;
        while i < n
            invariant
                n == self.filenames@.len(),
                0 <= i <= n,
                forall|m: int|
                    0 <= m < i ==> seq_contains_label(
                        r@,
                        spec_current_label(#[trigger] self.filenames@[m], kind),
                    ),
                forall|j: int|
                    0 <= j < r@.len() ==> label_of_some_entry(
                        self.filenames@,
                        (#[trigger] r@[j])@,
                        kind,
                    ),
                forall|j: int, k: int| 0 <= j < k < r@.len() ==> r@[j]@ != r@[k]@,
            decreases n - i,
        {
            let label = match kind {
                LabelKind::Primer => self.filenames[i].get_primer_name(),
                LabelKind::Template => self.filenames[i].get_template_name(),
            };
            let found = vec_contains_str(&r, &label);
            let ghost r0 = r@;
            let ghost lab = label@;
            if !found {
                r.push(label);
                proof {
                    assert(r@[r0.len() as int]@ == lab);
                    assert(forall|q: int| 0 <= q < r0.len() ==> r@[q] == r0[q]);
                    assert(label_of_some_entry(self.filenames@, lab, kind)) by {
                        assert(spec_current_label(self.filenames@[i as int], kind) == lab);
                    }
                }
            }
            proof {
                assert(seq_contains_label(r@, lab)) by {
                    if found {
                        let w = choose|q: int| 0 <= q < r0.len() && r0[q]@ == lab;
                        assert(r@[w]@ == lab);
                    } else {
                        assert(r@[r0.len() as int]@ == lab);
                    }
                }
                assert forall|m: int|
                    0 <= m < i + 1 implies seq_contains_label(
                    r@,
                    spec_current_label(#[trigger] self.filenames@[m], kind),
                ) by {
                    if m < i {
                        let w = choose|j: int|
                            0 <= j < r0.len() && r0[j]@ == spec_current_label(
                                self.filenames@[m],
                                kind,
                            );
                        assert(r@[w]@ == spec_current_label(self.filenames@[m], kind));
                    } else {
                        assert(spec_current_label(self.filenames@[m], kind) == lab);
                    }
                }
                assert forall|j: int|
                    0 <= j < r@.len() implies label_of_some_entry(
                    self.filenames@,
                    (#[trigger] r@[j])@,
                    kind,
                ) by {
                    if j < r0.len() {
                        assert(r@[j] == r0[j]);
                    } else {
                        assert(r@[j]@ == lab);
                        assert(spec_current_label(self.filenames@[i as int], kind) == lab);
                    }
                }
            }
            i = i + 1;
        }
        r
    }
}

} // verus!
