//! The wizard's five stages and their per-stage transient state: highlight
//! cursors, the override edit buffer, and the selected date. Each stage
//! consumes one logical key action at a time and answers with a stage
//! transition; the caller owns the event loop and the registry.

use vstd::prelude::*;
use vstd::string::StringExecFns;

use crate::date::Date;
use crate::registry::label_of_some_entry;
use crate::registry::labels_applied;
use crate::registry::spec_current_label;
use crate::registry::LabelKind;
use crate::registry::SangerFilenames;
use crate::sanger_filename::SangerFilename;
use crate::text::pop_char;
use crate::text::push_char;
use crate::vendor::Vendor;

verus! {

/// A logical key action, as the wizard understands it. The caller's event
/// loop translates whatever its keyboard driver delivers into one of
/// these.
#[derive(Clone, Copy, PartialEq, Eq, Structural, Debug)]
pub enum KeyAction {
    Up,
    Down,
    Left,
    Right,
    Enter,
    Esc,
    Tab,
    BackTab,
    Backspace,
    PageUp,
    PageDown,
    Char(char),
    Other,
}

/// The wizard's stages, in their forward order.
#[derive(Clone, Copy, PartialEq, Eq, Structural, Debug)]
pub enum Stage {
    VendorSelection,
    PrimerRename,
    TemplateRename,
    DateSelection,
    ConfirmRename,
}

/// What a stage asks the wizard to do after a key action.
#[derive(Clone, Copy, PartialEq, Eq, Structural, Debug)]
pub enum StageTransition {
    Stay,
    Next(Stage),
    Previous(Stage),
    Quit,
}

/// Whether a key action asks to leave the wizard (from browse mode).
pub open spec fn is_quit_key(key: KeyAction) -> bool {
    key == KeyAction::Esc || key == KeyAction::Char('q')
}

/// The vendor-selection stage: a wrap-around highlight over the vendors
/// and the vendor chosen by the operator, if any.
pub struct VendorSelectionStage {
    pub highlighted: usize,
    pub selected_vendor: Option<Vendor>,
}

impl VendorSelectionStage {
    /// Well-formedness: the highlight points at one of the vendors.
    pub open spec fn wf(self) -> bool {
        self.highlighted < Vendor::spec_count()
    }

    /// The stage and transition after one key action: left/right (or the
    /// `h`/`l` keys) move the highlight with wrap-around, enter records the
    /// highlighted vendor and advances to primer renaming, escape or `q`
    /// quits, and any other key does nothing.
    pub open spec fn spec_handle(self, key: KeyAction) -> (VendorSelectionStage, StageTransition) {
        if key == KeyAction::Left || key == KeyAction::Char('h') {
            let h = if self.highlighted == 0 {
                (Vendor::spec_count() - 1) as usize
            } else {
                (self.highlighted - 1) as usize
            };
            (VendorSelectionStage { highlighted: h, ..self }, StageTransition::Stay)
        } else if key == KeyAction::Right || key == KeyAction::Char('l') {
            let h = if self.highlighted == Vendor::spec_count() - 1 {
                0 as usize
            } else {
                (self.highlighted + 1) as usize
            };
            (VendorSelectionStage { highlighted: h, ..self }, StageTransition::Stay)
        } else if key == KeyAction::Enter {
            (
                VendorSelectionStage {
                    selected_vendor: Vendor::spec_from_index(self.highlighted as int),
                    ..self
                },
                StageTransition::Next(Stage::PrimerRename),
            )
        } else if is_quit_key(key) {
            (self, StageTransition::Quit)
        } else {
            (self, StageTransition::Stay)
        }
    }

    /// Creates the stage with the first vendor highlighted and none
    /// selected.
    pub fn new() -> (r: VendorSelectionStage)
        ensures
            r.highlighted == 0,
            r.selected_vendor is None,
            r.wf(),
    {
        VendorSelectionStage { highlighted: 0, selected_vendor: None }
    }

    /// Moves the highlight; an index beyond the vendors is ignored.
    pub fn set_highlighted(&mut self, index: usize)
        ensures
            *final(self) == (VendorSelectionStage {
                highlighted: final(self).highlighted,
                ..*old(self)
            }),
            final(self).highlighted == if index < Vendor::spec_count() {
                index as int
            } else {
                old(self).highlighted as int
            },
    {
        let count = Vendor::all().len();
        if index < count {
            self.highlighted = index;
        }
    }

    /// The highlighted index.
    pub fn get_highlighted(&self) -> (r: usize)
        ensures
            r == self.highlighted,
    {
        self.highlighted
    }

    /// Records (or clears) the selected vendor.
    pub fn set_selected_vendor(&mut self, vendor: Option<Vendor>)
        ensures
            *final(self) == (VendorSelectionStage { selected_vendor: vendor, ..*old(self) }),
    {
        self.selected_vendor = vendor;
    }

    /// The selected vendor, if one was recorded.
    pub fn get_selected_vendor(&self) -> (r: Option<Vendor>)
        ensures
            r == self.selected_vendor,
    {
        self.selected_vendor
    }

    /// Feeds one key action to the stage.
    pub fn handle_key(&mut self, key: KeyAction) -> (r: StageTransition)
        requires
            old(self).wf(),
        ensures
            (*final(self), r) == old(self).spec_handle(key),
            final(self).wf(),
    {
        match key {
            KeyAction::Left | KeyAction::Char('h') => {
                if self.highlighted == 0 {
                    self.highlighted = Vendor::all().len() - 1;
                } else {
                    self.highlighted = self.highlighted - 1;
                }
                StageTransition::Stay
            },
            KeyAction::Right | KeyAction::Char('l') => {
                if self.highlighted == Vendor::all().len() - 1 {
                    self.highlighted = 0;
                } else {
                    self.highlighted = self.highlighted + 1;
                }
                StageTransition::Stay
            },
            KeyAction::Enter => {
                self.selected_vendor = Vendor::from_index(self.highlighted);
                StageTransition::Next(Stage::PrimerRename)
            },
            KeyAction::Esc | KeyAction::Char('q') => StageTransition::Quit,
            _ => StageTransition::Stay,
        }
    }
}

/// Whether the override map holds the given label as a key.
pub open spec fn map_contains_key(m: Seq<(String, Option<String>)>, l: Seq<char>) -> bool {
    exists|j: int| 0 <= j < m.len() && m[j].0@ == l
}

/// The shared state of the two label-renaming stages: the override map
/// (key order fixed at seeding), the highlight cursor, and the edit
/// buffer.
pub struct RenameCore {
    pub rename_map: Vec<(String, Option<String>)>,
    pub highlighted: usize,
    pub editing: bool,
    pub current_input: String,
}

/// The override map is freshly seeded from a registry: one key per
/// distinct live label, none replaced yet.
pub open spec fn map_seeded(
    m: Seq<(String, Option<String>)>,
    reg: Seq<SangerFilename>,
    kind: LabelKind,
) -> bool {
    &&& forall|j: int| 0 <= j < m.len() ==> (#[trigger] m[j]).1 is None
    &&& forall|i: int|
        0 <= i < reg.len() ==> map_contains_key(m, spec_current_label(#[trigger] reg[i], kind))
    &&& forall|j: int| 0 <= j < m.len() ==> label_of_some_entry(reg, (#[trigger] m[j]).0@, kind)
    &&& forall|j: int, k: int| 0 <= j < k < m.len() ==> m[j].0@ != m[k].0@
}

/// What one key action does to a label-renaming stage.
///
/// Browsing: up/down move the highlight (clamped), enter opens the edit
/// buffer pre-filled with the existing override, escape or `q` quits, tab
/// advances and back-tab retreats. Editing: characters and backspace edit
/// the buffer, escape cancels, and enter commits the override — the map
/// gains the buffer as the highlighted key's replacement (cleared to
/// "not set" when the buffer is empty) and the new value is pushed to
/// every registry entry whose live label equals that key.
pub open spec fn rename_step_ok(
    pre: RenameCore,
    post: RenameCore,
    reg_pre: Seq<SangerFilename>,
    reg_post: Seq<SangerFilename>,
    kind: LabelKind,
    next_stage: Stage,
    prev_stage: Stage,
    key: KeyAction,
    r: StageTransition,
) -> bool {
    if pre.editing {
        match key {
            KeyAction::Enter => {
                &&& post.editing == false
                &&& post.current_input@ == Seq::<char>::empty()
                &&& post.highlighted == pre.highlighted
                &&& if pre.highlighted < pre.rename_map@.len() {
                    let key_label = pre.rename_map@[pre.highlighted as int].0@;
                    &&& post.rename_map@.len() == pre.rename_map@.len()
                    &&& forall|j: int|
                        0 <= j < pre.rename_map@.len() && j != pre.highlighted ==> #[trigger] post.rename_map@[j] == pre.rename_map@[j]
                    &&& post.rename_map@[pre.highlighted as int].0@ == key_label
                    &&& if pre.current_input@.len() == 0 {
                        &&& post.rename_map@[pre.highlighted as int].1 is None
                        &&& reg_post == reg_pre
                    } else {
                        &&& match post.rename_map@[pre.highlighted as int].1 {
                            Some(v) => v@ == pre.current_input@,
                            None => false,
                        }
                        &&& labels_applied(reg_pre, reg_post, kind, key_label, pre.current_input@)
                    }
                } else {
                    &&& post.rename_map@ == pre.rename_map@
                    &&& reg_post == reg_pre
                }
                &&& r == StageTransition::Stay
            },
            KeyAction::Esc => {
                &&& post == (RenameCore {
                    editing: false,
                    current_input: post.current_input,
                    ..pre
                })
                &&& post.current_input@ == Seq::<char>::empty()
                &&& reg_post == reg_pre
                &&& r == StageTransition::Stay
            },
            KeyAction::Backspace => {
                &&& post == (RenameCore { current_input: post.current_input, ..pre })
                &&& post.current_input@ == if pre.current_input@.len() > 0 {
                    pre.current_input@.drop_last()
                } else {
                    pre.current_input@
                }
                &&& reg_post == reg_pre
                &&& r == StageTransition::Stay
            },
            KeyAction::Char(c) => {
                &&& post == (RenameCore { current_input: post.current_input, ..pre })
                &&& post.current_input@ == pre.current_input@.push(c)
                &&& reg_post == reg_pre
                &&& r == StageTransition::Stay
            },
            _ => {
                &&& post == pre
                &&& reg_post == reg_pre
                &&& r == StageTransition::Stay
            },
        }
    } else {
        match key {
            KeyAction::Up | KeyAction::Char('k') => {
                &&& post == (RenameCore { highlighted: post.highlighted, ..pre })
                &&& post.highlighted == if pre.highlighted > 0 {
                    pre.highlighted - 1
                } else {
                    pre.highlighted as int
                }
                &&& reg_post == reg_pre
                &&& r == StageTransition::Stay
            },
            KeyAction::Down | KeyAction::Char('j') => {
                &&& post == (RenameCore { highlighted: post.highlighted, ..pre })
                &&& post.highlighted == if pre.highlighted + 1 < pre.rename_map@.len() {
                    pre.highlighted + 1
                } else {
                    pre.highlighted as int
                }
                &&& reg_post == reg_pre
                &&& r == StageTransition::Stay
            },
            KeyAction::Enter => {
                &&& post == (RenameCore {
                    editing: true,
                    current_input: post.current_input,
                    ..pre
                })
                &&& post.current_input@ == if pre.highlighted < pre.rename_map@.len() {
                    match pre.rename_map@[pre.highlighted as int].1 {
                        Some(v) => v@,
                        None => Seq::<char>::empty(),
                    }
                } else {
                    Seq::<char>::empty()
                }
                &&& reg_post == reg_pre
                &&& r == StageTransition::Stay
            },
            KeyAction::Esc | KeyAction::Char('q') => {
                &&& post == pre
                &&& reg_post == reg_pre
                &&& r == StageTransition::Quit
            },
            KeyAction::Tab | KeyAction::Char('n') => {
                &&& post == pre
                &&& reg_post == reg_pre
                &&& r == StageTransition::Next(next_stage)
            },
            KeyAction::BackTab | KeyAction::Char('p') => {
                &&& post == pre
                &&& reg_post == reg_pre
                &&& r == StageTransition::Previous(prev_stage)
            },
            _ => {
                &&& post == pre
                &&& reg_post == reg_pre
                &&& r == StageTransition::Stay
            },
        }
    }
}

impl RenameCore {
    /// Well-formedness: the override map's keys are distinct.
    pub open spec fn wf(self) -> bool {
        forall|j: int, k: int|
            0 <= j < k < self.rename_map@.len() ==> self.rename_map@[j].0@
                != self.rename_map@[k].0@
    }

    /// Creates an empty core: no keys, cursor at the top, not editing.
    pub fn init() -> (r: RenameCore)
        ensures
            r.rename_map@.len() == 0,
            r.highlighted == 0,
            r.editing == false,
            r.current_input@ == Seq::<char>::empty(),
            r.wf(),
    {
        RenameCore {
            rename_map: Vec::new(),
            highlighted: 0,
            editing: false,
            current_input: String::new(),
        }
    }

    /// Re-seeds the override map from the registry's current distinct
    /// labels, all unset; cursor and edit state are untouched.
    pub fn fill_names(&mut self, reg: &SangerFilenames, kind: LabelKind)
        ensures
            final(self).highlighted == old(self).highlighted,
            final(self).editing == old(self).editing,
            final(self).current_input == old(self).current_input,
            map_seeded(final(self).rename_map@, reg.filenames@, kind),
            final(self).wf(),
    {
        let keys = reg.distinct_labels(kind);
        let n = keys.len();
        let mut m: Vec<(String, Option<String>)> = Vec::new();
        let mut j: usize = 0;
        while j < n
            invariant
                n == keys@.len(),
                0 <= j <= n,
                m@.len() == j,
                forall|q: int| 0 <= q < j ==> (#[trigger] m@[q]).0 == keys@[q] && m@[q].1 is None,
            decreases n - j,
        {
            m.push((keys[j].clone(), None));
            j = j + 1;
        }
        proof {
            assert forall|i: int|
                0 <= i < reg.filenames@.len() implies map_contains_key(
                m@,
                spec_current_label(#[trigger] reg.filenames@[i], kind),
            ) by {
                let l = spec_current_label(reg.filenames@[i], kind);
                let w = choose|q: int| 0 <= q < keys@.len() && keys@[q]@ == l;
                assert(m@[w].0@ == l);
            }
            assert forall|q: int|
                0 <= q < m@.len() implies label_of_some_entry(
                reg.filenames@,
                (#[trigger] m@[q]).0@,
                kind,
            ) by {
                assert(m@[q].0@ == keys@[q]@);
            }
        }
        self.rename_map = m;
    }

    /// Writes an override directly: an existing key gets the new value, a
    /// new key is appended.
    pub fn set_override(&mut self, name: String, new_name: Option<String>)
        requires
            old(self).wf(),
        ensures
            final(self).highlighted == old(self).highlighted,
            final(self).editing == old(self).editing,
            final(self).current_input == old(self).current_input,
            final(self).wf(),
            if map_contains_key(old(self).rename_map@, name@) {
                &&& final(self).rename_map@.len() == old(self).rename_map@.len()
                &&& forall|j: int|
                    0 <= j < old(self).rename_map@.len() ==> if (
                    #[trigger] old(self).rename_map@[j]).0@ == name@ {
                        final(self).rename_map@[j].0 == old(self).rename_map@[j].0
                            && final(self).rename_map@[j].1 == new_name
                    } else {
                        final(self).rename_map@[j] == old(self).rename_map@[j]
                    }
            } else {
                final(self).rename_map@ == old(self).rename_map@.push((name, new_name))
            },
    {
        let n = self.rename_map.len();
        let mut j: usize = 0;
        while j < n
            invariant
                self == old(self),
                old(self).wf(),
                n == self.rename_map@.len(),
                0 <= j <= n,
                forall|q: int| 0 <= q < j ==> (#[trigger] self.rename_map@[q]).0@ != name@,
            decreases n - j,
        {
            if self.rename_map[j].0 == name {
                proof {
                    assert(map_contains_key(self.rename_map@, name@));
                }
                let ghost m0 = self.rename_map@;
                let key = self.rename_map[j].0.clone();
                self.rename_map.set(j, (key, new_name));
                proof {
                    assert forall|q: int|
                        0 <= q < m0.len() implies if (#[trigger] m0[q]).0@ == name@ {
                        self.rename_map@[q].0 == m0[q].0 && self.rename_map@[q].1 == new_name
                    } else {
                        self.rename_map@[q] == m0[q]
                    } by {
                        if q != j {
                            assert(self.rename_map@[q] == m0[q]);
                        }
                    }
                }
                return;
            }
            j = j + 1;
        }
        proof {
            assert(!map_contains_key(self.rename_map@, name@));
        }
        self.rename_map.push((name, new_name));
    }

    /// Feeds one key action to the stage, with the registry it operates
    /// on and the stages that tab and back-tab lead to.
    pub fn handle_key(
        &mut self,
        reg: &mut SangerFilenames,
        kind: LabelKind,
        next_stage: Stage,
        prev_stage: Stage,
        key: KeyAction,
    ) -> (r: StageTransition)
        requires
            old(reg).wf(),
        ensures
            final(reg).wf(),
            rename_step_ok(
                *old(self),
                *final(self),
                old(reg).filenames@,
                final(reg).filenames@,
                kind,
                next_stage,
                prev_stage,
                key,
                r,
            ),
            old(self).wf() ==> final(self).wf(),
    {
        if self.editing {
            match key {
                KeyAction::Enter => {
                    if self.highlighted < self.rename_map.len() {
                        let key_s = self.rename_map[self.highlighted].0.clone();
                        let empty_input = self.current_input.as_str().unicode_len() == 0;
                        let new_value: Option<String> = if empty_input {
                            None
                        } else {
                            Some(self.current_input.clone())
                        };
                        self.rename_map.set(self.highlighted, (key_s, new_value));
                        if !empty_input {
                            let key_ref = &self.rename_map[self.highlighted].0;
                            reg.set_label_for_matching(kind, key_ref, &self.current_input);
                        }
                    }
                    self.editing = false;
                    self.current_input = String::new();
                    StageTransition::Stay
                },
                KeyAction::Esc => {
                    self.editing = false;
                    self.current_input = String::new();
                    StageTransition::Stay
                },
                KeyAction::Backspace => {
                    let _ = pop_char(&mut self.current_input);
                    StageTransition::Stay
                },
                KeyAction::Char(c) => {
                    push_char(&mut self.current_input, c);
                    StageTransition::Stay
                },
                _ => StageTransition::Stay,
            }
        } else {
            match key {
                KeyAction::Up | KeyAction::Char('k') => {
                    if self.highlighted > 0 {
                        self.highlighted = self.highlighted - 1;
                    }
                    StageTransition::Stay
                },
                KeyAction::Down | KeyAction::Char('j') => {
                    let len = self.rename_map.len();
                    if self.highlighted < len && self.highlighted + 1 < len {
                        self.highlighted = self.highlighted + 1;
                    }
                    StageTransition::Stay
                },
                KeyAction::Enter => {
                    self.editing = true;
                    self.current_input = String::new();
                    if self.highlighted < self.rename_map.len() {
                        let pair = &self.rename_map[self.highlighted];
                        match &pair.1 {
                            Some(existing) => {
                                self.current_input = existing.clone();
                            },
                            None => {},
                        }
                    }
                    StageTransition::Stay
                },
                KeyAction::Esc | KeyAction::Char('q') => StageTransition::Quit,
                KeyAction::Tab | KeyAction::Char('n') => StageTransition::Next(next_stage),
                KeyAction::BackTab | KeyAction::Char('p') => StageTransition::Previous(prev_stage),
                _ => StageTransition::Stay,
            }
        }
    }
}

/// The primer-renaming stage: overrides over the distinct primer labels.
/// Tab advances to template renaming, back-tab retreats to vendor
/// selection.
pub struct PrimerRenameStage {
    pub core: RenameCore,
}

impl PrimerRenameStage {
    /// Well-formedness of the underlying override map.
    pub open spec fn wf(self) -> bool {
        self.core.wf()
    }

    /// Creates the stage with an empty override map.
    pub fn init() -> (r: PrimerRenameStage)
        ensures
            r.core.rename_map@.len() == 0,
            r.core.highlighted == 0,
            r.core.editing == false,
            r.core.current_input@ == Seq::<char>::empty(),
            r.wf(),
    {
        PrimerRenameStage { core: RenameCore::init() }
    }

    /// Creates the stage seeded from the registry's distinct primer
    /// labels.
    pub fn from_sanger_fns(sanger_fns: &SangerFilenames) -> (r: PrimerRenameStage)
        ensures
            map_seeded(r.core.rename_map@, sanger_fns.filenames@, LabelKind::Primer),
            r.core.highlighted == 0,
            r.core.editing == false,
            r.core.current_input@ == Seq::<char>::empty(),
            r.wf(),
    {
        let mut r = PrimerRenameStage::init();
        r.fill_names(sanger_fns);
        r
    }

    /// Re-seeds the override map from the registry's current primer
    /// labels.
    pub fn fill_names(&mut self, sanger_fns: &SangerFilenames)
        ensures
            final(self).core.highlighted == old(self).core.highlighted,
            final(self).core.editing == old(self).core.editing,
            final(self).core.current_input == old(self).core.current_input,
            map_seeded(final(self).core.rename_map@, sanger_fns.filenames@, LabelKind::Primer),
            final(self).wf(),
    {
        self.core.fill_names(sanger_fns, LabelKind::Primer);
    }

    /// Writes one override directly into the map.
    pub fn set_rename(&mut self, primer_name: String, new_name: Option<String>)
        requires
            old(self).wf(),
        ensures
            final(self).wf(),
            if map_contains_key(old(self).core.rename_map@, primer_name@) {
                &&& final(self).core.rename_map@.len() == old(self).core.rename_map@.len()
                &&& forall|j: int|
                    0 <= j < old(self).core.rename_map@.len() ==> if (
                    #[trigger] old(self).core.rename_map@[j]).0@ == primer_name@ {
                        final(self).core.rename_map@[j].0 == old(self).core.rename_map@[j].0
                            && final(self).core.rename_map@[j].1 == new_name
                    } else {
                        final(self).core.rename_map@[j] == old(self).core.rename_map@[j]
                    }
            } else {
                final(self).core.rename_map@ == old(self).core.rename_map@.push(
                    (primer_name, new_name),
                )
            },
    {
        self.core.set_override(primer_name, new_name);
    }

    /// Feeds one key action to the stage.
    pub fn handle_key(&mut self, sanger_fns: &mut SangerFilenames, key: KeyAction) -> (r:
        StageTransition)
        requires
            old(sanger_fns).wf(),
        ensures
            final(sanger_fns).wf(),
            rename_step_ok(
                old(self).core,
                final(self).core,
                old(sanger_fns).filenames@,
                final(sanger_fns).filenames@,
                LabelKind::Primer,
                Stage::TemplateRename,
                Stage::VendorSelection,
                key,
                r,
            ),
            old(self).wf() ==> final(self).wf(),
    {
        self.core.handle_key(
            sanger_fns,
            LabelKind::Primer,
            Stage::TemplateRename,
            Stage::VendorSelection,
            key,
        )
    }
}

/// The template-renaming stage: overrides over the distinct template
/// labels. Tab advances to date selection, back-tab retreats to primer
/// renaming.
pub struct TemplateRenameStage {
    pub core: RenameCore,
}

impl TemplateRenameStage {
    /// Well-formedness of the underlying override map.
    pub open spec fn wf(self) -> bool {
        self.core.wf()
    }

    /// Creates the stage with an empty override map.
    pub fn init() -> (r: TemplateRenameStage)
        ensures
            r.core.rename_map@.len() == 0,
            r.core.highlighted == 0,
            r.core.editing == false,
            r.core.current_input@ == Seq::<char>::empty(),
            r.wf(),
    {
        TemplateRenameStage { core: RenameCore::init() }
    }

    /// Creates the stage seeded from the registry's distinct template
    /// labels.
    pub fn from_sanger_fns(sanger_fns: &SangerFilenames) -> (r: TemplateRenameStage)
        ensures
            map_seeded(r.core.rename_map@, sanger_fns.filenames@, LabelKind::Template),
            r.core.highlighted == 0,
            r.core.editing == false,
            r.core.current_input@ == Seq::<char>::empty(),
            r.wf(),
    {
        let mut r = TemplateRenameStage::init();
        r.fill_names(sanger_fns);
        r
    }

    /// Re-seeds the override map from the registry's current template
    /// labels.
    pub fn fill_names(&mut self, sanger_fns: &SangerFilenames)
        ensures
            final(self).core.highlighted == old(self).core.highlighted,
            final(self).core.editing == old(self).core.editing,
            final(self).core.current_input == old(self).core.current_input,
            map_seeded(final(self).core.rename_map@, sanger_fns.filenames@, LabelKind::Template),
            final(self).wf(),
    {
        self.core.fill_names(sanger_fns, LabelKind::Template);
    }

    /// Writes one override directly into the map.
    pub fn set_rename(&mut self, template_name: String, new_name: Option<String>)
        requires
            old(self).wf(),
        ensures
            final(self).wf(),
            if map_contains_key(old(self).core.rename_map@, template_name@) {
                &&& final(self).core.rename_map@.len() == old(self).core.rename_map@.len()
                &&& forall|j: int|
                    0 <= j < old(self).core.rename_map@.len() ==> if (
                    #[trigger] old(self).core.rename_map@[j]).0@ == template_name@ {
                        final(self).core.rename_map@[j].0 == old(self).core.rename_map@[j].0
                            && final(self).core.rename_map@[j].1 == new_name
                    } else {
                        final(self).core.rename_map@[j] == old(self).core.rename_map@[j]
                    }
            } else {
                final(self).core.rename_map@ == old(self).core.rename_map@.push(
                    (template_name, new_name),
                )
            },
    {
        self.core.set_override(template_name, new_name);
    }

    /// Feeds one key action to the stage.
    pub fn handle_key(&mut self, sanger_fns: &mut SangerFilenames, key: KeyAction) -> (r:
        StageTransition)
        requires
            old(sanger_fns).wf(),
        ensures
            final(sanger_fns).wf(),
            rename_step_ok(
                old(self).core,
                final(self).core,
                old(sanger_fns).filenames@,
                final(sanger_fns).filenames@,
                LabelKind::Template,
                Stage::DateSelection,
                Stage::PrimerRename,
                key,
                r,
            ),
            old(self).wf() ==> final(self).wf(),
    {
        self.core.handle_key(
            sanger_fns,
            LabelKind::Template,
            Stage::DateSelection,
            Stage::PrimerRename,
            key,
        )
    }
}

/// The date the date-selection stage shows after one movement key: left
/// and right step a day, down and up a week, page-down and page-up a
/// month; any other key leaves the date alone.
pub open spec fn spec_date_moved(d: Date, key: KeyAction) -> Date {
    match key {
        KeyAction::Left | KeyAction::Char('h') => d.spec_prev_day(),
        KeyAction::Right | KeyAction::Char('l') => d.spec_next_day(),
        KeyAction::Down | KeyAction::Char('j') => d.spec_next_days(7),
        KeyAction::Up | KeyAction::Char('k') => d.spec_prev_days(7),
        KeyAction::PageDown => d.spec_next_month(),
        KeyAction::PageUp => d.spec_prev_month(),
        _ => d,
    }
}

/// The date-selection stage: a cursor over the calendar. Enter stamps the
/// shown date onto every registry entry; tab advances to confirmation,
/// back-tab retreats to template renaming.
pub struct DateSelectionStage {
    pub selected_date: Date,
}

impl DateSelectionStage {
    /// Well-formedness: the shown date is a real calendar date.
    pub open spec fn wf(self) -> bool {
        self.selected_date.wf()
    }

    /// Creates the stage showing the current date.
    pub fn init() -> (r: DateSelectionStage)
        ensures
            r.wf(),
    {
        DateSelectionStage { selected_date: crate::date::today() }
    }

    /// Creates the stage showing the current date.
    pub fn new() -> (r: DateSelectionStage)
        ensures
            r.wf(),
    {
        DateSelectionStage::init()
    }

    /// Creates the stage showing the current date, for the given registry.
    pub fn from_sanger_fns(sanger_fns: &SangerFilenames) -> (r: DateSelectionStage)
        ensures
            r.wf(),
    {
        let _ = sanger_fns;
        DateSelectionStage::init()
    }

    /// Feeds one key action to the stage: movement keys step the date
    /// (see [`spec_date_moved`]), enter stamps the shown date onto every
    /// entry, escape or `q` quits, tab advances and back-tab retreats.
    pub fn handle_key(&mut self, sanger_fns: &mut SangerFilenames, key: KeyAction) -> (r:
        StageTransition)
        requires
            old(self).wf(),
            old(sanger_fns).wf(),
        ensures
            final(self).wf(),
            final(sanger_fns).wf(),
            match key {
                KeyAction::Esc | KeyAction::Char('q') => {
                    &&& *final(self) == *old(self)
                    &&& final(sanger_fns).filenames@ == old(sanger_fns).filenames@
                    &&& r == StageTransition::Quit
                },
                KeyAction::Enter => {
                    &&& *final(self) == *old(self)
                    &&& final(sanger_fns).filenames@.len() == old(sanger_fns).filenames@.len()
                    &&& forall|i: int|
                        0 <= i < old(sanger_fns).filenames@.len()
                            ==> final(sanger_fns).filenames@[i] == (SangerFilename {
                            date: Some(old(self).selected_date),
                            ..old(sanger_fns).filenames@[i]
                        })
                    &&& r == StageTransition::Stay
                },
                KeyAction::Tab | KeyAction::Char('n') => {
                    &&& *final(self) == *old(self)
                    &&& final(sanger_fns).filenames@ == old(sanger_fns).filenames@
                    &&& r == StageTransition::Next(Stage::ConfirmRename)
                },
                KeyAction::BackTab | KeyAction::Char('p') => {
                    &&& *final(self) == *old(self)
                    &&& final(sanger_fns).filenames@ == old(sanger_fns).filenames@
                    &&& r == StageTransition::Previous(Stage::TemplateRename)
                },
                _ => {
                    &&& final(self).selected_date == spec_date_moved(old(self).selected_date, key)
                    &&& final(sanger_fns).filenames@ == old(sanger_fns).filenames@
                    &&& r == StageTransition::Stay
                },
            },
    {
        match key {
            KeyAction::Esc | KeyAction::Char('q') => StageTransition::Quit,
            KeyAction::Enter => {
                sanger_fns.set_date_for_all(self.selected_date);
                StageTransition::Stay
            },
            KeyAction::Tab | KeyAction::Char('n') => StageTransition::Next(Stage::ConfirmRename),
            KeyAction::BackTab | KeyAction::Char('p') => StageTransition::Previous(
                Stage::TemplateRename,
            ),
            KeyAction::Left | KeyAction::Char('h') => {
                self.selected_date = self.selected_date.prev_day();
                StageTransition::Stay
            },
            KeyAction::Right | KeyAction::Char('l') => {
                self.selected_date = self.selected_date.next_day();
                StageTransition::Stay
            },
            KeyAction::Down | KeyAction::Char('j') => {
                self.selected_date = self.selected_date.next_week();
                StageTransition::Stay
            },
            KeyAction::Up | KeyAction::Char('k') => {
                self.selected_date = self.selected_date.prev_week();
                StageTransition::Stay
            },
            KeyAction::PageDown => {
                self.selected_date = self.selected_date.next_month();
                StageTransition::Stay
            },
            KeyAction::PageUp => {
                self.selected_date = self.selected_date.prev_month();
                StageTransition::Stay
            },
            _ => StageTransition::Stay,
        }
    }
}

/// The confirmation stage, gating the filesystem commit. Enter marks
/// every entry renamed and raises the commit request the caller acts on;
/// back-tab retreats to date selection.
pub struct ConfirmRenameStage {
    pub commit_requested: bool,
}

impl ConfirmRenameStage {
    /// Creates the stage with no commit requested.
    pub fn init() -> (r: ConfirmRenameStage)
        ensures
            r.commit_requested == false,
    {
        ConfirmRenameStage { commit_requested: false }
    }

    /// Creates the stage for the given registry, with no commit
    /// requested.
    pub fn from_sanger_fns(sanger_fns: &SangerFilenames) -> (r: ConfirmRenameStage)
        ensures
            r.commit_requested == false,
    {
        let _ = sanger_fns;
        ConfirmRenameStage::init()
    }

    /// Feeds one key action to the stage: enter performs the commit
    /// (marks every entry renamed and raises the commit request), escape
    /// or `q` quits, back-tab retreats to date selection.
    pub fn handle_key(&mut self, sanger_fns: &mut SangerFilenames, key: KeyAction) -> (r:
        StageTransition)
        requires
            old(sanger_fns).wf(),
        ensures
            final(sanger_fns).wf(),
            match key {
                KeyAction::Esc | KeyAction::Char('q') => {
                    &&& *final(self) == *old(self)
                    &&& final(sanger_fns).filenames@ == old(sanger_fns).filenames@
                    &&& r == StageTransition::Quit
                },
                KeyAction::Enter => {
                    &&& final(self).commit_requested == true
                    &&& final(sanger_fns).filenames@.len() == old(sanger_fns).filenames@.len()
                    &&& forall|i: int|
                        0 <= i < old(sanger_fns).filenames@.len()
                            ==> final(sanger_fns).filenames@[i] == (SangerFilename {
                            renamed: true,
                            ..old(sanger_fns).filenames@[i]
                        })
                    &&& r == StageTransition::Stay
                },
                KeyAction::BackTab | KeyAction::Char('p') => {
                    &&& *final(self) == *old(self)
                    &&& final(sanger_fns).filenames@ == old(sanger_fns).filenames@
                    &&& r == StageTransition::Previous(Stage::DateSelection)
                },
                _ => {
                    &&& *final(self) == *old(self)
                    &&& final(sanger_fns).filenames@ == old(sanger_fns).filenames@
                    &&& r == StageTransition::Stay
                },
            },
    {
        match key {
            KeyAction::Esc | KeyAction::Char('q') => StageTransition::Quit,
            KeyAction::Enter => {
                sanger_fns.set_renamed_for_all();
                self.commit_requested = true;
                StageTransition::Stay
            },
            KeyAction::BackTab | KeyAction::Char('p') => StageTransition::Previous(
                Stage::DateSelection,
            ),
            _ => StageTransition::Stay,
        }
    }

    /// Lowers the commit request once the caller has acted on it.
    pub fn clear_commit_request(&mut self)
        ensures
            final(self).commit_requested == false,
    {
        self.commit_requested = false;
    }
}

} // verus!
