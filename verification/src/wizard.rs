//! The wizard: one owned value holding the registry, the raw filename
//! strings, and every stage's transient state. It dispatches each key
//! action to the active stage and applies the transition the stage asks
//! for; the caller owns the event loop, the rendering, and the filesystem
//! moves of a commit.

use vstd::prelude::*;

use crate::registry::decomposed_from;
use crate::registry::occurs_before;
use crate::registry::seq_contains_path;
use crate::registry::LabelKind;
use crate::registry::SangerFilenames;
use crate::registry::StrFilenames;
use crate::sanger_filename::SangerFilename;
use crate::stages::is_quit_key;
use crate::stages::map_seeded;
use crate::stages::rename_step_ok;
use crate::stages::spec_date_moved;
use crate::stages::ConfirmRenameStage;
use crate::stages::DateSelectionStage;
use crate::stages::KeyAction;
use crate::stages::PrimerRenameStage;
use crate::stages::Stage;
use crate::stages::StageTransition;
use crate::stages::TemplateRenameStage;
use crate::stages::VendorSelectionStage;
use crate::vendor::Vendor;

verus! {

/// The conversion step's effect on the registry: the entries it already
/// held stay in place, each raw string's path is present afterwards, and
/// the appended entries are fresh decompositions under the vendor, one
/// per distinct new path, in first-occurrence input order.
pub open spec fn conversion_applied(
    reg_pre: Seq<SangerFilename>,
    reg_post: Seq<SangerFilename>,
    strs: Seq<String>,
    vendor: Vendor,
) -> bool {
    &&& reg_pre.is_prefix_of(reg_post)
    &&& forall|k: int| 0 <= k < strs.len() ==> seq_contains_path(reg_post, #[trigger] strs[k]@)
    &&& forall|i: int|
        reg_pre.len() <= i < reg_post.len() ==> decomposed_from(
            #[trigger] reg_post[i],
            strs,
            vendor,
        )
    &&& forall|i: int, j: int|
        #![trigger reg_post[i], reg_post[j]]
        reg_pre.len() <= i < j < reg_post.len() ==> occurs_before(
            strs,
            reg_post[i].filename@,
            reg_post[j].filename@,
        )
}

/// One row of the rename plan: the source path, and the target path built
/// from the entry's capture date (or from the current date while none is
/// stamped).
pub open spec fn plan_entry_ok(e: SangerFilename, p: (String, String)) -> bool {
    &&& p.0@ == e.filename@
    &&& match e.date {
        Some(d) => p.1@ == e.spec_standardized_path_for(d),
        None => exists|d: crate::date::Date| d.wf() && p.1@ == e.spec_standardized_path_for(d),
    }
}

/// Whether the wizard currently has an edit buffer open, so that
/// printable keys are text, not commands.
pub open spec fn app_editing(a: App) -> bool {
    ||| (a.stage == Stage::PrimerRename && a.primer_rename.core.editing)
    ||| (a.stage == Stage::TemplateRename && a.template_rename.core.editing)
}

/// The wizard.
pub struct App {
    pub should_quit: bool,
    pub quit_without_selection: bool,
    pub stage: Stage,
    pub sanger_fns: SangerFilenames,
    pub str_fns: StrFilenames,
    pub vendor_selection: VendorSelectionStage,
    pub primer_rename: PrimerRenameStage,
    pub template_rename: TemplateRenameStage,
    pub date_selection: DateSelectionStage,
    pub confirm_rename: ConfirmRenameStage,
}

impl App {
    /// Well-formedness of the whole wizard state.
    pub open spec fn wf(self) -> bool {
        &&& self.sanger_fns.wf()
        &&& self.vendor_selection.wf()
        &&& self.primer_rename.wf()
        &&& self.template_rename.wf()
        &&& self.date_selection.wf()
    }

    /// The freshly started wizard: vendor selection active, nothing
    /// loaded, nothing selected.
    pub fn new() -> (r: App)
        ensures
            r.should_quit == false,
            r.quit_without_selection == false,
            r.stage == Stage::VendorSelection,
            r.sanger_fns.filenames@.len() == 0,
            r.str_fns.filenames@.len() == 0,
            r.vendor_selection.selected_vendor is None,
            r.confirm_rename.commit_requested == false,
            r.wf(),
    {
        App {
            should_quit: false,
            quit_without_selection: false,
            stage: Stage::VendorSelection,
            sanger_fns: SangerFilenames::new(),
            str_fns: StrFilenames { filenames: Vec::new() },
            vendor_selection: VendorSelectionStage::new(),
            primer_rename: PrimerRenameStage::init(),
            template_rename: TemplateRenameStage::init(),
            date_selection: DateSelectionStage::init(),
            confirm_rename: ConfirmRenameStage::init(),
        }
    }

    /// Appends raw filename strings for later decomposition.
    pub fn add_filenames(&mut self, filenames: Vec<String>)
        ensures
            final(self).str_fns.filenames@ == old(self).str_fns.filenames@ + filenames@,
            *final(self) == (App { str_fns: final(self).str_fns, ..*old(self) }),
    {
        let n = filenames.len();
        let mut k: usize = 0;
        let mut filenames = filenames;
        let ghost all = filenames@;
        while k < n
            invariant
                n == all.len(),
                0 <= k <= n,
                filenames@ == all,
                self.str_fns.filenames@ == old(self).str_fns.filenames@ + all.subrange(
                    0,
                    k as int,
                ),
                *self == (App { str_fns: self.str_fns, ..*old(self) }),
            decreases n - k,
        {
            let s = filenames[k].clone();
            self.str_fns.filenames.push(s);
            proof {
                assert(self.str_fns.filenames@ =~= old(self).str_fns.filenames@ + all.subrange(
                    0,
                    k + 1 as int,
                ));
            }
            k = k + 1;
        }
        proof {
            assert(self.str_fns.filenames@ =~= old(self).str_fns.filenames@ + all);
        }
    }

    /// The raw filename strings loaded so far.
    pub fn get_filenames(&self) -> (r: &Vec<String>)
        ensures
            r@ == self.str_fns.filenames@,
    {
        &self.str_fns.filenames
    }

    /// The live primer label of every entry, in registry order; asking in
    /// any stage but primer renaming is an error.
    pub fn get_all_primer_names(&self) -> (r: Result<Vec<String>, String>)
        ensures
            match r {
                Ok(v) => {
                    &&& self.stage == Stage::PrimerRename
                    &&& v@.len() == self.sanger_fns.filenames@.len()
                    &&& forall|i: int|
                        0 <= i < v@.len() ==> (#[trigger] v@[i])@
                            == self.sanger_fns.filenames@[i].current_primer()
                },
                Err(_) => self.stage != Stage::PrimerRename,
            },
    {
        if !matches!(self.stage, Stage::PrimerRename) {
            return Err(String::from_str("Not in primer rename stage"));
        }
        let n = self.sanger_fns.len();
        let mut v: Vec<String> = Vec::new();
        let mut i: usize = 0;
        while i < n
            invariant
                n == self.sanger_fns.filenames@.len(),
                0 <= i <= n,
                v@.len() == i,
                forall|k: int|
                    0 <= k < i ==> (#[trigger] v@[k])@
                        == self.sanger_fns.filenames@[k].current_primer(),
            decreases n - i,
        {
            let name = self.sanger_fns.index(i).get_primer_name();
            v.push(name);
            i = i + 1;
        }
        Ok(v)
    }

    /// Clones the registry's entries, in order.
    pub fn get_sanger_filenames(&self) -> (r: Vec<SangerFilename>)
        ensures
            r@ == self.sanger_fns.filenames@,
    {
        self.sanger_fns.to_vec()
    }

    /// Decomposes every loaded raw filename under the selected vendor and
    /// adds it to the registry (duplicate paths collapse, new entries in
    /// first-occurrence order); with no vendor selected nothing happens
    /// and an error is returned.
    pub fn filenames_string_to_sanger(&mut self) -> (r: Result<(), String>)
        requires
            old(self).wf(),
        ensures
            final(self).wf(),
            *final(self) == (App { sanger_fns: final(self).sanger_fns, ..*old(self) }),
            match old(self).vendor_selection.selected_vendor {
                Some(v) => r is Ok && conversion_applied(
                    old(self).sanger_fns.filenames@,
                    final(self).sanger_fns.filenames@,
                    old(self).str_fns.filenames@,
                    v,
                ),
                None => {
                    &&& r matches Err(m) && m@ == "No vendor selected"@
                    &&& final(self).sanger_fns.filenames@ == old(self).sanger_fns.filenames@
                },
            },
    {
        let vendor = match self.vendor_selection.get_selected_vendor() {
            Some(v) => v,
            None => {
                return Err(String::from_str("No vendor selected"));
            },
        };
        self.sanger_fns.add_decomposed(&self.str_fns.filenames, vendor);
        Ok(())
    }

    /// The selected vendor, if any.
    pub fn get_selected_vendor(&self) -> (r: Option<Vendor>)
        ensures
            r == self.vendor_selection.selected_vendor,
    {
        self.vendor_selection.get_selected_vendor()
    }

    /// Moves the vendor highlight.
    pub fn set_vendor_highlighted(&mut self, index: usize)
        ensures
            *final(self) == (App { vendor_selection: final(self).vendor_selection, ..*old(self) }),
            final(self).vendor_selection.highlighted == if index < Vendor::spec_count() {
                index as int
            } else {
                old(self).vendor_selection.highlighted as int
            },
            final(self).vendor_selection.selected_vendor == old(
                self,
            ).vendor_selection.selected_vendor,
    {
        self.vendor_selection.set_highlighted(index);
    }

    /// The vendor highlight.
    pub fn get_vendor_highlighted(&self) -> (r: usize)
        ensures
            r == self.vendor_selection.highlighted,
    {
        self.vendor_selection.get_highlighted()
    }

    /// Records (or clears) the selected vendor.
    pub fn set_selected_vendor(&mut self, vendor: Option<Vendor>)
        ensures
            *final(self) == (App { vendor_selection: final(self).vendor_selection, ..*old(self) }),
            final(self).vendor_selection == (VendorSelectionStage {
                selected_vendor: vendor,
                ..old(self).vendor_selection
            }),
    {
        self.vendor_selection.set_selected_vendor(vendor);
    }

    /// Feeds one key action to the vendor-selection stage and applies the
    /// transition it asks for.
    pub fn handle_key_vendor_selection(&mut self, key: KeyAction)
        requires
            old(self).wf(),
        ensures
            final(self).wf(),
            vendor_step_applied(*old(self), *final(self), key),
    {
        let transition = self.vendor_selection.handle_key(key);
        self.handle_stage_transition(transition);
    }

    /// Applies a stage transition: advancing or retreating activates the
    /// named stage and rebuilds its transient state from the registry
    /// (advancing into primer renaming first decomposes the loaded raw
    /// filenames — with no vendor selected that advance does nothing);
    /// quitting raises `should_quit`.
    pub fn handle_stage_transition(&mut self, transition: StageTransition)
        requires
            old(self).wf(),
        ensures
            final(self).wf(),
            final(self).str_fns == old(self).str_fns,
            match transition {
                StageTransition::Stay => *final(self) == *old(self),
                StageTransition::Quit => *final(self) == (App {
                    should_quit: true,
                    ..*old(self)
                }),
                StageTransition::Next(s) => if s == Stage::PrimerRename {
                    match old(self).vendor_selection.selected_vendor {
                        Some(v) => {
                            &&& *final(self) == (App {
                                stage: Stage::PrimerRename,
                                sanger_fns: final(self).sanger_fns,
                                primer_rename: final(self).primer_rename,
                                ..*old(self)
                            })
                            &&& conversion_applied(
                                old(self).sanger_fns.filenames@,
                                final(self).sanger_fns.filenames@,
                                old(self).str_fns.filenames@,
                                v,
                            )
                            &&& map_seeded(
                                final(self).primer_rename.core.rename_map@,
                                final(self).sanger_fns.filenames@,
                                LabelKind::Primer,
                            )
                            &&& final(self).primer_rename.core.highlighted == 0
                            &&& final(self).primer_rename.core.editing == false
                            &&& final(self).primer_rename.core.current_input@ == Seq::<
                                char,
                            >::empty()
                        },
                        None => *final(self) == *old(self),
                    }
                } else if s == Stage::TemplateRename {
                    &&& *final(self) == (App {
                        stage: s,
                        template_rename: final(self).template_rename,
                        ..*old(self)
                    })
                    &&& map_seeded(
                        final(self).template_rename.core.rename_map@,
                        final(self).sanger_fns.filenames@,
                        LabelKind::Template,
                    )
                    &&& final(self).template_rename.core.highlighted == 0
                    &&& final(self).template_rename.core.editing == false
                    &&& final(self).template_rename.core.current_input@ == Seq::<char>::empty()
                } else if s == Stage::DateSelection {
                    &&& *final(self) == (App {
                        stage: s,
                        date_selection: final(self).date_selection,
                        ..*old(self)
                    })
                } else if s == Stage::ConfirmRename {
                    &&& *final(self) == (App {
                        stage: s,
                        confirm_rename: final(self).confirm_rename,
                        ..*old(self)
                    })
                    &&& final(self).confirm_rename.commit_requested == false
                } else {
                    *final(self) == (App { stage: s, ..*old(self) })
                },
                StageTransition::Previous(s) => if s == Stage::VendorSelection {
                    &&& *final(self) == (App {
                        stage: s,
                        vendor_selection: final(self).vendor_selection,
                        ..*old(self)
                    })
                    &&& final(self).vendor_selection.highlighted == 0
                    &&& final(self).vendor_selection.selected_vendor is None
                } else if s == Stage::PrimerRename {
                    &&& *final(self) == (App {
                        stage: s,
                        primer_rename: final(self).primer_rename,
                        ..*old(self)
                    })
                    &&& map_seeded(
                        final(self).primer_rename.core.rename_map@,
                        final(self).sanger_fns.filenames@,
                        LabelKind::Primer,
                    )
                    &&& final(self).primer_rename.core.highlighted == 0
                    &&& final(self).primer_rename.core.editing == false
                    &&& final(self).primer_rename.core.current_input@ == Seq::<char>::empty()
                } else if s == Stage::TemplateRename {
                    &&& *final(self) == (App {
                        stage: s,
                        template_rename: final(self).template_rename,
                        ..*old(self)
                    })
                    &&& map_seeded(
                        final(self).template_rename.core.rename_map@,
                        final(self).sanger_fns.filenames@,
                        LabelKind::Template,
                    )
                    &&& final(self).template_rename.core.highlighted == 0
                    &&& final(self).template_rename.core.editing == false
                    &&& final(self).template_rename.core.current_input@ == Seq::<char>::empty()
                } else if s == Stage::DateSelection {
                    *final(self) == (App {
                        stage: s,
                        date_selection: final(self).date_selection,
                        ..*old(self)
                    })
                } else {
                    &&& *final(self) == (App {
                        stage: s,
                        confirm_rename: final(self).confirm_rename,
                        ..*old(self)
                    })
                    &&& final(self).confirm_rename.commit_requested == false
                },
            },
    {
        match transition {
            StageTransition::Stay => {},
            StageTransition::Next(s) => {
                match s {
                    Stage::PrimerRename => {
                        if self.vendor_selection.get_selected_vendor().is_some() {
                            let _ = self.filenames_string_to_sanger();
                            self.stage = Stage::PrimerRename;
                            self.primer_rename = PrimerRenameStage::from_sanger_fns(
                                &self.sanger_fns,
                            );
                        }
                    },
                    Stage::TemplateRename => {
                        self.stage = s;
                        self.template_rename = TemplateRenameStage::from_sanger_fns(
                            &self.sanger_fns,
                        );
                    },
                    Stage::DateSelection => {
                        self.stage = s;
                        self.date_selection = DateSelectionStage::from_sanger_fns(
                            &self.sanger_fns,
                        );
                    },
                    Stage::ConfirmRename => {
                        self.stage = s;
                        self.confirm_rename = ConfirmRenameStage::from_sanger_fns(
                            &self.sanger_fns,
                        );
                    },
                    Stage::VendorSelection => {
                        self.stage = s;
                    },
                }
            },
            StageTransition::Previous(s) => {
                match s {
                    Stage::VendorSelection => {
                        self.stage = s;
                        self.vendor_selection = VendorSelectionStage::new();
                    },
                    Stage::PrimerRename => {
                        self.stage = s;
                        self.primer_rename = PrimerRenameStage::from_sanger_fns(&self.sanger_fns);
                    },
                    Stage::TemplateRename => {
                        self.stage = s;
                        self.template_rename = TemplateRenameStage::from_sanger_fns(
                            &self.sanger_fns,
                        );
                    },
                    Stage::DateSelection => {
                        self.stage = s;
                        self.date_selection = DateSelectionStage::from_sanger_fns(
                            &self.sanger_fns,
                        );
                    },
                    Stage::ConfirmRename => {
                        self.stage = s;
                        self.confirm_rename = ConfirmRenameStage::from_sanger_fns(
                            &self.sanger_fns,
                        );
                    },
                }
            },
            StageTransition::Quit => {
                self.should_quit = true;
            },
        }
    }

    /// Feeds one key action to the active stage and applies the
    /// transition: the wizard's single step. The active stage's full
    /// effect is stated by the per-stage step predicates
    /// ([`vendor_step_applied`], [`label_stage_step_applied`],
    /// [`date_step_applied`], [`confirm_step_applied`]); quitting is
    /// available from every stage whenever no edit buffer is open.
    pub fn handle_key(&mut self, key: KeyAction)
        requires
            old(self).wf(),
        ensures
            final(self).wf(),
            final(self).should_quit == (old(self).should_quit || (is_quit_key(key)
                && !app_editing(*old(self)))),
            match old(self).stage {
                Stage::VendorSelection => vendor_step_applied(*old(self), *final(self), key),
                Stage::PrimerRename => label_stage_step_applied(
                    *old(self),
                    *final(self),
                    LabelKind::Primer,
                    key,
                ),
                Stage::TemplateRename => label_stage_step_applied(
                    *old(self),
                    *final(self),
                    LabelKind::Template,
                    key,
                ),
                Stage::DateSelection => date_step_applied(*old(self), *final(self), key),
                Stage::ConfirmRename => confirm_step_applied(*old(self), *final(self), key),
            },
    {
        let transition = match self.stage {
            Stage::VendorSelection => self.vendor_selection.handle_key(key),
            Stage::PrimerRename => self.primer_rename.handle_key(&mut self.sanger_fns, key),
            Stage::TemplateRename => self.template_rename.handle_key(&mut self.sanger_fns, key),
            Stage::DateSelection => self.date_selection.handle_key(&mut self.sanger_fns, key),
            Stage::ConfirmRename => self.confirm_rename.handle_key(&mut self.sanger_fns, key),
        };
        self.handle_stage_transition(transition);
    }

    /// Whether a commit was requested on the confirmation stage and not
    /// yet acted on.
    pub fn commit_requested(&self) -> (r: bool)
        ensures
            r == self.confirm_rename.commit_requested,
    {
        self.confirm_rename.commit_requested
    }

    /// Lowers the commit request once the caller performed the moves.
    pub fn clear_commit_request(&mut self)
        ensures
            *final(self) == (App { confirm_rename: final(self).confirm_rename, ..*old(self) }),
            final(self).confirm_rename.commit_requested == false,
    {
        self.confirm_rename.clear_commit_request();
    }

    /// The rename plan: for every entry, its source path and the full
    /// target path of the standardized name. Each move is the caller's,
    /// file by file; a failure on one file concerns that file alone.
    pub fn rename_plan(&self) -> (r: Vec<(String, String)>)
        requires
            self.wf(),
        ensures
            r@.len() == self.sanger_fns.filenames@.len(),
            forall|i: int|
                0 <= i < r@.len() ==> plan_entry_ok(self.sanger_fns.filenames@[i], #[trigger] r@[i]),
    {
        let n = self.sanger_fns.len();
        let mut r: Vec<(String, String)> = Vec::new();
        let mut i: usize = 0;
        while i < n
            invariant
                self.wf(),
                n == self.sanger_fns.filenames@.len(),
                0 <= i <= n,
                r@.len() == i,
                forall|k: int|
                    0 <= k < i ==> plan_entry_ok(self.sanger_fns.filenames@[k], #[trigger] r@[k]),
            decreases n - i,
        {
            let e = self.sanger_fns.index(i);
            proof {
                assert(self.sanger_fns.filenames@[i as int].wf());
            }
            let src = e.get_full_path();
            let dst = e.get_standardized_path();
            r.push((src, dst));
            proof {
                let ghost entry = self.sanger_fns.filenames@[i as int];
                let ghost pair = r@[i as int];
                if entry.date is None {
                    let w = choose|d: crate::date::Date|
                        d.wf() && pair.1@ == entry.spec_standardized_path_for(d);
                    assert(plan_entry_ok(entry, pair));
                } else {
                    assert(plan_entry_ok(entry, pair));
                }
            }
            i = i + 1;
        }
        r
    }
}

impl Default for App {
    /// The freshly started wizard, as `new` builds it.
    fn default() -> (r: App)
        ensures
            r.should_quit == false,
            r.quit_without_selection == false,
            r.stage == Stage::VendorSelection,
            r.sanger_fns.filenames@.len() == 0,
            r.str_fns.filenames@.len() == 0,
            r.vendor_selection.selected_vendor is None,
            r.wf(),
    {
        App::new()
    }
}

/// The vendor-selection step applied through the wizard: the stage's own
/// `spec_handle` effect and, when enter records a vendor, the
/// decomposition of the loaded filenames into the registry and the
/// advance into primer renaming with a freshly seeded override map.
pub open spec fn vendor_step_applied(pre: App, post: App, key: KeyAction) -> bool {
    let (vs, t) = pre.vendor_selection.spec_handle(key);
    match t {
        StageTransition::Stay => post == (App { vendor_selection: vs, ..pre }),
        StageTransition::Quit => post == (App {
            vendor_selection: vs,
            should_quit: true,
            ..pre
        }),
        StageTransition::Next(s) => match vs.selected_vendor {
            Some(v) => {
                &&& post == (App {
                    stage: Stage::PrimerRename,
                    vendor_selection: vs,
                    sanger_fns: post.sanger_fns,
                    primer_rename: post.primer_rename,
                    ..pre
                })
                &&& conversion_applied(
                    pre.sanger_fns.filenames@,
                    post.sanger_fns.filenames@,
                    pre.str_fns.filenames@,
                    v,
                )
                &&& map_seeded(
                    post.primer_rename.core.rename_map@,
                    post.sanger_fns.filenames@,
                    LabelKind::Primer,
                )
                &&& post.primer_rename.core.highlighted == 0
                &&& post.primer_rename.core.editing == false
                &&& post.primer_rename.core.current_input@ == Seq::<char>::empty()
            },
            None => post == (App { vendor_selection: vs, ..pre }),
        },
        StageTransition::Previous(s) => post == (App { vendor_selection: vs, ..pre }),
    }
}

/// One label-renaming step applied through the wizard: the stage's own
/// `rename_step_ok` effect while the transition stays, quitting on the
/// quit keys, and an actual stage change (the entered stage rebuilt from
/// the registry, cursor at the top) on tab and back-tab.
pub open spec fn label_stage_step_applied(
    pre: App,
    post: App,
    kind: LabelKind,
    key: KeyAction,
) -> bool {
    let core = match kind {
        LabelKind::Primer => pre.primer_rename.core,
        LabelKind::Template => pre.template_rename.core,
    };
    if !core.editing && is_quit_key(key) {
        &&& post == (App { should_quit: true, sanger_fns: post.sanger_fns, ..pre })
        &&& post.sanger_fns.filenames@ == pre.sanger_fns.filenames@
    } else if !core.editing && (key == KeyAction::Tab || key == KeyAction::Char('n')) {
        match kind {
            LabelKind::Primer => {
                &&& post == (App {
                    stage: Stage::TemplateRename,
                    template_rename: post.template_rename,
                    sanger_fns: post.sanger_fns,
                    ..pre
                })
                &&& post.sanger_fns.filenames@ == pre.sanger_fns.filenames@
                &&& map_seeded(
                    post.template_rename.core.rename_map@,
                    pre.sanger_fns.filenames@,
                    LabelKind::Template,
                )
                &&& post.template_rename.core.highlighted == 0
                &&& post.template_rename.core.editing == false
                &&& post.template_rename.core.current_input@ == Seq::<char>::empty()
            },
            LabelKind::Template => {
                &&& post == (App {
                    stage: Stage::DateSelection,
                    date_selection: post.date_selection,
                    sanger_fns: post.sanger_fns,
                    ..pre
                })
                &&& post.sanger_fns.filenames@ == pre.sanger_fns.filenames@
            },
        }
    } else if !core.editing && (key == KeyAction::BackTab || key == KeyAction::Char('p')) {
        match kind {
            LabelKind::Primer => {
                &&& post == (App {
                    stage: Stage::VendorSelection,
                    vendor_selection: post.vendor_selection,
                    sanger_fns: post.sanger_fns,
                    ..pre
                })
                &&& post.sanger_fns.filenames@ == pre.sanger_fns.filenames@
                &&& post.vendor_selection.highlighted == 0
                &&& post.vendor_selection.selected_vendor is None
            },
            LabelKind::Template => {
                &&& post == (App {
                    stage: Stage::PrimerRename,
                    primer_rename: post.primer_rename,
                    sanger_fns: post.sanger_fns,
                    ..pre
                })
                &&& post.sanger_fns.filenames@ == pre.sanger_fns.filenames@
                &&& map_seeded(
                    post.primer_rename.core.rename_map@,
                    pre.sanger_fns.filenames@,
                    LabelKind::Primer,
                )
                &&& post.primer_rename.core.highlighted == 0
                &&& post.primer_rename.core.editing == false
                &&& post.primer_rename.core.current_input@ == Seq::<char>::empty()
            },
        }
    } else {
        match kind {
            LabelKind::Primer => {
                &&& post == (App {
                    sanger_fns: post.sanger_fns,
                    primer_rename: post.primer_rename,
                    ..pre
                })
                &&& rename_step_ok(
                    core,
                    post.primer_rename.core,
                    pre.sanger_fns.filenames@,
                    post.sanger_fns.filenames@,
                    LabelKind::Primer,
                    Stage::TemplateRename,
                    Stage::VendorSelection,
                    key,
                    StageTransition::Stay,
                )
            },
            LabelKind::Template => {
                &&& post == (App {
                    sanger_fns: post.sanger_fns,
                    template_rename: post.template_rename,
                    ..pre
                })
                &&& rename_step_ok(
                    core,
                    post.template_rename.core,
                    pre.sanger_fns.filenames@,
                    post.sanger_fns.filenames@,
                    LabelKind::Template,
                    Stage::DateSelection,
                    Stage::PrimerRename,
                    key,
                    StageTransition::Stay,
                )
            },
        }
    }
}

/// The date-selection step applied through the wizard: movement keys
/// step the shown date, enter stamps it onto every entry, tab advances
/// to confirmation, back-tab retreats to template renaming (rebuilt from
/// the registry, cursor at the top), and the quit keys quit.
pub open spec fn date_step_applied(pre: App, post: App, key: KeyAction) -> bool {
    match key {
        KeyAction::Esc | KeyAction::Char('q') => {
            &&& post == (App { should_quit: true, sanger_fns: post.sanger_fns, ..pre })
            &&& post.sanger_fns.filenames@ == pre.sanger_fns.filenames@
        },
        KeyAction::Enter => {
            &&& post == (App { sanger_fns: post.sanger_fns, ..pre })
            &&& post.sanger_fns.filenames@.len() == pre.sanger_fns.filenames@.len()
            &&& forall|i: int|
                0 <= i < pre.sanger_fns.filenames@.len() ==> post.sanger_fns.filenames@[i]
                    == (SangerFilename {
                    date: Some(pre.date_selection.selected_date),
                    ..pre.sanger_fns.filenames@[i]
                })
        },
        KeyAction::Tab | KeyAction::Char('n') => {
            &&& post == (App {
                stage: Stage::ConfirmRename,
                confirm_rename: post.confirm_rename,
                sanger_fns: post.sanger_fns,
                ..pre
            })
            &&& post.sanger_fns.filenames@ == pre.sanger_fns.filenames@
            &&& post.confirm_rename.commit_requested == false
        },
        KeyAction::BackTab | KeyAction::Char('p') => {
            &&& post == (App {
                stage: Stage::TemplateRename,
                template_rename: post.template_rename,
                sanger_fns: post.sanger_fns,
                ..pre
            })
            &&& post.sanger_fns.filenames@ == pre.sanger_fns.filenames@
            &&& map_seeded(
                post.template_rename.core.rename_map@,
                pre.sanger_fns.filenames@,
                LabelKind::Template,
            )
            &&& post.template_rename.core.highlighted == 0
            &&& post.template_rename.core.editing == false
            &&& post.template_rename.core.current_input@ == Seq::<char>::empty()
        },
        _ => {
            &&& post == (App {
                date_selection: post.date_selection,
                sanger_fns: post.sanger_fns,
                ..pre
            })
            &&& post.sanger_fns.filenames@ == pre.sanger_fns.filenames@
            &&& post.date_selection.selected_date == spec_date_moved(
                pre.date_selection.selected_date,
                key,
            )
        },
    }
}

/// The confirmation step applied through the wizard: enter performs the
/// commit (marks every entry renamed and raises the commit request),
/// back-tab retreats to date selection, the quit keys quit, and any
/// other key does nothing.
pub open spec fn confirm_step_applied(pre: App, post: App, key: KeyAction) -> bool {
    match key {
        KeyAction::Esc | KeyAction::Char('q') => {
            &&& post == (App { should_quit: true, sanger_fns: post.sanger_fns, ..pre })
            &&& post.sanger_fns.filenames@ == pre.sanger_fns.filenames@
        },
        KeyAction::Enter => {
            &&& post == (App {
                sanger_fns: post.sanger_fns,
                confirm_rename: post.confirm_rename,
                ..pre
            })
            &&& post.confirm_rename.commit_requested == true
            &&& post.sanger_fns.filenames@.len() == pre.sanger_fns.filenames@.len()
            &&& forall|i: int|
                0 <= i < pre.sanger_fns.filenames@.len() ==> post.sanger_fns.filenames@[i]
                    == (SangerFilename { renamed: true, ..pre.sanger_fns.filenames@[i] })
        },
        KeyAction::BackTab | KeyAction::Char('p') => {
            &&& post == (App {
                stage: Stage::DateSelection,
                date_selection: post.date_selection,
                sanger_fns: post.sanger_fns,
                ..pre
            })
            &&& post.sanger_fns.filenames@ == pre.sanger_fns.filenames@
            &&& post.date_selection.wf()
        },
        _ => {
            &&& post == (App { sanger_fns: post.sanger_fns, ..pre })
            &&& post.sanger_fns.filenames@ == pre.sanger_fns.filenames@
        },
    }
}

} // verus!
