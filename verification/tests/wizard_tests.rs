use sanger_rename::App;
use sanger_rename::Date;
use sanger_rename::KeyAction;
use sanger_rename::LabelKind;
use sanger_rename::SangerFilename;
use sanger_rename::SangerFilenames;
use sanger_rename::Stage;
use sanger_rename::StageTransition;
use sanger_rename::Vendor;

#[test]
fn test_add_filenames() {
    let mut app = App::new();
    let fns = vec![
        "C:\\Users\\username\\Downloads\\20250604150114670_RR7114\\报告成功\\K528-3.250604-mbp-s3.34810430.D07.seq",
        "C:\\Users\\username\\Downloads\\20250604150114670_RR7114\\报告成功\\K528-3.250604-mbp-s3.34810430.D07.seq",
    ].iter().map(|s| s.to_string()).collect::<Vec<String>>();
    app.add_filenames(fns);
    assert_eq!(app.get_filenames().len(), 2);
}

#[test]
fn test_registry_deduplicates_same_path() {
    let mut reg = SangerFilenames::new();
    let a = SangerFilename::new("K528-1.C1.34781340.B08.ab1".to_string(), Vendor::Ruibio);
    let b = SangerFilename::new("K528-1.C1.34781340.B08.ab1".to_string(), Vendor::Ruibio);
    reg.add_filename(a);
    reg.add_filename(b);
    assert_eq!(reg.len(), 1);
    let c = SangerFilename::new("K528-2.C1.34781340.B09.ab1".to_string(), Vendor::Ruibio);
    reg.add_filename(c);
    assert_eq!(reg.len(), 2);
}

#[test]
fn test_from_str_filenames_collapses_duplicates() {
    let names = vec![
        "a.C1.1.B08.ab1".to_string(),
        "b.C2.2.B09.ab1".to_string(),
        "a.C1.1.B08.ab1".to_string(),
    ];
    let reg = SangerFilenames::from_str_filenames(names, Vendor::Ruibio);
    assert_eq!(reg.len(), 2);
    assert_eq!(reg.index(0).get_template_name(), "a");
    assert_eq!(reg.index(1).get_template_name(), "b");
}

#[test]
fn test_name_convert_requires_vendor() {
    let mut app = App::new();
    app.add_filenames(vec!["K528-1.C1.34781340.B08.ab1".to_string()]);
    assert_eq!(
        app.filenames_string_to_sanger().unwrap_err(),
        "No vendor selected"
    );
    assert_eq!(app.get_sanger_filenames().len(), 0);
    app.set_selected_vendor(Some(Vendor::Ruibio));
    assert!(app.filenames_string_to_sanger().is_ok());
    let sanger_fns = app.get_sanger_filenames();
    assert_eq!(sanger_fns.len(), 1);
    assert_eq!(sanger_fns[0].get_vendor_name(), "Ruibio");
    assert_eq!(sanger_fns[0].get_full_path(), "K528-1.C1.34781340.B08.ab1");
}

#[test]
fn test_get_all_primer_names_gated_by_stage() {
    let mut app = App::new();
    app.set_selected_vendor(Some(Vendor::Ruibio));
    app.add_filenames(vec![
        "K528-1.C1.34781340.B08.ab1".to_string(),
        "K528-2.T7.34781341.B09.ab1".to_string(),
    ]);
    app.filenames_string_to_sanger().unwrap();
    assert!(app.get_all_primer_names().is_err());
    app.handle_stage_transition(StageTransition::Next(Stage::PrimerRename));
    assert_eq!(app.stage, Stage::PrimerRename);
    let primer_names = app.get_all_primer_names().unwrap();
    assert_eq!(primer_names, vec!["C1".to_string(), "T7".to_string()]);
}

#[test]
fn test_vendor_selection_keys() {
    let mut app = App::new();
    app.add_filenames(vec!["TL1-T25_A01.ab1".to_string()]);
    assert_eq!(app.stage, Stage::VendorSelection);
    // Wrap backwards to the last vendor, then forward again.
    app.handle_key(KeyAction::Left);
    assert_eq!(app.get_vendor_highlighted(), 2);
    app.handle_key(KeyAction::Right);
    assert_eq!(app.get_vendor_highlighted(), 0);
    app.handle_key(KeyAction::Right);
    app.handle_key(KeyAction::Right);
    assert_eq!(app.get_vendor_highlighted(), 2);
    // Enter selects Genewiz, decomposes, and advances.
    app.handle_key(KeyAction::Enter);
    assert_eq!(app.get_selected_vendor(), Some(Vendor::Genewiz));
    assert_eq!(app.stage, Stage::PrimerRename);
    let sanger_fns = app.get_sanger_filenames();
    assert_eq!(sanger_fns.len(), 1);
    assert_eq!(sanger_fns[0].get_template_name(), "TL1");
}

#[test]
fn test_primer_rename_fill() {
    let mut app = App::new();
    app.set_selected_vendor(Some(Vendor::Ruibio));
    app.add_filenames(vec![
        "K528-1.C1.1.B08.ab1".to_string(),
        "K528-2.C1.2.B09.ab1".to_string(),
        "K528-3.T7.3.B10.ab1".to_string(),
    ]);
    app.filenames_string_to_sanger().unwrap();
    app.handle_stage_transition(StageTransition::Next(Stage::PrimerRename));
    assert_eq!(app.stage, Stage::PrimerRename);
    // Three files, two distinct primers; all overrides start unset.
    let map = &app.primer_rename.core.rename_map;
    assert_eq!(map.len(), 2);
    for (_, replacement) in map.iter() {
        assert_eq!(*replacement, None);
    }
}

#[test]
fn test_override_propagation() {
    let mut app = App::new();
    app.set_selected_vendor(Some(Vendor::Ruibio));
    app.add_filenames(vec![
        "K528-1.C1.1.B08.ab1".to_string(),
        "K528-2.C1.2.B09.ab1".to_string(),
        "K528-3.T7.3.B10.ab1".to_string(),
    ]);
    app.filenames_string_to_sanger().unwrap();
    app.handle_stage_transition(StageTransition::Next(Stage::PrimerRename));
    // Edit the first key ("C1"): type a replacement and commit.
    app.handle_key(KeyAction::Enter);
    assert!(app.primer_rename.core.editing);
    app.handle_key(KeyAction::Char('M'));
    app.handle_key(KeyAction::Char('1'));
    app.handle_key(KeyAction::Char('3'));
    app.handle_key(KeyAction::Backspace);
    app.handle_key(KeyAction::Enter);
    assert!(!app.primer_rename.core.editing);
    // Every entry whose primer was C1 now reads M1; the T7 entry is untouched.
    let sanger_fns = app.get_sanger_filenames();
    assert_eq!(sanger_fns[0].get_primer_name(), "M1");
    assert_eq!(sanger_fns[1].get_primer_name(), "M1");
    assert_eq!(sanger_fns[2].get_primer_name(), "T7");
    // Templates were never touched.
    assert_eq!(sanger_fns[0].get_template_name(), "K528-1");
}

#[test]
fn test_override_cancel_discards_buffer() {
    let mut app = App::new();
    app.set_selected_vendor(Some(Vendor::Ruibio));
    app.add_filenames(vec!["K528-1.C1.1.B08.ab1".to_string()]);
    app.filenames_string_to_sanger().unwrap();
    app.handle_stage_transition(StageTransition::Next(Stage::PrimerRename));
    app.handle_key(KeyAction::Enter);
    app.handle_key(KeyAction::Char('X'));
    app.handle_key(KeyAction::Esc);
    assert!(!app.primer_rename.core.editing);
    let sanger_fns = app.get_sanger_filenames();
    assert_eq!(sanger_fns[0].get_primer_name(), "C1");
}

#[test]
fn test_empty_override_commit_sets_none() {
    let mut app = App::new();
    app.set_selected_vendor(Some(Vendor::Ruibio));
    app.add_filenames(vec!["K528-1.C1.1.B08.ab1".to_string()]);
    app.filenames_string_to_sanger().unwrap();
    app.handle_stage_transition(StageTransition::Next(Stage::PrimerRename));
    app.handle_key(KeyAction::Enter);
    app.handle_key(KeyAction::Enter);
    assert_eq!(app.primer_rename.core.rename_map[0].1, None);
    let sanger_fns = app.get_sanger_filenames();
    assert_eq!(sanger_fns[0].get_primer_name(), "C1");
}

#[test]
fn test_template_rename_stage() {
    let mut app = App::new();
    app.set_selected_vendor(Some(Vendor::Sangon));
    app.add_filenames(vec![
        "0001_1_(TXPCR)_[SP1].ab1".to_string(),
        "0002_2_(TXPCR)_[SP2].ab1".to_string(),
    ]);
    app.filenames_string_to_sanger().unwrap();
    app.handle_stage_transition(StageTransition::Next(Stage::PrimerRename));
    // Tab advances to template renaming, seeded with one distinct template.
    app.handle_key(KeyAction::Tab);
    assert_eq!(app.stage, Stage::TemplateRename);
    assert_eq!(app.template_rename.core.rename_map.len(), 1);
    app.handle_key(KeyAction::Enter);
    app.handle_key(KeyAction::Char('G'));
    app.handle_key(KeyAction::Enter);
    let sanger_fns = app.get_sanger_filenames();
    assert_eq!(sanger_fns[0].get_template_name(), "G");
    assert_eq!(sanger_fns[1].get_template_name(), "G");
    assert_eq!(sanger_fns[0].get_primer_name(), "SP1");
}

#[test]
fn test_retreat_to_vendor_selection_resets() {
    let mut app = App::new();
    app.set_selected_vendor(Some(Vendor::Ruibio));
    app.add_filenames(vec!["K528-1.C1.1.B08.ab1".to_string()]);
    app.filenames_string_to_sanger().unwrap();
    app.handle_stage_transition(StageTransition::Next(Stage::PrimerRename));
    app.handle_key(KeyAction::BackTab);
    assert_eq!(app.stage, Stage::VendorSelection);
    assert_eq!(app.get_selected_vendor(), None);
    assert_eq!(app.get_vendor_highlighted(), 0);
}

#[test]
fn test_date_selection_stamps_all_entries() {
    let mut app = App::new();
    app.set_selected_vendor(Some(Vendor::Ruibio));
    app.add_filenames(vec![
        "K528-1.C1.1.B08.ab1".to_string(),
        "K528-2.T7.2.B09.ab1".to_string(),
    ]);
    app.filenames_string_to_sanger().unwrap();
    app.handle_stage_transition(StageTransition::Next(Stage::DateSelection));
    assert_eq!(app.stage, Stage::DateSelection);
    app.date_selection.selected_date = Date::new(2025, 12, 6).unwrap();
    app.handle_key(KeyAction::Enter);
    let sanger_fns = app.get_sanger_filenames();
    assert_eq!(sanger_fns[0].get_standardized_name(), "251206.K528-1.C1");
    assert_eq!(sanger_fns[1].get_standardized_name(), "251206.K528-2.T7");
}

#[test]
fn test_date_selection_movement_keys() {
    let mut app = App::new();
    app.handle_stage_transition(StageTransition::Next(Stage::DateSelection));
    app.date_selection.selected_date = Date::new(2025, 6, 1).unwrap();
    app.handle_key(KeyAction::Right);
    assert_eq!(app.date_selection.selected_date, Date::new(2025, 6, 2).unwrap());
    app.handle_key(KeyAction::Left);
    app.handle_key(KeyAction::Left);
    assert_eq!(app.date_selection.selected_date, Date::new(2025, 5, 31).unwrap());
    app.handle_key(KeyAction::Down);
    assert_eq!(app.date_selection.selected_date, Date::new(2025, 6, 7).unwrap());
    app.handle_key(KeyAction::Up);
    assert_eq!(app.date_selection.selected_date, Date::new(2025, 5, 31).unwrap());
    app.handle_key(KeyAction::PageDown);
    assert_eq!(app.date_selection.selected_date, Date::new(2025, 6, 30).unwrap());
    app.handle_key(KeyAction::PageUp);
    assert_eq!(app.date_selection.selected_date, Date::new(2025, 5, 30).unwrap());
}

#[test]
fn test_confirm_commit_marks_renamed() {
    let mut app = App::new();
    app.set_selected_vendor(Some(Vendor::Ruibio));
    app.add_filenames(vec!["K528-1.C1.1.B08.ab1".to_string()]);
    app.filenames_string_to_sanger().unwrap();
    app.handle_stage_transition(StageTransition::Next(Stage::DateSelection));
    app.date_selection.selected_date = Date::new(2025, 12, 6).unwrap();
    app.handle_key(KeyAction::Enter);
    app.handle_key(KeyAction::Tab);
    assert_eq!(app.stage, Stage::ConfirmRename);
    assert!(!app.commit_requested());
    app.handle_key(KeyAction::Enter);
    assert!(app.commit_requested());
    let sanger_fns = app.get_sanger_filenames();
    assert!(sanger_fns[0].renamed);
    // The caller acts on the request and lowers it.
    let plan = app.rename_plan();
    assert_eq!(plan.len(), 1);
    assert_eq!(plan[0].0, "K528-1.C1.1.B08.ab1");
    assert_eq!(plan[0].1, "251206.K528-1.C1.ab1");
    app.clear_commit_request();
    assert!(!app.commit_requested());
}

#[test]
fn test_quit_available_everywhere() {
    let mut app = App::new();
    app.handle_key(KeyAction::Char('q'));
    assert!(app.should_quit);

    let mut app2 = App::new();
    app2.set_selected_vendor(Some(Vendor::Ruibio));
    app2.add_filenames(vec!["K528-1.C1.1.B08.ab1".to_string()]);
    app2.filenames_string_to_sanger().unwrap();
    app2.handle_stage_transition(StageTransition::Next(Stage::PrimerRename));
    app2.handle_key(KeyAction::Esc);
    assert!(app2.should_quit);

    // While editing, `q` is text, not a command.
    let mut app3 = App::new();
    app3.set_selected_vendor(Some(Vendor::Ruibio));
    app3.add_filenames(vec!["K528-1.C1.1.B08.ab1".to_string()]);
    app3.filenames_string_to_sanger().unwrap();
    app3.handle_stage_transition(StageTransition::Next(Stage::PrimerRename));
    app3.handle_key(KeyAction::Enter);
    app3.handle_key(KeyAction::Char('q'));
    assert!(!app3.should_quit);
    assert_eq!(app3.primer_rename.core.current_input, "q");
}

#[test]
fn test_set_label_for_matching_scopes_by_kind() {
    let mut reg = SangerFilenames::new();
    reg.add_filename(SangerFilename::new("a.C1.1.B08.ab1".to_string(), Vendor::Ruibio));
    reg.add_filename(SangerFilename::new("b.C1.2.B09.ab1".to_string(), Vendor::Ruibio));
    reg.set_label_for_matching(LabelKind::Primer, &"C1".to_string(), &"M13".to_string());
    assert_eq!(reg.index(0).get_primer_name(), "M13");
    assert_eq!(reg.index(1).get_primer_name(), "M13");
    assert_eq!(reg.index(0).get_template_name(), "a");
    // A second pass keyed on the old label no longer matches anything.
    reg.set_label_for_matching(LabelKind::Primer, &"C1".to_string(), &"X".to_string());
    assert_eq!(reg.index(0).get_primer_name(), "M13");
}

#[test]
fn test_rename_stage_cursor_clamps() {
    let mut app = App::new();
    app.set_selected_vendor(Some(Vendor::Ruibio));
    app.add_filenames(vec![
        "a.C1.1.B08.ab1".to_string(),
        "b.T7.2.B09.ab1".to_string(),
    ]);
    app.filenames_string_to_sanger().unwrap();
    app.handle_stage_transition(StageTransition::Next(Stage::PrimerRename));
    assert_eq!(app.primer_rename.core.highlighted, 0);
    app.handle_key(KeyAction::Up);
    assert_eq!(app.primer_rename.core.highlighted, 0);
    app.handle_key(KeyAction::Down);
    assert_eq!(app.primer_rename.core.highlighted, 1);
    app.handle_key(KeyAction::Down);
    assert_eq!(app.primer_rename.core.highlighted, 1);
}
