use sanger_rename::Date;
use sanger_rename::GenewizSangerFilename;
use sanger_rename::RuibioSangerFilename;
use sanger_rename::SangerFilename;
use sanger_rename::SangerFilenameVariant;
use sanger_rename::SangonSangerFilename;
use sanger_rename::Vendor;

#[test]
fn test_vendor_listing() {
    let all = Vendor::all();
    assert_eq!(all, vec![Vendor::Sangon, Vendor::Ruibio, Vendor::Genewiz]);
    assert_eq!(Vendor::from_index(0), Some(Vendor::Sangon));
    assert_eq!(Vendor::from_index(2), Some(Vendor::Genewiz));
    assert_eq!(Vendor::from_index(3), None);
    assert_eq!(Vendor::Sangon.name(), "Sangon");
    assert_eq!(Vendor::Ruibio.name(), "Ruibio");
    assert_eq!(Vendor::Genewiz.name(), "Genewiz");
}

#[test]
fn test_variant_full_path() {
    let v = SangerFilenameVariant::Genewiz(GenewizSangerFilename::from("TL1-T25_A01.ab1"));
    assert_eq!(v.get_full_path(), "TL1-T25_A01.ab1");
    let w = SangerFilenameVariant::Sangon(SangonSangerFilename::from(
        "0001_31225060307072_(TXPCR)_[SP1].ab1",
    ));
    assert_eq!(w.get_full_path(), "0001_31225060307072_(TXPCR)_[SP1].ab1");
}

#[test]
fn test_sangon_extraction() {
    let filename = "0001_31225060307072_(TXPCR)_[SP1].ab1";
    let vendor_id = "31225060307072";
    let template_name = "TXPCR";
    let primer_name = "SP1";
    let sangon_sanger_fn: SangonSangerFilename = filename.into();
    assert_eq!(sangon_sanger_fn.get_vendor_id(), vendor_id);
    assert_eq!(sangon_sanger_fn.get_template_name(), template_name);
    assert_eq!(sangon_sanger_fn.get_primer_name(), primer_name);
}

#[test]
fn test_sangon_standardized_name() {
    let filename = "0001_31225060307072_(TXPCR)_[SP1].ab1";
    let sangon_sanger_fn: SangonSangerFilename = filename.into();
    let date = Date::new(2025, 6, 1).expect("Failed to create date");
    let standardized_name = sangon_sanger_fn.get_standardized_name(Some(date));
    assert_eq!(standardized_name, "250601.TXPCR.SP1");
}

#[test]
fn test_genewiz_extraction() {
    let filename = "TL1-T25_A01.ab1";
    let template_name = "TL1";
    let vendor_id = "A01";
    let primer_name = "T25";
    let genewiz_sanger_fn: GenewizSangerFilename = filename.into();
    assert_eq!(genewiz_sanger_fn.get_vendor_id(), vendor_id);
    assert_eq!(genewiz_sanger_fn.get_template_name(), template_name);
    assert_eq!(genewiz_sanger_fn.get_primer_name(), primer_name);
}

#[test]
fn test_genewiz_extraction2() {
    let filename = "k1-2-C1_R_G04.ab1";
    let template_name = "k1-2";
    let vendor_id = "G04";
    let primer_name = "C1_R";
    let genewiz_sanger_fn: GenewizSangerFilename = filename.into();
    assert_eq!(genewiz_sanger_fn.get_vendor_id(), vendor_id);
    assert_eq!(genewiz_sanger_fn.get_template_name(), template_name);
    assert_eq!(genewiz_sanger_fn.get_primer_name(), primer_name);
}

#[test]
fn test_ruibio_extraction() {
    let filename = "K528-1.C1.34781340.B08.ab1";
    let vendor_id = "34781340.B08";
    let template_name = "K528-1";
    let primer_name = "C1";
    let ruibio_sanger_fn: RuibioSangerFilename = filename.into();
    assert_eq!(ruibio_sanger_fn.get_vendor_id(), vendor_id);
    assert_eq!(ruibio_sanger_fn.get_template_name(), template_name);
    assert_eq!(ruibio_sanger_fn.get_primer_name(), primer_name);
}

#[test]
fn test_ruibio_standardized_name() {
    let filename = "K528-1.C1.34781340.B08.ab1";
    let ruibio_sanger_fn: RuibioSangerFilename = filename.into();
    let date = Date::new(2025, 12, 6).expect("Failed to create date");
    let standardized_name = ruibio_sanger_fn.get_standardized_name(Some(date));
    assert_eq!(standardized_name, "251206.K528-1.C1");
}

#[test]
fn sanger_filename_test_sangon_extraction() {
    let filename = "0001_31225060307072_(TXPCR)_[SP1].ab1";
    let vendor_id = "31225060307072";
    let template_name = "TXPCR";
    let primer_name = "SP1";
    let sangon_sanger_fn = SangerFilename::new(filename.to_string(), Vendor::Sangon);
    assert_eq!(sangon_sanger_fn.get_vendor_id(), vendor_id);
    assert_eq!(sangon_sanger_fn.get_template_name(), template_name);
    assert_eq!(sangon_sanger_fn.get_primer_name(), primer_name);
}

#[test]
fn sanger_filename_test_sangon_standardized_name() {
    let filename = "0001_31225060307072_(TXPCR)_[SP1].ab1";
    let mut sangon_sanger_fn = SangerFilename::new(filename.to_string(), Vendor::Sangon);
    let date = Date::new(2025, 6, 1).expect("Failed to create date");
    sangon_sanger_fn.set_date(date).unwrap();
    let standardized_name = sangon_sanger_fn.get_standardized_name();
    assert_eq!(standardized_name, "250601.TXPCR.SP1");
}

#[test]
fn sanger_filename_test_ruibio_extraction() {
    let filename = "K528-1.C1.34781340.B08.ab1";
    let vendor_id = "34781340.B08";
    let template_name = "K528-1";
    let primer_name = "C1";
    let ruibio_sanger_fn = SangerFilename::new(filename.to_string(), Vendor::Ruibio);
    assert_eq!(ruibio_sanger_fn.get_vendor_id(), vendor_id);
    assert_eq!(ruibio_sanger_fn.get_template_name(), template_name);
    assert_eq!(ruibio_sanger_fn.get_primer_name(), primer_name);
}

#[test]
fn sanger_filename_test_ruibio_standardized_name() {
    let filename = "K528-1.C1.34781340.B08.ab1";
    let mut ruibio_sanger_fn = SangerFilename::new(filename.to_string(), Vendor::Ruibio);
    let date = Date::new(2025, 12, 6).expect("Failed to create date");
    ruibio_sanger_fn.set_date(date).unwrap();
    let standardized_name = ruibio_sanger_fn.get_standardized_name();
    assert_eq!(standardized_name, "251206.K528-1.C1");
}

#[test]
fn sanger_filename_test_genewiz_extraction() {
    let filename = "TL1-T25_A01.ab1";
    let template_name = "TL1";
    let vendor_id = "A01";
    let primer_name = "T25";
    let genewiz_sanger_fn = SangerFilename::new(filename.to_string(), Vendor::Genewiz);
    assert_eq!(genewiz_sanger_fn.get_vendor_id(), vendor_id);
    assert_eq!(genewiz_sanger_fn.get_template_name(), template_name);
    assert_eq!(genewiz_sanger_fn.get_primer_name(), primer_name);
}

#[test]
fn sanger_filename_test_genewiz_extraction2() {
    let filename = "k1-2-C1_R_G04.ab1";
    let template_name = "k1-2";
    let vendor_id = "G04";
    let primer_name = "C1_R";
    let genewiz_sanger_fn = SangerFilename::new(filename.to_string(), Vendor::Genewiz);
    assert_eq!(genewiz_sanger_fn.get_vendor_id(), vendor_id);
    assert_eq!(genewiz_sanger_fn.get_template_name(), template_name);
    assert_eq!(genewiz_sanger_fn.get_primer_name(), primer_name);
}

#[test]
fn test_vendor_switching() {
    let filename = "0001_31225060307072_(TXPCR)_[SP1].ab1";
    let mut sanger_fn = SangerFilename::new(filename.to_string(), Vendor::Sangon);

    assert_eq!(sanger_fn.get_vendor_name(), "Sangon");
    assert_eq!(sanger_fn.get_template_name(), "TXPCR");
    assert_eq!(sanger_fn.get_primer_name(), "SP1");

    sanger_fn.set_vendor(Vendor::Ruibio);
    assert_eq!(sanger_fn.get_vendor_name(), "Ruibio");
    // The filename does not match the Ruibio pattern, so extraction is empty.
    assert_eq!(sanger_fn.get_template_name(), "");
    assert_eq!(sanger_fn.get_primer_name(), "");
}

#[test]
fn test_vendor_from_string() {
    assert_eq!(Vendor::from_str("sangon").unwrap(), Vendor::Sangon);
    assert_eq!(Vendor::from_str("RUIBIO").unwrap(), Vendor::Ruibio);
    assert_eq!(Vendor::from_str("GenEwiz").unwrap(), Vendor::Genewiz);
    assert!(Vendor::from_str("unknown").is_err());
}

#[test]
fn test_show_file_name() {
    let filename1 = "0001_31225060307072_(TXPCR)_[SP1].ab1";
    let sanger_fn1 = SangerFilename::new(filename1.to_string(), Vendor::Sangon);
    assert_eq!(
        sanger_fn1.show_file_name(),
        "0001_31225060307072_(TXPCR)_[SP1].ab1"
    );

    let filename2 = "/path/to/file/K528-1.C1.34781340.B08.ab1";
    let sanger_fn2 = SangerFilename::new(filename2.to_string(), Vendor::Ruibio);
    assert_eq!(sanger_fn2.show_file_name(), "K528-1.C1.34781340.B08.ab1");

    let filename3 = "C:\\Users\\test\\TL1-T25_A01.ab1";
    let sanger_fn3 = SangerFilename::new(filename3.to_string(), Vendor::Genewiz);
    assert_eq!(sanger_fn3.show_file_name(), "TL1-T25_A01.ab1");
}

#[test]
fn test_extension_and_stem() {
    let sanger_fn = SangerFilename::new(
        "/path/to/file/K528-1.C1.34781340.B08.ab1".to_string(),
        Vendor::Ruibio,
    );
    assert_eq!(sanger_fn.get_extension_name(), "ab1");
    assert_eq!(sanger_fn.get_file_stem(), "K528-1.C1.34781340.B08");

    let bare = SangerFilename::new("noextension".to_string(), Vendor::Sangon);
    assert_eq!(bare.get_extension_name(), "");
    assert_eq!(bare.get_file_stem(), "noextension");
}

#[test]
fn test_unmatched_patterns_yield_empty() {
    // No delimiters at all: every field decays to the empty string.
    let sangon = SangerFilename::new("plainname.ab1".to_string(), Vendor::Sangon);
    assert_eq!(sangon.get_template_name(), "");
    assert_eq!(sangon.get_primer_name(), "");
    assert_eq!(sangon.get_vendor_id(), "");

    let genewiz = SangerFilename::new("nounderscore.ab1".to_string(), Vendor::Genewiz);
    assert_eq!(genewiz.get_template_name(), "");
    assert_eq!(genewiz.get_primer_name(), "");
    assert_eq!(genewiz.get_vendor_id(), "");

    let ruibio = SangerFilename::new("nodotstem".to_string(), Vendor::Ruibio);
    assert_eq!(ruibio.get_template_name(), "");
    assert_eq!(ruibio.get_primer_name(), "");
    assert_eq!(ruibio.get_vendor_id(), "");
}

#[test]
fn test_standardized_name_with_empty_labels() {
    let mut sanger_fn = SangerFilename::new("plainname.ab1".to_string(), Vendor::Sangon);
    let date = Date::new(2025, 6, 1).expect("Failed to create date");
    sanger_fn.set_date(date).unwrap();
    assert_eq!(sanger_fn.get_standardized_name(), "250601..");
}

#[test]
fn test_standardized_name_falls_back_to_today() {
    // Without a stamped date the standardized name uses the current date:
    // six digits, then the two labels.
    let sanger_fn = SangerFilename::new(
        "0001_31225060307072_(TXPCR)_[SP1].ab1".to_string(),
        Vendor::Sangon,
    );
    let name = sanger_fn.get_standardized_name();
    assert_eq!(name.len(), "250601.TXPCR.SP1".len());
    assert!(name[0..6].chars().all(|c| c.is_ascii_digit()));
    assert_eq!(&name[6..], ".TXPCR.SP1");
}

#[test]
fn test_standardized_path_keeps_directory() {
    let mut sanger_fn = SangerFilename::new(
        "/data/runs/0001_31225060307072_(TXPCR)_[SP1].ab1".to_string(),
        Vendor::Sangon,
    );
    let date = Date::new(2025, 6, 1).expect("Failed to create date");
    sanger_fn.set_date(date).unwrap();
    assert_eq!(
        sanger_fn.standardized_path_for(date),
        "/data/runs/250601.TXPCR.SP1.ab1"
    );
}
