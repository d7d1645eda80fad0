use extractous::{CharSet, Extractor, Orientation, PdfOcrStrategy, PdfParserConfig};

#[test]
fn charset_names_are_the_wire_identifiers() {
    assert_eq!(CharSet::UTF_8.java_name(), "UTF_8");
    assert_eq!(CharSet::US_ASCII.java_name(), "US_ASCII");
    assert_eq!(CharSet::UTF_16BE.java_name(), "UTF_16BE");
}

#[test]
fn charset_from_name_accepts_every_encoding_and_rejects_others() {
    assert_eq!(CharSet::from_name("UTF_8"), Some(CharSet::UTF_8));
    assert_eq!(CharSet::from_name("US_ASCII"), Some(CharSet::US_ASCII));
    assert_eq!(CharSet::from_name("UTF_16BE"), Some(CharSet::UTF_16BE));
    assert_eq!(CharSet::from_name("UTF-8"), None);
    assert_eq!(CharSet::from_name("utf_8"), None);
    assert_eq!(CharSet::from_name(""), None);
}

#[test]
fn charset_default_is_utf_8() {
    assert_eq!(CharSet::default(), CharSet::UTF_8);
}

#[test]
fn extractor_defaults() {
    let extractor = Extractor::new();
    assert_eq!(extractor.extract_string_max_length, 500_000);
    assert_eq!(extractor.encoding, CharSet::UTF_8);
    assert_eq!(extractor.pdf_config, PdfParserConfig::new());
    assert!(!extractor.xml_output);
}

#[test]
fn extractor_builder_replaces_one_setting_at_a_time() {
    let extractor = Extractor::new()
        .set_extract_string_max_length(1000)
        .set_encoding(CharSet::US_ASCII)
        .set_pdf_config(PdfParserConfig::new().set_ocr_strategy(PdfOcrStrategy::NO_OCR))
        .set_xml_output(true);
    assert_eq!(extractor.extract_string_max_length, 1000);
    assert_eq!(extractor.encoding, CharSet::US_ASCII);
    assert_eq!(extractor.pdf_config.ocr_strategy, PdfOcrStrategy::NO_OCR);
    assert!(extractor.xml_output);
    // untouched settings keep their defaults
    assert_eq!(extractor.ocr_config.language, "eng");
    assert!(!extractor.office_config.extract_macros);
}

#[test]
fn orientation_axis_factors() {
    assert_eq!(Orientation::SCREEN.values(), (1, -1));
    assert_eq!(Orientation::CARTESIAN.values(), (1, 1));
}
