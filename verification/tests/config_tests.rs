use extractous::{PdfOcrStrategy, PdfParserConfig, OfficeParserConfig, TesseractOcrConfig};

#[test]
fn pdf_ocr_strategy_names_are_the_java_identifiers() {
    assert_eq!(PdfOcrStrategy::NO_OCR.java_name(), "NO_OCR");
    assert_eq!(PdfOcrStrategy::OCR_ONLY.java_name(), "OCR_ONLY");
    assert_eq!(
        PdfOcrStrategy::OCR_AND_TEXT_EXTRACTION.java_name(),
        "OCR_AND_TEXT_EXTRACTION"
    );
    assert_eq!(PdfOcrStrategy::AUTO.java_name(), "AUTO");
}

#[test]
fn pdf_ocr_strategy_from_name_accepts_every_strategy() {
    assert_eq!(PdfOcrStrategy::from_name("NO_OCR"), Some(PdfOcrStrategy::NO_OCR));
    assert_eq!(PdfOcrStrategy::from_name("OCR_ONLY"), Some(PdfOcrStrategy::OCR_ONLY));
    assert_eq!(
        PdfOcrStrategy::from_name("OCR_AND_TEXT_EXTRACTION"),
        Some(PdfOcrStrategy::OCR_AND_TEXT_EXTRACTION)
    );
    assert_eq!(PdfOcrStrategy::from_name("AUTO"), Some(PdfOcrStrategy::AUTO));
}

#[test]
fn pdf_ocr_strategy_from_name_rejects_misspellings_loudly() {
    assert_eq!(PdfOcrStrategy::from_name("auto"), None);
    assert_eq!(PdfOcrStrategy::from_name("NO-OCR"), None);
    assert_eq!(PdfOcrStrategy::from_name("OCR_ONLY "), None);
    assert_eq!(PdfOcrStrategy::from_name(""), None);
}

#[test]
fn pdf_config_defaults() {
    let config = PdfParserConfig::new();
    assert_eq!(config.ocr_strategy, PdfOcrStrategy::AUTO);
    assert!(!config.extract_inline_images);
    assert!(!config.extract_unique_inline_images_only);
    assert!(!config.extract_marked_content);
    assert!(config.extract_annotation_text);
    assert_eq!(config, PdfParserConfig::default());
}

#[test]
fn pdf_config_setters_replace_one_field() {
    let config = PdfParserConfig::new()
        .set_ocr_strategy(PdfOcrStrategy::OCR_ONLY)
        .set_extract_inline_images(true)
        .set_extract_unique_inline_images_only(true)
        .set_extract_marked_content(true)
        .set_extract_annotation_text(false);
    assert_eq!(config.ocr_strategy, PdfOcrStrategy::OCR_ONLY);
    assert!(config.extract_inline_images);
    assert!(config.extract_unique_inline_images_only);
    assert!(config.extract_marked_content);
    assert!(!config.extract_annotation_text);
}

#[test]
fn office_config_defaults() {
    let config = OfficeParserConfig::new();
    assert!(!config.extract_macros);
    assert!(!config.include_deleted_content);
    assert!(!config.include_move_from_content);
    assert!(config.include_shape_based_content);
    assert!(!config.include_headers_and_footers);
    assert!(!config.include_missing_rows);
    assert!(config.include_slide_notes);
    assert!(config.include_slide_master_content);
    assert!(config.concatenate_phonetic_runs);
    assert!(!config.extract_all_alternatives_from_msg);
    assert_eq!(config, OfficeParserConfig::default());
}

#[test]
fn office_config_setters_replace_one_field() {
    let config = OfficeParserConfig::new()
        .set_extract_macros(true)
        .set_include_deleted_content(true)
        .set_include_move_from_content(true)
        .set_include_shape_based_content(false)
        .set_include_headers_and_footers(true)
        .set_include_missing_rows(true)
        .set_include_slide_notes(false)
        .set_include_slide_master_content(false)
        .set_concatenate_phonetic_runs(false)
        .set_extract_all_alternatives_from_msg(true);
    assert!(config.extract_macros);
    assert!(config.include_deleted_content);
    assert!(config.include_move_from_content);
    assert!(!config.include_shape_based_content);
    assert!(config.include_headers_and_footers);
    assert!(config.include_missing_rows);
    assert!(!config.include_slide_notes);
    assert!(!config.include_slide_master_content);
    assert!(!config.concatenate_phonetic_runs);
    assert!(config.extract_all_alternatives_from_msg);
}

#[test]
fn ocr_config_defaults() {
    let config = TesseractOcrConfig::new();
    assert_eq!(config.density, 300);
    assert_eq!(config.depth, 4);
    assert_eq!(config.timeout_seconds, 130);
    assert!(!config.enable_image_preprocessing);
    assert!(!config.apply_rotation);
    assert_eq!(config.language, "eng");
    assert_eq!(config, TesseractOcrConfig::default());
}

#[test]
fn ocr_config_setters_replace_one_field() {
    let config = TesseractOcrConfig::new()
        .set_density(600)
        .set_depth(8)
        .set_timeout_seconds(60)
        .set_enable_image_preprocessing(true)
        .set_apply_rotation(true)
        .set_language("deu");
    assert_eq!(config.density, 600);
    assert_eq!(config.depth, 8);
    assert_eq!(config.timeout_seconds, 60);
    assert!(config.enable_image_preprocessing);
    assert!(config.apply_rotation);
    assert_eq!(config.language, "deu");
}

#[test]
fn config_builders_are_order_independent() {
    let a = PdfParserConfig::new()
        .set_extract_inline_images(true)
        .set_extract_marked_content(true);
    let b = PdfParserConfig::new()
        .set_extract_marked_content(true)
        .set_extract_inline_images(true);
    assert_eq!(a, b);
}
