use extractous::{
    PdfOcrStrategy, PdfParserConfig, OfficeParserConfig, TesseractOcrConfig, SetterArg,
};
use extractous::wire::{
    pdf_setter_calls, office_setter_calls, ocr_setter_calls, tika_main_class, pdf_config_class,
    office_config_class, ocr_config_class, parse_file_wire, parse_url_wire, parse_bytes_wire,
    parse_file_to_string_wire, parse_url_to_string_wire, parse_bytes_to_string_wire,
    is_error_wire, get_status_wire, get_error_message_wire, get_content_wire, get_metadata_wire,
    get_reader_wire, stream_read_wire, stream_close_wire,
};

#[test]
fn pdf_plan_mirrors_the_config_field_for_field() {
    let config = PdfParserConfig::new()
        .set_ocr_strategy(PdfOcrStrategy::OCR_ONLY)
        .set_extract_inline_images(true);
    let calls = pdf_setter_calls(&config);
    assert_eq!(calls.len(), 5);

    assert_eq!(calls[0].method, "setExtractInlineImages");
    assert_eq!(calls[0].sig, "(Z)V");
    assert_eq!(calls[0].arg, SetterArg::Flag(true));

    assert_eq!(calls[1].method, "setExtractUniqueInlineImagesOnly");
    assert_eq!(calls[1].arg, SetterArg::Flag(false));

    assert_eq!(calls[2].method, "setExtractMarkedContent");
    assert_eq!(calls[2].arg, SetterArg::Flag(false));

    assert_eq!(calls[3].method, "setExtractAnnotationText");
    assert_eq!(calls[3].arg, SetterArg::Flag(true));

    assert_eq!(calls[4].method, "setOcrStrategy");
    assert_eq!(calls[4].sig, "(Ljava/lang/String;)V");
    assert_eq!(calls[4].arg, SetterArg::Text("OCR_ONLY".to_string()));
}

#[test]
fn office_plan_lists_all_ten_boolean_setters_in_field_order() {
    let config = OfficeParserConfig::new();
    let calls = office_setter_calls(&config);
    assert_eq!(calls.len(), 10);
    let expected = [
        ("setExtractMacros", false),
        ("setIncludeDeletedContent", false),
        ("setIncludeMoveFromContent", false),
        ("setIncludeShapeBasedContent", true),
        ("setIncludeHeadersAndFooters", false),
        ("setIncludeMissingRows", false),
        ("setIncludeSlideNotes", true),
        ("setIncludeSlideMasterContent", true),
        ("setConcatenatePhoneticRuns", true),
        ("setExtractAllAlternativesFromMSG", false),
    ];
    for (i, (method, value)) in expected.iter().enumerate() {
        assert_eq!(calls[i].method, *method);
        assert_eq!(calls[i].sig, "(Z)V");
        assert_eq!(calls[i].arg, SetterArg::Flag(*value));
    }
}

#[test]
fn ocr_plan_carries_numbers_flags_and_the_language_text() {
    let config = TesseractOcrConfig::new()
        .set_density(600)
        .set_language("chi_tra+chi_sim");
    let calls = ocr_setter_calls(&config);
    assert_eq!(calls.len(), 6);

    assert_eq!(calls[0].method, "setDensity");
    assert_eq!(calls[0].sig, "(I)V");
    assert_eq!(calls[0].arg, SetterArg::Number(600));

    assert_eq!(calls[1].method, "setDepth");
    assert_eq!(calls[1].arg, SetterArg::Number(4));

    assert_eq!(calls[2].method, "setTimeoutSeconds");
    assert_eq!(calls[2].arg, SetterArg::Number(130));

    assert_eq!(calls[3].method, "setEnableImagePreprocessing");
    assert_eq!(calls[3].sig, "(Z)V");
    assert_eq!(calls[3].arg, SetterArg::Flag(false));

    assert_eq!(calls[4].method, "setApplyRotation");
    assert_eq!(calls[4].arg, SetterArg::Flag(false));

    assert_eq!(calls[5].method, "setLanguage");
    assert_eq!(calls[5].sig, "(Ljava/lang/String;)V");
    assert_eq!(calls[5].arg, SetterArg::Text("chi_tra+chi_sim".to_string()));
}

#[test]
fn plan_text_arguments_follow_the_strategy_name_exactly() {
    for strategy in [
        PdfOcrStrategy::NO_OCR,
        PdfOcrStrategy::OCR_ONLY,
        PdfOcrStrategy::OCR_AND_TEXT_EXTRACTION,
        PdfOcrStrategy::AUTO,
    ] {
        let config = PdfParserConfig::new().set_ocr_strategy(strategy);
        let calls = pdf_setter_calls(&config);
        assert_eq!(calls[4].arg, SetterArg::Text(strategy.java_name()));
    }
}

#[test]
fn dispatch_wire_names_the_tika_classes_exactly() {
    assert_eq!(tika_main_class(), "ai/yobix/TikaNativeMain");
    assert_eq!(pdf_config_class(), "org/apache/tika/parser/pdf/PDFParserConfig");
    assert_eq!(office_config_class(), "org/apache/tika/parser/microsoft/OfficeParserConfig");
    assert_eq!(ocr_config_class(), "org/apache/tika/parser/ocr/TesseractOCRConfig");
}

#[test]
fn dispatch_wire_names_the_stream_entry_points_exactly() {
    let reader_sig = "(Ljava/lang/String;Ljava/lang/String;Lorg/apache/tika/parser/pdf/PDFParserConfig;Lorg/apache/tika/parser/microsoft/OfficeParserConfig;Lorg/apache/tika/parser/ocr/TesseractOCRConfig;Z)Lai/yobix/ReaderResult;";
    let file = parse_file_wire();
    assert_eq!(file.method, "parseFile");
    assert_eq!(file.sig, reader_sig);
    let url = parse_url_wire();
    assert_eq!(url.method, "parseUrl");
    assert_eq!(url.sig, reader_sig);
    let bytes = parse_bytes_wire();
    assert_eq!(bytes.method, "parseBytes");
    assert_eq!(
        bytes.sig,
        "(Ljava/nio/ByteBuffer;Ljava/lang/String;Lorg/apache/tika/parser/pdf/PDFParserConfig;Lorg/apache/tika/parser/microsoft/OfficeParserConfig;Lorg/apache/tika/parser/ocr/TesseractOCRConfig;Z)Lai/yobix/ReaderResult;"
    );
}

#[test]
fn dispatch_wire_names_the_string_entry_points_exactly() {
    let string_sig = "(Ljava/lang/String;ILorg/apache/tika/parser/pdf/PDFParserConfig;Lorg/apache/tika/parser/microsoft/OfficeParserConfig;Lorg/apache/tika/parser/ocr/TesseractOCRConfig;Z)Lai/yobix/StringResult;";
    let file = parse_file_to_string_wire();
    assert_eq!(file.method, "parseFileToString");
    assert_eq!(file.sig, string_sig);
    let url = parse_url_to_string_wire();
    assert_eq!(url.method, "parseUrlToString");
    assert_eq!(url.sig, string_sig);
    let bytes = parse_bytes_to_string_wire();
    assert_eq!(bytes.method, "parseBytesToString");
    assert_eq!(
        bytes.sig,
        "(Ljava/nio/ByteBuffer;ILorg/apache/tika/parser/pdf/PDFParserConfig;Lorg/apache/tika/parser/microsoft/OfficeParserConfig;Lorg/apache/tika/parser/ocr/TesseractOCRConfig;Z)Lai/yobix/StringResult;"
    );
}

#[test]
fn dispatch_wire_names_the_envelope_accessors_exactly() {
    let expected = [
        (is_error_wire(), "isError", "()Z"),
        (get_status_wire(), "getStatus", "()B"),
        (get_error_message_wire(), "getErrorMessage", "()Ljava/lang/String;"),
        (get_content_wire(), "getContent", "()Ljava/lang/String;"),
        (get_metadata_wire(), "getMetadata", "()[Ljava/lang/String;"),
        (get_reader_wire(), "getReader", "()Lorg/apache/commons/io/input/ReaderInputStream;"),
    ];
    for (wire, method, sig) in expected {
        assert_eq!(wire.method, method);
        assert_eq!(wire.sig, sig);
    }
}

#[test]
fn dispatch_wire_names_the_stream_methods_exactly() {
    let read = stream_read_wire();
    assert_eq!(read.method, "read");
    assert_eq!(read.sig, "([BII)I");
    let close = stream_close_wire();
    assert_eq!(close.method, "close");
    assert_eq!(close.sig, "()V");
}
