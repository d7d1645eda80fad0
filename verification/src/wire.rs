use vstd::prelude::*;
use crate::config::{PdfParserConfig, OfficeParserConfig, TesseractOcrConfig};

verus! {

/// One argument of a Java-side setter call: a boolean, a 32-bit integer,
/// or a string, matching the three JNI argument shapes the wrapped
/// library's configuration objects take.
#[derive(Debug, Clone, PartialEq)]
pub enum SetterArg {
    Flag(bool),
    Number(i32),
    Text(String),
}

/// One setter invocation of the marshaling plan: the Java method name,
/// its JNI type signature, and the argument it receives. The wrapped
/// library reads these names and signatures as a wire format, so the
/// plan functions below pin every one of them in their contracts.
#[derive(Debug, Clone, PartialEq)]
pub struct SetterCall {
    pub method: String,
    pub sig: String,
    pub arg: SetterArg,
}

/// One callee method of the dispatch wire: its Java name and its JNI
/// type signature. The functions below pin, in their contracts, every
/// class, method and signature the bridge dispatches on, so that which
/// entry point or accessor a call reaches is fixed by `ensures`, not by
/// a bare literal.
#[derive(Debug, Clone, PartialEq)]
pub struct WireMethod {
    pub method: String,
    pub sig: String,
}

/// The JNI name of the class carrying the wrapped library's static
/// parse entry points.
pub fn tika_main_class() -> (r: String)
    ensures
        r@ == "ai/yobix/TikaNativeMain"@,
{
    "ai/yobix/TikaNativeMain".to_owned()
}

/// The JNI name of the wrapped library's PDF configuration class.
pub fn pdf_config_class() -> (r: String)
    ensures
        r@ == "org/apache/tika/parser/pdf/PDFParserConfig"@,
{
    "org/apache/tika/parser/pdf/PDFParserConfig".to_owned()
}

/// The JNI name of the wrapped library's Office configuration class.
pub fn office_config_class() -> (r: String)
    ensures
        r@ == "org/apache/tika/parser/microsoft/OfficeParserConfig"@,
{
    "org/apache/tika/parser/microsoft/OfficeParserConfig".to_owned()
}

/// The JNI name of the wrapped library's OCR configuration class.
pub fn ocr_config_class() -> (r: String)
    ensures
        r@ == "org/apache/tika/parser/ocr/TesseractOCRConfig"@,
{
    "org/apache/tika/parser/ocr/TesseractOCRConfig".to_owned()
}

/// The entry point that parses a file path into a streaming reader:
/// (path, charset name, the three configuration objects, XML flag), in
/// that order, returning a ReaderResult envelope.
pub fn parse_file_wire() -> (r: WireMethod)
    ensures
        r.method@ == "parseFile"@,
        r.sig@
            == "(Ljava/lang/String;Ljava/lang/String;Lorg/apache/tika/parser/pdf/PDFParserConfig;Lorg/apache/tika/parser/microsoft/OfficeParserConfig;Lorg/apache/tika/parser/ocr/TesseractOCRConfig;Z)Lai/yobix/ReaderResult;"@,
{
    WireMethod {
        method: "parseFile".to_owned(),
        sig: "(Ljava/lang/String;Ljava/lang/String;Lorg/apache/tika/parser/pdf/PDFParserConfig;Lorg/apache/tika/parser/microsoft/OfficeParserConfig;Lorg/apache/tika/parser/ocr/TesseractOCRConfig;Z)Lai/yobix/ReaderResult;".to_owned(),
    }
}

/// The entry point that parses a URL into a streaming reader: same
/// argument order as the file entry point, the URL in the leading
/// string.
pub fn parse_url_wire() -> (r: WireMethod)
    ensures
        r.method@ == "parseUrl"@,
        r.sig@
            == "(Ljava/lang/String;Ljava/lang/String;Lorg/apache/tika/parser/pdf/PDFParserConfig;Lorg/apache/tika/parser/microsoft/OfficeParserConfig;Lorg/apache/tika/parser/ocr/TesseractOCRConfig;Z)Lai/yobix/ReaderResult;"@,
{
    WireMethod {
        method: "parseUrl".to_owned(),
        sig: "(Ljava/lang/String;Ljava/lang/String;Lorg/apache/tika/parser/pdf/PDFParserConfig;Lorg/apache/tika/parser/microsoft/OfficeParserConfig;Lorg/apache/tika/parser/ocr/TesseractOCRConfig;Z)Lai/yobix/ReaderResult;".to_owned(),
    }
}

/// The entry point that parses a callee byte buffer into a streaming
/// reader: (buffer, charset name, the three configuration objects, XML
/// flag), returning a ReaderResult envelope.
pub fn parse_bytes_wire() -> (r: WireMethod)
    ensures
        r.method@ == "parseBytes"@,
        r.sig@
            == "(Ljava/nio/ByteBuffer;Ljava/lang/String;Lorg/apache/tika/parser/pdf/PDFParserConfig;Lorg/apache/tika/parser/microsoft/OfficeParserConfig;Lorg/apache/tika/parser/ocr/TesseractOCRConfig;Z)Lai/yobix/ReaderResult;"@,
{
    WireMethod {
        method: "parseBytes".to_owned(),
        sig: "(Ljava/nio/ByteBuffer;Ljava/lang/String;Lorg/apache/tika/parser/pdf/PDFParserConfig;Lorg/apache/tika/parser/microsoft/OfficeParserConfig;Lorg/apache/tika/parser/ocr/TesseractOCRConfig;Z)Lai/yobix/ReaderResult;".to_owned(),
    }
}

/// The entry point that parses a file path into a bounded string:
/// (path, maximum length, the three configuration objects, XML flag),
/// returning a StringResult envelope.
pub fn parse_file_to_string_wire() -> (r: WireMethod)
    ensures
        r.method@ == "parseFileToString"@,
        r.sig@
            == "(Ljava/lang/String;ILorg/apache/tika/parser/pdf/PDFParserConfig;Lorg/apache/tika/parser/microsoft/OfficeParserConfig;Lorg/apache/tika/parser/ocr/TesseractOCRConfig;Z)Lai/yobix/StringResult;"@,
{
    WireMethod {
        method: "parseFileToString".to_owned(),
        sig: "(Ljava/lang/String;ILorg/apache/tika/parser/pdf/PDFParserConfig;Lorg/apache/tika/parser/microsoft/OfficeParserConfig;Lorg/apache/tika/parser/ocr/TesseractOCRConfig;Z)Lai/yobix/StringResult;".to_owned(),
    }
}

/// The entry point that parses a URL into a bounded string: same
/// argument order as the file entry point, the URL in the leading
/// string.
pub fn parse_url_to_string_wire() -> (r: WireMethod)
    ensures
        r.method@ == "parseUrlToString"@,
        r.sig@
            == "(Ljava/lang/String;ILorg/apache/tika/parser/pdf/PDFParserConfig;Lorg/apache/tika/parser/microsoft/OfficeParserConfig;Lorg/apache/tika/parser/ocr/TesseractOCRConfig;Z)Lai/yobix/StringResult;"@,
{
    WireMethod {
        method: "parseUrlToString".to_owned(),
        sig: "(Ljava/lang/String;ILorg/apache/tika/parser/pdf/PDFParserConfig;Lorg/apache/tika/parser/microsoft/OfficeParserConfig;Lorg/apache/tika/parser/ocr/TesseractOCRConfig;Z)Lai/yobix/StringResult;".to_owned(),
    }
}

/// The entry point that parses a callee byte buffer into a bounded
/// string: (buffer, maximum length, the three configuration objects,
/// XML flag), returning a StringResult envelope.
pub fn parse_bytes_to_string_wire() -> (r: WireMethod)
    ensures
        r.method@ == "parseBytesToString"@,
        r.sig@
            == "(Ljava/nio/ByteBuffer;ILorg/apache/tika/parser/pdf/PDFParserConfig;Lorg/apache/tika/parser/microsoft/OfficeParserConfig;Lorg/apache/tika/parser/ocr/TesseractOCRConfig;Z)Lai/yobix/StringResult;"@,
{
    WireMethod {
        method: "parseBytesToString".to_owned(),
        sig: "(Ljava/nio/ByteBuffer;ILorg/apache/tika/parser/pdf/PDFParserConfig;Lorg/apache/tika/parser/microsoft/OfficeParserConfig;Lorg/apache/tika/parser/ocr/TesseractOCRConfig;Z)Lai/yobix/StringResult;".to_owned(),
    }
}

/// The result envelope's error flag accessor.
pub fn is_error_wire() -> (r: WireMethod)
    ensures
        r.method@ == "isError"@,
        r.sig@ == "()Z"@,
{
    WireMethod { method: "isError".to_owned(), sig: "()Z".to_owned() }
}

/// The result envelope's status byte accessor.
pub fn get_status_wire() -> (r: WireMethod)
    ensures
        r.method@ == "getStatus"@,
        r.sig@ == "()B"@,
{
    WireMethod { method: "getStatus".to_owned(), sig: "()B".to_owned() }
}

/// The result envelope's error message accessor.
pub fn get_error_message_wire() -> (r: WireMethod)
    ensures
        r.method@ == "getErrorMessage"@,
        r.sig@ == "()Ljava/lang/String;"@,
{
    WireMethod { method: "getErrorMessage".to_owned(), sig: "()Ljava/lang/String;".to_owned() }
}

/// The StringResult envelope's content accessor.
pub fn get_content_wire() -> (r: WireMethod)
    ensures
        r.method@ == "getContent"@,
        r.sig@ == "()Ljava/lang/String;"@,
{
    WireMethod { method: "getContent".to_owned(), sig: "()Ljava/lang/String;".to_owned() }
}

/// The result envelope's flat metadata array accessor.
pub fn get_metadata_wire() -> (r: WireMethod)
    ensures
        r.method@ == "getMetadata"@,
        r.sig@ == "()[Ljava/lang/String;"@,
{
    WireMethod { method: "getMetadata".to_owned(), sig: "()[Ljava/lang/String;".to_owned() }
}

/// The ReaderResult envelope's stream accessor.
pub fn get_reader_wire() -> (r: WireMethod)
    ensures
        r.method@ == "getReader"@,
        r.sig@ == "()Lorg/apache/commons/io/input/ReaderInputStream;"@,
{
    WireMethod {
        method: "getReader".to_owned(),
        sig: "()Lorg/apache/commons/io/input/ReaderInputStream;".to_owned(),
    }
}

/// The callee stream's read method: (byte array, offset, length),
/// returning the count read or -1 at end of stream.
pub fn stream_read_wire() -> (r: WireMethod)
    ensures
        r.method@ == "read"@,
        r.sig@ == "([BII)I"@,
{
    WireMethod { method: "read".to_owned(), sig: "([BII)I".to_owned() }
}

/// The callee stream's close method.
pub fn stream_close_wire() -> (r: WireMethod)
    ensures
        r.method@ == "close"@,
        r.sig@ == "()V"@,
{
    WireMethod { method: "close".to_owned(), sig: "()V".to_owned() }
}

/// The exact setter sequence that marshals a [`PdfParserConfig`] into
/// the wrapped library's `PDFParserConfig` object: one call per field,
/// in field declaration order, the OCR strategy travelling as the exact
/// text of its name.
pub fn pdf_setter_calls(config: &PdfParserConfig) -> (r: Vec<SetterCall>)
    ensures
        r@.len() == 5,
        r@[0].method@ == "setExtractInlineImages"@,
        r@[0].sig@ == "(Z)V"@,
        r@[0].arg == SetterArg::Flag(config.extract_inline_images),
        r@[1].method@ == "setExtractUniqueInlineImagesOnly"@,
        r@[1].sig@ == "(Z)V"@,
        r@[1].arg == SetterArg::Flag(config.extract_unique_inline_images_only),
        r@[2].method@ == "setExtractMarkedContent"@,
        r@[2].sig@ == "(Z)V"@,
        r@[2].arg == SetterArg::Flag(config.extract_marked_content),
        r@[3].method@ == "setExtractAnnotationText"@,
        r@[3].sig@ == "(Z)V"@,
        r@[3].arg == SetterArg::Flag(config.extract_annotation_text),
        r@[4].method@ == "setOcrStrategy"@,
        r@[4].sig@ == "(Ljava/lang/String;)V"@,
        (r@[4].arg matches SetterArg::Text(t) && t@ == config.ocr_strategy.spec_name()),
{
    let mut calls: Vec<SetterCall> = Vec::new();
    calls.push(SetterCall {
        method: "setExtractInlineImages".to_owned(),
        sig: "(Z)V".to_owned(),
        arg: SetterArg::Flag(config.extract_inline_images),
    });
    calls.push(SetterCall {
        method: "setExtractUniqueInlineImagesOnly".to_owned(),
        sig: "(Z)V".to_owned(),
        arg: SetterArg::Flag(config.extract_unique_inline_images_only),
    });
    calls.push(SetterCall {
        method: "setExtractMarkedContent".to_owned(),
        sig: "(Z)V".to_owned(),
        arg: SetterArg::Flag(config.extract_marked_content),
    });
    calls.push(SetterCall {
        method: "setExtractAnnotationText".to_owned(),
        sig: "(Z)V".to_owned(),
        arg: SetterArg::Flag(config.extract_annotation_text),
    });
    calls.push(SetterCall {
        method: "setOcrStrategy".to_owned(),
        sig: "(Ljava/lang/String;)V".to_owned(),
        arg: SetterArg::Text(config.ocr_strategy.java_name()),
    });
    calls
}

/// The exact setter sequence that marshals an [`OfficeParserConfig`]
/// into the wrapped library's `OfficeParserConfig` object: one boolean
/// call per field, in field declaration order.
pub fn office_setter_calls(config: &OfficeParserConfig) -> (r: Vec<SetterCall>)
    ensures
        r@.len() == 10,
        r@[0].method@ == "setExtractMacros"@,
        r@[0].arg == SetterArg::Flag(config.extract_macros),
        r@[1].method@ == "setIncludeDeletedContent"@,
        r@[1].arg == SetterArg::Flag(config.include_deleted_content),
        r@[2].method@ == "setIncludeMoveFromContent"@,
        r@[2].arg == SetterArg::Flag(config.include_move_from_content),
        r@[3].method@ == "setIncludeShapeBasedContent"@,
        r@[3].arg == SetterArg::Flag(config.include_shape_based_content),
        r@[4].method@ == "setIncludeHeadersAndFooters"@,
        r@[4].arg == SetterArg::Flag(config.include_headers_and_footers),
        r@[5].method@ == "setIncludeMissingRows"@,
        r@[5].arg == SetterArg::Flag(config.include_missing_rows),
        r@[6].method@ == "setIncludeSlideNotes"@,
        r@[6].arg == SetterArg::Flag(config.include_slide_notes),
        r@[7].method@ == "setIncludeSlideMasterContent"@,
        r@[7].arg == SetterArg::Flag(config.include_slide_master_content),
        r@[8].method@ == "setConcatenatePhoneticRuns"@,
        r@[8].arg == SetterArg::Flag(config.concatenate_phonetic_runs),
        r@[9].method@ == "setExtractAllAlternativesFromMSG"@,
        r@[9].arg == SetterArg::Flag(config.extract_all_alternatives_from_msg),
        forall|i: int| 0 <= i < 10 ==> r@[i].sig@ == "(Z)V"@,
{
    let mut calls: Vec<SetterCall> = Vec::new();
    calls.push(SetterCall {
        method: "setExtractMacros".to_owned(),
        sig: "(Z)V".to_owned(),
        arg: SetterArg::Flag(config.extract_macros),
    });
    calls.push(SetterCall {
        method: "setIncludeDeletedContent".to_owned(),
        sig: "(Z)V".to_owned(),
        arg: SetterArg::Flag(config.include_deleted_content),
    });
    calls.push(SetterCall {
        method: "setIncludeMoveFromContent".to_owned(),
        sig: "(Z)V".to_owned(),
        arg: SetterArg::Flag(config.include_move_from_content),
    });
    calls.push(SetterCall {
        method: "setIncludeShapeBasedContent".to_owned(),
        sig: "(Z)V".to_owned(),
        arg: SetterArg::Flag(config.include_shape_based_content),
    });
    calls.push(SetterCall {
        method: "setIncludeHeadersAndFooters".to_owned(),
        sig: "(Z)V".to_owned(),
        arg: SetterArg::Flag(config.include_headers_and_footers),
    });
    calls.push(SetterCall {
        method: "setIncludeMissingRows".to_owned(),
        sig: "(Z)V".to_owned(),
        arg: SetterArg::Flag(config.include_missing_rows),
    });
    calls.push(SetterCall {
        method: "setIncludeSlideNotes".to_owned(),
        sig: "(Z)V".to_owned(),
        arg: SetterArg::Flag(config.include_slide_notes),
    });
    calls.push(SetterCall {
        method: "setIncludeSlideMasterContent".to_owned(),
        sig: "(Z)V".to_owned(),
        arg: SetterArg::Flag(config.include_slide_master_content),
    });
    calls.push(SetterCall {
        method: "setConcatenatePhoneticRuns".to_owned(),
        sig: "(Z)V".to_owned(),
        arg: SetterArg::Flag(config.concatenate_phonetic_runs),
    });
    calls.push(SetterCall {
        method: "setExtractAllAlternativesFromMSG".to_owned(),
        sig: "(Z)V".to_owned(),
        arg: SetterArg::Flag(config.extract_all_alternatives_from_msg),
    });
    calls
}

/// The exact setter sequence that marshals a [`TesseractOcrConfig`] into
/// the wrapped library's `TesseractOCRConfig` object: one call per
/// field, integers first, then the flags, then the language text.
pub fn ocr_setter_calls(config: &TesseractOcrConfig) -> (r: Vec<SetterCall>)
    ensures
        r@.len() == 6,
        r@[0].method@ == "setDensity"@,
        r@[0].sig@ == "(I)V"@,
        r@[0].arg == SetterArg::Number(config.density),
        r@[1].method@ == "setDepth"@,
        r@[1].sig@ == "(I)V"@,
        r@[1].arg == SetterArg::Number(config.depth),
        r@[2].method@ == "setTimeoutSeconds"@,
        r@[2].sig@ == "(I)V"@,
        r@[2].arg == SetterArg::Number(config.timeout_seconds),
        r@[3].method@ == "setEnableImagePreprocessing"@,
        r@[3].sig@ == "(Z)V"@,
        r@[3].arg == SetterArg::Flag(config.enable_image_preprocessing),
        r@[4].method@ == "setApplyRotation"@,
        r@[4].sig@ == "(Z)V"@,
        r@[4].arg == SetterArg::Flag(config.apply_rotation),
        r@[5].method@ == "setLanguage"@,
        r@[5].sig@ == "(Ljava/lang/String;)V"@,
        (r@[5].arg matches SetterArg::Text(t) && t@ == config.language@),
{
    let mut calls: Vec<SetterCall> = Vec::new();
    calls.push(SetterCall {
        method: "setDensity".to_owned(),
        sig: "(I)V".to_owned(),
        arg: SetterArg::Number(config.density),
    });
    calls.push(SetterCall {
        method: "setDepth".to_owned(),
        sig: "(I)V".to_owned(),
        arg: SetterArg::Number(config.depth),
    });
    calls.push(SetterCall {
        method: "setTimeoutSeconds".to_owned(),
        sig: "(I)V".to_owned(),
        arg: SetterArg::Number(config.timeout_seconds),
    });
    calls.push(SetterCall {
        method: "setEnableImagePreprocessing".to_owned(),
        sig: "(Z)V".to_owned(),
        arg: SetterArg::Flag(config.enable_image_preprocessing),
    });
    calls.push(SetterCall {
        method: "setApplyRotation".to_owned(),
        sig: "(Z)V".to_owned(),
        arg: SetterArg::Flag(config.apply_rotation),
    });
    calls.push(SetterCall {
        method: "setLanguage".to_owned(),
        sig: "(Ljava/lang/String;)V".to_owned(),
        arg: SetterArg::Text(config.language.clone()),
    });
    calls
}

} // verus!
