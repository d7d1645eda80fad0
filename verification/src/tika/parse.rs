use vstd::prelude::*;
use crate::errors::ExtractResult;
use crate::metadata::Metadata;
use crate::wire::{
    SetterArg, WireMethod, tika_main_class, parse_file_wire, parse_url_wire, parse_bytes_wire,
    parse_file_to_string_wire, parse_url_to_string_wire, parse_bytes_to_string_wire,
};
use crate::config::{PdfParserConfig, OfficeParserConfig, TesseractOcrConfig};
use crate::extractor::{CharSet, StreamReader};
use crate::tika::jni_utils::{jni_attach, jni_call_parse_static, jni_call_parse_bytes_static};
use crate::tika::wrappers::{
    JPDFParserConfig, JOfficeParserConfig, JTesseractOcrConfig, JResult, JReaderResult,
    JReaderInputStream, is_bridge_error, is_envelope_or_bridge_error,
};

verus! {

/// Marshals the three configurations into their Java-side objects, each
/// built by its exact setter plan.
fn marshal_configs<'a>(
    env: &mut jni::AttachGuard<'a>,
    pdf_conf: &PdfParserConfig,
    office_conf: &OfficeParserConfig,
    ocr_conf: &TesseractOcrConfig,
) -> (r: ExtractResult<(JPDFParserConfig<'a>, JOfficeParserConfig<'a>, JTesseractOcrConfig<'a>)>)
    ensures
        r matches Err(e) ==> is_bridge_error(e),
{
    let j_pdf_conf = JPDFParserConfig::new(env, pdf_conf)?;
    let j_office_conf = JOfficeParserConfig::new(env, office_conf)?;
    let j_ocr_conf = JTesseractOcrConfig::new(env, ocr_conf)?;
    Ok((j_pdf_conf, j_office_conf, j_ocr_conf))
}

/// Decodes a ReaderResult envelope into a streaming reader over the
/// callee stream and the document's metadata.
fn reader_result<'a>(
    env: &mut jni::AttachGuard<'a>,
    result_obj: jni::objects::JObject<'a>,
) -> (r: ExtractResult<(StreamReader, Metadata)>)
    ensures
        r matches Ok(p) ==> p.1.wf(),
        r matches Err(e) ==> is_envelope_or_bridge_error(e),
{
    let result = JReaderResult::new(env, result_obj)?;
    let reader = JReaderInputStream::new(env, result.java_reader)?;
    let metadata = Metadata::from_flat(&result.metadata);
    Ok((StreamReader::wrap(reader), metadata))
}

/// Decodes a StringResult envelope into the extracted content and the
/// document's metadata.
fn string_result<'a>(
    env: &mut jni::AttachGuard<'a>,
    result_obj: jni::objects::JObject<'a>,
) -> (r: ExtractResult<(String, Metadata)>)
    ensures
        r matches Ok(p) ==> p.1.wf(),
        r matches Err(e) ==> is_envelope_or_bridge_error(e),
{
    let result = JResult::new(env, result_obj)?;
    let metadata = Metadata::from_flat(&result.metadata);
    Ok((result.content, metadata))
}

/// Marshals the three configurations, dispatches one streaming parse
/// entry point of the Tika main class — the entry point fixed by the
/// wire plan handed in — and decodes the ReaderResult envelope.
fn parse_to_stream<'a>(
    env: &mut jni::AttachGuard<'a>,
    source: &str,
    char_set: &CharSet,
    pdf_conf: &PdfParserConfig,
    office_conf: &OfficeParserConfig,
    ocr_conf: &TesseractOcrConfig,
    as_xml: bool,
    wire: &WireMethod,
) -> (r: ExtractResult<(StreamReader, Metadata)>)
    ensures
        r matches Ok(p) ==> p.1.wf(),
        r matches Err(e) ==> is_envelope_or_bridge_error(e),
{
    let class = tika_main_class();
    let charset_name = char_set.java_name();
    let (j_pdf_conf, j_office_conf, j_ocr_conf) = marshal_configs(
        env,
        pdf_conf,
        office_conf,
        ocr_conf,
    )?;

    let result_obj = jni_call_parse_static(
        env,
        class.as_str(),
        wire.method.as_str(),
        wire.sig.as_str(),
        source,
        &SetterArg::Text(charset_name),
        &j_pdf_conf.internal,
        &j_office_conf.internal,
        &j_ocr_conf.internal,
        as_xml,
    )?;

    reader_result(env, result_obj)
}

/// Marshals the three configurations, dispatches one string parse entry
/// point of the Tika main class — the entry point fixed by the wire
/// plan handed in — and decodes the StringResult envelope.
fn parse_to_string<'a>(
    env: &mut jni::AttachGuard<'a>,
    source: &str,
    max_length: i32,
    pdf_conf: &PdfParserConfig,
    office_conf: &OfficeParserConfig,
    ocr_conf: &TesseractOcrConfig,
    as_xml: bool,
    wire: &WireMethod,
) -> (r: ExtractResult<(String, Metadata)>)
    ensures
        r matches Ok(p) ==> p.1.wf(),
        r matches Err(e) ==> is_envelope_or_bridge_error(e),
{
    let class = tika_main_class();
    let (j_pdf_conf, j_office_conf, j_ocr_conf) = marshal_configs(
        env,
        pdf_conf,
        office_conf,
        ocr_conf,
    )?;

    let result_obj = jni_call_parse_static(
        env,
        class.as_str(),
        wire.method.as_str(),
        wire.sig.as_str(),
        source,
        &SetterArg::Number(max_length),
        &j_pdf_conf.internal,
        &j_office_conf.internal,
        &j_ocr_conf.internal,
        as_xml,
    )?;

    string_result(env, result_obj)
}

/// Parses the file at the path into a stream of extracted text, decoded
/// with the given character set, together with the document's metadata.
/// Dispatches exactly the entry point of [`parse_file_wire`].
pub fn parse_file(
    vm: &jni::JavaVM,
    file_path: &str,
    char_set: &CharSet,
    pdf_conf: &PdfParserConfig,
    office_conf: &OfficeParserConfig,
    ocr_conf: &TesseractOcrConfig,
    as_xml: bool,
) -> (r: ExtractResult<(StreamReader, Metadata)>)
    ensures
        r matches Ok(p) ==> p.1.wf(),
        r matches Err(e) ==> is_envelope_or_bridge_error(e),
{
    let mut env = jni_attach(vm)?;
    let wire = parse_file_wire();
    parse_to_stream(&mut env, file_path, char_set, pdf_conf, office_conf, ocr_conf, as_xml, &wire)
}

/// Parses the document behind the URL into a stream of extracted text,
/// decoded with the given character set, together with its metadata.
/// Dispatches exactly the entry point of [`parse_url_wire`].
pub fn parse_url(
    vm: &jni::JavaVM,
    url: &str,
    char_set: &CharSet,
    pdf_conf: &PdfParserConfig,
    office_conf: &OfficeParserConfig,
    ocr_conf: &TesseractOcrConfig,
    as_xml: bool,
) -> (r: ExtractResult<(StreamReader, Metadata)>)
    ensures
        r matches Ok(p) ==> p.1.wf(),
        r matches Err(e) ==> is_envelope_or_bridge_error(e),
{
    let mut env = jni_attach(vm)?;
    let wire = parse_url_wire();
    parse_to_stream(&mut env, url, char_set, pdf_conf, office_conf, ocr_conf, as_xml, &wire)
}

/// Parses an already-marshaled callee byte buffer into a stream of
/// extracted text, decoded with the given character set, together with
/// the document's metadata. The buffer object is created by the
/// embedding layer — the direct-buffer handoff needs jni's unsafe
/// raw-pointer API, which this crate does not hold — and everything
/// from marshaling to envelope decoding runs here. Dispatches exactly
/// the entry point of [`parse_bytes_wire`].
pub fn parse_bytes<'a>(
    env: &mut jni::AttachGuard<'a>,
    buffer: &jni::objects::JObject<'a>,
    char_set: &CharSet,
    pdf_conf: &PdfParserConfig,
    office_conf: &OfficeParserConfig,
    ocr_conf: &TesseractOcrConfig,
    as_xml: bool,
) -> (r: ExtractResult<(StreamReader, Metadata)>)
    ensures
        r matches Ok(p) ==> p.1.wf(),
        r matches Err(e) ==> is_envelope_or_bridge_error(e),
{
    let class = tika_main_class();
    let wire = parse_bytes_wire();
    let charset_name = char_set.java_name();
    let (j_pdf_conf, j_office_conf, j_ocr_conf) = marshal_configs(
        env,
        pdf_conf,
        office_conf,
        ocr_conf,
    )?;

    let result_obj = jni_call_parse_bytes_static(
        env,
        class.as_str(),
        wire.method.as_str(),
        wire.sig.as_str(),
        buffer,
        &SetterArg::Text(charset_name),
        &j_pdf_conf.internal,
        &j_office_conf.internal,
        &j_ocr_conf.internal,
        as_xml,
    )?;

    reader_result(env, result_obj)
}

/// Parses the file at the path into a string of at most `max_length`
/// characters, together with the document's metadata. Dispatches
/// exactly the entry point of [`parse_file_to_string_wire`].
pub fn parse_file_to_string(
    vm: &jni::JavaVM,
    file_path: &str,
    max_length: i32,
    pdf_conf: &PdfParserConfig,
    office_conf: &OfficeParserConfig,
    ocr_conf: &TesseractOcrConfig,
    as_xml: bool,
) -> (r: ExtractResult<(String, Metadata)>)
    ensures
        r matches Ok(p) ==> p.1.wf(),
        r matches Err(e) ==> is_envelope_or_bridge_error(e),
{
    let mut env = jni_attach(vm)?;
    let wire = parse_file_to_string_wire();
    parse_to_string(
        &mut env,
        file_path,
        max_length,
        pdf_conf,
        office_conf,
        ocr_conf,
        as_xml,
        &wire,
    )
}

/// Parses the document behind the URL into a string of at most
/// `max_length` characters, together with its metadata. Dispatches
/// exactly the entry point of [`parse_url_to_string_wire`].
pub fn parse_url_to_string(
    vm: &jni::JavaVM,
    url: &str,
    max_length: i32,
    pdf_conf: &PdfParserConfig,
    office_conf: &OfficeParserConfig,
    ocr_conf: &TesseractOcrConfig,
    as_xml: bool,
) -> (r: ExtractResult<(String, Metadata)>)
    ensures
        r matches Ok(p) ==> p.1.wf(),
        r matches Err(e) ==> is_envelope_or_bridge_error(e),
{
    let mut env = jni_attach(vm)?;
    let wire = parse_url_to_string_wire();
    parse_to_string(&mut env, url, max_length, pdf_conf, office_conf, ocr_conf, as_xml, &wire)
}

/// Parses an already-marshaled callee byte buffer into a string of at
/// most `max_length` characters, together with the document's metadata.
/// The buffer object is created by the embedding layer, as for
/// [`parse_bytes`]. Dispatches exactly the entry point of
/// [`parse_bytes_to_string_wire`].
pub fn parse_bytes_to_string<'a>(
    env: &mut jni::AttachGuard<'a>,
    buffer: &jni::objects::JObject<'a>,
    max_length: i32,
    pdf_conf: &PdfParserConfig,
    office_conf: &OfficeParserConfig,
    ocr_conf: &TesseractOcrConfig,
    as_xml: bool,
) -> (r: ExtractResult<(String, Metadata)>)
    ensures
        r matches Ok(p) ==> p.1.wf(),
        r matches Err(e) ==> is_envelope_or_bridge_error(e),
{
    let class = tika_main_class();
    let wire = parse_bytes_to_string_wire();
    let (j_pdf_conf, j_office_conf, j_ocr_conf) = marshal_configs(
        env,
        pdf_conf,
        office_conf,
        ocr_conf,
    )?;

    let result_obj = jni_call_parse_bytes_static(
        env,
        class.as_str(),
        wire.method.as_str(),
        wire.sig.as_str(),
        buffer,
        &SetterArg::Number(max_length),
        &j_pdf_conf.internal,
        &j_office_conf.internal,
        &j_ocr_conf.internal,
        as_xml,
    )?;

    string_result(env, result_obj)
}

} // verus!
