use vstd::prelude::*;
use crate::errors::ExtractResult;
use crate::metadata::Metadata;
use crate::config::{PdfParserConfig, OfficeParserConfig, TesseractOcrConfig};
use crate::tika::parse;
use crate::tika::wrappers::{JReaderInputStream, is_bridge_error, is_envelope_or_bridge_error};

verus! {

/// The supported output encodings for streaming extraction.
///
/// The variant names double as the wire format: the chosen encoding is
/// sent to the wrapped library as the exact text of its name.
#[derive(Debug, Clone, Copy, PartialEq, Eq, Hash, Structural)]
pub enum CharSet {
    UTF_8,
    US_ASCII,
    UTF_16BE,
}

impl CharSet {
    /// The exact name under which this encoding travels to the wrapped
    /// library.
    pub open spec fn spec_name(self) -> Seq<char> {
        match self {
            CharSet::UTF_8 => "UTF_8"@,
            CharSet::US_ASCII => "US_ASCII"@,
            CharSet::UTF_16BE => "UTF_16BE"@,
        }
    }

    /// Returns the encoding's name, exactly as it is sent over the
    /// boundary.
    pub fn java_name(&self) -> (r: String)
        ensures
            r@ == self.spec_name(),
    {
        match self {
            CharSet::UTF_8 => "UTF_8".to_owned(),
            CharSet::US_ASCII => "US_ASCII".to_owned(),
            CharSet::UTF_16BE => "UTF_16BE".to_owned(),
        }
    }

    /// Parses an encoding name. Returns `None` exactly when the text is
    /// not the name of any supported encoding, so a misspelled encoding
    /// fails loudly instead of being passed through.
    pub fn from_name(s: &str) -> (r: Option<CharSet>)
        ensures
            match r {
                Some(v) => s@ == v.spec_name(),
                None => forall|v: CharSet| s@ != v.spec_name(),
            },
    {
        let owned: String = s.to_owned();
        if owned == "UTF_8".to_owned() {
            Some(CharSet::UTF_8)
        } else if owned == "US_ASCII".to_owned() {
            Some(CharSet::US_ASCII)
        } else if owned == "UTF_16BE".to_owned() {
            Some(CharSet::UTF_16BE)
        } else {
            proof {
                assert forall|v: CharSet| s@ != v.spec_name() by {
                    match v {
                        CharSet::UTF_8 => {}
                        CharSet::US_ASCII => {}
                        CharSet::UTF_16BE => {}
                    }
                }
            }
            None
        }
    }
}

impl Default for CharSet {
    /// The default output encoding.
    fn default() -> (r: Self)
        ensures
            r == CharSet::UTF_8,
    {
        CharSet::UTF_8
    }
}

/// No two encodings share a name: the textual wire format distinguishes
/// every supported encoding.
pub proof fn lemma_charset_names_injective(a: CharSet, b: CharSet)
    requires
        a.spec_name() == b.spec_name(),
    ensures
        a == b,
{
    reveal_strlit("UTF_8");
    reveal_strlit("US_ASCII");
    reveal_strlit("UTF_16BE");
    assert("UTF_8"@.len() == 5);
    assert("US_ASCII"@.len() == 8);
    assert("UTF_16BE"@.len() == 8);
    match a {
        CharSet::UTF_8 => {
            match b {
                CharSet::UTF_8 => {}
                CharSet::US_ASCII => {}
                CharSet::UTF_16BE => {}
            }
        }
        CharSet::US_ASCII => {
            match b {
                CharSet::UTF_8 => {}
                CharSet::US_ASCII => {}
                CharSet::UTF_16BE => {
                    assert("US_ASCII"@[1] == 'S');
                    assert("UTF_16BE"@[1] == 'T');
                }
            }
        }
        CharSet::UTF_16BE => {
            match b {
                CharSet::UTF_8 => {}
                CharSet::US_ASCII => {
                    assert("US_ASCII"@[1] == 'S');
                    assert("UTF_16BE"@[1] == 'T');
                }
                CharSet::UTF_16BE => {}
            }
        }
    }
}

/// A pull-based reader over the stream of extracted text. Wraps the
/// Java-side stream adapter; each read attaches the calling thread,
/// grows the shared buffer if the request exceeds its capacity, and
/// maps the callee's end-of-stream report to a count of zero.
pub struct StreamReader {
    pub(crate) inner: JReaderInputStream,
}

impl StreamReader {
    /// Wraps a Java-side stream adapter.
    pub fn wrap(inner: JReaderInputStream) -> (r: Self) {
        StreamReader { inner }
    }

    /// Reads into `buf`, filling at most its length. Returns the number
    /// of bytes read; end of stream is signaled by `Ok(0)`, never by an
    /// error.
    pub fn read(&mut self, vm: &jni::JavaVM, buf: &mut Vec<u8>) -> (r: ExtractResult<usize>)
        requires
            old(buf)@.len() <= i32::MAX as int,
        ensures
            final(buf)@.len() == old(buf)@.len(),
            r matches Ok(n) ==> n <= old(buf)@.len(),
            r matches Err(e) ==> is_bridge_error(e),
    {
        self.inner.read(vm, buf)
    }

    /// Reads up to `size` bytes and returns exactly the bytes read: a
    /// buffer of the requested size is filled by one read, then cut to
    /// the returned count.
    pub fn read_chunk(&mut self, vm: &jni::JavaVM, size: usize) -> (r: ExtractResult<Vec<u8>>)
        requires
            size <= i32::MAX as int,
        ensures
            r matches Ok(v) ==> v@.len() <= size,
            r matches Err(e) ==> is_bridge_error(e),
    {
        let mut buffer: Vec<u8> = Vec::new();
        buffer.resize(size, 0u8);
        let count = self.inner.read(vm, &mut buffer)?;
        buffer.truncate(count);
        Ok(buffer)
    }

    /// Closes the Java-side stream; teardown failures are swallowed.
    pub fn close(&self, vm: &jni::JavaVM) {
        self.inner.close(vm)
    }
}

/// Extractor for extracting text from different file formats.
///
/// The extractor uses a consuming builder pattern: every setter takes
/// the extractor and returns it with the one setting replaced. The
/// embedding program owns the Java virtual machine and passes it to
/// each extraction call.
#[derive(Debug, Clone, PartialEq)]
pub struct Extractor {
    pub extract_string_max_length: i32,
    pub encoding: CharSet,
    pub pdf_config: PdfParserConfig,
    pub office_config: OfficeParserConfig,
    pub ocr_config: TesseractOcrConfig,
    pub xml_output: bool,
}

impl Extractor {
    /// The default settings: extracted strings bounded at 500000
    /// characters, UTF_8 output, the three parser configurations at
    /// their defaults, plain-text output.
    pub open spec fn spec_is_default(self) -> bool {
        &&& self.extract_string_max_length == 500000
        &&& self.encoding == CharSet::UTF_8
        &&& self.pdf_config == PdfParserConfig::spec_default()
        &&& self.office_config == OfficeParserConfig::spec_default()
        &&& self.ocr_config.spec_is_default()
        &&& self.xml_output == false
    }

    /// Creates an extractor with the default settings.
    pub fn new() -> (r: Self)
        ensures
            r.spec_is_default(),
    {
        Extractor {
            extract_string_max_length: 500000,
            encoding: CharSet::UTF_8,
            pdf_config: PdfParserConfig::new(),
            office_config: OfficeParserConfig::new(),
            ocr_config: TesseractOcrConfig::new(),
            xml_output: false,
        }
    }

    /// Sets the maximum length of the extracted text. Used only by the
    /// `_to_string` extraction calls.
    /// Default: 500000.
    pub fn set_extract_string_max_length(self, max_length: i32) -> (r: Self)
        ensures
            r == (Extractor { extract_string_max_length: max_length, ..self }),
    {
        Extractor { extract_string_max_length: max_length, ..self }
    }

    /// Sets the encoding used when extracting text to a stream. Not
    /// used by the `_to_string` extraction calls.
    /// Default: UTF_8.
    pub fn set_encoding(self, encoding: CharSet) -> (r: Self)
        ensures
            r == (Extractor { encoding, ..self }),
    {
        Extractor { encoding, ..self }
    }

    /// Sets the configuration for the PDF parser.
    pub fn set_pdf_config(self, config: PdfParserConfig) -> (r: Self)
        ensures
            r == (Extractor { pdf_config: config, ..self }),
    {
        Extractor { pdf_config: config, ..self }
    }

    /// Sets the configuration for the Office parser.
    pub fn set_office_config(self, config: OfficeParserConfig) -> (r: Self)
        ensures
            r == (Extractor { office_config: config, ..self }),
    {
        Extractor { office_config: config, ..self }
    }

    /// Sets the configuration for the Tesseract OCR.
    pub fn set_ocr_config(self, config: TesseractOcrConfig) -> (r: Self)
        ensures
            r == (Extractor { ocr_config: config, ..self }),
    {
        Extractor { ocr_config: config, ..self }
    }

    /// Sets whether extraction emits structured XML instead of plain
    /// text.
    /// Default: false.
    pub fn set_xml_output(self, xml_output: bool) -> (r: Self)
        ensures
            r == (Extractor { xml_output, ..self }),
    {
        Extractor { xml_output, ..self }
    }

    /// Extracts text from a file path. Returns a streaming reader over
    /// the extracted text, decoded with the extractor's encoding, and
    /// the document's metadata.
    pub fn extract_file(&self, vm: &jni::JavaVM, file_path: &str) -> (r: ExtractResult<
        (StreamReader, Metadata),
    >)
        ensures
            r matches Ok(p) ==> p.1.wf(),
            r matches Err(e) ==> is_envelope_or_bridge_error(e),
    {
        parse::parse_file(
            vm,
            file_path,
            &self.encoding,
            &self.pdf_config,
            &self.office_config,
            &self.ocr_config,
            self.xml_output,
        )
    }

    /// Extracts text from a URL. Returns a streaming reader over the
    /// extracted text, decoded with the extractor's encoding, and the
    /// document's metadata.
    pub fn extract_url(&self, vm: &jni::JavaVM, url: &str) -> (r: ExtractResult<
        (StreamReader, Metadata),
    >)
        ensures
            r matches Ok(p) ==> p.1.wf(),
            r matches Err(e) ==> is_envelope_or_bridge_error(e),
    {
        parse::parse_url(
            vm,
            url,
            &self.encoding,
            &self.pdf_config,
            &self.office_config,
            &self.ocr_config,
            self.xml_output,
        )
    }

    /// Extracts text from an already-marshaled callee byte buffer into
    /// a streaming reader and the document's metadata. The buffer object
    /// is created by the embedding layer — the direct-buffer handoff
    /// needs jni's unsafe raw-pointer API — and passed in with the
    /// attached environment it was created under.
    pub fn extract_bytes<'a>(
        &self,
        env: &mut jni::AttachGuard<'a>,
        buffer: &jni::objects::JObject<'a>,
    ) -> (r: ExtractResult<(StreamReader, Metadata)>)
        ensures
            r matches Ok(p) ==> p.1.wf(),
            r matches Err(e) ==> is_envelope_or_bridge_error(e),
    {
        parse::parse_bytes(
            env,
            buffer,
            &self.encoding,
            &self.pdf_config,
            &self.office_config,
            &self.ocr_config,
            self.xml_output,
        )
    }

    /// Extracts text from an already-marshaled callee byte buffer into a
    /// string of at most the extractor's maximum length, together with
    /// the document's metadata. The buffer object is created by the
    /// embedding layer, as for [`Extractor::extract_bytes`].
    pub fn extract_bytes_to_string<'a>(
        &self,
        env: &mut jni::AttachGuard<'a>,
        buffer: &jni::objects::JObject<'a>,
    ) -> (r: ExtractResult<(String, Metadata)>)
        ensures
            r matches Ok(p) ==> p.1.wf(),
            r matches Err(e) ==> is_envelope_or_bridge_error(e),
    {
        parse::parse_bytes_to_string(
            env,
            buffer,
            self.extract_string_max_length,
            &self.pdf_config,
            &self.office_config,
            &self.ocr_config,
            self.xml_output,
        )
    }

    /// Extracts text from a file path into a string of at most the
    /// extractor's maximum length, together with the document's
    /// metadata.
    pub fn extract_file_to_string(&self, vm: &jni::JavaVM, file_path: &str) -> (r: ExtractResult<
        (String, Metadata),
    >)
        ensures
            r matches Ok(p) ==> p.1.wf(),
            r matches Err(e) ==> is_envelope_or_bridge_error(e),
    {
        parse::parse_file_to_string(
            vm,
            file_path,
            self.extract_string_max_length,
            &self.pdf_config,
            &self.office_config,
            &self.ocr_config,
            self.xml_output,
        )
    }

    /// Extracts text from a URL into a string of at most the
    /// extractor's maximum length, together with the document's
    /// metadata.
    pub fn extract_url_to_string(&self, vm: &jni::JavaVM, url: &str) -> (r: ExtractResult<
        (String, Metadata),
    >)
        ensures
            r matches Ok(p) ==> p.1.wf(),
            r matches Err(e) ==> is_envelope_or_bridge_error(e),
    {
        parse::parse_url_to_string(
            vm,
            url,
            self.extract_string_max_length,
            &self.pdf_config,
            &self.office_config,
            &self.ocr_config,
            self.xml_output,
        )
    }
}

impl Default for Extractor {
    fn default() -> (r: Self)
        ensures
            r.spec_is_default(),
    {
        Self::new()
    }
}

} // verus!
