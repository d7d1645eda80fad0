use vstd::prelude::*;

verus! {

/// OCR strategy for PDF parsing.
///
/// The variant names double as the wire format: each strategy is sent to
/// the wrapped library as the exact text of its name, which must match
/// the Java-side enum identifier. [`PdfOcrStrategy::java_name`] produces
/// that text and [`PdfOcrStrategy::from_name`] validates it.
#[derive(Debug, Clone, Copy, PartialEq, Eq, Hash, Structural)]
pub enum PdfOcrStrategy {
    NO_OCR,
    OCR_ONLY,
    OCR_AND_TEXT_EXTRACTION,
    AUTO,
}

impl PdfOcrStrategy {
    /// The exact name under which this strategy travels to the wrapped
    /// library.
    pub open spec fn spec_name(self) -> Seq<char> {
        match self {
            PdfOcrStrategy::NO_OCR => "NO_OCR"@,
            PdfOcrStrategy::OCR_ONLY => "OCR_ONLY"@,
            PdfOcrStrategy::OCR_AND_TEXT_EXTRACTION => "OCR_AND_TEXT_EXTRACTION"@,
            PdfOcrStrategy::AUTO => "AUTO"@,
        }
    }

    /// Returns the strategy's name, exactly as the Java-side enum spells it.
    pub fn java_name(&self) -> (r: String)
        ensures
            r@ == self.spec_name(),
    {
        match self {
            PdfOcrStrategy::NO_OCR => "NO_OCR".to_owned(),
            PdfOcrStrategy::OCR_ONLY => "OCR_ONLY".to_owned(),
            PdfOcrStrategy::OCR_AND_TEXT_EXTRACTION => "OCR_AND_TEXT_EXTRACTION".to_owned(),
            PdfOcrStrategy::AUTO => "AUTO".to_owned(),
        }
    }

    /// Parses a strategy name. Returns `None` exactly when the text is
    /// not the name of any strategy, so that a misspelled configuration
    /// value fails loudly instead of being passed through.
    pub fn from_name(s: &str) -> (r: Option<PdfOcrStrategy>)
        ensures
            match r {
                Some(v) => s@ == v.spec_name(),
                None => forall|v: PdfOcrStrategy| s@ != v.spec_name(),
            },
    {
        let owned: String = s.to_owned();
        if owned == "NO_OCR".to_owned() {
            Some(PdfOcrStrategy::NO_OCR)
        } else if owned == "OCR_ONLY".to_owned() {
            Some(PdfOcrStrategy::OCR_ONLY)
        } else if owned == "OCR_AND_TEXT_EXTRACTION".to_owned() {
            Some(PdfOcrStrategy::OCR_AND_TEXT_EXTRACTION)
        } else if owned == "AUTO".to_owned() {
            Some(PdfOcrStrategy::AUTO)
        } else {
            proof {
                assert forall|v: PdfOcrStrategy| s@ != v.spec_name() by {
                    match v {
                        PdfOcrStrategy::NO_OCR => {}
                        PdfOcrStrategy::OCR_ONLY => {}
                        PdfOcrStrategy::OCR_AND_TEXT_EXTRACTION => {}
                        PdfOcrStrategy::AUTO => {}
                    }
                }
            }
            None
        }
    }
}

/// No two strategies share a name: the textual wire format distinguishes
/// every strategy, so a name identifies the strategy it was made from.
pub proof fn lemma_strategy_names_injective(a: PdfOcrStrategy, b: PdfOcrStrategy)
    requires
        a.spec_name() == b.spec_name(),
    ensures
        a == b,
{
    reveal_strlit("NO_OCR");
    reveal_strlit("OCR_ONLY");
    reveal_strlit("OCR_AND_TEXT_EXTRACTION");
    reveal_strlit("AUTO");
    assert("NO_OCR"@.len() == 6);
    assert("OCR_ONLY"@.len() == 8);
    assert("OCR_AND_TEXT_EXTRACTION"@.len() == 23);
    assert("AUTO"@.len() == 4);
    match a {
        PdfOcrStrategy::NO_OCR => {
            match b {
                PdfOcrStrategy::NO_OCR => {}
                PdfOcrStrategy::OCR_ONLY => {}
                PdfOcrStrategy::OCR_AND_TEXT_EXTRACTION => {}
                PdfOcrStrategy::AUTO => {}
            }
        }
        PdfOcrStrategy::OCR_ONLY => {
            match b {
                PdfOcrStrategy::NO_OCR => {}
                PdfOcrStrategy::OCR_ONLY => {}
                PdfOcrStrategy::OCR_AND_TEXT_EXTRACTION => {}
                PdfOcrStrategy::AUTO => {}
            }
        }
        PdfOcrStrategy::OCR_AND_TEXT_EXTRACTION => {
            match b {
                PdfOcrStrategy::NO_OCR => {}
                PdfOcrStrategy::OCR_ONLY => {}
                PdfOcrStrategy::OCR_AND_TEXT_EXTRACTION => {}
                PdfOcrStrategy::AUTO => {}
            }
        }
        PdfOcrStrategy::AUTO => {
            match b {
                PdfOcrStrategy::NO_OCR => {}
                PdfOcrStrategy::OCR_ONLY => {}
                PdfOcrStrategy::OCR_AND_TEXT_EXTRACTION => {}
                PdfOcrStrategy::AUTO => {}
            }
        }
    }
}

/// PDF parsing configuration settings.
///
/// These settings are used to configure the behavior of the PDF parsing.
/// Setters consume and return the value (an immutable-builder pattern).
#[derive(Debug, Clone, PartialEq, Eq, Structural)]
pub struct PdfParserConfig {
    pub ocr_strategy: PdfOcrStrategy,
    pub extract_inline_images: bool,
    pub extract_unique_inline_images_only: bool,
    pub extract_marked_content: bool,
    pub extract_annotation_text: bool,
}

impl PdfParserConfig {
    /// The default settings: automatic OCR, no inline images, no marked
    /// content, annotation text extracted.
    pub open spec fn spec_default() -> Self {
        PdfParserConfig {
            ocr_strategy: PdfOcrStrategy::AUTO,
            extract_inline_images: false,
            extract_unique_inline_images_only: false,
            extract_marked_content: false,
            extract_annotation_text: true,
        }
    }

    /// Creates a new instance of PdfParserConfig with default settings.
    pub fn new() -> (r: Self)
        ensures
            r == Self::spec_default(),
    {
        PdfParserConfig {
            ocr_strategy: PdfOcrStrategy::AUTO,
            extract_inline_images: false,
            extract_unique_inline_images_only: false,
            extract_marked_content: false,
            extract_annotation_text: true,
        }
    }

    /// Sets the OCR strategy for PDF parsing.
    /// Default: AUTO.
    pub fn set_ocr_strategy(self, val: PdfOcrStrategy) -> (r: Self)
        ensures
            r == (PdfParserConfig { ocr_strategy: val, ..self }),
    {
        PdfParserConfig { ocr_strategy: val, ..self }
    }

    /// If true, extract the literal inline embedded OBXImages. Some PDF
    /// documents of modest size can contain thousands of embedded images,
    /// so enabling this can consume surprising amounts of memory.
    /// Default: false.
    pub fn set_extract_inline_images(self, val: bool) -> (r: Self)
        ensures
            r == (PdfParserConfig { extract_inline_images: val, ..self }),
    {
        PdfParserConfig { extract_inline_images: val, ..self }
    }

    /// If true, extract each underlying image only once even when several
    /// pages refer to it. Only has an effect when inline image extraction
    /// is enabled.
    /// Default: false.
    pub fn set_extract_unique_inline_images_only(self, val: bool) -> (r: Self)
        ensures
            r == (PdfParserConfig { extract_unique_inline_images_only: val, ..self }),
    {
        PdfParserConfig { extract_unique_inline_images_only: val, ..self }
    }

    /// If the PDF contains marked content, try to extract text and its
    /// marked structure.
    /// Default: false.
    pub fn set_extract_marked_content(self, val: bool) -> (r: Self)
        ensures
            r == (PdfParserConfig { extract_marked_content: val, ..self }),
    {
        PdfParserConfig { extract_marked_content: val, ..self }
    }

    /// If the PDF contains annotations, try to extract the text of the
    /// annotations.
    /// Default: true.
    pub fn set_extract_annotation_text(self, val: bool) -> (r: Self)
        ensures
            r == (PdfParserConfig { extract_annotation_text: val, ..self }),
    {
        PdfParserConfig { extract_annotation_text: val, ..self }
    }
}

impl Default for PdfParserConfig {
    fn default() -> (r: Self)
        ensures
            r == Self::spec_default(),
    {
        Self::new()
    }
}

/// Microsoft Office parser configuration settings.
///
/// These settings are used to configure the behavior of the MSOffice
/// parsing. Setters consume and return the value.
#[derive(Debug, Clone, PartialEq, Eq, Structural)]
pub struct OfficeParserConfig {
    pub extract_macros: bool,
    pub include_deleted_content: bool,
    pub include_move_from_content: bool,
    pub include_shape_based_content: bool,
    pub include_headers_and_footers: bool,
    pub include_missing_rows: bool,
    pub include_slide_notes: bool,
    pub include_slide_master_content: bool,
    pub concatenate_phonetic_runs: bool,
    pub extract_all_alternatives_from_msg: bool,
}

impl OfficeParserConfig {
    /// The default settings.
    pub open spec fn spec_default() -> Self {
        OfficeParserConfig {
            extract_macros: false,
            include_deleted_content: false,
            include_move_from_content: false,
            include_shape_based_content: true,
            include_headers_and_footers: false,
            include_missing_rows: false,
            include_slide_notes: true,
            include_slide_master_content: true,
            concatenate_phonetic_runs: true,
            extract_all_alternatives_from_msg: false,
        }
    }

    /// Creates a new instance of OfficeParserConfig with default settings.
    pub fn new() -> (r: Self)
        ensures
            r == Self::spec_default(),
    {
        OfficeParserConfig {
            extract_macros: false,
            include_deleted_content: false,
            include_move_from_content: false,
            include_shape_based_content: true,
            include_headers_and_footers: false,
            include_missing_rows: false,
            include_slide_notes: true,
            include_slide_master_content: true,
            concatenate_phonetic_runs: true,
            extract_all_alternatives_from_msg: false,
        }
    }

    /// Sets whether MSOffice parsers should extract macros.
    /// Default: false.
    pub fn set_extract_macros(self, val: bool) -> (r: Self)
        ensures
            r == (OfficeParserConfig { extract_macros: val, ..self }),
    {
        OfficeParserConfig { extract_macros: val, ..self }
    }

    /// Sets whether the docx parser should include deleted content.
    /// Default: false.
    pub fn set_include_deleted_content(self, val: bool) -> (r: Self)
        ensures
            r == (OfficeParserConfig { include_deleted_content: val, ..self }),
    {
        OfficeParserConfig { include_deleted_content: val, ..self }
    }

    /// With track changes on, moved docx content is stored both in its
    /// original location and in its new one; set this to include both.
    /// Default: false.
    pub fn set_include_move_from_content(self, val: bool) -> (r: Self)
        ensures
            r == (OfficeParserConfig { include_move_from_content: val, ..self }),
    {
        OfficeParserConfig { include_move_from_content: val, ..self }
    }

    /// In Excel and Word, text can be stored within drawing shapes; set
    /// this to false to skip looking for it there.
    /// Default: true.
    pub fn set_include_shape_based_content(self, val: bool) -> (r: Self)
        ensures
            r == (OfficeParserConfig { include_shape_based_content: val, ..self }),
    {
        OfficeParserConfig { include_shape_based_content: val, ..self }
    }

    /// Whether to include headers and footers. This only operates on
    /// headers and footers in Word and Excel.
    /// Default: true.
    pub fn set_include_headers_and_footers(self, val: bool) -> (r: Self)
        ensures
            r == (OfficeParserConfig { include_headers_and_footers: val, ..self }),
    {
        OfficeParserConfig { include_headers_and_footers: val, ..self }
    }

    /// For table-like formats, whether missing rows in sparse tables
    /// should be output where detected.
    /// Default: false.
    pub fn set_include_missing_rows(self, val: bool) -> (r: Self)
        ensures
            r == (OfficeParserConfig { include_missing_rows: val, ..self }),
    {
        OfficeParserConfig { include_missing_rows: val, ..self }
    }

    /// Whether to process slide notes content in ppt and pptx files.
    /// Default: true.
    pub fn set_include_slide_notes(self, val: bool) -> (r: Self)
        ensures
            r == (OfficeParserConfig { include_slide_notes: val, ..self }),
    {
        OfficeParserConfig { include_slide_notes: val, ..self }
    }

    /// Whether to include contents from slide, notes and handout masters
    /// in a ppt or pptx file.
    /// Default: true.
    pub fn set_include_slide_master_content(self, val: bool) -> (r: Self)
        ensures
            r == (OfficeParserConfig { include_slide_master_content: val, ..self }),
    {
        OfficeParserConfig { include_slide_master_content: val, ..self }
    }

    /// Whether the parser concatenates phonetic (furigana) runs to the
    /// original Excel text.
    /// Default: true.
    pub fn set_concatenate_phonetic_runs(self, val: bool) -> (r: Self)
        ensures
            r == (OfficeParserConfig { concatenate_phonetic_runs: val, ..self }),
    {
        OfficeParserConfig { concatenate_phonetic_runs: val, ..self }
    }

    /// Some msg files carry body content in html, rtf and text at once;
    /// set this to extract all non-null alternatives instead of the first.
    /// Default: false.
    pub fn set_extract_all_alternatives_from_msg(self, val: bool) -> (r: Self)
        ensures
            r == (OfficeParserConfig { extract_all_alternatives_from_msg: val, ..self }),
    {
        OfficeParserConfig { extract_all_alternatives_from_msg: val, ..self }
    }
}

impl Default for OfficeParserConfig {
    fn default() -> (r: Self)
        ensures
            r == Self::spec_default(),
    {
        Self::new()
    }
}

/// Tesseract OCR configuration settings.
///
/// These settings are used to configure the behavior of the optical
/// character recognition. Setters consume and return the value.
#[derive(Debug, Clone, PartialEq)]
pub struct TesseractOcrConfig {
    pub density: i32,
    pub depth: i32,
    pub timeout_seconds: i32,
    pub enable_image_preprocessing: bool,
    pub apply_rotation: bool,
    pub language: String,
}

impl TesseractOcrConfig {
    /// Whether two configurations hold the same settings.
    pub open spec fn spec_eq(self, other: Self) -> bool {
        &&& self.density == other.density
        &&& self.depth == other.depth
        &&& self.timeout_seconds == other.timeout_seconds
        &&& self.enable_image_preprocessing == other.enable_image_preprocessing
        &&& self.apply_rotation == other.apply_rotation
        &&& self.language@ == other.language@
    }

    /// The default settings: 300 dpi, depth 4, 130 second timeout, no
    /// preprocessing, no rotation, English.
    pub open spec fn spec_is_default(self) -> bool {
        &&& self.density == 300
        &&& self.depth == 4
        &&& self.timeout_seconds == 130
        &&& self.enable_image_preprocessing == false
        &&& self.apply_rotation == false
        &&& self.language@ == "eng"@
    }

    /// Creates a new instance of TesseractOcrConfig with default settings.
    pub fn new() -> (r: Self)
        ensures
            r.spec_is_default(),
    {
        TesseractOcrConfig {
            density: 300,
            depth: 4,
            timeout_seconds: 130,
            enable_image_preprocessing: false,
            apply_rotation: false,
            language: "eng".to_owned(),
        }
    }

    /// Sets whether Tesseract should apply rotation to the image before
    /// OCR.
    /// Default: false.
    pub fn set_apply_rotation(self, val: bool) -> (r: Self)
        ensures
            r == (TesseractOcrConfig { apply_rotation: val, ..self }),
    {
        TesseractOcrConfig { apply_rotation: val, ..self }
    }

    /// Sets the DPI (dots per inch) of the image to be processed.
    /// Default: 300.
    pub fn set_density(self, val: i32) -> (r: Self)
        ensures
            r == (TesseractOcrConfig { density: val, ..self }),
    {
        TesseractOcrConfig { density: val, ..self }
    }

    /// Sets the color depth of the image to be processed.
    /// Default: 4.
    pub fn set_depth(self, val: i32) -> (r: Self)
        ensures
            r == (TesseractOcrConfig { depth: val, ..self }),
    {
        TesseractOcrConfig { depth: val, ..self }
    }

    /// Sets whether Tesseract should enable image preprocessing.
    /// Default: false.
    pub fn set_enable_image_preprocessing(self, val: bool) -> (r: Self)
        ensures
            r == (TesseractOcrConfig { enable_image_preprocessing: val, ..self }),
    {
        TesseractOcrConfig { enable_image_preprocessing: val, ..self }
    }

    /// Sets the tesseract language dictionary used for OCR, nominally an
    /// ISO-639-2 code. Multiple languages may be joined with plus signs.
    /// Default: "eng".
    pub fn set_language(self, val: &str) -> (r: Self)
        ensures
            r.language@ == val@,
            r.density == self.density,
            r.depth == self.depth,
            r.timeout_seconds == self.timeout_seconds,
            r.enable_image_preprocessing == self.enable_image_preprocessing,
            r.apply_rotation == self.apply_rotation,
    {
        TesseractOcrConfig { language: val.to_owned(), ..self }
    }

    /// Sets the maximum time in seconds that Tesseract should spend on
    /// OCR.
    /// Default: 130.
    pub fn set_timeout_seconds(self, val: i32) -> (r: Self)
        ensures
            r == (TesseractOcrConfig { timeout_seconds: val, ..self }),
    {
        TesseractOcrConfig { timeout_seconds: val, ..self }
    }
}

impl Default for TesseractOcrConfig {
    fn default() -> (r: Self)
        ensures
            r.spec_is_default(),
    {
        Self::new()
    }
}

} // verus!
