use vstd::prelude::*;
use crate::errors::{Error, ExtractResult, error_from_status};
use crate::metadata::Metadata;
use crate::wire::{
    SetterArg, SetterCall, pdf_setter_calls, office_setter_calls, ocr_setter_calls,
    pdf_config_class, office_config_class, ocr_config_class, is_error_wire, get_status_wire,
    get_error_message_wire, get_content_wire, get_metadata_wire, get_reader_wire,
    stream_read_wire, stream_close_wire,
};
use crate::config::{PdfParserConfig, OfficeParserConfig, TesseractOcrConfig};
use crate::DEFAULT_BUF_SIZE;
use crate::tika::jni_utils::{
    jni_new_object, jni_call_void_method, jni_call_bool_method, jni_call_byte_method,
    jni_call_object_method, jni_jobject_to_string, jni_jobject_array_to_vec, jni_new_global_ref,
    jni_new_global_byte_array, jni_call_stream_read, jni_read_byte_region,
    jni_call_global_void_method, jni_attach,
};

verus! {

/// An error produced by the bridge layer itself: a failed jni call or a
/// failed environment operation, never a decoded Tika error.
pub open spec fn is_bridge_error(e: Error) -> bool {
    ||| e matches Error::JniError(_)
    ||| e matches Error::JniEnvCall(_)
}

/// An error a parse call can surface: one decoded from the result
/// envelope's status byte, or a bridge error.
pub open spec fn is_envelope_or_bridge_error(e: Error) -> bool {
    ||| e matches Error::IoError(_)
    ||| e matches Error::ParseError(_)
    ||| e matches Error::Unknown(_)
    ||| is_bridge_error(e)
}

/// Applies a marshaling plan to a Java object: every setter call of the
/// plan, in plan order, stopping at the first failure.
pub fn apply_setter_calls<'a, 'b>(
    env: &mut jni::AttachGuard<'a>,
    obj: &jni::objects::JObject<'b>,
    calls: &Vec<SetterCall>,
) -> (r: ExtractResult<()>)
    ensures
        r matches Err(e) ==> is_bridge_error(e),
{
    let mut i: usize = 0;
    while i < calls.len()
        decreases calls@.len() - i,
    {
        let call = &calls[i];
        jni_call_void_method(env, obj, call.method.as_str(), call.sig.as_str(), &call.arg)?;
        i += 1;
    }
    Ok(())
}

/// Wrapper for a Java object of class
/// `org.apache.tika.parser.pdf.PDFParserConfig`.
pub struct JPDFParserConfig<'a> {
    pub internal: jni::objects::JObject<'a>,
}

impl<'a> JPDFParserConfig<'a> {
    /// Constructs the Java-side PDF configuration object and applies
    /// exactly the configuration's setter plan to it.
    pub fn new(env: &mut jni::AttachGuard<'a>, config: &PdfParserConfig) -> (r: ExtractResult<
        Self,
    >)
        ensures
            r matches Err(e) ==> is_bridge_error(e),
    {
        let obj = jni_new_object(env, pdf_config_class().as_str())?;
        let calls = pdf_setter_calls(config);
        apply_setter_calls(env, &obj, &calls)?;
        Ok(JPDFParserConfig { internal: obj })
    }
}

/// Wrapper for a Java object of class
/// `org.apache.tika.parser.microsoft.OfficeParserConfig`.
pub struct JOfficeParserConfig<'a> {
    pub internal: jni::objects::JObject<'a>,
}

impl<'a> JOfficeParserConfig<'a> {
    /// Constructs the Java-side Office configuration object and applies
    /// exactly the configuration's setter plan to it.
    pub fn new(env: &mut jni::AttachGuard<'a>, config: &OfficeParserConfig) -> (r: ExtractResult<
        Self,
    >)
        ensures
            r matches Err(e) ==> is_bridge_error(e),
    {
        let obj = jni_new_object(env, office_config_class().as_str())?;
        let calls = office_setter_calls(config);
        apply_setter_calls(env, &obj, &calls)?;
        Ok(JOfficeParserConfig { internal: obj })
    }
}

/// Wrapper for a Java object of class
/// `org.apache.tika.parser.ocr.TesseractOCRConfig`.
pub struct JTesseractOcrConfig<'a> {
    pub internal: jni::objects::JObject<'a>,
}

impl<'a> JTesseractOcrConfig<'a> {
    /// Constructs the Java-side OCR configuration object and applies
    /// exactly the configuration's setter plan to it.
    pub fn new(env: &mut jni::AttachGuard<'a>, config: &TesseractOcrConfig) -> (r: ExtractResult<
        Self,
    >)
        ensures
            r matches Err(e) ==> is_bridge_error(e),
    {
        let obj = jni_new_object(env, ocr_config_class().as_str())?;
        let calls = ocr_setter_calls(config);
        apply_setter_calls(env, &obj, &calls)?;
        Ok(JTesseractOcrConfig { internal: obj })
    }
}

/// Decodes the error half of a result envelope: reads the status byte
/// and the message through their accessors and maps the status to the
/// matching error. Returns `Err` only when an accessor call itself
/// failed.
fn read_envelope_error<'a, 'b>(
    env: &mut jni::AttachGuard<'a>,
    obj: &jni::objects::JObject<'b>,
) -> (r: ExtractResult<Error>)
    ensures
        r matches Ok(e) ==> (e matches Error::IoError(_) || e matches Error::ParseError(_)
            || e matches Error::Unknown(_)),
        r matches Err(e) ==> is_bridge_error(e),
{
    let status_acc = get_status_wire();
    let status = jni_call_byte_method(env, obj, status_acc.method.as_str(), status_acc.sig.as_str())?;
    let msg_acc = get_error_message_wire();
    let msg_obj = jni_call_object_method(env, obj, msg_acc.method.as_str(), msg_acc.sig.as_str())?;
    let msg = jni_jobject_to_string(env, msg_obj)?;
    Ok(error_from_status(status, msg))
}

/// Reads a result envelope's flat metadata array through its accessor.
fn read_envelope_metadata<'a, 'b>(
    env: &mut jni::AttachGuard<'a>,
    obj: &jni::objects::JObject<'b>,
) -> (r: ExtractResult<Vec<String>>)
    ensures
        r matches Err(e) ==> is_bridge_error(e),
{
    let metadata_acc = get_metadata_wire();
    let metadata_obj = jni_call_object_method(
        env,
        obj,
        metadata_acc.method.as_str(),
        metadata_acc.sig.as_str(),
    )?;
    jni_jobject_array_to_vec(env, metadata_obj)
}

/// The decoded form of the wrapped library's `ai.yobix.StringResult`
/// envelope: the extracted content and the flat metadata array.
pub struct JResult {
    pub content: String,
    pub metadata: Vec<String>,
}

impl JResult {
    /// Reads a StringResult envelope. When its error flag is set, the
    /// status byte and message decode into the matching error; otherwise
    /// the content string and flat metadata array are carried over.
    pub fn new<'a, 'b>(
        env: &mut jni::AttachGuard<'a>,
        obj: jni::objects::JObject<'b>,
    ) -> (r: ExtractResult<JResult>)
        ensures
            r matches Err(e) ==> is_envelope_or_bridge_error(e),
    {
        let flag = is_error_wire();
        let is_error = jni_call_bool_method(env, &obj, flag.method.as_str(), flag.sig.as_str())?;
        if is_error {
            Err(read_envelope_error(env, &obj)?)
        } else {
            let content_acc = get_content_wire();
            let content_obj = jni_call_object_method(
                env,
                &obj,
                content_acc.method.as_str(),
                content_acc.sig.as_str(),
            )?;
            let content = jni_jobject_to_string(env, content_obj)?;
            let metadata = read_envelope_metadata(env, &obj)?;
            Ok(JResult { content, metadata })
        }
    }
}

/// The decoded form of the wrapped library's `ai.yobix.ReaderResult`
/// envelope: the Java-side stream object and the flat metadata array.
pub struct JReaderResult<'a> {
    pub java_reader: jni::objects::JObject<'a>,
    pub metadata: Vec<String>,
}

impl<'a> JReaderResult<'a> {
    /// Reads a ReaderResult envelope. When its error flag is set, the
    /// status byte and message decode into the matching error; otherwise
    /// the reader handle and flat metadata array are carried over.
    pub fn new<'b>(
        env: &mut jni::AttachGuard<'a>,
        obj: jni::objects::JObject<'b>,
    ) -> (r: ExtractResult<Self>)
        ensures
            r matches Err(e) ==> is_envelope_or_bridge_error(e),
    {
        let flag = is_error_wire();
        let is_error = jni_call_bool_method(env, &obj, flag.method.as_str(), flag.sig.as_str())?;
        if is_error {
            Err(read_envelope_error(env, &obj)?)
        } else {
            let reader_acc = get_reader_wire();
            let reader_obj = jni_call_object_method(
                env,
                &obj,
                reader_acc.method.as_str(),
                reader_acc.sig.as_str(),
            )?;
            let metadata = read_envelope_metadata(env, &obj)?;
            Ok(JReaderResult { java_reader: reader_obj, metadata })
        }
    }
}

/// The buffer capacity after serving a read request: grown to exactly
/// the requested length when that exceeds the old capacity, otherwise
/// unchanged — the buffer never shrinks.
pub open spec fn spec_grown_capacity(capacity: int, requested: int) -> int {
    if requested > capacity {
        requested
    } else {
        capacity
    }
}

/// The count a read hands to its caller, given the length the callee
/// reported: a negative report signals end of stream and becomes 0; a
/// report beyond the request is clamped to the request (the callee's
/// read contract never exceeds it); anything else passes through.
pub open spec fn spec_read_count(reported: int, requested: int) -> int {
    if reported < 0 {
        0
    } else if reported > requested {
        requested
    } else {
        reported
    }
}

/// Interprets the length the callee reported for one read. End of
/// stream (a negative report) is signaled by a count of zero, never by
/// an error.
pub fn interpret_read_report(reported: i32, requested: usize) -> (r: usize)
    ensures
        r == spec_read_count(reported as int, requested as int),
        r <= requested,
{
    if reported < 0 {
        0
    } else if reported as usize > requested {
        requested
    } else {
        reported as usize
    }
}

/// One pull of the streaming protocol, as the model sees it: the bytes
/// the callee put in the shared buffer, the length it reported, and the
/// length the caller requested.
pub ghost struct ReadStep {
    pub chunk: Seq<u8>,
    pub reported: int,
    pub requested: int,
}

/// A step of a callee that honors the stream's read contract: it
/// reports no more than was requested and has written exactly as many
/// bytes as it reports.
pub open spec fn step_wf(s: ReadStep) -> bool {
    &&& 0 <= s.reported <= s.requested
    &&& s.chunk.len() == s.reported
}

/// The bytes one read delivers to the caller: the reported prefix of
/// the callee's chunk, interpreted by the adapter's counting rule.
pub open spec fn step_delivered(s: ReadStep) -> Seq<u8> {
    s.chunk.take(spec_read_count(s.reported, s.requested))
}

/// The concatenation of everything a sequence of reads delivers.
pub open spec fn delivered(steps: Seq<ReadStep>) -> Seq<u8>
    decreases steps.len(),
{
    if steps.len() == 0 {
        Seq::empty()
    } else {
        step_delivered(steps[0]) + delivered(steps.skip(1))
    }
}

/// The concatenation of everything the callee produced over those
/// reads.
pub open spec fn produced(steps: Seq<ReadStep>) -> Seq<u8>
    decreases steps.len(),
{
    if steps.len() == 0 {
        Seq::empty()
    } else {
        steps[0].chunk + produced(steps.skip(1))
    }
}

/// Round trip of the streaming adapter: over any sequence of reads
/// whose callee honors the read contract, concatenating what the reads
/// deliver is byte-identical to concatenating what the callee produced.
/// The adapter neither drops, duplicates nor reorders a byte, whatever
/// the request sizes were.
pub proof fn lemma_stream_round_trip(steps: Seq<ReadStep>)
    requires
        forall|i: int| 0 <= i < steps.len() ==> step_wf(#[trigger] steps[i]),
    ensures
        delivered(steps) == produced(steps),
    decreases steps.len(),
{
    if steps.len() == 0 {
    } else {
        assert(forall|i: int| 0 <= i < steps.skip(1).len() ==> step_wf(#[trigger] steps.skip(1)[i]));
        lemma_stream_round_trip(steps.skip(1));
        assert(step_delivered(steps[0]) =~= steps[0].chunk);
    }
}

/// Buffer growth is transparent to the caller: the capacity after a
/// read always fits the whole request, whatever capacity the adapter
/// had before, and it never shrinks. A request larger than the buffer
/// is therefore served in full, exactly as a first read of that size
/// would be.
pub proof fn lemma_growth_serves_request(capacity: int, requested: int)
    ensures
        spec_grown_capacity(capacity, requested) >= requested,
        spec_grown_capacity(capacity, requested) >= capacity,
{
}

/// The streaming adapter around a Java-side stream object: a pinned
/// reference to the stream, a pinned Java byte array reused across
/// reads, and that buffer's capacity. The buffer grows to a request
/// that exceeds it and never shrinks.
pub struct JReaderInputStream {
    internal: jni::objects::GlobalRef,
    buffer: jni::objects::GlobalRef,
    capacity: i32,
}

impl JReaderInputStream {
    /// The capacity of the Java-side buffer, in bytes.
    pub closed spec fn spec_capacity(self) -> int {
        self.capacity as int
    }

    /// Pins the Java-side stream object and allocates the initial
    /// buffer of `DEFAULT_BUF_SIZE` bytes.
    pub fn new<'a, 'b>(
        env: &mut jni::AttachGuard<'a>,
        obj: jni::objects::JObject<'b>,
    ) -> (r: ExtractResult<Self>)
        ensures
            r matches Ok(s) ==> s.spec_capacity() == DEFAULT_BUF_SIZE as int,
            r matches Err(e) ==> is_bridge_error(e),
    {
        let capacity: i32 = 32768;
        let buffer = jni_new_global_byte_array(env, capacity)?;
        let internal = jni_new_global_ref(env, &obj)?;
        Ok(JReaderInputStream { internal, buffer, capacity })
    }

    /// One pull from the Java-side stream into `buf`. The calling
    /// thread is attached first; the shared buffer is grown to exactly
    /// `buf`'s length when that exceeds its capacity; the callee's read
    /// method is invoked for that length at offset zero; its bytes are
    /// copied into `buf`; and the reported length is interpreted by
    /// the counting rule, so end of stream comes back as `Ok(0)`.
    pub fn read(&mut self, vm: &jni::JavaVM, buf: &mut Vec<u8>) -> (r: ExtractResult<usize>)
        requires
            old(buf)@.len() <= i32::MAX as int,
        ensures
            final(buf)@.len() == old(buf)@.len(),
            r matches Ok(n) ==> {
                &&& n <= old(buf)@.len()
                &&& final(self).spec_capacity() == spec_grown_capacity(
                    old(self).spec_capacity(),
                    old(buf)@.len() as int,
                )
            },
            r matches Err(e) ==> is_bridge_error(e),
    {
        let mut env = jni_attach(vm)?;
        let requested = buf.len();
        let length: i32 = requested as i32;
        if length > self.capacity {
            let grown = jni_new_global_byte_array(&mut env, length)?;
            self.buffer = grown;
            self.capacity = length;
        }
        let read_wire = stream_read_wire();
        let reported = jni_call_stream_read(
            &mut env,
            &self.internal,
            &self.buffer,
            length,
            read_wire.method.as_str(),
            read_wire.sig.as_str(),
        )?;
        jni_read_byte_region(&mut env, &self.buffer, buf)?;
        Ok(interpret_read_report(reported, requested))
    }

    /// Closes the Java-side stream. Teardown must not fail, so every
    /// error here is swallowed.
    pub fn close(&self, vm: &jni::JavaVM) {
        match jni_attach(vm) {
            Ok(mut env) => {
                let close_wire = stream_close_wire();
                let _ignored = jni_call_global_void_method(
                    &mut env,
                    &self.internal,
                    close_wire.method.as_str(),
                    close_wire.sig.as_str(),
                );
            }
            Err(_e) => {}
        }
    }
}

} // verus!
