use vstd::prelude::*;
use crate::errors::{Error, ExtractResult};
use crate::wire::SetterArg;
use jni::objects::{JValue, JValueOwned};

verus! {

// ---------------------------------------------------------------------
// Declarations of the jni crate's types that appear in signatures here.
// Verus treats values of these types as opaque handles.
// ---------------------------------------------------------------------

#[verifier::external_type_specification]
#[verifier::external_body]
pub struct ExJObjectRaw(jni::sys::_jobject);

#[verifier::external_type_specification]
#[verifier::external_body]
pub struct ExJavaVM(jni::JavaVM);

#[verifier::external_type_specification]
#[verifier::external_body]
pub struct ExJNIEnv<'local>(jni::JNIEnv<'local>);

#[verifier::external_type_specification]
#[verifier::external_body]
pub struct ExAttachGuard<'local>(jni::AttachGuard<'local>);

#[verifier::external_type_specification]
#[verifier::external_body]
pub struct ExJObject<'local>(jni::objects::JObject<'local>);

#[verifier::external_type_specification]
#[verifier::external_body]
pub struct ExJObjectArray<'local>(jni::objects::JObjectArray<'local>);

#[verifier::external_type_specification]
#[verifier::external_body]
pub struct ExGlobalRef(jni::objects::GlobalRef);

/// What a failed jni call reports back to the verified callers: whether
/// a Java exception is pending on the thread (and must be cleared before
/// any further call), and the failure's message text.
pub struct JniFailure {
    pub java_exception: bool,
    pub message: String,
}

// ---------------------------------------------------------------------
// Trusted wrappers: each one makes a single jni operation available to
// the verified code, converting its arguments and result and nothing
// more.
// ---------------------------------------------------------------------

/// Relies on jni's JavaVM::attach_current_thread: registers the calling
/// thread with the virtual machine (a no-op when already attached) and
/// hands back an environment guard for it.
#[verifier::external_body]
fn raw_attach_current_thread<'a>(vm: &'a jni::JavaVM) -> (r: Result<
    jni::AttachGuard<'a>,
    JniFailure,
>)
{
    let fail = |e: jni::errors::Error| JniFailure {
        java_exception: matches!(e, jni::errors::Error::JavaException),
        message: format!("{}", e),
    };
    vm.attach_current_thread().map_err(fail)
}

/// Relies on jni's JNIEnv::new_object: looks the class up by its JNI
/// name and constructs one instance with the zero-argument constructor.
#[verifier::external_body]
fn raw_new_object<'a>(env: &mut jni::AttachGuard<'a>, class: &str) -> (r: Result<
    jni::objects::JObject<'a>,
    JniFailure,
>)
{
    let fail = |e: jni::errors::Error| JniFailure {
        java_exception: matches!(e, jni::errors::Error::JavaException),
        message: format!("{}", e),
    };
    env.new_object(class, "()V", &[]).map_err(fail)
}

/// Relies on jni's JNIEnv::call_method (and JNIEnv::new_string for text
/// arguments): invokes the named void method on the object with the one
/// given argument.
#[verifier::external_body]
fn raw_call_void_method<'a, 'b>(
    env: &mut jni::AttachGuard<'a>,
    obj: &jni::objects::JObject<'b>,
    method: &str,
    sig: &str,
    arg: &SetterArg,
) -> (r: Result<(), JniFailure>)
{
    let fail = |e: jni::errors::Error| JniFailure {
        java_exception: matches!(e, jni::errors::Error::JavaException),
        message: format!("{}", e),
    };
    let res = match arg {
        SetterArg::Flag(b) => env.call_method(obj, method, sig, &[jni::objects::JValue::from(*b)]),
        SetterArg::Number(n) => env.call_method(obj, method, sig, &[jni::objects::JValue::from(*n)]),
        SetterArg::Text(s) => match env.new_string(s.as_str()) {
            Ok(js) => env.call_method(obj, method, sig, &[jni::objects::JValue::Object(&js)]),
            Err(e) => Err(e),
        },
    };
    res.map(|_| ()).map_err(fail)
}

/// Relies on jni's JNIEnv::call_method and JValueGen::z: invokes the
/// named zero-argument method and reads its boolean result.
#[verifier::external_body]
fn raw_call_bool_method<'a, 'b>(
    env: &mut jni::AttachGuard<'a>,
    obj: &jni::objects::JObject<'b>,
    method: &str,
    sig: &str,
) -> (r: Result<bool, JniFailure>)
{
    let fail = |e: jni::errors::Error| JniFailure {
        java_exception: matches!(e, jni::errors::Error::JavaException),
        message: format!("{}", e),
    };
    let v = env.call_method(obj, method, sig, &[]).map_err(fail)?;
    v.z().map_err(fail)
}

/// Relies on jni's JNIEnv::call_method and JValueGen::b: invokes the
/// named zero-argument method and reads its byte result.
#[verifier::external_body]
fn raw_call_byte_method<'a, 'b>(
    env: &mut jni::AttachGuard<'a>,
    obj: &jni::objects::JObject<'b>,
    method: &str,
    sig: &str,
) -> (r: Result<i8, JniFailure>)
{
    let fail = |e: jni::errors::Error| JniFailure {
        java_exception: matches!(e, jni::errors::Error::JavaException),
        message: format!("{}", e),
    };
    let v = env.call_method(obj, method, sig, &[]).map_err(fail)?;
    v.b().map_err(fail)
}

/// Relies on jni's JNIEnv::call_method and JValueGen::l: invokes the
/// named zero-argument method and reads its object result.
#[verifier::external_body]
fn raw_call_object_method<'a, 'b>(
    env: &mut jni::AttachGuard<'a>,
    obj: &jni::objects::JObject<'b>,
    method: &str,
    sig: &str,
) -> (r: Result<jni::objects::JObject<'a>, JniFailure>)
{
    let fail = |e: jni::errors::Error| JniFailure {
        java_exception: matches!(e, jni::errors::Error::JavaException),
        message: format!("{}", e),
    };
    let v = env.call_method(obj, method, sig, &[]).map_err(fail)?;
    v.l().map_err(fail)
}

/// Relies on jni's JNIEnv::call_static_method, JNIEnv::new_string and
/// JValueGen::l: invokes the named static method with the source text,
/// one further leading argument, the three configuration objects and
/// the XML flag, and reads the returned result object.
#[verifier::external_body]
fn raw_call_parse_static<'a>(
    env: &mut jni::AttachGuard<'a>,
    class: &str,
    method: &str,
    sig: &str,
    source: &str,
    second: &SetterArg,
    pdf: &jni::objects::JObject<'a>,
    office: &jni::objects::JObject<'a>,
    ocr: &jni::objects::JObject<'a>,
    as_xml: bool,
) -> (r: Result<jni::objects::JObject<'a>, JniFailure>)
{
    let fail = |e: jni::errors::Error| JniFailure {
        java_exception: matches!(e, jni::errors::Error::JavaException),
        message: format!("{}", e),
    };
    let src = env.new_string(source).map_err(fail)?;
    let second_owned: JValueOwned = match second {
        SetterArg::Flag(b) => JValueOwned::from(*b),
        SetterArg::Number(n) => JValueOwned::from(*n),
        SetterArg::Text(s) => env.new_string(s.as_str()).map_err(fail)?.into(),
    };
    let args = [(&src).into(), second_owned.borrow(), pdf.into(), office.into(), ocr.into(), JValue::from(as_xml)];
    env.call_static_method(class, method, sig, &args).map_err(fail)?.l().map_err(fail)
}

/// Relies on jni's JNIEnv::call_static_method, JNIEnv::new_string and
/// JValueGen::l: invokes the named static method with the given source
/// object (an already-marshaled callee byte buffer), one further
/// leading argument, the three configuration objects and the XML flag,
/// and reads the returned result object.
#[verifier::external_body]
fn raw_call_parse_bytes_static<'a>(
    env: &mut jni::AttachGuard<'a>,
    class: &str,
    method: &str,
    sig: &str,
    buffer: &jni::objects::JObject<'a>,
    second: &SetterArg,
    pdf: &jni::objects::JObject<'a>,
    office: &jni::objects::JObject<'a>,
    ocr: &jni::objects::JObject<'a>,
    as_xml: bool,
) -> (r: Result<jni::objects::JObject<'a>, JniFailure>)
{
    let fail = |e: jni::errors::Error| JniFailure {
        java_exception: matches!(e, jni::errors::Error::JavaException),
        message: format!("{}", e),
    };
    let second_owned: JValueOwned = match second {
        SetterArg::Flag(b) => JValueOwned::from(*b),
        SetterArg::Number(n) => JValueOwned::from(*n),
        SetterArg::Text(s) => env.new_string(s.as_str()).map_err(fail)?.into(),
    };
    let args = [buffer.into(), second_owned.borrow(), pdf.into(), office.into(), ocr.into(), JValue::from(as_xml)];
    env.call_static_method(class, method, sig, &args).map_err(fail)?.l().map_err(fail)
}

/// Relies on jni's JNIEnv::get_string: reads the Java string object's
/// contents and converts them to a Rust String (invalid sequences are
/// replaced rather than rejected).
#[verifier::external_body]
fn raw_object_to_string<'a, 'b>(
    env: &mut jni::AttachGuard<'a>,
    obj: jni::objects::JObject<'b>,
) -> (r: Result<String, JniFailure>)
{
    let fail = |e: jni::errors::Error| JniFailure {
        java_exception: matches!(e, jni::errors::Error::JavaException),
        message: format!("{}", e),
    };
    let jstr = jni::objects::JString::from(obj);
    let javastr = env.get_string(&jstr).map_err(fail)?;
    Ok(String::from(javastr))
}

/// Relies on jni's From impl between its object and object-array handle
/// types: reinterprets the handle, converting nothing else.
#[verifier::external_body]
fn raw_into_object_array<'a>(obj: jni::objects::JObject<'a>) -> (r: jni::objects::JObjectArray<'a>)
{
    jni::objects::JObjectArray::from(obj)
}

/// Relies on jni's JNIEnv::get_array_length: reads the array's length.
#[verifier::external_body]
fn raw_array_length<'a, 'b>(
    env: &mut jni::AttachGuard<'a>,
    arr: &jni::objects::JObjectArray<'b>,
) -> (r: Result<i32, JniFailure>)
{
    let fail = |e: jni::errors::Error| JniFailure {
        java_exception: matches!(e, jni::errors::Error::JavaException),
        message: format!("{}", e),
    };
    env.get_array_length(arr).map_err(fail)
}

/// Relies on jni's JNIEnv::get_object_array_element: reads the element
/// at the index; an out-of-range index comes back as a failure, not a
/// panic.
#[verifier::external_body]
fn raw_array_element<'a, 'b>(
    env: &mut jni::AttachGuard<'a>,
    arr: &jni::objects::JObjectArray<'b>,
    index: i32,
) -> (r: Result<jni::objects::JObject<'a>, JniFailure>)
{
    let fail = |e: jni::errors::Error| JniFailure {
        java_exception: matches!(e, jni::errors::Error::JavaException),
        message: format!("{}", e),
    };
    env.get_object_array_element(arr, index).map_err(fail)
}

/// Relies on jni's JNIEnv::new_global_ref: turns a local object handle
/// into one that stays valid across calls and threads until dropped.
#[verifier::external_body]
fn raw_new_global_ref<'a, 'b>(
    env: &mut jni::AttachGuard<'a>,
    obj: &jni::objects::JObject<'b>,
) -> (r: Result<jni::objects::GlobalRef, JniFailure>)
{
    let fail = |e: jni::errors::Error| JniFailure {
        java_exception: matches!(e, jni::errors::Error::JavaException),
        message: format!("{}", e),
    };
    env.new_global_ref(obj).map_err(fail)
}

/// Relies on jni's JNIEnv::new_byte_array and JNIEnv::new_global_ref:
/// allocates a Java byte array of the given length and pins it with a
/// global reference.
#[verifier::external_body]
fn raw_new_global_byte_array<'a>(env: &mut jni::AttachGuard<'a>, length: i32) -> (r: Result<
    jni::objects::GlobalRef,
    JniFailure,
>)
{
    let fail = |e: jni::errors::Error| JniFailure {
        java_exception: matches!(e, jni::errors::Error::JavaException),
        message: format!("{}", e),
    };
    let arr = env.new_byte_array(length).map_err(fail)?;
    env.new_global_ref(&arr).map_err(fail)
}

/// Relies on jni's JNIEnv::call_method and JValueGen::i: invokes the
/// named method on the pinned stream object, passing the pinned byte
/// array, offset zero and the length, and reads the int result.
#[verifier::external_body]
fn raw_call_stream_read<'a>(
    env: &mut jni::AttachGuard<'a>,
    stream: &jni::objects::GlobalRef,
    buffer: &jni::objects::GlobalRef,
    length: i32,
    method: &str,
    sig: &str,
) -> (r: Result<i32, JniFailure>)
{
    let fail = |e: jni::errors::Error| JniFailure {
        java_exception: matches!(e, jni::errors::Error::JavaException),
        message: format!("{}", e),
    };
    let args = [
        jni::objects::JValue::Object(buffer.as_obj()),
        jni::objects::JValue::Int(0),
        jni::objects::JValue::Int(length),
    ];
    let v = env.call_method(stream.as_obj(), method, sig, &args).map_err(fail)?;
    v.i().map_err(fail)
}

/// Relies on jni's JNIEnv::get_byte_array_region (via a local reference)
/// and bytemuck's cast_slice_mut: copies the first out.len() bytes of
/// the pinned Java byte array into out, changing its length never.
#[verifier::external_body]
fn raw_read_byte_region<'a>(
    env: &mut jni::AttachGuard<'a>,
    buffer: &jni::objects::GlobalRef,
    out: &mut Vec<u8>,
) -> (r: Result<(), JniFailure>)
    ensures
        final(out)@.len() == old(out)@.len(),
{
    let fail = |e: jni::errors::Error| JniFailure {
        java_exception: matches!(e, jni::errors::Error::JavaException),
        message: format!("{}", e),
    };
    let local = env.new_local_ref(buffer.as_obj()).map_err(fail)?;
    let arr = jni::objects::JByteArray::from(local);
    let slice: &mut [i8] = bytemuck::cast_slice_mut(out.as_mut_slice());
    env.get_byte_array_region(&arr, 0, slice).map_err(fail)
}

/// Relies on jni's JNIEnv::call_method: invokes the named zero-argument
/// void method on the pinned object.
#[verifier::external_body]
fn raw_call_global_void_method<'a>(
    env: &mut jni::AttachGuard<'a>,
    obj: &jni::objects::GlobalRef,
    method: &str,
    sig: &str,
) -> (r: Result<(), JniFailure>)
{
    let fail = |e: jni::errors::Error| JniFailure {
        java_exception: matches!(e, jni::errors::Error::JavaException),
        message: format!("{}", e),
    };
    env.call_method(obj.as_obj(), method, sig, &[]).map(|_| ()).map_err(fail)
}

/// Relies on jni's exception_check, exception_describe and
/// exception_clear: if a Java exception is pending on this thread,
/// describes it to stderr and clears it, so that later calls on the
/// thread start from a clean state. Returns whether one was pending.
#[verifier::external_body]
pub fn jni_check_exception<'a>(env: &mut jni::AttachGuard<'a>) -> (r: bool)
{
    match env.exception_check() {
        Ok(true) => {
            let _ = env.exception_describe();
            let _ = env.exception_clear();
            true
        }
        _ => false,
    }
}

// ---------------------------------------------------------------------
// Verified dispatch layer: every jni failure is absorbed here, clearing
// a pending Java exception before anything else runs on the thread and
// mapping the failure into the crate's error type.
// ---------------------------------------------------------------------

/// Clears any Java exception the failed call left pending, then carries
/// its message as a bridge error. A foreign exception must never leak:
/// it is described and cleared at the point of failure.
fn absorb_failure<'a>(env: &mut jni::AttachGuard<'a>, f: JniFailure) -> (r: Error)
    ensures
        r == Error::JniError(f.message),
{
    if f.java_exception {
        let _cleared = jni_check_exception(env);
    }
    Error::JniError(f.message)
}

/// Attaches the calling thread to the virtual machine. Attaching an
/// already-attached thread is a no-op, so this runs at the top of every
/// entry point.
pub fn jni_attach<'a>(vm: &'a jni::JavaVM) -> (r: ExtractResult<jni::AttachGuard<'a>>)
    ensures
        r matches Err(e) ==> e matches Error::JniError(_),
{
    match raw_attach_current_thread(vm) {
        Ok(env) => Ok(env),
        Err(f) => Err(Error::JniError(f.message)),
    }
}

/// Constructs one Java object of the named class with its zero-argument
/// constructor.
pub fn jni_new_object<'a>(env: &mut jni::AttachGuard<'a>, class: &str) -> (r: ExtractResult<
    jni::objects::JObject<'a>,
>)
    ensures
        r matches Err(e) ==> e matches Error::JniError(_),
{
    match raw_new_object(env, class) {
        Ok(obj) => Ok(obj),
        Err(f) => Err(absorb_failure(env, f)),
    }
}

/// Calls a void method on an object, clearing any thrown exception.
pub fn jni_call_void_method<'a, 'b>(
    env: &mut jni::AttachGuard<'a>,
    obj: &jni::objects::JObject<'b>,
    method: &str,
    sig: &str,
    arg: &SetterArg,
) -> (r: ExtractResult<()>)
    ensures
        r matches Err(e) ==> e matches Error::JniError(_),
{
    match raw_call_void_method(env, obj, method, sig, arg) {
        Ok(u) => Ok(u),
        Err(f) => Err(absorb_failure(env, f)),
    }
}

/// Calls a zero-argument boolean method, clearing any thrown exception.
pub fn jni_call_bool_method<'a, 'b>(
    env: &mut jni::AttachGuard<'a>,
    obj: &jni::objects::JObject<'b>,
    method: &str,
    sig: &str,
) -> (r: ExtractResult<bool>)
    ensures
        r matches Err(e) ==> e matches Error::JniError(_),
{
    match raw_call_bool_method(env, obj, method, sig) {
        Ok(b) => Ok(b),
        Err(f) => Err(absorb_failure(env, f)),
    }
}

/// Calls a zero-argument byte method, clearing any thrown exception.
pub fn jni_call_byte_method<'a, 'b>(
    env: &mut jni::AttachGuard<'a>,
    obj: &jni::objects::JObject<'b>,
    method: &str,
    sig: &str,
) -> (r: ExtractResult<i8>)
    ensures
        r matches Err(e) ==> e matches Error::JniError(_),
{
    match raw_call_byte_method(env, obj, method, sig) {
        Ok(b) => Ok(b),
        Err(f) => Err(absorb_failure(env, f)),
    }
}

/// Calls a zero-argument object-returning method, clearing any thrown
/// exception.
pub fn jni_call_object_method<'a, 'b>(
    env: &mut jni::AttachGuard<'a>,
    obj: &jni::objects::JObject<'b>,
    method: &str,
    sig: &str,
) -> (r: ExtractResult<jni::objects::JObject<'a>>)
    ensures
        r matches Err(e) ==> e matches Error::JniError(_),
{
    match raw_call_object_method(env, obj, method, sig) {
        Ok(o) => Ok(o),
        Err(f) => Err(absorb_failure(env, f)),
    }
}

/// Calls one of the static parse entry points, clearing any thrown
/// exception.
pub fn jni_call_parse_static<'a>(
    env: &mut jni::AttachGuard<'a>,
    class: &str,
    method: &str,
    sig: &str,
    source: &str,
    second: &SetterArg,
    pdf: &jni::objects::JObject<'a>,
    office: &jni::objects::JObject<'a>,
    ocr: &jni::objects::JObject<'a>,
    as_xml: bool,
) -> (r: ExtractResult<jni::objects::JObject<'a>>)
    ensures
        r matches Err(e) ==> e matches Error::JniError(_),
{
    match raw_call_parse_static(env, class, method, sig, source, second, pdf, office, ocr, as_xml) {
        Ok(o) => Ok(o),
        Err(f) => Err(absorb_failure(env, f)),
    }
}

/// Calls one of the static byte-buffer parse entry points, clearing any
/// thrown exception.
pub fn jni_call_parse_bytes_static<'a>(
    env: &mut jni::AttachGuard<'a>,
    class: &str,
    method: &str,
    sig: &str,
    buffer: &jni::objects::JObject<'a>,
    second: &SetterArg,
    pdf: &jni::objects::JObject<'a>,
    office: &jni::objects::JObject<'a>,
    ocr: &jni::objects::JObject<'a>,
    as_xml: bool,
) -> (r: ExtractResult<jni::objects::JObject<'a>>)
    ensures
        r matches Err(e) ==> e matches Error::JniError(_),
{
    match raw_call_parse_bytes_static(env, class, method, sig, buffer, second, pdf, office, ocr,
        as_xml) {
        Ok(o) => Ok(o),
        Err(f) => Err(absorb_failure(env, f)),
    }
}

/// Converts a Java string object to a Rust String.
pub fn jni_jobject_to_string<'a, 'b>(
    env: &mut jni::AttachGuard<'a>,
    obj: jni::objects::JObject<'b>,
) -> (r: ExtractResult<String>)
    ensures
        r matches Err(e) ==> e matches Error::JniError(_),
{
    match raw_object_to_string(env, obj) {
        Ok(s) => Ok(s),
        Err(f) => Err(absorb_failure(env, f)),
    }
}

/// Converts a Java String[] object to a Rust Vec<String>, element by
/// element, in array order.
pub fn jni_jobject_array_to_vec<'a, 'b>(
    env: &mut jni::AttachGuard<'a>,
    array: jni::objects::JObject<'b>,
) -> (r: ExtractResult<Vec<String>>)
    ensures
        r matches Err(e) ==> e matches Error::JniError(_),
{
    let arr = raw_into_object_array(array);
    let length = match raw_array_length(env, &arr) {
        Ok(n) => n,
        Err(f) => {
            return Err(absorb_failure(env, f));
        }
    };
    let mut items: Vec<String> = Vec::new();
    let mut i: i32 = 0;
    while i < length
        decreases length - i,
    {
        let elem = match raw_array_element(env, &arr, i) {
            Ok(o) => o,
            Err(f) => {
                return Err(absorb_failure(env, f));
            }
        };
        let s = jni_jobject_to_string(env, elem)?;
        items.push(s);
        i = i + 1;
    }
    Ok(items)
}

/// Pins an object with a global reference.
pub fn jni_new_global_ref<'a, 'b>(
    env: &mut jni::AttachGuard<'a>,
    obj: &jni::objects::JObject<'b>,
) -> (r: ExtractResult<jni::objects::GlobalRef>)
    ensures
        r matches Err(e) ==> (e matches Error::JniEnvCall(m)
            && m@ == "Failed to create global reference"@),
{
    match raw_new_global_ref(env, obj) {
        Ok(g) => Ok(g),
        Err(f) => {
            if f.java_exception {
                let _cleared = jni_check_exception(env);
            }
            Err(Error::JniEnvCall("Failed to create global reference".to_owned()))
        }
    }
}

/// Allocates a pinned Java byte array of the given length.
pub fn jni_new_global_byte_array<'a>(env: &mut jni::AttachGuard<'a>, length: i32) -> (r:
    ExtractResult<jni::objects::GlobalRef>)
    ensures
        r matches Err(e) ==> (e matches Error::JniEnvCall(m)
            && m@ == "Failed to create byte array"@),
{
    match raw_new_global_byte_array(env, length) {
        Ok(g) => Ok(g),
        Err(f) => {
            if f.java_exception {
                let _cleared = jni_check_exception(env);
            }
            Err(Error::JniEnvCall("Failed to create byte array".to_owned()))
        }
    }
}

/// Calls the pinned stream's read method with the pinned buffer, offset
/// zero and the length, clearing any thrown exception.
pub fn jni_call_stream_read<'a>(
    env: &mut jni::AttachGuard<'a>,
    stream: &jni::objects::GlobalRef,
    buffer: &jni::objects::GlobalRef,
    length: i32,
    method: &str,
    sig: &str,
) -> (r: ExtractResult<i32>)
    ensures
        r matches Err(e) ==> e matches Error::JniError(_),
{
    match raw_call_stream_read(env, stream, buffer, length, method, sig) {
        Ok(n) => Ok(n),
        Err(f) => Err(absorb_failure(env, f)),
    }
}

/// Copies the first out.len() bytes of the pinned Java byte array into
/// out.
pub fn jni_read_byte_region<'a>(
    env: &mut jni::AttachGuard<'a>,
    buffer: &jni::objects::GlobalRef,
    out: &mut Vec<u8>,
) -> (r: ExtractResult<()>)
    ensures
        final(out)@.len() == old(out)@.len(),
        r matches Err(e) ==> (e matches Error::JniEnvCall(m)
            && m@ == "Failed to get byte array region"@),
{
    match raw_read_byte_region(env, buffer, out) {
        Ok(u) => Ok(u),
        Err(f) => {
            if f.java_exception {
                let _cleared = jni_check_exception(env);
            }
            Err(Error::JniEnvCall("Failed to get byte array region".to_owned()))
        }
    }
}

/// Calls a zero-argument void method on a pinned object, clearing any
/// thrown exception.
pub fn jni_call_global_void_method<'a>(
    env: &mut jni::AttachGuard<'a>,
    obj: &jni::objects::GlobalRef,
    method: &str,
    sig: &str,
) -> (r: ExtractResult<()>)
    ensures
        r matches Err(e) ==> e matches Error::JniError(_),
{
    match raw_call_global_void_method(env, obj, method, sig) {
        Ok(u) => Ok(u),
        Err(f) => Err(absorb_failure(env, f)),
    }
}

} // verus!
