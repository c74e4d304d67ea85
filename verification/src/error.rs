//! Error taxonomy of the wrapper, and the classification of native failures
//! into fatal and transient ones.

use vstd::prelude::*;
use vstd::string::StringExecFns;
use vstd::utf8::encode_utf8;

verus! {

/// Everything that can go wrong while initializing, configuring, driving or
/// tearing down the native engine.
///
/// Variants that carry a `String` hold the message reported by the native
/// side or a description of the condition the wrapper detected.
#[derive(Debug, Clone, PartialEq, Eq)]
pub enum NuitrackError {
    /// A call into the native engine threw or returned failure; carries the
    /// native message.
    NativeCallFailed(String),
    /// The runtime guard is already held by this process.
    AlreadyInitialized,
    /// Native initialization, or applying a configuration override right
    /// after it, failed.
    InitFailed(String),
    /// Device enumeration or selection failed, including an ambiguous
    /// default and a selector that matched nothing.
    DeviceError(String),
    /// A native module factory call failed.
    ModuleCreationFailed(String),
    /// No device is connected.
    NoDeviceFound,
    /// A wrapper-internal condition: duplicate stream registration, a null
    /// native payload, a failed dispatch of a blocking call.
    OperationFailed(String),
}

/// True when the byte sequence `needle` occurs in `hay` starting at `i`.
pub open spec fn bytes_match_at(hay: Seq<u8>, needle: Seq<u8>, i: int) -> bool {
    0 <= i && i + needle.len() <= hay.len() && hay.subrange(i, i + needle.len()) =~= needle
}

/// True when the byte sequence `needle` occurs somewhere in `hay`.
pub open spec fn contains_bytes(hay: Seq<u8>, needle: Seq<u8>) -> bool {
    exists|i: int| bytes_match_at(hay, needle, i)
}

/// The marker the native engine puts into the message of a failure that no
/// retry can cure: the tracking license was lost.
pub open spec fn fatal_marker_bytes() -> Seq<u8> {
    encode_utf8("LicenseNotAcquired"@)
}

/// A native failure is fatal exactly when its message contains the license
/// marker; every other error is transient for the update loop.
pub open spec fn is_fatal_spec(e: NuitrackError) -> bool {
    &&& e matches NuitrackError::NativeCallFailed(m)
    &&& contains_bytes(encode_utf8(m@), fatal_marker_bytes())
}

impl NuitrackError {
    /// A human-readable description: the variant's context followed by the
    /// carried message, if any.
    pub fn message(&self) -> (r: String)
        ensures
            r@ == self.message_spec(),
    {
        match self {
            NuitrackError::NativeCallFailed(m) => {
                "Nuitrack native call failed: ".to_owned().concat(m.as_str())
            },
            NuitrackError::AlreadyInitialized => {
                "Nuitrack already initialized by this wrapper.".to_owned()
            },
            NuitrackError::InitFailed(m) => {
                "Nuitrack initialization failed: ".to_owned().concat(m.as_str())
            },
            NuitrackError::DeviceError(m) => {
                "Nuitrack device error: ".to_owned().concat(m.as_str())
            },
            NuitrackError::ModuleCreationFailed(m) => {
                "Nuitrack module creation failed: ".to_owned().concat(m.as_str())
            },
            NuitrackError::NoDeviceFound => "No Nuitrack device found".to_owned(),
            NuitrackError::OperationFailed(m) => {
                "Nuitrack operation failed: ".to_owned().concat(m.as_str())
            },
        }
    }

    /// What `message` returns, variant by variant.
    pub open spec fn message_spec(&self) -> Seq<char> {
        match self {
            NuitrackError::NativeCallFailed(m) => "Nuitrack native call failed: "@ + m@,
            NuitrackError::AlreadyInitialized => "Nuitrack already initialized by this wrapper."@,
            NuitrackError::InitFailed(m) => "Nuitrack initialization failed: "@ + m@,
            NuitrackError::DeviceError(m) => "Nuitrack device error: "@ + m@,
            NuitrackError::ModuleCreationFailed(m) => "Nuitrack module creation failed: "@ + m@,
            NuitrackError::NoDeviceFound => "No Nuitrack device found"@,
            NuitrackError::OperationFailed(m) => "Nuitrack operation failed: "@ + m@,
        }
    }
}

/// Whether `needle` occurs in `hay` at position `i`.
fn slice_matches_at(hay: &[u8], needle: &[u8], i: usize) -> (r: bool)
    requires
        i + needle.len() <= hay.len(),
    ensures
        r == bytes_match_at(hay@, needle@, i as int),
{
    let mut j: usize = 0;
    while j < needle.len()
        invariant
            i + needle.len() <= hay.len(),
            j <= needle.len(),
            forall|t: int| 0 <= t < j ==> hay@[i + t] == needle@[t],
        decreases needle.len() - j,
    {
        if hay[i + j] != needle[j] {
            assert(hay@.subrange(i as int, i + needle.len())[j as int] != needle@[j as int]);
            return false;
        }
        j += 1;
    }
    assert(hay@.subrange(i as int, i + needle.len()) =~= needle@);
    true
}

/// Whether `needle` occurs anywhere in `hay`.
fn slice_contains(hay: &[u8], needle: &[u8]) -> (r: bool)
    ensures
        r == contains_bytes(hay@, needle@),
{
    if needle.len() > hay.len() {
        assert(forall|i: int| !bytes_match_at(hay@, needle@, i));
        return false;
    }
    let last = hay.len() - needle.len();
    let mut i: usize = 0;
    while i <= last
        invariant
            needle.len() <= hay.len(),
            last == hay.len() - needle.len(),
            i <= last + 1,
            forall|k: int| 0 <= k < i ==> !bytes_match_at(hay@, needle@, k),
        decreases last + 1 - i,
    {
        if slice_matches_at(hay, needle, i) {
            assert(bytes_match_at(hay@, needle@, i as int));
            return true;
        }
        i += 1;
    }
    assert(forall|k: int| !bytes_match_at(hay@, needle@, k));
    false
}

/// Classifies an error for the update loop: `true` exactly when the error is
/// a native failure whose message names the lost-license condition, which no
/// amount of retrying can cure.
pub fn is_fatal_error(e: &NuitrackError) -> (r: bool)
    ensures
        r == is_fatal_spec(*e),
{
    match e {
        NuitrackError::NativeCallFailed(m) => {
            slice_contains(m.as_str().as_bytes(), "LicenseNotAcquired".as_bytes())
        },
        _ => false,
    }
}

} // verus!
