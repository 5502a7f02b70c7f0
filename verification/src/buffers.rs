//! Binary buffers, their transport encoding, and byte ranges in them.
//!
//! A buffer arrives as a data URI that holds base64 text. Once decoded, a
//! table of buffers hands out the bytes of a buffer view, and never bytes
//! that lie outside the buffer that the view names.

use base64::prelude::BASE64_STANDARD;
use base64::{DecodeError, Engine};
use crate::gltf_object::record::Record;
use vstd::prelude::*;
use vstd::slice::{slice_subrange, slice_to_vec};
use vstd::utf8::encode_utf8;

verus! {

/// What a data URI of a buffer starts with.
pub const BASE64_MARKER: &'static str = "data:application/octet-stream;base64,";

/// The error for a URI that does not start with the marker.
pub const ERR_NOT_BASE64: &'static str =
    "invalid buffer view encoding: expected RFC2397 encoded application/octet-stream;base64";

/// The error for a symbol that is not in the alphabet.
pub const ERR_INVALID_BYTE: &'static str = "base64 decoding error: DecodeError::InvalidByte";

/// The error for an input whose count of symbols fits no whole number of bytes.
pub const ERR_INVALID_LENGTH: &'static str = "base64 decoding error: DecodeError::InvalidLength";

/// The error for a last symbol that holds bits which would be dropped.
pub const ERR_INVALID_LAST_SYMBOL: &'static str =
    "base64 decoding error: DecodeError::InvalidLastSymbol";

/// The error for padding that is missing or wrong.
pub const ERR_INVALID_PADDING: &'static str = "base64 decoding error: DecodeError::InvalidPadding";

/// The error for a payload that does not decode to as many bytes as the
/// buffer declares.
pub const ERR_LENGTH_MISMATCH: &'static str =
    "base64 decoding error: decoded length differs from byteLength";

/// The error for a buffer view that names a buffer which the table lacks.
pub const ERR_MISSING_BUFFER: &'static str = "No such buffer";

/// The error for a buffer view that reaches past the end of its buffer.
pub const ERR_OUT_OF_RANGE: &'static str = "not enough bytes";

/// The code of a buffer view that holds vertex attributes.
pub const ARRAY_BUFFER: usize = 34962;

/// The code of a buffer view that holds vertex indices.
pub const ELEMENT_ARRAY_BUFFER: usize = 34963;

/// Why base64 text could not be decoded, with the offset and the symbol, or
/// the length, where the decoder reports them.
#[derive(Clone, Copy, Debug)]
pub enum DecodeFailure {
    InvalidByte(usize, u8),
    InvalidLength(usize),
    InvalidLastSymbol(usize, u8),
    InvalidPadding,
}

impl DecodeFailure {
    /// The error that stands for this failure.
    pub open spec fn message(self) -> &'static str {
        match self {
            DecodeFailure::InvalidByte(_, _) => ERR_INVALID_BYTE,
            DecodeFailure::InvalidLength(_) => ERR_INVALID_LENGTH,
            DecodeFailure::InvalidLastSymbol(_, _) => ERR_INVALID_LAST_SYMBOL,
            DecodeFailure::InvalidPadding => ERR_INVALID_PADDING,
        }
    }

    pub fn describe(&self) -> (res: &'static str)
        ensures
            res == self.message(),
    {
        match self {
            DecodeFailure::InvalidByte(_, _) => ERR_INVALID_BYTE,
            DecodeFailure::InvalidLength(_) => ERR_INVALID_LENGTH,
            DecodeFailure::InvalidLastSymbol(_, _) => ERR_INVALID_LAST_SYMBOL,
            DecodeFailure::InvalidPadding => ERR_INVALID_PADDING,
        }
    }
}

/// What the base64 crate's standard engine (standard alphabet, canonical
/// padding required) makes of `input`: the decoded bytes, or the reason why
/// there are none.
pub uninterp spec fn base64_decoding(input: Seq<u8>) -> Result<Seq<u8>, DecodeFailure>;

/// Calls `Engine::decode` on `BASE64_STANDARD`. Trusted: the outcome is the
/// one that `base64_decoding` names for these input bytes, with the variant
/// and the fields of the crate's `DecodeError` carried over one for one.
#[verifier::external_body]
fn decode_standard(input: &[u8]) -> (res: Result<Vec<u8>, DecodeFailure>)
    ensures
        match res {
            Ok(bytes) => base64_decoding(input@) == Ok::<Seq<u8>, DecodeFailure>(bytes@),
            Err(failure) => base64_decoding(input@) == Err::<Seq<u8>, DecodeFailure>(failure),
        },
{
    match BASE64_STANDARD.decode(input) {
        Ok(bytes) => Ok(bytes),
        Err(DecodeError::InvalidByte(at, byte)) => Err(DecodeFailure::InvalidByte(at, byte)),
        Err(DecodeError::InvalidLength(len)) => Err(DecodeFailure::InvalidLength(len)),
        Err(DecodeError::InvalidLastSymbol(at, byte)) => Err(
            DecodeFailure::InvalidLastSymbol(at, byte),
        ),
        Err(DecodeError::InvalidPadding) => Err(DecodeFailure::InvalidPadding),
    }
}

/// The bytes of `text` behind `marker`, where `text` starts with `marker`.
pub open spec fn stripped(text: Seq<u8>, marker: Seq<u8>) -> Option<Seq<u8>> {
    if marker.is_prefix_of(text) {
        Some(text.skip(marker.len() as int))
    } else {
        None
    }
}

/// Removes `marker` from the front of `text`.
pub fn strip_prefix<'a>(text: &'a [u8], marker: &[u8]) -> (res: Option<&'a [u8]>)
    ensures
        match res {
            Some(rest) => stripped(text@, marker@) == Some(rest@),
            None => stripped(text@, marker@) is None,
        },
{
    if text.len() < marker.len() {
        return None;
    }
    let mut i: usize = 0;
    while i < marker.len()
        invariant
            i <= marker.len() <= text.len(),
            forall|j: int| 0 <= j < i ==> text@[j] == marker@[j],
        decreases marker.len() - i,
    {
        if text[i] != marker[i] {
            proof {
                assert(text@.subrange(0, marker@.len() as int)[i as int] == text@[i as int]);
            }
            return None;
        }
        i = i + 1;
    }
    proof {
        assert(text@.subrange(0, marker@.len() as int) =~= marker@);
    }
    Some(slice_subrange(text, marker.len(), text.len()))
}

/// A buffer as a document holds it: a data URI with base64 text, and the
/// number of bytes that it says the text decodes to.
#[derive(Debug)]
pub struct GltfBase64Buffer {
    pub byte_length: usize,
    pub uri: String,
    pub original_index: Option<usize>,
}

/// A buffer of bytes.
#[derive(Debug)]
pub struct GltfBinaryBuffer {
    pub byte_length: usize,
    pub bytes: Vec<u8>,
    pub original_index: Option<usize>,
}

/// What a buffer view is meant for. Two codes are valid.
#[derive(Clone, Copy, Debug, PartialEq, Eq, Structural)]
pub struct BufferViewTarget(usize);

/// A range of bytes in one buffer.
#[derive(Debug)]
pub struct GltfBufferView {
    pub buffer: usize,
    pub byte_length: usize,
    pub byte_offset: usize,
    pub target: Option<BufferViewTarget>,
    pub original_index: Option<usize>,
}

/// The decoded buffers of a scene, in order.
#[derive(Debug)]
pub struct GltfBinaryBuffers(pub Vec<GltfBinaryBuffer>);

/// The encoded buffers of a document, in order.
#[derive(Debug)]
pub struct GltfBuffers(pub Vec<GltfBase64Buffer>);

impl BufferViewTarget {
    /// The code that the target holds.
    pub closed spec fn code_of(&self) -> usize {
        self.0
    }

    /// A target with the given code, valid or not.
    pub fn new(code: usize) -> (res: Self)
        ensures
            res.code_of() == code,
    {
        BufferViewTarget(code)
    }

    /// The target of vertex attributes.
    pub fn array_buffer() -> (res: Self)
        ensures
            res.code_of() == ARRAY_BUFFER,
    {
        BufferViewTarget(ARRAY_BUFFER)
    }

    /// The target of vertex indices.
    pub fn element_array_buffer() -> (res: Self)
        ensures
            res.code_of() == ELEMENT_ARRAY_BUFFER,
    {
        BufferViewTarget(ELEMENT_ARRAY_BUFFER)
    }

    pub fn code(&self) -> (res: usize)
        ensures
            res == self.code_of(),
    {
        self.0
    }

    /// Whether the code is one of the two that the schema knows.
    pub fn is_valid(&self) -> (res: bool)
        ensures
            res == (self.code_of() == ARRAY_BUFFER || self.code_of() == ELEMENT_ARRAY_BUFFER),
    {
        let v = self.0;
        v == ARRAY_BUFFER || v == ELEMENT_ARRAY_BUFFER
    }
}

impl GltfBufferView {
    /// Whether the range of the view lies within `length` bytes.
    pub open spec fn fits(&self, length: nat) -> bool {
        self.byte_offset + self.byte_length <= length
    }

    /// The bytes of the view in `bytes`.
    pub open spec fn slice_of(&self, bytes: Seq<u8>) -> Seq<u8> {
        bytes.subrange(self.byte_offset as int, self.byte_offset + self.byte_length)
    }

    /// A view equal to this one.
    pub fn duplicate(&self) -> (res: GltfBufferView)
        ensures
            res == *self,
    {
        GltfBufferView {
            buffer: self.buffer,
            byte_length: self.byte_length,
            byte_offset: self.byte_offset,
            target: self.target,
            original_index: self.original_index,
        }
    }
}

impl Record for GltfBufferView {
    /// The buffer that the view is a range of.
    open spec fn first_link(&self) -> Option<usize> {
        Some(self.buffer)
    }

    open spec fn second_link(&self) -> Option<usize> {
        None
    }

    open spec fn source_index(&self) -> Option<usize> {
        self.original_index
    }

    open spec fn same_payload(&self, source: &Self) -> bool {
        &&& self.byte_length == source.byte_length
        &&& self.byte_offset == source.byte_offset
        &&& self.target == source.target
    }

    fn links(&self) -> (res: (Option<usize>, Option<usize>)) {
        (Some(self.buffer), None)
    }

    fn extract(&self, source_index: usize, first: Option<usize>, second: Option<usize>) -> (res:
        Self) {
        GltfBufferView {
            buffer: match first {
                Some(buffer) => buffer,
                None => self.buffer,
            },
            byte_length: self.byte_length,
            byte_offset: self.byte_offset,
            target: self.target,
            original_index: Some(source_index),
        }
    }
}

impl Clone for GltfBufferView {
    fn clone(&self) -> (res: Self)
        ensures
            res == *self,
    {
        self.duplicate()
    }
}

impl GltfBinaryBuffer {
    /// The declared length is the length of the payload.
    pub open spec fn wf(&self) -> bool {
        self.byte_length == self.bytes@.len()
    }

    /// What becomes of the outcome of decoding the payload of a buffer that
    /// declares `byte_length` bytes.
    pub open spec fn decoded_as(
        byte_length: usize,
        decoded: Result<Seq<u8>, DecodeFailure>,
    ) -> Result<Seq<u8>, &'static str> {
        match decoded {
            Err(failure) => Err(failure.message()),
            Ok(bytes) => if bytes.len() == byte_length {
                Ok(bytes)
            } else {
                Err(ERR_LENGTH_MISMATCH)
            },
        }
    }

    /// Whether this buffer holds `bytes` under the given tag, and is well
    /// formed.
    pub open spec fn holds(&self, bytes: Seq<u8>, original_index: Option<usize>) -> bool {
        &&& self.bytes@ == bytes
        &&& self.byte_length == bytes.len()
        &&& self.original_index == original_index
    }

    /// Makes a buffer of the outcome of decoding: the failure becomes its
    /// message, and bytes are accepted where there are as many as declared.
    pub fn from_decoded(
        byte_length: usize,
        original_index: Option<usize>,
        decoded: Result<Vec<u8>, DecodeFailure>,
    ) -> (res: Result<GltfBinaryBuffer, &'static str>)
        ensures
            match res {
                Ok(buffer) => decoded matches Ok(bytes) && bytes@.len() == byte_length
                    && buffer.holds(bytes@, original_index),
                Err(message) => match decoded {
                    Ok(bytes) => bytes@.len() != byte_length && message == ERR_LENGTH_MISMATCH,
                    Err(failure) => message == failure.message(),
                },
            },
    {
        match decoded {
            Err(failure) => Err(failure.describe()),
            Ok(bytes) => {
                if bytes.len() != byte_length {
                    Err(ERR_LENGTH_MISMATCH)
                } else {
                    Ok(GltfBinaryBuffer { byte_length, bytes, original_index })
                }
            },
        }
    }

    /// Decodes an encoded buffer that is borrowed.
    pub fn decode(encoded: &GltfBase64Buffer) -> (res: Result<GltfBinaryBuffer, &'static str>)
        ensures
            match res {
                Ok(buffer) => encoded.decoded() matches Ok(bytes) && buffer.holds(
                    bytes,
                    encoded.original_index,
                ),
                Err(message) => encoded.decoded() == Err::<Seq<u8>, &'static str>(message),
            },
    {
        let payload = match strip_prefix(encoded.uri.as_str().as_bytes(), BASE64_MARKER.as_bytes()) {
            Some(payload) => payload,
            None => {
                return Err(ERR_NOT_BASE64);
            },
        };
        GltfBinaryBuffer::from_decoded(
            encoded.byte_length,
            encoded.original_index,
            decode_standard(payload),
        )
    }

    /// Decodes an encoded buffer.
    pub fn from_base64(b64_encoded: GltfBase64Buffer) -> (res: Result<
        GltfBinaryBuffer,
        &'static str,
    >)
        ensures
            match res {
                Ok(buffer) => b64_encoded.decoded() matches Ok(bytes) && buffer.holds(
                    bytes,
                    b64_encoded.original_index,
                ),
                Err(message) => b64_encoded.decoded() == Err::<Seq<u8>, &'static str>(message),
            },
    {
        GltfBinaryBuffer::decode(&b64_encoded)
    }

    /// A buffer with the same bytes, tagged with `original_index`.
    pub fn duplicate(&self, original_index: Option<usize>) -> (res: GltfBinaryBuffer)
        ensures
            res.bytes@ == self.bytes@,
            res.byte_length == self.byte_length,
            res.original_index == original_index,
    {
        GltfBinaryBuffer {
            byte_length: self.byte_length,
            bytes: self.bytes.clone(),
            original_index,
        }
    }
}

impl Clone for GltfBinaryBuffer {
    fn clone(&self) -> (res: Self)
        ensures
            res.bytes@ == self.bytes@,
            res.byte_length == self.byte_length,
            res.original_index == self.original_index,
    {
        self.duplicate(self.original_index)
    }
}

impl GltfBase64Buffer {
    /// The bytes of the URI behind the marker, where it starts with the
    /// marker.
    pub open spec fn payload(&self) -> Option<Seq<u8>> {
        stripped(encode_utf8(self.uri@), encode_utf8(BASE64_MARKER@))
    }

    /// What the URI decodes to, without regard to the declared length.
    pub open spec fn raw(&self) -> Result<Seq<u8>, &'static str> {
        match self.payload() {
            None => Err(ERR_NOT_BASE64),
            Some(payload) => match base64_decoding(payload) {
                Ok(bytes) => Ok(bytes),
                Err(failure) => Err(failure.message()),
            },
        }
    }

    /// What the buffer decodes to: the bytes of its payload, where the URI
    /// starts with the marker, the payload is base64 text and there are as
    /// many bytes as the buffer declares.
    pub open spec fn decoded(&self) -> Result<Seq<u8>, &'static str> {
        match self.payload() {
            None => Err(ERR_NOT_BASE64),
            Some(payload) => GltfBinaryBuffer::decoded_as(
                self.byte_length,
                base64_decoding(payload),
            ),
        }
    }

    /// The bytes that the URI encodes.
    pub fn bytes(&self) -> (res: Result<Vec<u8>, &'static str>)
        ensures
            match res {
                Ok(bytes) => self.raw() == Ok::<Seq<u8>, &'static str>(bytes@),
                Err(message) => self.raw() == Err::<Seq<u8>, &'static str>(message),
            },
    {
        match strip_prefix(self.uri.as_str().as_bytes(), BASE64_MARKER.as_bytes()) {
            None => Err(ERR_NOT_BASE64),
            Some(payload) => match decode_standard(payload) {
                Ok(bytes) => Ok(bytes),
                Err(failure) => Err(failure.describe()),
            },
        }
    }

    /// Decodes the buffer.
    pub fn to_binary(self) -> (res: Result<GltfBinaryBuffer, &'static str>)
        ensures
            match res {
                Ok(buffer) => self.decoded() matches Ok(bytes) && buffer.holds(
                    bytes,
                    self.original_index,
                ),
                Err(message) => self.decoded() == Err::<Seq<u8>, &'static str>(message),
            },
    {
        GltfBinaryBuffer::from_base64(self)
    }
}

impl GltfBuffers {
    pub fn new() -> (res: Self)
        ensures
            res.0@.len() == 0,
    {
        GltfBuffers(Vec::new())
    }

    pub fn empty() -> (res: Self)
        ensures
            res.0@.len() == 0,
    {
        GltfBuffers(Vec::new())
    }

    /// Whether `table` holds what the buffers decode to, one for one.
    pub open spec fn decodes_to(&self, table: &GltfBinaryBuffers) -> bool {
        &&& table.0@.len() == self.0@.len()
        &&& forall|i: int|
            0 <= i < self.0@.len() ==> (#[trigger] self.0@[i].decoded() matches Ok(bytes)
                && table.0@[i].holds(bytes, self.0@[i].original_index))
    }

    /// Whether `message` is the error of the first buffer that does not
    /// decode.
    pub open spec fn fails_with(&self, message: &'static str) -> bool {
        exists|i: int|
            0 <= i < self.0@.len() && #[trigger] self.0@[i].decoded() == Err::<
                Seq<u8>,
                &'static str,
            >(message) && forall|j: int| 0 <= j < i ==> (#[trigger] self.0@[j].decoded()) is Ok
    }

    /// Decodes every buffer, in order. The first that does not decode ends
    /// the work with its error.
    pub fn to_binary(self) -> (res: Result<GltfBinaryBuffers, &'static str>)
        ensures
            match res {
                Ok(table) => self.decodes_to(&table),
                Err(message) => self.fails_with(message),
            },
    {
        let mut table: Vec<GltfBinaryBuffer> = Vec::with_capacity(self.0.len());
        let mut i: usize = 0;
        while i < self.0.len()
            invariant
                i <= self.0@.len(),
                table@.len() == i,
                forall|j: int|
                    0 <= j < i ==> (#[trigger] self.0@[j].decoded() matches Ok(bytes)
                        && table@[j].holds(bytes, self.0@[j].original_index)),
            decreases self.0@.len() - i,
        {
            match GltfBinaryBuffer::decode(&self.0[i]) {
                Ok(buffer) => {
                    table.push(buffer);
                },
                Err(message) => {
                    return Err(message);
                },
            }
            i = i + 1;
        }
        Ok(GltfBinaryBuffers(table))
    }
}

impl Default for GltfBuffers {
    fn default() -> (res: Self)
        ensures
            res.0@.len() == 0,
    {
        Self::new()
    }
}

impl GltfBinaryBuffers {
    /// What `get_view` returns for `view`.
    pub open spec fn resolved(&self, view: &GltfBufferView) -> Result<Seq<u8>, &'static str> {
        if view.buffer >= self.0@.len() {
            Err(ERR_MISSING_BUFFER)
        } else if !view.fits(self.0@[view.buffer as int].bytes@.len()) {
            Err(ERR_OUT_OF_RANGE)
        } else {
            Ok(view.slice_of(self.0@[view.buffer as int].bytes@))
        }
    }

    /// A copy of the bytes of `view`. Fails where the table lacks the buffer
    /// that the view names, and where the range of the view, whose end is
    /// taken without wrapping, is not within that buffer.
    pub fn get_view(&self, view: &GltfBufferView) -> (res: Result<Vec<u8>, &'static str>)
        ensures
            match res {
                Ok(bytes) => self.resolved(view) == Ok::<Seq<u8>, &'static str>(bytes@)
                    && bytes@.len() == view.byte_length,
                Err(message) => self.resolved(view) == Err::<Seq<u8>, &'static str>(message),
            },
    {
        if view.buffer >= self.0.len() {
            return Err(ERR_MISSING_BUFFER);
        }
        let b = &self.0[view.buffer];
        let length = view.byte_length;
        let offset = view.byte_offset;
        if offset > b.bytes.len() || length > b.bytes.len() - offset {
            return Err(ERR_OUT_OF_RANGE);
        }
        let end_len = offset + length;
        let view_bytes = slice_subrange(b.bytes.as_slice(), offset, end_len);
        Ok(slice_to_vec(view_bytes))
    }
}

impl TryFrom<GltfBuffers> for GltfBinaryBuffers {
    type Error = &'static str;

    fn try_from(value: GltfBuffers) -> (res: Result<Self, Self::Error>)
        ensures
            match res {
                Ok(table) => value.decodes_to(&table),
                Err(message) => value.fails_with(message),
            },
    {
        value.to_binary()
    }
}

/// What the conversion yields is stated by the contract of `try_from`
/// itself, over the views of the buffers.
impl vstd::std_specs::convert::TryFromSpecImpl<GltfBuffers> for GltfBinaryBuffers {
    open spec fn obeys_try_from_spec() -> bool {
        false
    }

    open spec fn try_from_spec(v: GltfBuffers) -> Result<Self, Self::Error> {
        arbitrary()
    }
}

impl TryFrom<GltfBase64Buffer> for GltfBinaryBuffer {
    type Error = &'static str;

    fn try_from(value: GltfBase64Buffer) -> (res: Result<Self, Self::Error>)
        ensures
            match res {
                Ok(buffer) => value.decoded() matches Ok(bytes) && buffer.holds(
                    bytes,
                    value.original_index,
                ),
                Err(message) => value.decoded() == Err::<Seq<u8>, &'static str>(message),
            },
    {
        GltfBinaryBuffer::decode(&value)
    }
}

/// What the conversion yields is stated by the contract of `try_from`
/// itself, over the view of the buffer.
impl vstd::std_specs::convert::TryFromSpecImpl<GltfBase64Buffer> for GltfBinaryBuffer {
    open spec fn obeys_try_from_spec() -> bool {
        false
    }

    open spec fn try_from_spec(v: GltfBase64Buffer) -> Result<Self, Self::Error> {
        arbitrary()
    }
}

} // verus!
