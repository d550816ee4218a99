//! The result marshaller: deciding how a tagged output value is written
//! into the engine's result slot.
//!
//! The engine exposes one result-setting primitive per native
//! representation; marshalling picks exactly one of them for a given value,
//! or reports a failure into the same slot. The decision is made here, in
//! verified code; the unsafe shim that performs the chosen C call merely
//! replays a [`ResultAction`].

use vstd::prelude::*;
use std::rc::Rc;

verus! {

/// Largest byte length of a text or blob payload that the engine's result
/// channel can represent (the maximum of a 32-bit signed length field).
pub const MAX_PAYLOAD_LEN: usize = 0x7fff_ffff;

/// A tagged output value produced by table or function logic, ready to be
/// marshalled into the engine's result slot. Exactly one arm is active at
/// a time; payloads are moved into the marshaller, which hands ownership on
/// to the engine's side of the boundary.
pub enum Value {
    /// SQL NULL.
    Null,
    /// 64-bit signed integer.
    Integer(i64),
    /// 64-bit IEEE-754 floating-point number, carried as its raw bit
    /// pattern; the shim that talks to the engine reassembles the float.
    Real(u64),
    /// Text payload, as bytes.
    Text(Vec<u8>),
    /// Binary payload.
    Blob(Vec<u8>),
    /// A zero-filled blob of the given byte length, allocated by the
    /// engine itself.
    ZeroBlob(i32),
    /// Alias of the current call's raw argument at this index: the engine
    /// already owns that value for the duration of the call, so it is
    /// handed straight through, zero-copy.
    Arg(usize),
    /// Shared opaque pointer payload: the engine is handed one strong
    /// reference together with a destructor that releases it exactly once.
    Pointer(Rc<Vec<i64>>),
}

/// The single engine-visible write that marshalling one value decides on.
/// Each arm corresponds to exactly one result-setting primitive of the
/// engine's C interface.
pub enum ResultAction {
    /// Set the slot to SQL NULL.
    SetNull,
    /// Set a 64-bit signed integer.
    SetInteger(i64),
    /// Set a 64-bit float, given as its raw bit pattern.
    SetReal(u64),
    /// Write a text payload; the engine is told to take its own durable
    /// copy, so the caller's buffer may be reused right after the call.
    SetText(Vec<u8>),
    /// Write a non-empty binary payload, copied by the engine in the same
    /// transient fashion as text.
    SetBlob(Vec<u8>),
    /// Have the engine allocate a zero-filled blob of this byte length.
    SetZeroBlob(i32),
    /// Report that a text or blob payload exceeds the representable size;
    /// no data is written.
    SetErrorTooBig,
    /// Report a generic misuse condition: the payload could not be encoded
    /// in the form the engine requires.
    SetErrorMisuse,
    /// Hand the raw argument at this index through as the result.
    SetArgAlias(usize),
    /// Hand the engine a strong reference to the shared payload, its type
    /// tag, and the registered destructor.
    SetPointer(Rc<Vec<i64>>),
}

/// True when the byte sequence holds an embedded NUL, which the engine's
/// required text encoding cannot represent.
pub open spec fn has_nul(s: Seq<u8>) -> bool {
    exists|i: int| 0 <= i < s.len() && s[i] == 0u8
}

/// The marshalling decision, as a total function on tagged values: the
/// mathematical model every contract about marshalling speaks of.
///
/// Text and blob payloads longer than [`MAX_PAYLOAD_LEN`] become the
/// "value too large" report; text with embedded NUL bytes fails encoding
/// and becomes the generic misuse report; an empty blob becomes a
/// zero-length engine-side allocation rather than a null pointer.
pub open spec fn marshalled(value: Value) -> ResultAction {
    match value {
        Value::Null => ResultAction::SetNull,
        Value::Integer(i) => ResultAction::SetInteger(i),
        Value::Real(bits) => ResultAction::SetReal(bits),
        Value::Text(b) => if b@.len() > MAX_PAYLOAD_LEN {
            ResultAction::SetErrorTooBig
        } else if has_nul(b@) {
            ResultAction::SetErrorMisuse
        } else {
            ResultAction::SetText(b)
        },
        Value::Blob(b) => if b@.len() > MAX_PAYLOAD_LEN {
            ResultAction::SetErrorTooBig
        } else if b@.len() == 0 {
            ResultAction::SetZeroBlob(0)
        } else {
            ResultAction::SetBlob(b)
        },
        Value::ZeroBlob(n) => ResultAction::SetZeroBlob(n),
        Value::Arg(i) => ResultAction::SetArgAlias(i),
        Value::Pointer(p) => ResultAction::SetPointer(p),
    }
}

/// What the engine reads back from a zero-filled blob of the given
/// length: that many zero bytes (a non-positive length reads back empty).
pub open spec fn zero_bytes(n: i32) -> Seq<u8> {
    if n >= 0 {
        Seq::new(n as nat, |i: int| 0u8)
    } else {
        Seq::empty()
    }
}

/// What a reader of the engine's slot observes after an action: the
/// read-back model of the result channel.
pub enum SlotValue {
    /// SQL NULL.
    Null,
    /// The integer written.
    Integer(i64),
    /// The float written, as its bit pattern.
    Real(u64),
    /// The bytes of the text written.
    Text(Seq<u8>),
    /// The bytes of the blob written; a zero-filled blob reads back as
    /// zero bytes.
    Blob(Seq<u8>),
    /// The call argument aliased through, by index.
    Argument(int),
    /// The contents of the shared payload handed over.
    Pointer(Seq<i64>),
    /// The "value too large" report; no data was written.
    TooBig,
    /// The generic misuse report; no data was written.
    Misuse,
}

/// The slot content each action leaves behind for the engine to read.
pub open spec fn slot_after(action: ResultAction) -> SlotValue {
    match action {
        ResultAction::SetNull => SlotValue::Null,
        ResultAction::SetInteger(i) => SlotValue::Integer(i),
        ResultAction::SetReal(bits) => SlotValue::Real(bits),
        ResultAction::SetText(b) => SlotValue::Text(b@),
        ResultAction::SetBlob(b) => SlotValue::Blob(b@),
        ResultAction::SetZeroBlob(n) => SlotValue::Blob(zero_bytes(n)),
        ResultAction::SetErrorTooBig => SlotValue::TooBig,
        ResultAction::SetErrorMisuse => SlotValue::Misuse,
        ResultAction::SetArgAlias(i) => SlotValue::Argument(i as int),
        ResultAction::SetPointer(p) => SlotValue::Pointer(p@),
    }
}

/// The text or blob content an action leaves in the slot, if it wrote
/// any.
pub open spec fn slot_bytes(action: ResultAction) -> Option<Seq<u8>> {
    match slot_after(action) {
        SlotValue::Text(s) => Some(s),
        SlotValue::Blob(s) => Some(s),
        _ => None,
    }
}

/// The byte payload of a text or blob value.
pub open spec fn payload(value: Value) -> Seq<u8> {
    match value {
        Value::Text(b) => b@,
        Value::Blob(b) => b@,
        _ => Seq::empty(),
    }
}

/// True when the byte vector holds a NUL byte. Runtime counterpart of
/// [`has_nul`].
fn contains_nul(b: &Vec<u8>) -> (r: bool)
    ensures
        r == has_nul(b@),
{
    let n = b.len();
    let mut i: usize = 0;
    while i < n
        invariant
            i <= n,
            n == b@.len(),
            forall|k: int| 0 <= k < i ==> b@[k] != 0u8,
        decreases n - i,
    {
        if b[i] == 0u8 {
            return true;
        }
        i = i + 1;
    }
    false
}

/// Decide the single engine-visible write for one tagged output value.
///
/// `args_len` is the length of the current call's raw argument array; an
/// argument alias must index into it, as the engine only owns that many
/// values for the duration of the call.
pub fn marshal(value: Value, args_len: usize) -> (action: ResultAction)
    requires
        value matches Value::Arg(i) ==> i < args_len,
    ensures
        action == marshalled(value),
{
    match value {
        Value::Null => ResultAction::SetNull,
        Value::Integer(i) => ResultAction::SetInteger(i),
        Value::Real(bits) => ResultAction::SetReal(bits),
        Value::Text(b) => {
            if b.len() > MAX_PAYLOAD_LEN {
                ResultAction::SetErrorTooBig
            } else if contains_nul(&b) {
                ResultAction::SetErrorMisuse
            } else {
                ResultAction::SetText(b)
            }
        },
        Value::Blob(b) => {
            if b.len() > MAX_PAYLOAD_LEN {
                ResultAction::SetErrorTooBig
            } else if b.len() == 0 {
                ResultAction::SetZeroBlob(0)
            } else {
                ResultAction::SetBlob(b)
            }
        },
        Value::ZeroBlob(n) => ResultAction::SetZeroBlob(n),
        Value::Arg(i) => ResultAction::SetArgAlias(i),
        Value::Pointer(p) => ResultAction::SetPointer(p),
    }
}

/// Round-trip law: a text payload within the representable size and free
/// of embedded NUL bytes, or a blob payload within the representable size,
/// is marshalled so that reading the slot back through the engine yields
/// byte-identical content.
pub proof fn lemma_marshal_round_trip(value: Value)
    requires
        match value {
            Value::Text(b) => b@.len() <= MAX_PAYLOAD_LEN && !has_nul(b@),
            Value::Blob(b) => b@.len() <= MAX_PAYLOAD_LEN,
            _ => false,
        },
    ensures
        slot_bytes(marshalled(value)) == Some(payload(value)),
{
    match value {
        Value::Blob(b) => {
            if b@.len() == 0 {
                assert(slot_bytes(marshalled(value)).unwrap() =~= b@);
            }
        },
        _ => {},
    }
}

/// Oversize law: a text or blob payload longer than the representable
/// maximum is marshalled to the "value too large" report alone, and no
/// data write occurs.
pub proof fn lemma_marshal_too_big(value: Value)
    requires
        match value {
            Value::Text(b) => b@.len() > MAX_PAYLOAD_LEN,
            Value::Blob(b) => b@.len() > MAX_PAYLOAD_LEN,
            _ => false,
        },
    ensures
        marshalled(value) == ResultAction::SetErrorTooBig,
        slot_bytes(marshalled(value)) is None,
{
}

/// Pass-through law for every representable value: marshalling writes the
/// slot so that the engine reads back exactly the content it was handed —
/// NULL stays NULL, numbers keep their value and bit pattern, text and
/// blob content is byte-identical, a zero-blob length becomes that many
/// zero bytes, an argument alias names the same argument, and a shared
/// pointer hands over the same payload.
pub proof fn lemma_marshal_preserves_value(value: Value)
    requires
        match value {
            Value::Text(b) => b@.len() <= MAX_PAYLOAD_LEN && !has_nul(b@),
            Value::Blob(b) => b@.len() <= MAX_PAYLOAD_LEN,
            _ => true,
        },
    ensures
        match value {
            Value::Null => slot_after(marshalled(value)) == SlotValue::Null,
            Value::Integer(i) => slot_after(marshalled(value)) == SlotValue::Integer(i),
            Value::Real(bits) => slot_after(marshalled(value)) == SlotValue::Real(bits),
            Value::Text(b) => slot_after(marshalled(value)) == SlotValue::Text(b@),
            Value::Blob(b) => slot_after(marshalled(value)) == SlotValue::Blob(b@),
            Value::ZeroBlob(n) => slot_after(marshalled(value)) == SlotValue::Blob(zero_bytes(n)),
            Value::Arg(i) => slot_after(marshalled(value)) == SlotValue::Argument(i as int),
            Value::Pointer(p) => slot_after(marshalled(value)) == SlotValue::Pointer(p@),
        },
{
    match value {
        Value::Blob(b) => {
            if b@.len() == 0 {
                assert(zero_bytes(0) =~= b@);
            }
        },
        _ => {},
    }
}

/// The verified face of the engine's result/column context: the slot the
/// current call's result must be written into, the call's raw-argument
/// count, and the engine's partial-update signal. The shim builds one of
/// these inside the narrow window the engine defines as "currently
/// producing a result" and replays `slot` into the real context when the
/// callback returns.
pub struct ResultContext {
    /// Number of raw arguments the engine passed to the current call.
    pub args_len: usize,
    /// True when the engine is informing an UPDATE-style partial write
    /// that this column's value is unchanged and may be skipped.
    pub unchanged: bool,
    /// The write decided for this slot, once one has been made.
    pub slot: Option<ResultAction>,
}

impl ResultContext {
    /// A fresh context for a call with `args_len` raw arguments, carrying
    /// the engine's no-change signal; nothing has been written yet.
    pub fn new(args_len: usize, unchanged: bool) -> (ctx: ResultContext)
        ensures
            ctx.args_len == args_len,
            ctx.unchanged == unchanged,
            ctx.slot is None,
    {
        ResultContext { args_len, unchanged, slot: None }
    }

    /// Marshal `value` and write the decision into the slot: exactly one
    /// engine-visible result or error write, and no other observable state
    /// change.
    pub fn set_result(&mut self, value: Value)
        requires
            value matches Value::Arg(i) ==> i < old(self).args_len,
        ensures
            final(self).slot == Some(marshalled(value)),
            final(self).args_len == old(self).args_len,
            final(self).unchanged == old(self).unchanged,
    {
        let action = marshal(value, self.args_len);
        self.slot = Some(action);
    }

    /// The no-change probe: true only when the engine is informing an
    /// UPDATE-style partial write that this column may be left unmodified.
    /// Read-only, no side effects.
    pub fn no_change(&self) -> (r: bool)
        ensures
            r == self.unchanged,
    {
        self.unchanged
    }
}

} // verus!
