//! The wire protocol with the JavaScript host: one type code per value and
//! one 64-bit slot per value, read by the host as an `f64`.
//!
//! Arguments of a call travel as a buffer of type codes and a parallel buffer
//! of slots. A boolean is sent as the number `1.0` or `0.0`, a number as
//! itself, a reference as the host's index, and a string as the address of a
//! NUL-terminated copy, which the caller keeps alive for the duration of the
//! call and writes into the slot. A result comes back as one type code and
//! one slot in the same form.

use vstd::prelude::*;
use crate::cstring::{c_string, c_string_spec};
use vstd::utf8::encode_utf8;
use crate::value::{JsType, RefIndex};

verus! {

/// The bit pattern of the `f64` value `1.0`.
pub const F64_ONE_BITS: u64 = 0x3FF0_0000_0000_0000u64;

/// The bit pattern of the `f64` value `-0.0`.
pub const F64_NEG_ZERO_BITS: u64 = 0x8000_0000_0000_0000u64;

/// The kinds of value on the wire, each with its type code.
#[derive(Clone, Copy, Debug, PartialEq, Eq, Structural)]
pub enum RetTypes {
    Null,
    Undefined,
    Boolean,
    Number,
    String,
    Ref,
}

impl RetTypes {
    /// The type code of a kind: `Null` 0, `Undefined` 1, `Boolean` 2,
    /// `Number` 3, `String` 4, `Ref` 5.
    pub open spec fn code_spec(self) -> u8 {
        match self {
            RetTypes::Null => 0u8,
            RetTypes::Undefined => 1u8,
            RetTypes::Boolean => 2u8,
            RetTypes::Number => 3u8,
            RetTypes::String => 4u8,
            RetTypes::Ref => 5u8,
        }
    }

    /// The kind that a type code names, if it names one.
    pub open spec fn from_code_spec(code: u8) -> Option<RetTypes> {
        if code == 0 {
            Some(RetTypes::Null)
        } else if code == 1 {
            Some(RetTypes::Undefined)
        } else if code == 2 {
            Some(RetTypes::Boolean)
        } else if code == 3 {
            Some(RetTypes::Number)
        } else if code == 4 {
            Some(RetTypes::String)
        } else if code == 5 {
            Some(RetTypes::Ref)
        } else {
            None
        }
    }

    /// The type code of this kind.
    pub fn code(&self) -> (c: u8)
        ensures
            c == self.code_spec(),
            *self == RetTypes::Null ==> c == 0,
            *self == RetTypes::Undefined ==> c == 1,
            *self == RetTypes::Boolean ==> c == 2,
            *self == RetTypes::Number ==> c == 3,
            *self == RetTypes::String ==> c == 4,
            *self == RetTypes::Ref ==> c == 5,
    {
        match self {
            RetTypes::Null => 0u8,
            RetTypes::Undefined => 1u8,
            RetTypes::Boolean => 2u8,
            RetTypes::Number => 3u8,
            RetTypes::String => 4u8,
            RetTypes::Ref => 5u8,
        }
    }

    /// The kind named by a type code; `None` for a code that names none.
    pub fn from_code(code: u8) -> (k: Option<RetTypes>)
        ensures
            k == RetTypes::from_code_spec(code),
            code == 0 ==> k == Some(RetTypes::Null),
            code == 1 ==> k == Some(RetTypes::Undefined),
            code == 2 ==> k == Some(RetTypes::Boolean),
            code == 3 ==> k == Some(RetTypes::Number),
            code == 4 ==> k == Some(RetTypes::String),
            code == 5 ==> k == Some(RetTypes::Ref),
            code >= 6 ==> k is None,
    {
        if code == 0 {
            Some(RetTypes::Null)
        } else if code == 1 {
            Some(RetTypes::Undefined)
        } else if code == 2 {
            Some(RetTypes::Boolean)
        } else if code == 3 {
            Some(RetTypes::Number)
        } else if code == 4 {
            Some(RetTypes::String)
        } else if code == 5 {
            Some(RetTypes::Ref)
        } else {
            None
        }
    }
}

/// Every kind comes back from its type code, and a type code names a kind
/// exactly when it is below 6, the kind whose code it is.
pub proof fn lemma_code_round_trip(kind: RetTypes, code: u8)
    ensures
        RetTypes::from_code_spec(kind.code_spec()) == Some(kind),
        RetTypes::from_code_spec(code) is Some <==> code < 6,
        RetTypes::from_code_spec(code) matches Some(k) ==> k.code_spec() == code,
{
}

/// The kind of a value.
pub open spec fn kind_of(v: JsType) -> RetTypes {
    match v {
        JsType::Null => RetTypes::Null,
        JsType::Undefined => RetTypes::Undefined,
        JsType::Boolean(_) => RetTypes::Boolean,
        JsType::Number(_) => RetTypes::Number,
        JsType::String(_) => RetTypes::String,
        JsType::Ref(_) => RetTypes::Ref,
    }
}

/// The slot of a boolean: the bits of `1.0` for `true`, of `0.0` for `false`.
pub open spec fn bool_slot(b: bool) -> u64 {
    if b {
        F64_ONE_BITS
    } else {
        0u64
    }
}

/// The slot sent for a value. A string's slot is filled in with the address
/// of its bytes by the caller; here it is zero, as for `Null` and `Undefined`.
pub open spec fn slot_of(v: JsType) -> u64 {
    match v {
        JsType::Boolean(b) => bool_slot(b),
        JsType::Number(n) => n,
        JsType::Ref(r) => r.bits,
        _ => 0u64,
    }
}

/// The text buffer sent for a value: for a string its NUL-terminated UTF-8
/// bytes, for any other value none.
pub open spec fn text_matches(t: Option<Vec<u8>>, v: JsType) -> bool {
    match v {
        JsType::String(s) => t matches Some(b) && b@ == c_string_spec(s@),
        _ => t is None,
    }
}

/// Whether the `f64` with the given bits differs from zero: every pattern but
/// those of `0.0` and `-0.0` (a NaN differs from zero).
pub open spec fn f64_bits_nonzero(bits: u64) -> bool {
    bits != 0u64 && bits != F64_NEG_ZERO_BITS
}

/// The value that a result of the given kind and slot stands for; `text` is
/// the string read from the slot's address when the kind is `String`.
pub open spec fn decoded(kind: RetTypes, bits: u64, text: String) -> JsType {
    match kind {
        RetTypes::Null => JsType::Null,
        RetTypes::Undefined => JsType::Undefined,
        RetTypes::Boolean => JsType::Boolean(f64_bits_nonzero(bits)),
        RetTypes::Number => JsType::Number(bits),
        RetTypes::String => JsType::String(text),
        RetTypes::Ref => JsType::Ref(RefIndex { bits }),
    }
}

/// The arguments of a call in the form the host reads them.
pub struct EncodedArgs {
    /// One type code per argument.
    pub types: Vec<u8>,
    /// One slot per argument.
    pub values: Vec<u64>,
    /// For each string argument its NUL-terminated bytes, for the others
    /// `None`; the caller stores the address of each buffer in the slot of
    /// the same position.
    pub texts: Vec<Option<Vec<u8>>>,
}

/// The type code of a single value.
pub fn type_code(v: &JsType) -> (c: u8)
    ensures
        c == kind_of(*v).code_spec(),
        *v is Null ==> c == 0,
        *v is Undefined ==> c == 1,
        *v is Boolean ==> c == 2,
        *v is Number ==> c == 3,
        *v is String ==> c == 4,
        *v is Ref ==> c == 5,
{
    match v {
        JsType::Null => RetTypes::Null.code(),
        JsType::Undefined => RetTypes::Undefined.code(),
        JsType::Boolean(_) => RetTypes::Boolean.code(),
        JsType::Number(_) => RetTypes::Number.code(),
        JsType::String(_) => RetTypes::String.code(),
        JsType::Ref(_) => RetTypes::Ref.code(),
    }
}

/// The slot of a single value.
pub fn slot(v: &JsType) -> (bits: u64)
    ensures
        bits == slot_of(*v),
        *v matches JsType::Number(n) ==> bits == n,
        *v matches JsType::Ref(r) ==> bits == r.bits,
        *v matches JsType::Boolean(b) ==> bits == if b { 0x3FF0_0000_0000_0000u64 } else { 0u64 },
{
    match v {
        JsType::Boolean(b) => if *b {
            F64_ONE_BITS
        } else {
            0u64
        },
        JsType::Number(n) => *n,
        JsType::Ref(r) => r.bits,
        _ => 0u64,
    }
}

/// The NUL-terminated buffer sent for a value: its text's for a string, none
/// for any other value.
pub fn text_buffer(v: &JsType) -> (t: Option<Vec<u8>>)
    ensures
        text_matches(t, *v),
        *v is String ==> t is Some && t->Some_0@ == encode_utf8(v->String_0@).push(0u8),
        !(*v is String) ==> t is None,
{
    match v {
        JsType::String(s) => Some(c_string(s.as_str())),
        _ => None,
    }
}

/// Whether encoded entry `j` carries argument `v`: its type code, its slot and
/// its text buffer.
pub open spec fn entry_carries(code: u8, value: u64, text: Option<Vec<u8>>, v: JsType) -> bool {
    &&& code == kind_of(v).code_spec()
    &&& value == slot_of(v)
    &&& text_matches(text, v)
    &&& (v matches JsType::Number(n) ==> value == n)
    &&& (v matches JsType::Ref(r) ==> value == r.bits)
    &&& (v is String ==> text is Some && text->Some_0@ == encode_utf8(v->String_0@).push(0u8))
    &&& (!(v is String) ==> text is None)
    &&& (v matches JsType::Boolean(b) ==> value == if b { 0x3FF0_0000_0000_0000u64 } else { 0u64 })
    &&& (v is Null ==> code == 0)
    &&& (v is Undefined ==> code == 1)
    &&& (v is Boolean ==> code == 2)
    &&& (v is Number ==> code == 3)
    &&& (v is String ==> code == 4)
    &&& (v is Ref ==> code == 5)
}

/// Encodes the arguments of a call: type codes, slots and string buffers,
/// one of each per argument and in the order of the arguments. A number's
/// slot is the number itself, a reference's slot is its host index, and a
/// string's buffer is its UTF-8 bytes followed by a NUL.
pub fn encode_args(args: &[JsType]) -> (e: EncodedArgs)
    ensures
        e.types@.len() == args@.len(),
        e.values@.len() == args@.len(),
        e.texts@.len() == args@.len(),
        forall|i: int|
            #![trigger e.types@[i]]
            #![trigger e.values@[i]]
            #![trigger e.texts@[i]]
            0 <= i < args@.len() ==> {
                &&& e.types@[i] == kind_of(args@[i]).code_spec()
                &&& e.values@[i] == slot_of(args@[i])
                &&& text_matches(e.texts@[i], args@[i])
                &&& (args@[i] matches JsType::Number(n) ==> e.values@[i] == n)
                &&& (args@[i] matches JsType::Ref(r) ==> e.values@[i] == r.bits)
                &&& (args@[i] is String ==> e.texts@[i] is Some && e.texts@[i]->Some_0@
                    == encode_utf8(args@[i]->String_0@).push(0u8))
                &&& (!(args@[i] is String) ==> e.texts@[i] is None)
                &&& (args@[i] matches JsType::Boolean(b) ==> e.values@[i] == if b {
                    0x3FF0_0000_0000_0000u64
                } else {
                    0u64
                })
                &&& (args@[i] is Null ==> e.types@[i] == 0)
                &&& (args@[i] is Undefined ==> e.types@[i] == 1)
                &&& (args@[i] is Boolean ==> e.types@[i] == 2)
                &&& (args@[i] is Number ==> e.types@[i] == 3)
                &&& (args@[i] is String ==> e.types@[i] == 4)
                &&& (args@[i] is Ref ==> e.types@[i] == 5)
            },
{
    let mut types: Vec<u8> = Vec::new();
    let mut values: Vec<u64> = Vec::new();
    let mut texts: Vec<Option<Vec<u8>>> = Vec::new();
    let n: usize = args.len();
    let mut i: usize = 0;
    while i < n
        invariant
            n == args@.len(),
            i <= n,
            types@.len() == i,
            values@.len() == i,
            texts@.len() == i,
            forall|j: int|
                0 <= j < i ==> entry_carries(
                    #[trigger] types@[j],
                    values@[j],
                    texts@[j],
                    args@[j],
                ),
        decreases n - i,
    {
        let arg = &args[i];
        types.push(type_code(arg));
        values.push(slot(arg));
        texts.push(text_buffer(arg));
        i = i + 1;
    }
    EncodedArgs { types, values, texts }
}

/// Decodes a result from its kind and slot; `text` is the string read from
/// the slot's address when the kind is `String`, and is not used otherwise.
pub fn decode_return(kind: RetTypes, ret64: u64, text: String) -> (v: JsType)
    ensures
        v == decoded(kind, ret64, text),
        kind == RetTypes::Null ==> v == JsType::Null,
        kind == RetTypes::Undefined ==> v == JsType::Undefined,
        kind == RetTypes::Boolean ==> v == JsType::Boolean(
            ret64 != 0u64 && ret64 != 0x8000_0000_0000_0000u64,
        ),
        kind == RetTypes::Number ==> v == JsType::Number(ret64),
        kind == RetTypes::String ==> v == JsType::String(text),
        kind == RetTypes::Ref ==> v == JsType::Ref(RefIndex { bits: ret64 }),
{
    match kind {
        RetTypes::Null => JsType::Null,
        RetTypes::Undefined => JsType::Undefined,
        RetTypes::Boolean => JsType::Boolean(ret64 != 0u64 && ret64 != F64_NEG_ZERO_BITS),
        RetTypes::Number => JsType::Number(ret64),
        RetTypes::String => JsType::String(text),
        RetTypes::Ref => JsType::Ref(RefIndex { bits: ret64 }),
    }
}

/// What goes out as an argument comes back as the same value when the host
/// hands it back as a result: the kind named by its type code and its slot
/// decode to it, with a string's text read back from its buffer.
pub proof fn lemma_argument_round_trip(v: JsType, text: String)
    requires
        v is String ==> v == JsType::String(text),
    ensures
        RetTypes::from_code_spec(kind_of(v).code_spec()) == Some(kind_of(v)),
        decoded(kind_of(v), slot_of(v), text) == v,
{
}

/// A result's kind alone decides its variant, whatever its slot holds: a
/// number is the slot's bits themselves, a reference is the host entry the
/// slot names, a string is the text read from the slot's address, and a
/// boolean is false exactly for the two zeros, `0.0` and `-0.0`.
pub proof fn lemma_result_by_kind(bits: u64, text: String)
    ensures
        decoded(RetTypes::Null, bits, text) == JsType::Null,
        decoded(RetTypes::Undefined, bits, text) == JsType::Undefined,
        decoded(RetTypes::Number, bits, text) == JsType::Number(bits),
        decoded(RetTypes::String, bits, text) == JsType::String(text),
        decoded(RetTypes::Ref, bits, text) == JsType::Ref(RefIndex { bits }),
        decoded(RetTypes::Boolean, bits, text) == JsType::Boolean(
            !(bits == 0u64 || bits == 0x8000_0000_0000_0000u64),
        ),
        decoded(RetTypes::Boolean, 0x3FF0_0000_0000_0000u64, text) == JsType::Boolean(true),
        decoded(RetTypes::Boolean, 0u64, text) == JsType::Boolean(false),
{
}

/// An argument's slot carries the argument itself: a number's slot is its
/// own bits, a reference's slot is its own host index, and a boolean is sent
/// as `1.0` or `0.0`, and a string's buffer is its UTF-8 bytes and a NUL;
/// the type codes are `Null` 0 up to `Ref` 5.
pub proof fn lemma_argument_slots(n: u64, r: RefIndex, s: String)
    ensures
        slot_of(JsType::Number(n)) == n,
        slot_of(JsType::Ref(r)) == r.bits,
        slot_of(JsType::Boolean(true)) == 0x3FF0_0000_0000_0000u64,
        slot_of(JsType::Boolean(false)) == 0u64,
        kind_of(JsType::Null).code_spec() == 0,
        kind_of(JsType::Undefined).code_spec() == 1,
        kind_of(JsType::Boolean(true)).code_spec() == 2,
        kind_of(JsType::Number(n)).code_spec() == 3,
        kind_of(JsType::String(s)).code_spec() == 4,
        kind_of(JsType::Ref(r)).code_spec() == 5,
        forall|t: Option<Vec<u8>>|
            #[trigger] text_matches(t, JsType::String(s)) ==> (t matches Some(b) && b@
                == encode_utf8(s@).push(0u8)),
{
}

} // verus!
