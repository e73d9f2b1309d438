//! Values exchanged with the JavaScript host.

use vstd::prelude::*;

verus! {

/// A reference to a JavaScript object, function or symbol that the host keeps
/// in its own table. The host names the entry by a number; `bits` is the
/// IEEE-754 bit pattern of that number, carried through unchanged.
#[derive(Clone, Copy, Debug, PartialEq, Eq, Structural)]
pub struct RefIndex {
    pub bits: u64,
}

/// The data that goes in and out of calls into the JavaScript host.
///
/// A number is carried as the IEEE-754 bit pattern of its `f64` value.
#[derive(Clone, Debug, PartialEq)]
pub enum JsType {
    Null,
    Undefined,
    Boolean(bool),
    Number(u64),
    String(String),
    /// Object, function or symbol.
    Ref(RefIndex),
}

impl JsType {
    /// The reference held by a `Ref`; any other value is refused.
    pub fn unwrap(self) -> (r: RefIndex)
        requires
            self is Ref,
        ensures
            self == JsType::Ref(r),
    {
        match self {
            JsType::Ref(r) => r,
            _ => vstd::pervasive::unreached(),
        }
    }

    /// The text held by a `String`; any other value is refused.
    pub fn unwrap_string(self) -> (s: String)
        requires
            self is String,
        ensures
            self == JsType::String(s),
    {
        match self {
            JsType::String(s) => s,
            _ => vstd::pervasive::unreached(),
        }
    }

    /// The bit pattern of the number held by a `Number`; any other value is
    /// refused.
    pub fn unwrap_number(self) -> (n: u64)
        requires
            self is Number,
        ensures
            self == JsType::Number(n),
    {
        match self {
            JsType::Number(n) => n,
            _ => vstd::pervasive::unreached(),
        }
    }

    /// The flag held by a `Boolean`; any other value is refused.
    pub fn unwrap_boolean(self) -> (b: bool)
        requires
            self is Boolean,
        ensures
            self == JsType::Boolean(b),
    {
        match self {
            JsType::Boolean(b) => b,
            _ => vstd::pervasive::unreached(),
        }
    }
}

impl From<bool> for JsType {
    fn from(b: bool) -> (r: Self) {
        JsType::Boolean(b)
    }
}

impl vstd::std_specs::convert::FromSpecImpl<bool> for JsType {
    open spec fn obeys_from_spec() -> bool {
        true
    }

    open spec fn from_spec(v: bool) -> Self {
        JsType::Boolean(v)
    }
}

impl From<String> for JsType {
    fn from(s: String) -> (r: Self) {
        JsType::String(s)
    }
}

impl vstd::std_specs::convert::FromSpecImpl<String> for JsType {
    open spec fn obeys_from_spec() -> bool {
        true
    }

    open spec fn from_spec(v: String) -> Self {
        JsType::String(v)
    }
}

impl From<RefIndex> for JsType {
    fn from(r: RefIndex) -> (res: Self) {
        JsType::Ref(r)
    }
}

impl vstd::std_specs::convert::FromSpecImpl<RefIndex> for JsType {
    open spec fn obeys_from_spec() -> bool {
        true
    }

    open spec fn from_spec(v: RefIndex) -> Self {
        JsType::Ref(v)
    }
}

/// What `From` wraps, the matching `unwrap` gives back: each conversion
/// yields the variant of its input's kind, holding the input, which is the
/// value whose `unwrap` returns that input.
pub proof fn lemma_from_then_unwrap(b: bool, s: String, r: RefIndex)
    ensures
        <JsType as vstd::std_specs::convert::FromSpec<bool>>::from_spec(b) == JsType::Boolean(b),
        <JsType as vstd::std_specs::convert::FromSpec<String>>::from_spec(s) == JsType::String(s),
        <JsType as vstd::std_specs::convert::FromSpec<RefIndex>>::from_spec(r) == JsType::Ref(r),
{
}

} // verus!
