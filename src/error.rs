use vstd::prelude::*;

verus! {

/// Why a value could not be laid out.
#[derive(Clone, Debug)]
pub enum ErrorKind {
    /// A 64-bit integer or float: the layout rules define no such scalar.
    UnsupportedWidth,
    /// An optional value, an enum variant or a map: the layout has no form for them.
    UnsupportedShape,
    /// A composite whose members required no alignment, such as an empty tuple.
    ZeroSize,
    /// An error raised by the value's own serialisation code.
    Custom(String),
}

#[derive(Clone, Debug)]
pub struct WebGPUSerializeError {
    pub kind: ErrorKind,
}

impl WebGPUSerializeError {
    pub fn new(kind: ErrorKind) -> (r: Self)
        ensures
            r.kind == kind,
    {
        WebGPUSerializeError { kind }
    }

    /// An error that carries a message of the caller's own.
    pub fn custom(msg: String) -> (r: Self)
        ensures
            r.kind == ErrorKind::Custom(msg),
    {
        WebGPUSerializeError { kind: ErrorKind::Custom(msg) }
    }

    /// A description of the error for people.
    pub fn message(&self) -> String {
        match &self.kind {
            ErrorKind::UnsupportedWidth => "64-bit values are not supported".to_string(),
            ErrorKind::UnsupportedShape => "enum is not supported".to_string(),
            ErrorKind::ZeroSize => "zero size type is not supported".to_string(),
            ErrorKind::Custom(msg) => msg.clone(),
        }
    }
}

} // verus!
