use vstd::prelude::*;
use vstd::string::*;

verus! {

/// Where an error comes from: the runtime itself or a container.
#[derive(Debug, Clone, Copy, PartialEq, Eq, Structural)]
pub enum ErrorType {
    Runtime,
    Container,
}

/// The text that names an error type: its variant's name.
pub open spec fn error_type_text(t: ErrorType) -> Seq<char> {
    match t {
        ErrorType::Runtime => "Runtime"@,
        ErrorType::Container => "Container"@,
    }
}

impl ErrorType {
    /// The name of the error type, as it is displayed.
    pub fn to_string(&self) -> (r: String)
        ensures
            r@ == error_type_text(*self),
    {
        match self {
            ErrorType::Runtime => String::from_str("Runtime"),
            ErrorType::Container => String::from_str("Container"),
        }
    }
}

/// An error of the runtime: a message and the kind of error.
#[derive(Debug, PartialEq, Eq)]
pub struct RuntimeError {
    pub message: String,
    pub error_type: ErrorType,
}

/// A runtime error as plain values.
pub struct RuntimeErrorView {
    pub message: Seq<char>,
    pub error_type: ErrorType,
}

impl View for RuntimeError {
    type V = RuntimeErrorView;

    open spec fn view(&self) -> RuntimeErrorView {
        RuntimeErrorView { message: self.message@, error_type: self.error_type }
    }
}

/// The displayed text of an error: `<message>, error type: <type>`.
pub open spec fn runtime_error_text(e: RuntimeErrorView) -> Seq<char> {
    e.message + ", error type: "@ + error_type_text(e.error_type)
}

impl RuntimeError {
    /// An error of the runtime with the given message.
    pub fn runtime(message: String) -> (e: RuntimeError)
        ensures
            e.message@ == message@,
            e.error_type == ErrorType::Runtime,
    {
        RuntimeError { message, error_type: ErrorType::Runtime }
    }

    /// An error of a container with the given message.
    pub fn container(message: String) -> (e: RuntimeError)
        ensures
            e.message@ == message@,
            e.error_type == ErrorType::Container,
    {
        RuntimeError { message, error_type: ErrorType::Container }
    }

    /// The displayed text of the error.
    pub fn to_string(&self) -> (r: String)
        ensures
            r@ == runtime_error_text(self@),
    {
        let text = self.message.clone().concat(", error type: ");
        let kind = self.error_type.to_string();
        text.concat(kind.as_str())
    }
}

} // verus!
