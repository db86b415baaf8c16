//! Errors that the virtual machine reports, and the frames of a stack trace.

use vstd::prelude::*;
use vstd::string::*;
use crate::util::{c_string_spec, decoded_text, lossy_string};

verus! {

/// One frame of a stack trace.
#[derive(Debug, Clone, PartialEq, Eq)]
pub struct Trace {
    pub function: String,
    pub module: String,
    pub line: u32,
}

/// The mathematical value of a `Trace`.
pub struct TraceView {
    pub function: Seq<char>,
    pub module: Seq<char>,
    pub line: u32,
}

impl View for Trace {
    type V = TraceView;

    open spec fn view(&self) -> TraceView {
        TraceView { function: self.function@, module: self.module@, line: self.line }
    }
}

/// The kind of a report from the virtual machine.
#[derive(Debug, Clone, Copy, PartialEq, Eq, Structural)]
pub enum WrenErrorType {
    Compile,
    Runtime,
    StackTrace,
}

/// The failure of one interpretation.
#[derive(Debug, Clone, PartialEq, Eq)]
pub enum WrenError {
    Compile { module: String, line: u32, message: String },
    Runtime { message: String, stack: Vec<Trace> },
}

/// The mathematical value of a `WrenError`.
pub enum WrenErrorView {
    Compile { module: Seq<char>, line: u32, message: Seq<char> },
    Runtime { message: Seq<char>, stack: Seq<TraceView> },
}

impl View for WrenError {
    type V = WrenErrorView;

    open spec fn view(&self) -> WrenErrorView {
        match *self {
            WrenError::Compile { module, line, message } => WrenErrorView::Compile {
                module: module@,
                line,
                message: message@,
            },
            WrenError::Runtime { message, stack } => WrenErrorView::Runtime {
                message: message@,
                stack: stack@.map_values(|t: Trace| t@),
            },
        }
    }
}

/// The line number as the machine's signed integer carries it.
pub open spec fn line_of(line: i32) -> u32 {
    line as u32
}

impl Trace {
    /// A frame from the C strings and the line that the machine reports.
    pub fn new(function: &[u8], module: &[u8], line: i32) -> (r: Trace)
        ensures
            r@ == (TraceView {
                function: decoded_text(c_string_spec(function@)),
                module: decoded_text(c_string_spec(module@)),
                line: line_of(line),
            }),
    {
        Trace { function: lossy_string(function), module: lossy_string(module), line: line as u32 }
    }
}

impl WrenError {
    /// The error that a report of kind `ty` opens: a compile error, or else
    /// a runtime error whose stack is still empty.
    pub fn new(ty: WrenErrorType, module: &[u8], line: i32, message: &[u8]) -> (r: WrenError)
        ensures
            r@ == (if ty == WrenErrorType::Compile {
                WrenErrorView::Compile {
                    module: decoded_text(c_string_spec(module@)),
                    line: line_of(line),
                    message: decoded_text(c_string_spec(message@)),
                }
            } else {
                WrenErrorView::Runtime {
                    message: decoded_text(c_string_spec(message@)),
                    stack: Seq::empty(),
                }
            }),
    {
        match ty {
            WrenErrorType::Compile => WrenError::Compile {
                module: lossy_string(module),
                line: line as u32,
                message: lossy_string(message),
            },
            _ => {
                let stack: Vec<Trace> = Vec::new();
                assert(stack@.map_values(|t: Trace| t@) =~= Seq::<TraceView>::empty());
                WrenError::Runtime { message: lossy_string(message), stack }
            },
        }
    }
}

} // verus!
