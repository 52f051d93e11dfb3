//! The structured diagnostics of a failed compilation.

use vstd::prelude::*;
use vstd::string::*;
use vstd::utf8::*;
use crate::text::decode_text;

verus! {

/// What a [`GlslangErrorLog`] holds, as plain texts.
pub struct ErrorLogView {
    pub context: Seq<char>,
    pub info_log: Seq<char>,
    pub debug_log: Seq<char>,
}

/// The diagnostics of a failed compilation step: the step that failed and the
/// two logs of the native object that failed, decoded to text.
#[derive(Clone, Debug, PartialEq, Eq)]
pub struct GlslangErrorLog {
    pub context: String,
    pub info_log: String,
    pub debug_log: String,
}

impl View for GlslangErrorLog {
    type V = ErrorLogView;

    open spec fn view(&self) -> ErrorLogView {
        ErrorLogView {
            context: self.context@,
            info_log: self.info_log@,
            debug_log: self.debug_log@,
        }
    }
}

/// The log that a context and the bytes of two well-formed logs stand for.
pub open spec fn decoded_log(context: Seq<char>, info_log: Seq<u8>, debug_log: Seq<u8>)
    -> ErrorLogView {
    ErrorLogView {
        context,
        info_log: decode_utf8(info_log),
        debug_log: decode_utf8(debug_log),
    }
}

/// The one-line rendering of a log.
pub open spec fn rendered_log(log: ErrorLogView) -> Seq<char> {
    "context: "@ + log.context + "info_log: "@ + log.info_log + "debug_log: "@ + log.debug_log
}

impl GlslangErrorLog {
    /// Builds the log of a failed step from the bytes of the native logs, if
    /// both are well-formed UTF-8.
    pub fn decode(context: String, info_log: Vec<u8>, debug_log: Vec<u8>) -> (r: Option<Self>)
        ensures
            r is Some <==> valid_utf8(info_log@) && valid_utf8(debug_log@),
            r is Some ==> r->Some_0@ == decoded_log(context@, info_log@, debug_log@),
    {
        match decode_text(info_log) {
            Some(info) => match decode_text(debug_log) {
                Some(debug) => Some(GlslangErrorLog { context, info_log: info, debug_log: debug }),
                None => None,
            },
            None => None,
        }
    }

    /// Builds the log of a failed step from the bytes of the native logs.
    /// Both must be well-formed UTF-8: anything else breaks the native
    /// library's own promise and is not a log.
    pub fn new(context: String, info_log: Vec<u8>, debug_log: Vec<u8>) -> (r: Self)
        requires
            valid_utf8(info_log@),
            valid_utf8(debug_log@),
        ensures
            r@ == decoded_log(context@, info_log@, debug_log@),
    {
        let decoded = Self::decode(context, info_log, debug_log);
        decoded.unwrap()
    }

    /// The log as one text: each field behind its label, nothing in between.
    pub fn message(&self) -> (r: String)
        ensures
            r@ == rendered_log(self@),
    {
        let mut out = String::from_str("context: ");
        out.append(self.context.as_str());
        out.append("info_log: ");
        out.append(self.info_log.as_str());
        out.append("debug_log: ");
        out.append(self.debug_log.as_str());
        out
    }
}

} // verus!
