//! The viewer: renders every outcome as localized status text.

pub mod messages;
pub mod report;
pub mod style;

pub use report::ErrorReport;
pub use style::StyledString;

use vstd::prelude::*;
use vstd::string::*;
use vstd::utf8::encode_utf8;
use crate::locale::Language;
use crate::model::{text_view, HappyServerModelViewer, HappyServerPreModel, HappyServerPreModelView};
use crate::server_core::{HappyServerBuilder, HappyServerBuilderView, HappyServerViewer};
use crate::sink::WriteResult;
use crate::viewer::messages::{
    start_failure, start_failure_text, start_success, start_success_text, stop_line,
    stop_line_text,
};
use crate::viewer::report::error_text;

verus! {

/// A viewer that writes its messages as UTF-8 text to a byte sink.
#[derive(Debug)]
pub struct StreamViewer {
    pub language: Language,
    pub style: StyledString,
    /// The sink. Every message is appended to it; nothing is ever taken out.
    pub writer: Vec<u8>,
    /// Whether to put the browse URL on the clipboard: `None` where the
    /// clipboard is not supported at all.
    pub using_clipboard: Option<bool>,
}

/// The message about the start of a server: the failure line where it did
/// not start, otherwise the running message with the browse URL.
pub open spec fn start_text(
    language: Language,
    style: style::StyledStringView,
    started: bool,
    hs_builder: HappyServerBuilderView,
    copied: bool,
) -> Seq<char> {
    if started {
        start_success(language, style, hs_builder.url(), copied)
    } else {
        start_failure(language, style)
    }
}

impl StreamViewer {
    /// Whether `self` is `before` with `text` written to the sink, and
    /// otherwise unchanged.
    pub open spec fn wrote(&self, before: &Self, text: Seq<char>) -> bool {
        &&& self.writer@ == before.writer@ + encode_utf8(text)
        &&& self.language == before.language
        &&& self.style == before.style
        &&& self.using_clipboard == before.using_clipboard
    }

    /// A viewer with an empty sink.
    pub fn new(language: Language, style: StyledString, using_clipboard: Option<bool>) -> (viewer:
        Self)
        ensures
            viewer.language == language,
            viewer.style == style,
            viewer.using_clipboard == using_clipboard,
            viewer.writer@.len() == 0,
    {
        StreamViewer { language, style, writer: Vec::new(), using_clipboard }
    }

    /// The text for a validation result: one paragraph for each failed field
    /// in the order port, distribution directory, URI prefix, and nothing for
    /// a field that passed.
    pub fn pre_model_message(&self, model: &HappyServerPreModel) -> (text: String)
        ensures
            text@ == error_text(model@, self.language, self.style@),
    {
        ErrorReport::of(model, self.language, &self.style).to_text()
    }

    /// The text for the start of the server planned by `hs_builder`: one
    /// error line where it did not start; otherwise the running message with
    /// the browse URL, the copied line where `copied` is set, and the exit
    /// hint.
    pub fn start_message(&self, started: bool, hs_builder: &HappyServerBuilder, copied: bool) -> (text:
        String)
        ensures
            text@ == start_text(self.language, self.style@, started, hs_builder@, copied),
    {
        if started {
            let url = hs_builder.browse_url();
            start_success_text(self.language, &self.style, url.as_str(), copied)
        } else {
            start_failure_text(self.language, &self.style)
        }
    }

    /// The text for a server that has stopped.
    pub fn stop_message(&self) -> (text: String)
        ensures
            text@ == stop_line(self.language, self.style@),
    {
        stop_line_text(self.language, &self.style)
    }

    /// The URL to put on the clipboard, if any: the browse URL where the
    /// server started and this viewer is set to use the clipboard, and
    /// nothing in every other case.
    pub fn clipboard_request(&self, started: bool, hs_builder: &HappyServerBuilder) -> (url: Option<
        String,
    >)
        ensures
            text_view(url) == if started && self.using_clipboard == Some(true) {
                Some(hs_builder@.url())
            } else {
                None
            },
    {
        match self.using_clipboard {
            Some(true) => if started {
                Some(hs_builder.browse_url())
            } else {
                None
            },
            _ => None,
        }
    }

    /// Writes `text` to the sink as UTF-8.
    pub fn write_all(&mut self, text: &str) -> (outcome: WriteResult)
        ensures
            outcome is Ok,
            final(self).wrote(old(self), text@),
    {
        let mut bytes = text.as_bytes_vec();
        self.writer.append(&mut bytes);
        Ok(())
    }

    /// Hands out everything written so far and empties the sink.
    pub fn take_output(&mut self) -> (bytes: Vec<u8>)
        ensures
            bytes@ == old(self).writer@,
            final(self).writer@.len() == 0,
            final(self).language == old(self).language,
            final(self).style == old(self).style,
            final(self).using_clipboard == old(self).using_clipboard,
    {
        let mut bytes: Vec<u8> = Vec::new();
        bytes.append(&mut self.writer);
        bytes
    }
}

impl HappyServerModelViewer for StreamViewer {
    open spec fn shows_pre_model(
        before: &Self,
        model: HappyServerPreModelView,
        after: &Self,
        outcome: WriteResult,
    ) -> bool {
        outcome is Ok && after.wrote(before, error_text(model, before.language, before.style@))
    }

    fn output_server_pre_model(&mut self, model: &HappyServerPreModel) -> (outcome: WriteResult) {
        let error_output = self.pre_model_message(model);
        self.write_all(error_output.as_str())
    }
}

impl HappyServerViewer for StreamViewer {
    open spec fn shows_start(
        before: &Self,
        started: bool,
        hs_builder: HappyServerBuilderView,
        copied: bool,
        after: &Self,
        outcome: WriteResult,
    ) -> bool {
        outcome is Ok && after.wrote(
            before,
            start_text(before.language, before.style@, started, hs_builder, copied),
        )
    }

    open spec fn shows_stop(before: &Self, after: &Self, outcome: WriteResult) -> bool {
        outcome is Ok && after.wrote(before, stop_line(before.language, before.style@))
    }

    fn output_start_server(
        &mut self,
        started: bool,
        hs_builder: &HappyServerBuilder,
        copied: bool,
    ) -> (outcome: WriteResult) {
        let output_message = self.start_message(started, hs_builder, copied);
        self.write_all(output_message.as_str())
    }

    fn output_server_stop(&mut self) -> (outcome: WriteResult) {
        let output_result = self.stop_message();
        self.write_all(output_result.as_str())
    }
}

} // verus!
