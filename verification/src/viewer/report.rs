//! The error report: one paragraph for each field that failed validation, in
//! the fixed order port, distribution directory, URI prefix.

use vstd::prelude::*;
use vstd::string::*;
use crate::locale::Language;
use crate::model::{HappyServerPreModel, HappyServerPreModelView, ParameterSource};
use crate::viewer::messages::{
    current_dir_failure, current_dir_failure_text, distribution_dir_failure,
    distribution_dir_failure_text, port_failure, port_failure_text, uri_prefix_failure,
    uri_prefix_failure_text,
};
use crate::viewer::style::{StyledString, StyledStringView};

verus! {

/// The paragraphs about the port: one where it failed, none where it did not.
pub open spec fn port_part(
    model: HappyServerPreModelView,
    language: Language,
    style: StyledStringView,
) -> Seq<Seq<char>> {
    if model.port_failed() {
        seq![port_failure(language, style)]
    } else {
        Seq::empty()
    }
}

/// The paragraphs about the distribution directory: one where it failed, none
/// where it did not. The wording tells a current directory that could not be
/// read from a directory that was given and is no path.
pub open spec fn dir_part(
    model: HappyServerPreModelView,
    language: Language,
    style: StyledStringView,
) -> Seq<Seq<char>> {
    match model.distribution_dir {
        ParameterSource::Default(Err(_)) => seq![current_dir_failure(language, style)],
        ParameterSource::CliArg(Err(_)) => seq![distribution_dir_failure(language, style)],
        _ => Seq::empty(),
    }
}

/// The paragraphs about the URI prefix: one where it failed, none where it
/// did not.
pub open spec fn prefix_part(
    model: HappyServerPreModelView,
    language: Language,
    style: StyledStringView,
) -> Seq<Seq<char>> {
    if model.prefix_failed() {
        seq![uri_prefix_failure(language, style)]
    } else {
        Seq::empty()
    }
}

/// The paragraphs of the error report for a validation result.
pub open spec fn error_paragraphs(
    model: HappyServerPreModelView,
    language: Language,
    style: StyledStringView,
) -> Seq<Seq<char>> {
    port_part(model, language, style) + dir_part(model, language, style) + prefix_part(
        model,
        language,
        style,
    )
}

/// The number of fields that failed validation.
pub open spec fn failure_count(model: HappyServerPreModelView) -> nat {
    (if model.port_failed() {
        1nat
    } else {
        0nat
    }) + (if model.dir_failed() {
        1nat
    } else {
        0nat
    }) + (if model.prefix_failed() {
        1nat
    } else {
        0nat
    })
}

/// All of `parts` in one text, in order.
pub open spec fn concat_all(parts: Seq<Seq<char>>) -> Seq<char>
    decreases parts.len(),
{
    if parts.len() == 0 {
        Seq::<char>::empty()
    } else {
        concat_all(parts.drop_last()) + parts.last()
    }
}

/// The whole text that reports the failures of a validation result.
pub open spec fn error_text(
    model: HappyServerPreModelView,
    language: Language,
    style: StyledStringView,
) -> Seq<char> {
    concat_all(error_paragraphs(model, language, style))
}

/// An error report holds exactly one paragraph for each failed field and none
/// for a field that passed: as many paragraphs as failures, the port's first,
/// then the directory's, then the prefix's. It is empty exactly when a build
/// plan exists.
pub proof fn lemma_one_paragraph_per_failure(
    model: HappyServerPreModelView,
    language: Language,
    style: StyledStringView,
)
    ensures
        error_paragraphs(model, language, style).len() == failure_count(model),
        port_part(model, language, style).len() == if model.port_failed() {
            1nat
        } else {
            0nat
        },
        dir_part(model, language, style).len() == if model.dir_failed() {
            1nat
        } else {
            0nat
        },
        prefix_part(model, language, style).len() == if model.prefix_failed() {
            1nat
        } else {
            0nat
        },
        model.port_failed() ==> error_paragraphs(model, language, style)[0] == port_failure(
            language,
            style,
        ),
        model.prefix_failed() ==> error_paragraphs(model, language, style).last()
            == uri_prefix_failure(language, style),
        model.dir_failed() ==> error_paragraphs(model, language, style)[port_part(
            model,
            language,
            style,
        ).len() as int] == dir_part(model, language, style)[0],
        error_paragraphs(model, language, style).len() == 0 <==> model.plan() is Some,
{
}

/// An ordered list of localized error paragraphs.
#[derive(Clone, Debug, PartialEq, Eq)]
pub struct ErrorReport {
    pub paragraphs: Vec<String>,
}

impl View for ErrorReport {
    type V = Seq<Seq<char>>;

    open spec fn view(&self) -> Seq<Seq<char>> {
        Seq::new(self.paragraphs@.len(), |i: int| self.paragraphs@[i]@)
    }
}

impl ErrorReport {
    /// Reports the failures of `model` in the given language and style: one
    /// paragraph for each failed field, in the order port, distribution
    /// directory, URI prefix.
    pub fn of(model: &HappyServerPreModel, language: Language, style: &StyledString) -> (report:
        ErrorReport)
        ensures
            report@ == error_paragraphs(model@, language, style@),
            report@.len() == failure_count(model@),
    {
        let mut report = ErrorReport { paragraphs: Vec::new() };
        assert(report@ =~= Seq::<Seq<char>>::empty());
        if model.port.is_err() {
            report.push(port_failure_text(language, style));
        }
        assert(report@ =~= port_part(model@, language, style@));
        match &model.distribution_dir {
            ParameterSource::Default(Err(_)) => {
                report.push(current_dir_failure_text(language, style));
            },
            ParameterSource::CliArg(Err(_)) => {
                report.push(distribution_dir_failure_text(language, style));
            },
            _ => {},
        }
        assert(report@ =~= port_part(model@, language, style@) + dir_part(
            model@,
            language,
            style@,
        ));
        let prefix_failed = match &model.uri_prefix {
            ParameterSource::Default(Err(_)) => true,
            ParameterSource::CliArg(Err(_)) => true,
            _ => false,
        };
        if prefix_failed {
            report.push(uri_prefix_failure_text(language, style));
        }
        assert(report@ =~= error_paragraphs(model@, language, style@));
        proof {
            lemma_one_paragraph_per_failure(model@, language, style@);
        }
        report
    }

    /// Adds one paragraph at the end.
    fn push(&mut self, paragraph: String)
        ensures
            final(self)@ == old(self)@.push(paragraph@),
    {
        self.paragraphs.push(paragraph);
        assert(self@ =~= old(self)@.push(paragraph@));
    }

    /// The number of paragraphs.
    pub fn len(&self) -> (count: usize)
        ensures
            count == self@.len(),
    {
        self.paragraphs.len()
    }

    /// Whether the report holds no paragraph, which means that nothing failed.
    pub fn is_empty(&self) -> (empty: bool)
        ensures
            empty == (self@.len() == 0),
    {
        self.paragraphs.len() == 0
    }

    /// All paragraphs as one text, in order.
    pub fn to_text(&self) -> (text: String)
        ensures
            text@ == concat_all(self@),
    {
        let mut text = String::new();
        let mut i: usize = 0;
        assert(self@.take(0) =~= Seq::<Seq<char>>::empty());
        while i < self.paragraphs.len()
            invariant
                i <= self.paragraphs.len(),
                text@ == concat_all(self@.take(i as int)),
            decreases self.paragraphs.len() - i,
        {
            text.append(self.paragraphs[i].as_str());
            proof {
                assert(self@.take(i + 1).drop_last() =~= self@.take(i as int));
                assert(self@.take(i + 1).last() == self.paragraphs@[i as int]@);
            }
            i = i + 1;
        }
        assert(self@.take(i as int) =~= self@);
        text
    }
}

} // verus!
