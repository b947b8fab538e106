//! The five status tags that open the lines of every message, plain or
//! styled with ANSI colour and bold.

use vstd::prelude::*;
use vstd::string::*;
use colored::Colorize;

verus! {

/// The colours that status tags are painted in.
#[derive(Clone, Copy, Debug, PartialEq, Eq)]
pub enum TagColor {
    Red,
    Blue,
    Green,
}

/// The ANSI foreground code of a colour.
pub open spec fn color_code(color: TagColor) -> Seq<char> {
    match color {
        TagColor::Red => "31"@,
        TagColor::Blue => "34"@,
        TagColor::Green => "32"@,
    }
}

/// Whether `word` is free of the escape character.
pub open spec fn escape_free(word: Seq<char>) -> bool {
    forall|i: int| 0 <= i < word.len() ==> #[trigger] word[i] != '\x1b'
}

/// `word` between the ANSI sequence that switches on bold and the given
/// foreground colour and the sequence that resets both.
pub open spec fn bold_colored(word: Seq<char>, color: TagColor) -> Seq<char> {
    "\x1b[1;"@ + color_code(color) + "m"@ + word + "\x1b[0m"@
}

/// What painting `word` bold and in `color` may give: the word unchanged,
/// where the terminal takes no colour, or the word in bold and colour.
pub open spec fn painted_as(painted: Seq<char>, word: Seq<char>, color: TagColor) -> bool {
    painted == word || painted == bold_colored(word, color)
}

/// Paints `word` bold red by colored's `Colorize::red` and `Colorize::bold`,
/// and formats the result as a `String`.
///
/// Whether colored emits colour at all depends on the environment and on the
/// terminal. Not proved: that for a word without escape characters the result
/// is either the word unchanged or the word between the escape sequence for
/// bold red and the reset sequence.
#[verifier::external_body]
pub(crate) fn bold_red(word: &str) -> (painted: String)
    ensures
        escape_free(word@) ==> painted_as(painted@, word@, TagColor::Red),
{
    word.red().bold().to_string()
}

/// Paints `word` bold blue by colored's `Colorize::blue` and
/// `Colorize::bold`, and formats the result as a `String`.
///
/// Not proved: that for a word without escape characters the result is either
/// the word unchanged or the word between the escape sequence for bold blue
/// and the reset sequence.
#[verifier::external_body]
pub(crate) fn bold_blue(word: &str) -> (painted: String)
    ensures
        escape_free(word@) ==> painted_as(painted@, word@, TagColor::Blue),
{
    word.blue().bold().to_string()
}

/// Paints `word` bold green by colored's `Colorize::green` and
/// `Colorize::bold`, and formats the result as a `String`.
///
/// Not proved: that for a word without escape characters the result is either
/// the word unchanged or the word between the escape sequence for bold green
/// and the reset sequence.
#[verifier::external_body]
pub(crate) fn bold_green(word: &str) -> (painted: String)
    ensures
        escape_free(word@) ==> painted_as(painted@, word@, TagColor::Green),
{
    word.green().bold().to_string()
}

/// The status tags, rendered once and then only read.
#[derive(Clone, Debug, PartialEq, Eq)]
pub struct StyledString {
    pub error: String,
    pub note: String,
    pub running: String,
    pub finish: String,
    pub copied: String,
}

/// What a [`StyledString`] holds.
pub struct StyledStringView {
    pub error: Seq<char>,
    pub note: Seq<char>,
    pub running: Seq<char>,
    pub finish: Seq<char>,
    pub copied: Seq<char>,
}

impl View for StyledString {
    type V = StyledStringView;

    open spec fn view(&self) -> StyledStringView {
        StyledStringView {
            error: self.error@,
            note: self.note@,
            running: self.running@,
            finish: self.finish@,
            copied: self.copied@,
        }
    }
}

/// The tags as bare words.
pub open spec fn plain_tags() -> StyledStringView {
    StyledStringView {
        error: "Error"@,
        note: "Note"@,
        running: "Running"@,
        finish: "Finish"@,
        copied: "Copied"@,
    }
}

/// The tags in bold: errors red, notes blue, the others green.
pub open spec fn colored_tags() -> StyledStringView {
    StyledStringView {
        error: bold_colored("Error"@, TagColor::Red),
        note: bold_colored("Note"@, TagColor::Blue),
        running: bold_colored("Running"@, TagColor::Green),
        finish: bold_colored("Finish"@, TagColor::Green),
        copied: bold_colored("Copied"@, TagColor::Green),
    }
}

impl StyledStringView {
    /// The invariant of a tag record: either every tag is styled or every
    /// tag is plain.
    pub open spec fn consistent(self) -> bool {
        self == plain_tags() || self == colored_tags()
    }

    /// Whether no tag is the bare word.
    pub open spec fn none_plain(self) -> bool {
        &&& self.error != plain_tags().error
        &&& self.note != plain_tags().note
        &&& self.running != plain_tags().running
        &&& self.finish != plain_tags().finish
        &&& self.copied != plain_tags().copied
    }
}

impl StyledString {
    /// The tags in bold and colour, as far as the terminal takes colour.
    ///
    /// Where it does not, the tags come out plain. The result is never mixed:
    /// should some tags come out styled and others plain, all are made plain.
    pub fn colored() -> (style: Self)
        ensures
            style@ == colored_tags() || style@ == plain_tags(),
            style@.consistent(),
    {
        proof {
            reveal_strlit("Error");
            reveal_strlit("Note");
            reveal_strlit("Running");
            reveal_strlit("Finish");
            reveal_strlit("Copied");
        }
        Self::all_or_nothing(
            Self {
                error: bold_red("Error"),
                note: bold_blue("Note"),
                running: bold_green("Running"),
                finish: bold_green("Finish"),
                copied: bold_green("Copied"),
            },
        )
    }

    /// Settles freshly painted tags: they are kept where not one of them is
    /// the bare word, and all replaced by the bare words otherwise.
    pub fn all_or_nothing(painted: Self) -> (style: Self)
        ensures
            style@ == if painted@.none_plain() {
                painted@
            } else {
                plain_tags()
            },
    {
        let plain = Self::no_colored();
        let error_plain = painted.error == plain.error;
        let note_plain = painted.note == plain.note;
        let running_plain = painted.running == plain.running;
        let finish_plain = painted.finish == plain.finish;
        let copied_plain = painted.copied == plain.copied;
        if !error_plain && !note_plain && !running_plain && !finish_plain && !copied_plain {
            painted
        } else {
            plain
        }
    }

    /// The tags as bare words.
    pub fn no_colored() -> (style: Self)
        ensures
            style@ == plain_tags(),
            style@.consistent(),
    {
        Self {
            error: String::from_str("Error"),
            note: String::from_str("Note"),
            running: String::from_str("Running"),
            finish: String::from_str("Finish"),
            copied: String::from_str("Copied"),
        }
    }

    /// The tags for the given colour setting: styled where `color` is set,
    /// plain where it is not.
    pub fn for_color(color: bool) -> (style: Self)
        ensures
            style@.consistent(),
            !color ==> style@ == plain_tags(),
    {
        if color {
            Self::colored()
        } else {
            Self::no_colored()
        }
    }
}

} // verus!
