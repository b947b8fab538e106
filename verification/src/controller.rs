//! The command-line surface: which options exist in which build, and what
//! the options given by the user mean.
//!
//! Each build feature flips a default and, with it, the option that the
//! command line offers: the option on offer is always the one that changes
//! the default.

use vstd::prelude::*;
use vstd::string::*;
use std::path::PathBuf;
use crate::locale::Language;
use crate::model::{
    pre_model_of, text_view, HappyServerModel, HappyServerModelView, HappyServerPreModel,
};
use crate::server_core::{BindAddress, HappyServerBuilder, HappyServerBuilderView};
use crate::text::{is_u16_text, u16_text_value};
use crate::uri::{has_double_slash, starts_with_slash};
use crate::viewer::messages::port_failure;
use crate::viewer::report::{error_paragraphs, ErrorReport};
use crate::viewer::style::{plain_tags, StyledString, StyledStringView};

verus! {

/// The features chosen when the program was built.
#[derive(Clone, Copy, Debug, PartialEq, Eq)]
pub struct Features {
    /// Messages are in English by default, not in Japanese.
    pub english: bool,
    /// Status tags are plain by default, not styled.
    pub no_color: bool,
    /// The clipboard is never touched.
    pub no_clipboard: bool,
    /// The server cannot speak TLS.
    pub no_ssl: bool,
}

impl Features {
    /// The language used unless the command line switches it.
    pub open spec fn spec_default_language(self) -> Language {
        if self.english {
            Language::English
        } else {
            Language::Japanese
        }
    }

    /// Whether status tags are styled unless the command line says otherwise.
    pub open spec fn spec_default_color(self) -> bool {
        !self.no_color
    }

    /// The language used unless the command line switches it.
    #[verifier::when_used_as_spec(spec_default_language)]
    pub fn default_language(self) -> (language: Language)
        ensures
            language == self.spec_default_language(),
    {
        if self.english {
            Language::English
        } else {
            Language::Japanese
        }
    }

    /// Whether status tags are styled unless the command line says otherwise.
    #[verifier::when_used_as_spec(spec_default_color)]
    pub fn default_color(self) -> (color: bool)
        ensures
            color == self.spec_default_color(),
    {
        !self.no_color
    }
}

/// What the command line gave, before any of it is interpreted.
#[derive(Debug)]
pub struct RawOptions {
    pub port: Option<String>,
    pub distribution_dir: Option<String>,
    pub uri_prefix: Option<String>,
    /// The language switch was given.
    pub flip_language: bool,
    /// Whether the colour switch of this build was given; absent counts as
    /// not given.
    pub color_override: Option<bool>,
    /// Present where the switch that suppresses the clipboard was given.
    pub clipboard_override: Option<bool>,
}

impl RawOptions {
    /// The three raw texts.
    pub open spec fn model(self) -> HappyServerModelView {
        HappyServerModelView {
            port: text_view(self.port),
            distribution_dir: text_view(self.distribution_dir),
            uri_prefix: text_view(self.uri_prefix),
        }
    }
}

/// The colour setting in force: the build's default, turned around exactly
/// when the colour switch was given.
pub open spec fn color_intent(features: Features, color_override: Option<bool>) -> bool {
    features.spec_default_color() != (color_override == Some(true))
}

/// The clipboard setting in force: none in a build without clipboard;
/// otherwise on, unless the switch that suppresses it was given.
pub open spec fn clipboard_intent(features: Features, clipboard_override: Option<bool>) -> Option<
    bool,
> {
    if features.no_clipboard {
        None
    } else {
        Some(clipboard_override is None)
    }
}

/// One option of the command line, as handed to the argument parser.
#[derive(Clone, Copy, Debug, PartialEq, Eq)]
pub struct FlagSpec {
    pub name: &'static str,
    pub short: Option<char>,
    pub long: &'static str,
    /// The name of the option's value; absent for a switch.
    pub value_name: Option<&'static str>,
    pub help: &'static str,
}

/// What a [`FlagSpec`] holds.
pub struct FlagSpecView {
    pub name: Seq<char>,
    pub short: Option<char>,
    pub long: Seq<char>,
    pub value_name: Option<Seq<char>>,
    pub help: Seq<char>,
}

impl View for FlagSpec {
    type V = FlagSpecView;

    open spec fn view(&self) -> FlagSpecView {
        FlagSpecView {
            name: self.name@,
            short: self.short,
            long: self.long@,
            value_name: match self.value_name {
                Some(name) => Some(name@),
                None => None,
            },
            help: self.help@,
        }
    }
}

pub const PORT: &'static str = "port";

pub const PORT_VALUE: &'static str = "port_number";

pub const PORT_HELP_JA: &'static str = "配信ポートの指定";

pub const PORT_HELP_EN: &'static str = "Specify the distribution port";

pub const URI_PREFIX: &'static str = "uri_prefix";

pub const URI_PREFIX_VALUE: &'static str = "uri prefix";

pub const URI_PREFIX_HELP_JA: &'static str =
    "配信uriの指定 ... https://localhost/〇〇/index.html の〇〇の部分です。";

pub const URI_PREFIX_HELP_EN: &'static str = "Specifies the prefix of the delivery uri.";

pub const DISTRIBUTION_DIR: &'static str = "distribution_dir";

pub const DISTRIBUTION_DIR_LONG: &'static str = "dist_dir";

pub const DISTRIBUTION_DIR_VALUE: &'static str = "distribution directory";

pub const DISTRIBUTION_DIR_HELP_JA: &'static str = "配信ディレクトリの指定";

pub const DISTRIBUTION_DIR_HELP_EN: &'static str = "Specify the distribution directory";

pub const ENGLISH: &'static str = "english";

pub const ENGLISH_HELP: &'static str = "標準出力を英語にします";

pub const JAPANESE: &'static str = "japanese";

pub const JAPANESE_HELP: &'static str = "Prints output with Japanese";

pub const NO_CLIPBOARD: &'static str = "no_clipboard";

pub const NO_CLIPBOARD_HELP_JA: &'static str = "クリップボード機能を使わない";

pub const NO_CLIPBOARD_HELP_EN: &'static str = "Do not use the clipboard function.";

pub const COLOR: &'static str = "color";

pub const COLOR_HELP_JA: &'static str =
    "標準出力に色を付けます(ターミナルによっては対応していません。)";

pub const COLOR_HELP_EN: &'static str =
    "Add color to the standard output (not supported by some terminals).";

pub const NO_COLOR: &'static str = "no_color";

pub const NO_COLOR_HELP_JA: &'static str = "標準出力に色を付けません";

pub const NO_COLOR_HELP_EN: &'static str = "Do not add color to standard output";

/// `ja` or `en`, as the language asks.
pub open spec fn localized(language: Language, ja: Seq<char>, en: Seq<char>) -> Seq<char> {
    match language {
        Language::Japanese => ja,
        Language::English => en,
    }
}

/// The option that sets the port.
pub open spec fn port_flag(language: Language) -> FlagSpecView {
    FlagSpecView {
        name: PORT@,
        short: Some('p'),
        long: PORT@,
        value_name: Some(PORT_VALUE@),
        help: localized(language, PORT_HELP_JA@, PORT_HELP_EN@),
    }
}

/// The option that sets the URI prefix.
pub open spec fn uri_prefix_flag(language: Language) -> FlagSpecView {
    FlagSpecView {
        name: URI_PREFIX@,
        short: Some('u'),
        long: URI_PREFIX@,
        value_name: Some(URI_PREFIX_VALUE@),
        help: localized(language, URI_PREFIX_HELP_JA@, URI_PREFIX_HELP_EN@),
    }
}

/// The option that sets the distribution directory.
pub open spec fn distribution_dir_flag(language: Language) -> FlagSpecView {
    FlagSpecView {
        name: DISTRIBUTION_DIR@,
        short: Some('d'),
        long: DISTRIBUTION_DIR_LONG@,
        value_name: Some(DISTRIBUTION_DIR_VALUE@),
        help: localized(language, DISTRIBUTION_DIR_HELP_JA@, DISTRIBUTION_DIR_HELP_EN@),
    }
}

/// The language switch: the one that selects the language that is not the
/// default, described in the default language.
pub open spec fn language_flag(language: Language) -> FlagSpecView {
    match language {
        Language::Japanese => FlagSpecView {
            name: ENGLISH@,
            short: Some('e'),
            long: ENGLISH@,
            value_name: None,
            help: ENGLISH_HELP@,
        },
        Language::English => FlagSpecView {
            name: JAPANESE@,
            short: Some('j'),
            long: JAPANESE@,
            value_name: None,
            help: JAPANESE_HELP@,
        },
    }
}

/// The switch that suppresses the clipboard.
pub open spec fn clipboard_flag(language: Language) -> FlagSpecView {
    FlagSpecView {
        name: NO_CLIPBOARD@,
        short: None,
        long: NO_CLIPBOARD@,
        value_name: None,
        help: localized(language, NO_CLIPBOARD_HELP_JA@, NO_CLIPBOARD_HELP_EN@),
    }
}

/// The colour switch: the one that turns colour on in a build that is plain
/// by default, and the one that turns it off in a build that is styled.
pub open spec fn color_flag(language: Language, no_color: bool) -> FlagSpecView {
    if no_color {
        FlagSpecView {
            name: COLOR@,
            short: Some('c'),
            long: COLOR@,
            value_name: None,
            help: localized(language, COLOR_HELP_JA@, COLOR_HELP_EN@),
        }
    } else {
        FlagSpecView {
            name: NO_COLOR@,
            short: None,
            long: NO_COLOR@,
            value_name: None,
            help: localized(language, NO_COLOR_HELP_JA@, NO_COLOR_HELP_EN@),
        }
    }
}

/// The options that the command line offers, in the order in which they are
/// registered: port, URI prefix, distribution directory, the language
/// switch, the clipboard switch where the build has a clipboard, and the
/// colour switch.
pub open spec fn flag_table(language: Language, features: Features) -> Seq<FlagSpecView> {
    seq![
        port_flag(language),
        uri_prefix_flag(language),
        distribution_dir_flag(language),
        language_flag(language),
    ] + (if features.no_clipboard {
        Seq::<FlagSpecView>::empty()
    } else {
        seq![clipboard_flag(language)]
    }) + seq![color_flag(language, features.no_color)]
}

/// The views of a list of options.
pub open spec fn flag_views(flags: Seq<FlagSpec>) -> Seq<FlagSpecView> {
    Seq::new(flags.len(), |i: int| flags[i]@)
}

/// `ja` or `en`, as the language asks.
fn pick(language: Language, ja: &'static str, en: &'static str) -> (text: &'static str)
    ensures
        text@ == localized(language, ja@, en@),
{
    match language {
        Language::Japanese => ja,
        Language::English => en,
    }
}

/// Collects what the command line means.
#[derive(Clone, Copy, Debug, PartialEq, Eq)]
pub struct CliArgGetter {
    /// The language of this build, in which the options are described.
    pub language: Language,
}

impl CliArgGetter {
    /// The options to register with the argument parser.
    pub fn flags(&self, features: Features) -> (flags: Vec<FlagSpec>)
        ensures
            flag_views(flags@) == flag_table(self.language, features),
    {
        let language = self.language;
        let mut flags: Vec<FlagSpec> = Vec::new();
        flags.push(
            FlagSpec {
                name: PORT,
                short: Some('p'),
                long: PORT,
                value_name: Some(PORT_VALUE),
                help: pick(language, PORT_HELP_JA, PORT_HELP_EN),
            },
        );
        flags.push(
            FlagSpec {
                name: URI_PREFIX,
                short: Some('u'),
                long: URI_PREFIX,
                value_name: Some(URI_PREFIX_VALUE),
                help: pick(language, URI_PREFIX_HELP_JA, URI_PREFIX_HELP_EN),
            },
        );
        flags.push(
            FlagSpec {
                name: DISTRIBUTION_DIR,
                short: Some('d'),
                long: DISTRIBUTION_DIR_LONG,
                value_name: Some(DISTRIBUTION_DIR_VALUE),
                help: pick(language, DISTRIBUTION_DIR_HELP_JA, DISTRIBUTION_DIR_HELP_EN),
            },
        );
        flags.push(
            match language {
                Language::Japanese => FlagSpec {
                    name: ENGLISH,
                    short: Some('e'),
                    long: ENGLISH,
                    value_name: None,
                    help: ENGLISH_HELP,
                },
                Language::English => FlagSpec {
                    name: JAPANESE,
                    short: Some('j'),
                    long: JAPANESE,
                    value_name: None,
                    help: JAPANESE_HELP,
                },
            },
        );
        if !features.no_clipboard {
            flags.push(
                FlagSpec {
                    name: NO_CLIPBOARD,
                    short: None,
                    long: NO_CLIPBOARD,
                    value_name: None,
                    help: pick(language, NO_CLIPBOARD_HELP_JA, NO_CLIPBOARD_HELP_EN),
                },
            );
        }
        if features.no_color {
            flags.push(
                FlagSpec {
                    name: COLOR,
                    short: Some('c'),
                    long: COLOR,
                    value_name: None,
                    help: pick(language, COLOR_HELP_JA, COLOR_HELP_EN),
                },
            );
        } else {
            flags.push(
                FlagSpec {
                    name: NO_COLOR,
                    short: None,
                    long: NO_COLOR,
                    value_name: None,
                    help: pick(language, NO_COLOR_HELP_JA, NO_COLOR_HELP_EN),
                },
            );
        }
        assert(flag_views(flags@) =~= flag_table(self.language, features));
        flags
    }

    /// Interprets what the command line gave: the language to use, whether
    /// to style the status tags, whether to use the clipboard, and the raw
    /// texts of the three configurable fields, untouched.
    pub fn get_arguments(&self, features: Features, raw: RawOptions) -> (out: (
        Language,
        bool,
        Option<bool>,
        HappyServerModel,
    ))
        ensures
            out.0 == self.language.spec_selected(raw.flip_language),
            out.1 == color_intent(features, raw.color_override),
            out.2 == clipboard_intent(features, raw.clipboard_override),
            out.3@ == raw.model(),
    {
        let color = match raw.color_override {
            Some(true) => !features.default_color(),
            _ => features.default_color(),
        };
        let using_clipboard = if features.no_clipboard {
            None
        } else {
            match raw.clipboard_override {
                None => Some(true),
                Some(_) => Some(false),
            }
        };
        let language = self.language.selected(raw.flip_language);
        (
            language,
            color,
            using_clipboard,
            HappyServerModel {
                port: raw.port,
                distribution_dir: raw.distribution_dir,
                uri_prefix: raw.uri_prefix,
            },
        )
    }
}

/// Everything that resolving a command line yields.
#[derive(Debug)]
pub struct Resolution {
    pub language: Language,
    pub style: StyledString,
    pub using_clipboard: Option<bool>,
    pub pre_model: HappyServerPreModel,
    /// The build plan, or the report of every field that failed. There is
    /// never both.
    pub outcome: Result<HappyServerBuilder, ErrorReport>,
}

/// Resolves a command line: settles language, style and clipboard use,
/// validates every field on its own, and yields the build plan where every
/// field passed and otherwise the report of all failures, worded in the
/// settled language and style.
///
/// `current_dir` is the current working directory, or `None` where it could
/// not be read; it matters only where no distribution directory is given.
pub fn resolve(raw: RawOptions, features: Features, current_dir: Option<PathBuf>) -> (resolution:
    Resolution)
    ensures
        resolution.language == features.spec_default_language().spec_selected(raw.flip_language),
        resolution.style@.consistent(),
        !color_intent(features, raw.color_override) ==> resolution.style@ == plain_tags(),
        resolution.using_clipboard == clipboard_intent(features, raw.clipboard_override),
        resolution.pre_model@ == pre_model_of(raw.model(), current_dir),
        resolution.pre_model@.well_formed(),
        resolution.outcome matches Ok(builder) ==> resolution.pre_model@.plan() == Some(builder@)
            && builder.well_formed(),
        resolution.outcome matches Err(report) ==> resolution.pre_model@.plan() is None
            && report@.len() > 0 && report@ == error_paragraphs(
            resolution.pre_model@,
            resolution.language,
            resolution.style@,
        ),
{
    let getter = CliArgGetter { language: features.default_language() };
    let (language, color, using_clipboard, model) = getter.get_arguments(features, raw);
    let style = StyledString::for_color(color);
    let pre_model = model.to_pre_model(current_dir);
    let outcome = match pre_model.to_builder() {
        Ok(builder) => Ok(builder),
        Err(_) => Err(ErrorReport::of(&pre_model, language, &style)),
    };
    Resolution { language, style, using_clipboard, pre_model, outcome }
}

/// With nothing given on the command line and a readable current directory,
/// resolving always yields a build plan: port 80 on all interfaces, the empty
/// URI prefix, the current directory, and no TLS.
pub proof fn lemma_defaults_yield_plan(current_dir: PathBuf)
    ensures
        pre_model_of(
            HappyServerModelView { port: None, distribution_dir: None, uri_prefix: None },
            Some(current_dir),
        ).plan() == Some(
            HappyServerBuilderView {
                socket_addr: BindAddress { octets: (0, 0, 0, 0), port: 80 },
                distribution_dir: current_dir,
                uri_prefix: Seq::<char>::empty(),
                ssl: None,
            },
        ),
{
}

/// A port text that is the text of a 16-bit unsigned number becomes the port
/// of the build plan, whenever there is a plan. Any other port text leaves no
/// plan, and the error report opens with the paragraph about the port.
pub proof fn lemma_port_decides(
    model: HappyServerModelView,
    current_dir: Option<PathBuf>,
    language: Language,
    style: StyledStringView,
)
    requires
        model.port is Some,
    ensures
        is_u16_text(model.port->0) ==> ({
            let pre = pre_model_of(model, current_dir);
            &&& pre.port == Ok::<u16, Seq<char>>(u16_text_value(model.port->0) as u16)
            &&& pre.plan() matches Some(plan) ==> plan.socket_addr.port == u16_text_value(
                model.port->0,
            )
        }),
        !is_u16_text(model.port->0) ==> ({
            let pre = pre_model_of(model, current_dir);
            &&& pre.port == Err::<u16, Seq<char>>(model.port->0)
            &&& pre.plan() is None
            &&& error_paragraphs(pre, language, style).len() > 0
            &&& error_paragraphs(pre, language, style)[0] == port_failure(language, style)
        }),
{
}

/// A URI prefix is accepted exactly when it neither begins with a slash nor
/// holds two slashes in a row; an accepted prefix is kept as it was given, and
/// a rejected one leaves no plan.
pub proof fn lemma_prefix_decides(model: HappyServerModelView, current_dir: Option<PathBuf>)
    requires
        model.uri_prefix is Some,
    ensures
        pre_model_of(model, current_dir).uri_prefix.contents() is Ok <==> !starts_with_slash(
            model.uri_prefix->0,
        ) && !has_double_slash(model.uri_prefix->0),
        pre_model_of(model, current_dir).uri_prefix.contents() matches Ok(kept) ==> kept
            == model.uri_prefix->0,
        pre_model_of(model, current_dir).prefix_failed() ==> pre_model_of(
            model,
            current_dir,
        ).plan() is None,
        pre_model_of(model, current_dir).well_formed(),
{
}

} // verus!
