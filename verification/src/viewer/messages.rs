//! The wording of every message, in both languages.
//!
//! A message is made of lines. A line that reports something opens with a
//! status tag, which the style supplies; everything behind the tag is fixed
//! text, chosen by the language.

use vstd::prelude::*;
use vstd::string::*;
use crate::locale::Language;
use crate::text::{decimal_text, u16_to_text};
use crate::uri::DEFAULT_HTTP_PORT;
use crate::viewer::style::{StyledString, StyledStringView};

verus! {

pub const PORT_INVALID_JA: &'static str =
    ": コマンドライン引数のポート番号に、数値以外が入っていました。\n";

pub const PORT_RANGE_JA: &'static str = ": 引数には0~65535までの数値を入れることができます。\n";

pub const PORT_DEFAULT_HEAD_JA: &'static str = ": オプションを入れなければ、";

pub const PORT_DEFAULT_TAIL_JA: &'static str = "番ポートを使用します。\n";

pub const PORT_INVALID_EN: &'static str =
    ": The port number in the command line argument contained a non-numeric value.\n";

pub const PORT_RANGE_EN: &'static str = ": The argument can be any number between 0 and 65535.\n";

pub const PORT_DEFAULT_HEAD_EN: &'static str = ": If no argument is given, the default port: ";

pub const PORT_DEFAULT_TAIL_EN: &'static str = " will be used.\n";

pub const CURRENT_DIR_UNKNOWN_JA: &'static str = ": カレントディレクトリを特定できませんでした。\n";

pub const CURRENT_DIR_CAUSE_JA: &'static str =
    ": このアプリが環境変数にアクセスできないようになっている可能性があります。\n";

pub const CURRENT_DIR_ADVICE_JA: &'static str =
    ": 可能であれば、配信するディレクトリを変更してアプリを実行してください。\n";

pub const CURRENT_DIR_UNKNOWN_EN: &'static str = ": Could not locate the current directory.\n";

pub const CURRENT_DIR_CAUSE_EN: &'static str =
    ": This app may not have access to environment variables. \n";

pub const CURRENT_DIR_ADVICE_EN: &'static str =
    ": If possible, please change the directory to be delivered and run the app.\n";

pub const DIST_DIR_INVALID_JA: &'static str =
    ": コマンドライン引数の「配信ディレクトリパス」のフォーマットが不正です。\n";

pub const DIST_DIR_INVALID_EN: &'static str =
    ": The format of the command line argument \"delivery directory path\" is invalid.\n";

pub const URI_PREFIX_INVALID_JA: &'static str =
    ": コマンドライン引数の「配信uriの指定」の値が不正です。\n";

pub const URI_PREFIX_CHARS_JA: &'static str = ": URIに使用できる文字を使ってください。\n";

pub const URI_PREFIX_RULES_JA: &'static str =
    ": 最初に\"/\"を入れられません。また、\"//\"を入れることができません。\n";

pub const URI_PREFIX_INVALID_EN: &'static str =
    ": The value of the URI setting in the command line argument is invalid.\n";

pub const URI_PREFIX_CHARS_EN: &'static str =
    ": Please use characters that can be used for URIs.\n";

pub const URI_PREFIX_RULES_EN: &'static str =
    ": You can't put \"/\" at the beginning. You also cannot enter \"//\"\n";

pub const START_FAILED_JA: &'static str = ": httpによる配信を開始できませんでした。。\n";

pub const START_FAILED_EN: &'static str = ": Could not start delivery via http.\n";

pub const STARTED_JA: &'static str = ": httpでの配信を開始しました。\n";

pub const BROWSE_TAIL_JA: &'static str = " からブラウズできます。\n\n";

pub const EXIT_HINT_JA: &'static str =
    "終了する場合は、Ctrl + C を押すか、このウィンドを閉じてください。\n";

pub const STARTED_EN: &'static str = ": Distribution via http is now available!!\n";

pub const BROWSE_HEAD_EN: &'static str = "You can browse by visiting ";

pub const BROWSE_TAIL_EN: &'static str = "\n\n";

pub const EXIT_HINT_EN: &'static str = "To exit, press Ctrl + C or close this window.\n";

pub const COPIED_JA: &'static str = ": クリップボードにURLをコピーしました!!\n";

pub const COPIED_EN: &'static str = ": copied the URL to the clipboard!\n";

pub const STOPPED_JA: &'static str = ": httpでの配信を終了しました。\n";

pub const STOPPED_EN: &'static str = ": Distribution has been terminated.\n";

/// The paragraph for a port that is not a number from 0 to 65535: what went
/// wrong, the range that is allowed, and the port used by default.
pub open spec fn port_failure(language: Language, style: StyledStringView) -> Seq<char> {
    match language {
        Language::Japanese => style.error + PORT_INVALID_JA@ + style.note + PORT_RANGE_JA@
            + style.note + PORT_DEFAULT_HEAD_JA@ + decimal_text(DEFAULT_HTTP_PORT as nat)
            + PORT_DEFAULT_TAIL_JA@,
        Language::English => style.error + PORT_INVALID_EN@ + style.note + PORT_RANGE_EN@
            + style.note + PORT_DEFAULT_HEAD_EN@ + decimal_text(DEFAULT_HTTP_PORT as nat)
            + PORT_DEFAULT_TAIL_EN@,
    }
}

/// The paragraph for a current working directory that could not be read.
pub open spec fn current_dir_failure(language: Language, style: StyledStringView) -> Seq<char> {
    match language {
        Language::Japanese => style.error + CURRENT_DIR_UNKNOWN_JA@ + style.note
            + CURRENT_DIR_CAUSE_JA@ + style.note + CURRENT_DIR_ADVICE_JA@,
        Language::English => style.error + CURRENT_DIR_UNKNOWN_EN@ + style.note
            + CURRENT_DIR_CAUSE_EN@ + style.note + CURRENT_DIR_ADVICE_EN@,
    }
}

/// The paragraph for a distribution directory given on the command line that
/// is no path.
pub open spec fn distribution_dir_failure(language: Language, style: StyledStringView) -> Seq<
    char,
> {
    match language {
        Language::Japanese => style.error + DIST_DIR_INVALID_JA@,
        Language::English => style.error + DIST_DIR_INVALID_EN@,
    }
}

/// The paragraph for a URI prefix that breaks the prefix rules.
pub open spec fn uri_prefix_failure(language: Language, style: StyledStringView) -> Seq<char> {
    match language {
        Language::Japanese => style.error + URI_PREFIX_INVALID_JA@ + style.note
            + URI_PREFIX_CHARS_JA@ + style.note + URI_PREFIX_RULES_JA@,
        Language::English => style.error + URI_PREFIX_INVALID_EN@ + style.note
            + URI_PREFIX_CHARS_EN@ + style.note + URI_PREFIX_RULES_EN@,
    }
}

/// The line for a server that could not be started.
pub open spec fn start_failure(language: Language, style: StyledStringView) -> Seq<char> {
    match language {
        Language::Japanese => style.error + START_FAILED_JA@,
        Language::English => style.error + START_FAILED_EN@,
    }
}

/// The line that reports the URL as copied to the clipboard.
pub open spec fn copied_line(language: Language, style: StyledStringView) -> Seq<char> {
    match language {
        Language::Japanese => style.copied + COPIED_JA@,
        Language::English => style.copied + COPIED_EN@,
    }
}

/// What stands between the URL and the exit hint: the copied line where the
/// URL was copied, nothing where it was not.
pub open spec fn clipboard_part(
    language: Language,
    style: StyledStringView,
    copied: bool,
) -> Seq<char> {
    if copied {
        copied_line(language, style)
    } else {
        Seq::<char>::empty()
    }
}

/// The message for a server that runs: that it runs, the URL to browse, the
/// copied line where the URL was copied, and how to stop the server.
pub open spec fn start_success(
    language: Language,
    style: StyledStringView,
    url: Seq<char>,
    copied: bool,
) -> Seq<char> {
    match language {
        Language::Japanese => style.running + STARTED_JA@ + url + BROWSE_TAIL_JA@
            + clipboard_part(language, style, copied) + EXIT_HINT_JA@,
        Language::English => style.running + STARTED_EN@ + BROWSE_HEAD_EN@ + url
            + BROWSE_TAIL_EN@ + clipboard_part(language, style, copied) + EXIT_HINT_EN@,
    }
}

/// The line for a server that has stopped.
pub open spec fn stop_line(language: Language, style: StyledStringView) -> Seq<char> {
    match language {
        Language::Japanese => style.finish + STOPPED_JA@,
        Language::English => style.finish + STOPPED_EN@,
    }
}

/// Renders [`port_failure`].
pub fn port_failure_text(language: Language, style: &StyledString) -> (text: String)
    ensures
        text@ == port_failure(language, style@),
{
    let mut text = style.error.clone();
    let port = u16_to_text(DEFAULT_HTTP_PORT);
    match language {
        Language::Japanese => {
            text.append(PORT_INVALID_JA);
            text.append(style.note.as_str());
            text.append(PORT_RANGE_JA);
            text.append(style.note.as_str());
            text.append(PORT_DEFAULT_HEAD_JA);
            text.append(port.as_str());
            text.append(PORT_DEFAULT_TAIL_JA);
        },
        Language::English => {
            text.append(PORT_INVALID_EN);
            text.append(style.note.as_str());
            text.append(PORT_RANGE_EN);
            text.append(style.note.as_str());
            text.append(PORT_DEFAULT_HEAD_EN);
            text.append(port.as_str());
            text.append(PORT_DEFAULT_TAIL_EN);
        },
    }
    text
}

/// Renders [`current_dir_failure`].
pub fn current_dir_failure_text(language: Language, style: &StyledString) -> (text: String)
    ensures
        text@ == current_dir_failure(language, style@),
{
    let mut text = style.error.clone();
    match language {
        Language::Japanese => {
            text.append(CURRENT_DIR_UNKNOWN_JA);
            text.append(style.note.as_str());
            text.append(CURRENT_DIR_CAUSE_JA);
            text.append(style.note.as_str());
            text.append(CURRENT_DIR_ADVICE_JA);
        },
        Language::English => {
            text.append(CURRENT_DIR_UNKNOWN_EN);
            text.append(style.note.as_str());
            text.append(CURRENT_DIR_CAUSE_EN);
            text.append(style.note.as_str());
            text.append(CURRENT_DIR_ADVICE_EN);
        },
    }
    text
}

/// Renders [`distribution_dir_failure`].
pub fn distribution_dir_failure_text(language: Language, style: &StyledString) -> (text: String)
    ensures
        text@ == distribution_dir_failure(language, style@),
{
    let mut text = style.error.clone();
    match language {
        Language::Japanese => text.append(DIST_DIR_INVALID_JA),
        Language::English => text.append(DIST_DIR_INVALID_EN),
    }
    text
}

/// Renders [`uri_prefix_failure`].
pub fn uri_prefix_failure_text(language: Language, style: &StyledString) -> (text: String)
    ensures
        text@ == uri_prefix_failure(language, style@),
{
    let mut text = style.error.clone();
    match language {
        Language::Japanese => {
            text.append(URI_PREFIX_INVALID_JA);
            text.append(style.note.as_str());
            text.append(URI_PREFIX_CHARS_JA);
            text.append(style.note.as_str());
            text.append(URI_PREFIX_RULES_JA);
        },
        Language::English => {
            text.append(URI_PREFIX_INVALID_EN);
            text.append(style.note.as_str());
            text.append(URI_PREFIX_CHARS_EN);
            text.append(style.note.as_str());
            text.append(URI_PREFIX_RULES_EN);
        },
    }
    text
}

/// Renders [`start_failure`].
pub fn start_failure_text(language: Language, style: &StyledString) -> (text: String)
    ensures
        text@ == start_failure(language, style@),
{
    let mut text = style.error.clone();
    match language {
        Language::Japanese => text.append(START_FAILED_JA),
        Language::English => text.append(START_FAILED_EN),
    }
    text
}

/// Renders [`copied_line`].
pub fn copied_line_text(language: Language, style: &StyledString) -> (text: String)
    ensures
        text@ == copied_line(language, style@),
{
    let mut text = style.copied.clone();
    match language {
        Language::Japanese => text.append(COPIED_JA),
        Language::English => text.append(COPIED_EN),
    }
    text
}

/// Renders [`start_success`] for the given URL. `copied` says whether the URL
/// was put on the clipboard.
pub fn start_success_text(
    language: Language,
    style: &StyledString,
    url: &str,
    copied: bool,
) -> (text: String)
    ensures
        text@ == start_success(language, style@, url@, copied),
{
    let mut text = style.running.clone();
    let clipboard_result_string = if copied {
        copied_line_text(language, style)
    } else {
        String::new()
    };
    match language {
        Language::Japanese => {
            text.append(STARTED_JA);
            text.append(url);
            text.append(BROWSE_TAIL_JA);
            text.append(clipboard_result_string.as_str());
            text.append(EXIT_HINT_JA);
        },
        Language::English => {
            text.append(STARTED_EN);
            text.append(BROWSE_HEAD_EN);
            text.append(url);
            text.append(BROWSE_TAIL_EN);
            text.append(clipboard_result_string.as_str());
            text.append(EXIT_HINT_EN);
        },
    }
    text
}

/// Renders [`stop_line`].
pub fn stop_line_text(language: Language, style: &StyledString) -> (text: String)
    ensures
        text@ == stop_line(language, style@),
{
    let mut text = style.finish.clone();
    match language {
        Language::Japanese => text.append(STOPPED_JA),
        Language::English => text.append(STOPPED_EN),
    }
    text
}

} // verus!
