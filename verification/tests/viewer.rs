use happy_server::locale::Language;
use happy_server::model::{
    HappyServerModel, HappyServerModelViewer, HappyServerPreModel, ParameterSource, ParseFailure,
    PathFailure, UriFailure,
};
use happy_server::server_core::{BindAddress, HappyServerBuilder, HappyServerViewer, Ssl};
use happy_server::viewer::messages::{
    copied_line_text, current_dir_failure_text, distribution_dir_failure_text,
    port_failure_text, start_failure_text, start_success_text, stop_line_text,
    uri_prefix_failure_text,
};
use happy_server::viewer::style::StyledString;
use happy_server::viewer::{ErrorReport, StreamViewer};
use std::path::PathBuf;

const PORT_EN: &str = "Error: The port number in the command line argument contained a non-numeric value.\nNote: The argument can be any number between 0 and 65535.\nNote: If no argument is given, the default port: 80 will be used.\n";
const PORT_JA: &str = "Error: コマンドライン引数のポート番号に、数値以外が入っていました。\nNote: 引数には0~65535までの数値を入れることができます。\nNote: オプションを入れなければ、80番ポートを使用します。\n";
const CWD_EN: &str = "Error: Could not locate the current directory.\nNote: This app may not have access to environment variables. \nNote: If possible, please change the directory to be delivered and run the app.\n";
const CWD_JA: &str = "Error: カレントディレクトリを特定できませんでした。\nNote: このアプリが環境変数にアクセスできないようになっている可能性があります。\nNote: 可能であれば、配信するディレクトリを変更してアプリを実行してください。\n";
const DIR_EN: &str = "Error: The format of the command line argument \"delivery directory path\" is invalid.\n";
const DIR_JA: &str = "Error: コマンドライン引数の「配信ディレクトリパス」のフォーマットが不正です。\n";
const PREFIX_EN: &str = "Error: The value of the URI setting in the command line argument is invalid.\nNote: Please use characters that can be used for URIs.\nNote: You can't put \"/\" at the beginning. You also cannot enter \"//\"\n";
const PREFIX_JA: &str = "Error: コマンドライン引数の「配信uriの指定」の値が不正です。\nNote: URIに使用できる文字を使ってください。\nNote: 最初に\"/\"を入れられません。また、\"//\"を入れることができません。\n";

fn viewer(language: Language, using_clipboard: Option<bool>) -> StreamViewer {
    StreamViewer::new(language, StyledString::no_colored(), using_clipboard)
}

fn plan(port: u16, prefix: &str, ssl: bool) -> HappyServerBuilder {
    HappyServerBuilder {
        socket_addr: BindAddress { octets: (0, 0, 0, 0), port },
        distribution_dir: PathBuf::from("/tmp/demo"),
        uri_prefix: prefix.to_string(),
        ssl: if ssl {
            Some(Ssl { server_crt: vec![1, 2], server_key: vec![3] })
        } else {
            None
        },
    }
}

fn pre_model(port: Option<&str>, dir: Option<&str>, prefix: Option<&str>) -> HappyServerPreModel {
    HappyServerModel {
        port: port.map(String::from),
        distribution_dir: dir.map(String::from),
        uri_prefix: prefix.map(String::from),
    }
    .to_pre_model(Some(PathBuf::from("/tmp/demo")))
}

fn written(viewer: &StreamViewer) -> String {
    String::from_utf8(viewer.writer.clone()).unwrap()
}

#[test]
fn paragraphs_word_for_word() {
    let style = StyledString::no_colored();
    assert_eq!(port_failure_text(Language::English, &style), PORT_EN);
    assert_eq!(port_failure_text(Language::Japanese, &style), PORT_JA);
    assert_eq!(current_dir_failure_text(Language::English, &style), CWD_EN);
    assert_eq!(current_dir_failure_text(Language::Japanese, &style), CWD_JA);
    assert_eq!(distribution_dir_failure_text(Language::English, &style), DIR_EN);
    assert_eq!(distribution_dir_failure_text(Language::Japanese, &style), DIR_JA);
    assert_eq!(uri_prefix_failure_text(Language::English, &style), PREFIX_EN);
    assert_eq!(uri_prefix_failure_text(Language::Japanese, &style), PREFIX_JA);
}

#[test]
fn lines_word_for_word() {
    let style = StyledString::no_colored();
    assert_eq!(
        start_failure_text(Language::English, &style),
        "Error: Could not start delivery via http.\n"
    );
    assert_eq!(
        start_failure_text(Language::Japanese, &style),
        "Error: httpによる配信を開始できませんでした。。\n"
    );
    assert_eq!(
        copied_line_text(Language::English, &style),
        "Copied: copied the URL to the clipboard!\n"
    );
    assert_eq!(
        copied_line_text(Language::Japanese, &style),
        "Copied: クリップボードにURLをコピーしました!!\n"
    );
    assert_eq!(
        stop_line_text(Language::English, &style),
        "Finish: Distribution has been terminated.\n"
    );
    assert_eq!(
        stop_line_text(Language::Japanese, &style),
        "Finish: httpでの配信を終了しました。\n"
    );
    assert_eq!(
        start_success_text(Language::English, &style, "http://localhost", false),
        "Running: Distribution via http is now available!!\nYou can browse by visiting http://localhost\n\nTo exit, press Ctrl + C or close this window.\n"
    );
    assert_eq!(
        start_success_text(Language::English, &style, "http://localhost", true),
        "Running: Distribution via http is now available!!\nYou can browse by visiting http://localhost\n\nCopied: copied the URL to the clipboard!\nTo exit, press Ctrl + C or close this window.\n"
    );
    assert_eq!(
        start_success_text(Language::Japanese, &style, "http://localhost:8080/docs", true),
        "Running: httpでの配信を開始しました。\nhttp://localhost:8080/docs からブラウズできます。\n\nCopied: クリップボードにURLをコピーしました!!\n終了する場合は、Ctrl + C を押すか、このウィンドを閉じてください。\n"
    );
    assert_eq!(
        start_success_text(Language::Japanese, &style, "http://localhost", false),
        "Running: httpでの配信を開始しました。\nhttp://localhost からブラウズできます。\n\n終了する場合は、Ctrl + C を押すか、このウィンドを閉じてください。\n"
    );
}

#[test]
fn a_valid_model_renders_nothing() {
    let mut v = viewer(Language::English, None);
    assert!(v.output_server_pre_model(&pre_model(None, None, None)).is_ok());
    assert_eq!(written(&v), "");
    assert!(ErrorReport::of(&pre_model(None, None, None), Language::English, &v.style).is_empty());
}

#[test]
fn invalid_port_renders_one_paragraph() {
    let mut v = viewer(Language::English, None);
    let model = pre_model(Some("abc"), None, None);
    assert!(v.output_server_pre_model(&model).is_ok());
    let text = written(&v);
    assert_eq!(text, PORT_EN);
    assert!(text.contains("port"));
    assert!(text.contains("0 and 65535"));
    let report = ErrorReport::of(&model, Language::English, &v.style);
    assert_eq!(report.len(), 1);
    assert_eq!(report.paragraphs, vec![PORT_EN.to_string()]);
    assert!(model.to_builder().is_err());
}

#[test]
fn invalid_prefix_renders_one_paragraph() {
    let mut v = viewer(Language::English, None);
    let model = pre_model(None, None, Some("/bad"));
    assert!(v.output_server_pre_model(&model).is_ok());
    assert_eq!(written(&v), PREFIX_EN);
    assert!(written(&v).contains("You can't put \"/\" at the beginning"));
    assert!(model.to_builder().is_err());
}

#[test]
fn two_failures_render_port_then_prefix() {
    let mut v = viewer(Language::English, None);
    let model = pre_model(Some("foo"), None, Some("a//b"));
    assert!(v.output_server_pre_model(&model).is_ok());
    assert_eq!(written(&v), format!("{}{}", PORT_EN, PREFIX_EN));
    let report = ErrorReport::of(&model, Language::English, &v.style);
    assert_eq!(report.paragraphs, vec![PORT_EN.to_string(), PREFIX_EN.to_string()]);
    assert_eq!(report.to_text(), format!("{}{}", PORT_EN, PREFIX_EN));
}

#[test]
fn three_failures_render_in_the_fixed_order() {
    let model = HappyServerPreModel {
        port: Err(ParseFailure { text: "x".to_string() }),
        distribution_dir: ParameterSource::Default(Err(PathFailure)),
        uri_prefix: ParameterSource::CliArg(Err(UriFailure)),
    };
    let v = viewer(Language::Japanese, None);
    assert_eq!(v.pre_model_message(&model), format!("{}{}{}", PORT_JA, CWD_JA, PREFIX_JA));
    let report = ErrorReport::of(&model, Language::Japanese, &v.style);
    assert_eq!(report.len(), 3);
    assert!(!report.is_empty());
}

#[test]
fn the_directory_paragraph_depends_on_the_source() {
    let v = viewer(Language::English, None);
    let from_default = HappyServerPreModel {
        port: Ok(80),
        distribution_dir: ParameterSource::Default(Err(PathFailure)),
        uri_prefix: ParameterSource::Default(Ok(String::new())),
    };
    let from_cli = HappyServerPreModel {
        port: Ok(80),
        distribution_dir: ParameterSource::CliArg(Err(PathFailure)),
        uri_prefix: ParameterSource::Default(Ok(String::new())),
    };
    assert_eq!(v.pre_model_message(&from_default), CWD_EN);
    assert_eq!(v.pre_model_message(&from_cli), DIR_EN);
}

#[test]
fn a_failed_prefix_is_reported_whatever_its_source() {
    let v = viewer(Language::English, None);
    let model = HappyServerPreModel {
        port: Ok(80),
        distribution_dir: ParameterSource::CliArg(Ok(PathBuf::from("x"))),
        uri_prefix: ParameterSource::Default(Err(UriFailure)),
    };
    assert_eq!(v.pre_model_message(&model), PREFIX_EN);
}

#[test]
fn default_start_names_the_bare_url() {
    let mut v = viewer(Language::English, Some(true));
    let plan = plan(80, "", false);
    let request = v.clipboard_request(true, &plan);
    assert_eq!(request, Some("http://localhost".to_string()));
    assert!(v.output_start_server(true, &plan, true).is_ok());
    let text = written(&v);
    assert!(text.contains("Running"));
    assert!(text.contains("http://localhost"));
    assert!(text.contains("Copied"));
    assert_eq!(
        text,
        "Running: Distribution via http is now available!!\nYou can browse by visiting http://localhost\n\nCopied: copied the URL to the clipboard!\nTo exit, press Ctrl + C or close this window.\n"
    );
}

#[test]
fn a_failed_copy_leaves_the_copied_line_out() {
    let mut v = viewer(Language::English, Some(true));
    assert!(v.output_start_server(true, &plan(8080, "docs", false), false).is_ok());
    assert_eq!(
        written(&v),
        "Running: Distribution via http is now available!!\nYou can browse by visiting http://localhost:8080/docs\n\nTo exit, press Ctrl + C or close this window.\n"
    );
}

#[test]
fn a_failed_start_renders_one_error_line() {
    let mut v = viewer(Language::Japanese, Some(true));
    assert!(v.output_start_server(false, &plan(80, "", false), false).is_ok());
    assert_eq!(written(&v), "Error: httpによる配信を開始できませんでした。。\n");
}

#[test]
fn the_clipboard_is_asked_for_only_when_wanted() {
    let p = plan(8080, "docs", false);
    assert_eq!(
        viewer(Language::English, Some(true)).clipboard_request(true, &p),
        Some("http://localhost:8080/docs".to_string())
    );
    assert_eq!(viewer(Language::English, Some(true)).clipboard_request(false, &p), None);
    assert_eq!(viewer(Language::English, Some(false)).clipboard_request(true, &p), None);
    assert_eq!(viewer(Language::English, None).clipboard_request(true, &p), None);
}

#[test]
fn stop_renders_one_finish_line() {
    let mut v = viewer(Language::English, None);
    assert!(v.output_server_stop().is_ok());
    assert_eq!(written(&v), "Finish: Distribution has been terminated.\n");
}

#[test]
fn messages_pile_up_in_the_sink_until_taken() {
    let mut v = viewer(Language::English, None);
    assert!(v.output_start_server(false, &plan(80, "", false), false).is_ok());
    assert!(v.output_server_stop().is_ok());
    assert_eq!(
        written(&v),
        "Error: Could not start delivery via http.\nFinish: Distribution has been terminated.\n"
    );
    let taken = v.take_output();
    assert_eq!(
        String::from_utf8(taken).unwrap(),
        "Error: Could not start delivery via http.\nFinish: Distribution has been terminated.\n"
    );
    assert!(v.writer.is_empty());
    assert!(v.write_all("日本語").is_ok());
    assert_eq!(v.writer, "日本語".as_bytes().to_vec());
}

#[test]
fn tls_plans_are_browsed_over_https() {
    assert_eq!(plan(443, "", true).browse_url(), "https://localhost");
    assert_eq!(plan(80, "", true).browse_url(), "https://localhost:80");
    assert_eq!(plan(443, "x/y", false).browse_url(), "http://localhost:443/x/y");
    assert_eq!(plan(0, "a", false).browse_url(), "http://localhost:0/a");
    assert_eq!(plan(65535, "", false).browse_url(), "http://localhost:65535");
}
