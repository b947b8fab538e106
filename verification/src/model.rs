//! The resolver: from the raw texts of the command line to a per-field
//! validation result, and from there to a server build plan.
//!
//! Every field is validated on its own. A failure in one field never stops
//! the others from being looked at, so one run shows every mistake at once.

use vstd::prelude::*;
use vstd::string::*;
use std::path::PathBuf;
use crate::paths::{path_from_text, path_of};
use crate::server_core::{BindAddress, HappyServerBuilder, HappyServerBuilderView};
use crate::sink::WriteResult;
use crate::text::{is_u16_text, parse_u16, u16_text_value};
use crate::uri::{is_accepted_prefix, prefix_accepted, DEFAULT_HTTP_PORT};

verus! {

/// The address every server binds to: all IPv4 interfaces.
pub const DEFAULT_IPV4_ADDR: (u8, u8, u8, u8) = (0, 0, 0, 0);

/// Where a resolved value came from. The wording of an error message depends
/// on it; nothing else does.
#[derive(Debug, PartialEq, Eq)]
pub enum ParameterSource<T> {
    Default(T),
    CliArg(T),
}

impl<T> ParameterSource<T> {
    /// The value, whatever its source.
    pub open spec fn contents(self) -> T {
        match self {
            ParameterSource::Default(contents) => contents,
            ParameterSource::CliArg(contents) => contents,
        }
    }

    /// Lends the value, whatever its source.
    pub fn contents_ref(&self) -> (contents: &T)
        ensures
            *contents == self.contents(),
    {
        match self {
            Self::Default(contents) => contents,
            Self::CliArg(contents) => contents,
        }
    }

    /// Hands out the value and forgets its source.
    pub fn get_contents(self) -> (contents: T)
        ensures
            contents == self.contents(),
    {
        match self {
            Self::Default(contents) => contents,
            Self::CliArg(contents) => contents,
        }
    }
}

/// The raw texts of the three configurable fields, each absent where the
/// command line did not give it.
#[derive(Debug)]
pub struct HappyServerModel {
    pub port: Option<String>,
    pub distribution_dir: Option<String>,
    pub uri_prefix: Option<String>,
}

/// What a [`HappyServerModel`] holds.
pub struct HappyServerModelView {
    pub port: Option<Seq<char>>,
    pub distribution_dir: Option<Seq<char>>,
    pub uri_prefix: Option<Seq<char>>,
}

/// The view of an optional text.
pub open spec fn text_view(text: Option<String>) -> Option<Seq<char>> {
    match text {
        Some(s) => Some(s@),
        None => None,
    }
}

impl View for HappyServerModel {
    type V = HappyServerModelView;

    open spec fn view(&self) -> HappyServerModelView {
        HappyServerModelView {
            port: text_view(self.port),
            distribution_dir: text_view(self.distribution_dir),
            uri_prefix: text_view(self.uri_prefix),
        }
    }
}

/// A port text that is not a 16-bit unsigned decimal number.
#[derive(Debug, PartialEq, Eq)]
pub struct ParseFailure {
    /// The offending text, as it was given.
    pub text: String,
}

/// A distribution directory that could not be determined.
#[derive(Clone, Copy, Debug, PartialEq, Eq)]
pub struct PathFailure;

/// A URI prefix that breaks the prefix rules.
#[derive(Clone, Copy, Debug, PartialEq, Eq)]
pub struct UriFailure;

/// The reason why no build plan could be made: some field failed validation.
#[derive(Clone, Copy, Debug, PartialEq, Eq)]
pub struct InvalidModel;

/// The validation result of each field, still possibly carrying failures.
#[derive(Debug)]
pub struct HappyServerPreModel {
    pub port: Result<u16, ParseFailure>,
    pub distribution_dir: ParameterSource<Result<PathBuf, PathFailure>>,
    pub uri_prefix: ParameterSource<Result<String, UriFailure>>,
}

/// What a [`HappyServerPreModel`] holds.
pub struct HappyServerPreModelView {
    /// The port, or the text that failed to parse.
    pub port: Result<u16, Seq<char>>,
    pub distribution_dir: ParameterSource<Result<PathBuf, PathFailure>>,
    pub uri_prefix: ParameterSource<Result<Seq<char>, UriFailure>>,
}

/// The view of a validated port.
pub open spec fn port_view(port: Result<u16, ParseFailure>) -> Result<u16, Seq<char>> {
    match port {
        Ok(number) => Ok(number),
        Err(failure) => Err(failure.text@),
    }
}

/// The view of a validated URI prefix.
pub open spec fn prefix_view(
    prefix: ParameterSource<Result<String, UriFailure>>,
) -> ParameterSource<Result<Seq<char>, UriFailure>> {
    match prefix {
        ParameterSource::Default(Ok(text)) => ParameterSource::Default(Ok(text@)),
        ParameterSource::Default(Err(failure)) => ParameterSource::Default(Err(failure)),
        ParameterSource::CliArg(Ok(text)) => ParameterSource::CliArg(Ok(text@)),
        ParameterSource::CliArg(Err(failure)) => ParameterSource::CliArg(Err(failure)),
    }
}

impl View for HappyServerPreModel {
    type V = HappyServerPreModelView;

    open spec fn view(&self) -> HappyServerPreModelView {
        HappyServerPreModelView {
            port: port_view(self.port),
            distribution_dir: self.distribution_dir,
            uri_prefix: prefix_view(self.uri_prefix),
        }
    }
}

/// The validated port: 80 where no text was given, the number that the text
/// denotes where it is the text of a 16-bit unsigned number, and otherwise a
/// failure that carries the text.
pub open spec fn resolved_port(port: Option<Seq<char>>) -> Result<u16, Seq<char>> {
    match port {
        None => Ok(DEFAULT_HTTP_PORT),
        Some(text) => if is_u16_text(text) {
            Ok(u16_text_value(text) as u16)
        } else {
            Err(text)
        },
    }
}

/// The validated distribution directory: the given text as a path where one
/// was given; otherwise the current directory, or a failure where that could
/// not be read.
pub open spec fn resolved_dir(
    dir: Option<Seq<char>>,
    current_dir: Option<PathBuf>,
) -> ParameterSource<Result<PathBuf, PathFailure>> {
    match dir {
        Some(text) => ParameterSource::CliArg(Ok(path_of(text))),
        None => match current_dir {
            Some(path) => ParameterSource::Default(Ok(path)),
            None => ParameterSource::Default(Err(PathFailure)),
        },
    }
}

/// The validated URI prefix: empty where none was given; the given text where
/// it obeys the prefix rules, and a failure where it does not.
pub open spec fn resolved_prefix(prefix: Option<Seq<char>>) -> ParameterSource<
    Result<Seq<char>, UriFailure>,
> {
    match prefix {
        None => ParameterSource::Default(Ok(Seq::<char>::empty())),
        Some(text) => if prefix_accepted(text) {
            ParameterSource::CliArg(Ok(text))
        } else {
            ParameterSource::CliArg(Err(UriFailure))
        },
    }
}

/// The validation result of a whole model.
pub open spec fn pre_model_of(
    model: HappyServerModelView,
    current_dir: Option<PathBuf>,
) -> HappyServerPreModelView {
    HappyServerPreModelView {
        port: resolved_port(model.port),
        distribution_dir: resolved_dir(model.distribution_dir, current_dir),
        uri_prefix: resolved_prefix(model.uri_prefix),
    }
}

impl HappyServerPreModelView {
    /// Whether the port failed validation.
    pub open spec fn port_failed(self) -> bool {
        self.port is Err
    }

    /// Whether the distribution directory failed validation.
    pub open spec fn dir_failed(self) -> bool {
        self.distribution_dir.contents() is Err
    }

    /// Whether the URI prefix failed validation.
    pub open spec fn prefix_failed(self) -> bool {
        self.uri_prefix.contents() is Err
    }

    /// Whether every field passed validation.
    pub open spec fn all_ok(self) -> bool {
        !self.port_failed() && !self.dir_failed() && !self.prefix_failed()
    }

    /// The build plan that the validated fields make up: none as soon as one
    /// field failed; otherwise a plan without TLS that binds all interfaces
    /// on the validated port.
    pub open spec fn plan(self) -> Option<HappyServerBuilderView> {
        if self.all_ok() {
            Some(
                HappyServerBuilderView {
                    socket_addr: BindAddress {
                        octets: DEFAULT_IPV4_ADDR,
                        port: self.port->Ok_0,
                    },
                    distribution_dir: self.distribution_dir.contents()->Ok_0,
                    uri_prefix: self.uri_prefix.contents()->Ok_0,
                    ssl: None,
                },
            )
        } else {
            None
        }
    }

    /// The invariant of a validation result: an accepted prefix obeys the
    /// prefix rules.
    pub open spec fn well_formed(self) -> bool {
        self.uri_prefix.contents() matches Ok(text) ==> prefix_accepted(text)
    }
}

/// The capability to show a validation result to the user.
pub trait HappyServerModelViewer: Sized {
    /// What one call of [`Self::output_server_pre_model`] does: how the
    /// viewer `after` the call and the `outcome` relate to the viewer
    /// `before` it and to the `model` shown. A viewer that promises nothing
    /// leaves this as it is.
    open spec fn shows_pre_model(
        before: &Self,
        model: HappyServerPreModelView,
        after: &Self,
        outcome: WriteResult,
    ) -> bool {
        true
    }

    /// Shows one paragraph for each failed field of `model`, and nothing for
    /// the others.
    fn output_server_pre_model(&mut self, model: &HappyServerPreModel) -> (outcome: WriteResult)
        ensures
            Self::shows_pre_model(old(self), model@, final(self), outcome),
    ;
}

/// Validates the text of a port.
pub fn resolve_port(port: Option<String>) -> (resolved: Result<u16, ParseFailure>)
    ensures
        port_view(resolved) == resolved_port(text_view(port)),
{
    match port {
        Some(port) => match parse_u16(port.as_str()) {
            Some(number) => Ok(number),
            None => Err(ParseFailure { text: port }),
        },
        None => Ok(DEFAULT_HTTP_PORT),
    }
}

/// Validates the text of a distribution directory. `current_dir` is the
/// current working directory, or `None` where it could not be read; it is
/// looked at only where no text is given.
pub fn resolve_distribution_dir(
    distribution_dir: Option<String>,
    current_dir: Option<PathBuf>,
) -> (resolved: ParameterSource<Result<PathBuf, PathFailure>>)
    ensures
        resolved == resolved_dir(text_view(distribution_dir), current_dir),
{
    match distribution_dir {
        Some(text) => match path_from_text(text.as_str()) {
            Some(path) => ParameterSource::CliArg(Ok(path)),
            None => ParameterSource::CliArg(Err(PathFailure)),
        },
        None => match current_dir {
            Some(path) => ParameterSource::Default(Ok(path)),
            None => ParameterSource::Default(Err(PathFailure)),
        },
    }
}

/// Validates the text of a URI prefix: a text is accepted exactly when it
/// neither begins with a slash nor holds two slashes in a row.
pub fn resolve_uri_prefix(uri_prefix: Option<String>) -> (resolved: ParameterSource<
    Result<String, UriFailure>,
>)
    ensures
        prefix_view(resolved) == resolved_prefix(text_view(uri_prefix)),
        uri_prefix matches Some(text) ==> (resolved.contents() is Ok <==> prefix_accepted(text@)),
        uri_prefix matches Some(text) ==> (resolved.contents() matches Ok(kept) ==> kept@
            == text@),
{
    match uri_prefix {
        Some(uri_prefix) => {
            if is_accepted_prefix(uri_prefix.as_str()) {
                ParameterSource::CliArg(Ok(uri_prefix))
            } else {
                ParameterSource::CliArg(Err(UriFailure))
            }
        },
        None => ParameterSource::Default(Ok(String::new())),
    }
}

impl HappyServerModel {
    /// Whether resolving this model needs the current working directory,
    /// which is the case exactly when no distribution directory is given.
    pub fn needs_current_dir(&self) -> (needed: bool)
        ensures
            needed == (self.distribution_dir is None),
    {
        self.distribution_dir.is_none()
    }

    /// Validates every field on its own. `current_dir` is the current working
    /// directory, or `None` where it could not be read.
    pub fn to_pre_model(self, current_dir: Option<PathBuf>) -> (pre: HappyServerPreModel)
        ensures
            pre@ == pre_model_of(self@, current_dir),
            pre@.well_formed(),
    {
        HappyServerPreModel {
            port: resolve_port(self.port),
            distribution_dir: resolve_distribution_dir(self.distribution_dir, current_dir),
            uri_prefix: resolve_uri_prefix(self.uri_prefix),
        }
    }

    /// # Form incomplete parameters.
    /// Completes the set of server parameters with default values and
    /// validates it, shows the validation result through `viewer`, and then
    /// makes the build plan from it.
    ///
    /// The first component is what the viewer answered. The second is the
    /// build plan exactly when every field passed validation; it does not
    /// depend on the viewer.
    pub fn to_happy_server_builder<V: HappyServerModelViewer>(
        self,
        current_dir: Option<PathBuf>,
        viewer: &mut V,
    ) -> (out: (WriteResult, Result<HappyServerBuilder, InvalidModel>))
        ensures
            V::shows_pre_model(
                old(viewer),
                pre_model_of(self@, current_dir),
                final(viewer),
                out.0,
            ),
            builder_view(out.1) == pre_model_of(self@, current_dir).plan(),
            out.1 matches Ok(builder) ==> builder.well_formed(),
    {
        let model = self.to_pre_model(current_dir);
        let output_result = viewer.output_server_pre_model(&model);
        let happy_server_builder_result = model.to_builder();
        (output_result, happy_server_builder_result)
    }
}

/// The view of a build plan that may be missing.
pub open spec fn builder_view(
    builder: Result<HappyServerBuilder, InvalidModel>,
) -> Option<HappyServerBuilderView> {
    match builder {
        Ok(builder) => Some(builder@),
        Err(_) => None,
    }
}

impl HappyServerPreModel {
    /// Makes the build plan: one exists exactly when every field passed
    /// validation. It binds all interfaces on the validated port, serves the
    /// validated directory under the validated prefix, and carries no TLS
    /// material.
    pub fn to_builder(&self) -> (builder: Result<HappyServerBuilder, InvalidModel>)
        ensures
            builder_view(builder) == self@.plan(),
            builder is Ok <==> self@.all_ok(),
            self@.well_formed() ==> (builder matches Ok(plan) ==> plan.well_formed()),
    {
        match (&self.port, self.distribution_dir.contents_ref(), self.uri_prefix.contents_ref()) {
            (Ok(port), Ok(path), Ok(uri_prefix)) => Ok(
                HappyServerBuilder {
                    socket_addr: BindAddress { octets: DEFAULT_IPV4_ADDR, port: *port },
                    distribution_dir: path.clone(),
                    uri_prefix: uri_prefix.clone(),
                    ssl: None,
                },
            ),
            _ => Err(InvalidModel),
        }
    }
}

} // verus!
