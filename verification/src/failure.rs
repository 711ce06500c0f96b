//! The fatal conditions of a reconciliation run.

use vstd::prelude::*;

verus! {

/// Why a configuration cannot be applied as written.
#[derive(Debug, Clone)]
pub enum ConfigurationError {
    /// A placeholder is left in a value after substitution.
    UnresolvedVariable { template: String },
    /// The substitution variables cannot be used: a name or a value holds
    /// `$`, `{` or `}`.
    InvalidVariables,
    /// A user entry names the administrator's login.
    ReservedLogin { login: String },
    /// The server answered a membership query with more than one page.
    UnsupportedPagination { login: String },
    /// No absolute URL can be made of the server address and this path.
    InvalidUrl { url: String },
}

/// A fatal condition. None is recovered from inside the library.
#[derive(Debug, Clone)]
pub enum SonarFailure {
    /// The readiness probe used up its attempts.
    Unreachable { attempts: usize },
    /// No candidate password was accepted for this user.
    AuthenticationFailed { username: String },
    /// The server answered outside the 2xx range.
    Api { status: u16, messages: Vec<String>, context: String },
    /// A successful answer did not have the expected shape.
    Deserialization { context: String },
    /// The request got no answer at all.
    Transport { context: String },
    /// The configuration is unusable.
    Configuration(ConfigurationError),
}

/// The model of a [`ConfigurationError`].
pub enum ConfigurationErrorView {
    UnresolvedVariable { template: Seq<char> },
    InvalidVariables,
    ReservedLogin { login: Seq<char> },
    UnsupportedPagination { login: Seq<char> },
    InvalidUrl { url: Seq<char> },
}

/// The model of a [`SonarFailure`].
pub enum SonarFailureView {
    Unreachable { attempts: nat },
    AuthenticationFailed { username: Seq<char> },
    Api { status: u16, messages: Seq<Seq<char>>, context: Seq<char> },
    Deserialization { context: Seq<char> },
    Transport { context: Seq<char> },
    Configuration(ConfigurationErrorView),
}

impl View for ConfigurationError {
    type V = ConfigurationErrorView;

    open spec fn view(&self) -> ConfigurationErrorView {
        match *self {
            ConfigurationError::UnresolvedVariable { template } => {
                ConfigurationErrorView::UnresolvedVariable { template: template@ }
            },
            ConfigurationError::InvalidVariables => ConfigurationErrorView::InvalidVariables,
            ConfigurationError::ReservedLogin { login } => {
                ConfigurationErrorView::ReservedLogin { login: login@ }
            },
            ConfigurationError::UnsupportedPagination { login } => {
                ConfigurationErrorView::UnsupportedPagination { login: login@ }
            },
            ConfigurationError::InvalidUrl { url } => ConfigurationErrorView::InvalidUrl {
                url: url@,
            },
        }
    }
}

impl View for SonarFailure {
    type V = SonarFailureView;

    open spec fn view(&self) -> SonarFailureView {
        match *self {
            SonarFailure::Unreachable { attempts } => SonarFailureView::Unreachable {
                attempts: attempts as nat,
            },
            SonarFailure::AuthenticationFailed { username } => {
                SonarFailureView::AuthenticationFailed { username: username@ }
            },
            SonarFailure::Api { status, messages, context } => SonarFailureView::Api {
                status,
                messages: messages.deep_view(),
                context: context@,
            },
            SonarFailure::Deserialization { context } => SonarFailureView::Deserialization {
                context: context@,
            },
            SonarFailure::Transport { context } => SonarFailureView::Transport {
                context: context@,
            },
            SonarFailure::Configuration(error) => SonarFailureView::Configuration(error@),
        }
    }
}

impl DeepView for SonarFailure {
    type V = SonarFailureView;

    open spec fn deep_view(&self) -> SonarFailureView {
        self@
    }
}

} // verus!
