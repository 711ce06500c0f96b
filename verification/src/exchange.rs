//! Requests, replies and the step an operation takes between them.

use vstd::prelude::*;
use crate::failure::{SonarFailure, SonarFailureView};
use crate::sonar_api_model::{
    SonarAuthenticationValidationResult, SonarErrors, SonarGeneratedToken, SonarGroups,
    SonarPermissionTemplates, SonarUserGroups, SonarUsers,
};

verus! {

/// The two verbs of the administrative API.
#[derive(Debug, Clone, Copy, PartialEq, Eq, Structural)]
pub enum HttpMethod {
    Get,
    Post,
}

/// The endpoints the engine talks to.
#[derive(Debug, Clone, Copy, PartialEq, Eq, Structural)]
pub enum Endpoint {
    ServerVersion,
    AuthenticationValidate,
    SettingsSet,
    UserGroupsSearch,
    UserGroupsCreate,
    UserGroupsUpdate,
    PermissionsSearchTemplates,
    PermissionsAddGroupToTemplate,
    PermissionsRemoveGroupFromTemplate,
    UsersSearch,
    UsersCreate,
    UsersUpdate,
    UsersChangePassword,
    UsersGroups,
    UserGroupsAddUser,
    UserGroupsRemoveUser,
    UserTokensGenerate,
}

impl Endpoint {
    /// The path of the endpoint below the server's address.
    pub open spec fn spec_path(self) -> Seq<char> {
        match self {
            Endpoint::ServerVersion => "/api/server/version"@,
            Endpoint::AuthenticationValidate => "/api/authentication/validate"@,
            Endpoint::SettingsSet => "/api/settings/set"@,
            Endpoint::UserGroupsSearch => "/api/user_groups/search"@,
            Endpoint::UserGroupsCreate => "/api/user_groups/create"@,
            Endpoint::UserGroupsUpdate => "/api/user_groups/update"@,
            Endpoint::PermissionsSearchTemplates => "/api/permissions/search_templates"@,
            Endpoint::PermissionsAddGroupToTemplate => "/api/permissions/add_group_to_template"@,
            Endpoint::PermissionsRemoveGroupFromTemplate => {
                "/api/permissions/remove_group_from_template"@
            },
            Endpoint::UsersSearch => "/api/users/search"@,
            Endpoint::UsersCreate => "/api/users/create"@,
            Endpoint::UsersUpdate => "/api/users/update"@,
            Endpoint::UsersChangePassword => "/api/users/change_password"@,
            Endpoint::UsersGroups => "/api/users/groups"@,
            Endpoint::UserGroupsAddUser => "/api/user_groups/add_user"@,
            Endpoint::UserGroupsRemoveUser => "/api/user_groups/remove_user"@,
            Endpoint::UserTokensGenerate => "/api/user_tokens/generate"@,
        }
    }

    /// The same path as text to send.
    pub fn path(self) -> (text: &'static str)
        ensures
            text@ == self.spec_path(),
    {
        match self {
            Endpoint::ServerVersion => "/api/server/version",
            Endpoint::AuthenticationValidate => "/api/authentication/validate",
            Endpoint::SettingsSet => "/api/settings/set",
            Endpoint::UserGroupsSearch => "/api/user_groups/search",
            Endpoint::UserGroupsCreate => "/api/user_groups/create",
            Endpoint::UserGroupsUpdate => "/api/user_groups/update",
            Endpoint::PermissionsSearchTemplates => "/api/permissions/search_templates",
            Endpoint::PermissionsAddGroupToTemplate => "/api/permissions/add_group_to_template",
            Endpoint::PermissionsRemoveGroupFromTemplate => {
                "/api/permissions/remove_group_from_template"
            },
            Endpoint::UsersSearch => "/api/users/search",
            Endpoint::UsersCreate => "/api/users/create",
            Endpoint::UsersUpdate => "/api/users/update",
            Endpoint::UsersChangePassword => "/api/users/change_password",
            Endpoint::UsersGroups => "/api/users/groups",
            Endpoint::UserGroupsAddUser => "/api/user_groups/add_user",
            Endpoint::UserGroupsRemoveUser => "/api/user_groups/remove_user",
            Endpoint::UserTokensGenerate => "/api/user_tokens/generate",
        }
    }
}

/// A request, ready to be sent.
#[derive(Debug, Clone)]
pub struct HttpRequest {
    pub method: HttpMethod,
    pub endpoint: Endpoint,
    /// The query parameters, in order and not yet escaped.
    pub params: Vec<(String, String)>,
    /// The absolute URL, query included and escaped.
    pub url: String,
    /// User name and password for HTTP Basic authentication, if any is sent.
    pub credentials: Option<(String, String)>,
    /// How long to wait before sending, in milliseconds.
    pub delay_millis: u64,
}

/// The model of an [`HttpRequest`].
pub struct HttpRequestView {
    pub method: HttpMethod,
    pub endpoint: Endpoint,
    pub params: Seq<(Seq<char>, Seq<char>)>,
    pub url: Seq<char>,
    pub credentials: Option<(Seq<char>, Seq<char>)>,
    pub delay_millis: u64,
}

impl View for HttpRequest {
    type V = HttpRequestView;

    open spec fn view(&self) -> HttpRequestView {
        HttpRequestView {
            method: self.method,
            endpoint: self.endpoint,
            params: self.params.deep_view(),
            url: self.url@,
            credentials: self.credentials.deep_view(),
            delay_millis: self.delay_millis,
        }
    }
}

impl DeepView for HttpRequest {
    type V = HttpRequestView;

    open spec fn deep_view(&self) -> HttpRequestView {
        self@
    }
}

/// The body of an answer, already decoded by the caller into the shape that
/// the endpoint answers with.
#[derive(Debug, Clone)]
pub enum Payload {
    /// The body was not looked at.
    Empty,
    /// The body could not be decoded into the expected shape.
    Malformed,
    Groups(SonarGroups),
    Users(SonarUsers),
    UserGroups(SonarUserGroups),
    PermissionTemplates(SonarPermissionTemplates),
    GeneratedToken(SonarGeneratedToken),
    Validation(SonarAuthenticationValidationResult),
    Errors(SonarErrors),
}

/// What came back for one request.
#[derive(Debug, Clone)]
pub enum Reply {
    /// Nothing came back: the request failed in transport.
    Lost,
    /// The server answered.
    Received { status: u16, body: Payload },
}

/// What the server said is its own model: its texts are read through their
/// views where they are compared.
impl DeepView for Reply {
    type V = Reply;

    open spec fn deep_view(&self) -> Reply {
        *self
    }
}

/// Whether a status code is in the 2xx range.
pub open spec fn spec_is_success(status: u16) -> bool {
    200 <= status < 300
}

#[verifier::when_used_as_spec(spec_is_success)]
pub fn is_success(status: u16) -> (success: bool)
    ensures
        success == spec_is_success(status),
{
    200 <= status && status < 300
}

impl Reply {
    /// The server answered in the 2xx range.
    pub open spec fn succeeded(&self) -> bool {
        *self matches Reply::Received { status, .. } && is_success(status)
    }
}

impl DeepView for Payload {
    type V = Payload;

    open spec fn deep_view(&self) -> Payload {
        *self
    }
}

/// The step an operation takes, given the replies to its requests so far.
#[derive(Debug, Clone)]
pub enum Step<T> {
    /// Send this request and come back with its reply appended.
    Send(HttpRequest),
    /// Finished with this value. The count says how many of the replies
    /// the operation used, from the front.
    Done(T, usize),
    /// Give up.
    Fail(SonarFailure),
}

/// The model of a [`Step`].
pub enum Outcome<V> {
    Send(HttpRequestView),
    Done(V, nat),
    Fail(SonarFailureView),
}

impl<T: DeepView> View for Step<T> {
    type V = Outcome<T::V>;

    open spec fn view(&self) -> Outcome<T::V> {
        match *self {
            Step::Send(request) => Outcome::Send(request@),
            Step::Done(value, used) => Outcome::Done(value.deep_view(), used as nat),
            Step::Fail(failure) => Outcome::Fail(failure@),
        }
    }
}

impl<V> Outcome<V> {
    /// The same outcome for an operation that began `before` replies earlier.
    pub open spec fn after(self, before: nat) -> Outcome<V> {
        match self {
            Outcome::Done(value, used) => Outcome::Done(value, before + used),
            other => other,
        }
    }

    /// This operation and then the next one, which is given the value of
    /// this one and the number of replies it used.
    pub open spec fn and_then<W>(self, next: spec_fn(V, nat) -> Outcome<W>) -> Outcome<W> {
        match self {
            Outcome::Send(request) => Outcome::Send(request),
            Outcome::Fail(failure) => Outcome::Fail(failure),
            Outcome::Done(value, used) => next(value, used).after(used),
        }
    }

    /// The number of replies used; zero unless the operation is done.
    pub open spec fn used(self) -> nat {
        match self {
            Outcome::Done(_, used) => used,
            _ => 0,
        }
    }
}

/// Every item in turn, each on the replies that the earlier ones left over.
/// The first that does not finish ends the run.
pub open spec fn for_each<T>(
    items: Seq<T>,
    operation: spec_fn(T, Seq<Reply>) -> Outcome<()>,
    replies: Seq<Reply>,
) -> Outcome<()>
    decreases items.len(),
{
    if items.len() == 0 {
        Outcome::Done((), 0)
    } else {
        match operation(items[0], replies) {
            Outcome::Done(_, used) => for_each(
                items.skip(1),
                operation,
                replies.skip(used as int),
            ).after(used),
            other => other,
        }
    }
}

} // verus!
