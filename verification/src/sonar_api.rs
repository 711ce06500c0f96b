//! The client of the administrative API and the operations that bring the
//! server to the desired state.

use vstd::prelude::*;
use vstd::slice::slice_subrange;
use vstd::string::StringExecFns;
use crate::calls::{ApiCall, ApiCallView};
use crate::exchange::{
    is_success, HttpMethod, HttpRequest, HttpRequestView, Outcome, Payload, Reply, Step,
};
use crate::failure::{ConfigurationError, ConfigurationErrorView, SonarFailure, SonarFailureView};
use crate::sonar_api_model::{SonarErrors, SonarProperty};
use crate::text::copy_params;

mod groups;
mod session;
mod users;

verus! {

/// The names that the server gives a special meaning.
#[derive(Debug, Clone)]
pub struct SonarDefaults {
    /// The login of the administrator. No ordinary user may have it.
    pub admin_login: String,
    /// The group every account belongs to. Nobody is ever removed from it.
    pub default_group: String,
    /// The permission template that group permissions are bound in.
    pub default_template: String,
}

impl SonarDefaults {
    /// The names as a server has them out of the box.
    pub fn standard() -> (defaults: SonarDefaults)
        ensures
            defaults.admin_login@ == crate::ADMIN_USER@,
            defaults.default_group@ == crate::DEFAULT_GROUP@,
            defaults.default_template@ == crate::DEFAULT_TEMPLATE_NAME@,
    {
        SonarDefaults {
            admin_login: String::from_str(crate::ADMIN_USER),
            default_group: String::from_str(crate::DEFAULT_GROUP),
            default_template: String::from_str(crate::DEFAULT_TEMPLATE_NAME),
        }
    }
}

/// The client: where the server is and who is talking to it.
pub struct SonarApi {
    url: String,
    username: String,
    password: String,
    defaults: SonarDefaults,
}

/// The model of a [`SonarApi`].
pub struct SonarApiView {
    pub url: Seq<char>,
    pub username: Seq<char>,
    pub password: Seq<char>,
    pub admin_login: Seq<char>,
    pub default_group: Seq<char>,
    pub default_template: Seq<char>,
}

impl View for SonarApi {
    type V = SonarApiView;

    closed spec fn view(&self) -> SonarApiView {
        SonarApiView {
            url: self.url@,
            username: self.username@,
            password: self.password@,
            admin_login: self.defaults.admin_login@,
            default_group: self.defaults.default_group@,
            default_template: self.defaults.default_template@,
        }
    }
}

impl DeepView for SonarApi {
    type V = SonarApiView;

    open spec fn deep_view(&self) -> SonarApiView {
        self@
    }
}

/// What `reqwest::Url::parse_with_params` makes of an address and a list of
/// query parameters, as text; `None` where it refuses the address.
pub uninterp spec fn url_with_params(input: Seq<char>, params: Seq<(Seq<char>, Seq<char>)>) -> Option<Seq<char>>;

/// Calls `reqwest::Url::parse_with_params` and writes the URL out as text.
/// Trusted: the text is the one that [`url_with_params`] names for the same
/// address and parameters, and there is none exactly where the address does
/// not parse as an absolute URL.
#[verifier::external_body]
fn parse_with_params(input: &str, params: &Vec<(String, String)>) -> (text: Option<String>)
    ensures
        text.deep_view() == url_with_params(input@, params.deep_view()),
{
    match reqwest::Url::parse_with_params(input, params.iter()) {
        Ok(url) => Some(url.to_string()),
        Err(_) => None,
    }
}

/// The messages of an error body; none where the body is of another shape.
pub open spec fn messages_of(body: Payload) -> Seq<Seq<char>> {
    match body {
        Payload::Errors(SonarErrors { errors: Some(list) }) => Seq::new(
            list@.len(),
            |i: int| list@[i].msg@,
        ),
        _ => Seq::empty(),
    }
}

/// Why a reply does not count as a success; `None` where it does.
pub open spec fn refusal(reply: Reply, context: Seq<char>) -> Option<SonarFailureView> {
    match reply {
        Reply::Lost => Some(SonarFailureView::Transport { context }),
        Reply::Received { status, body } => if is_success(status) {
            None
        } else {
            Some(SonarFailureView::Api { status, messages: messages_of(body), context })
        },
    }
}

/// The body of a successful reply, or why there is none to read.
pub open spec fn decoded(reply: Reply, context: Seq<char>) -> Result<Payload, SonarFailureView> {
    match refusal(reply, context) {
        Some(failure) => Err(failure),
        None => match reply->body {
            Payload::Malformed => Err(SonarFailureView::Deserialization { context }),
            body => Ok(body),
        },
    }
}

impl SonarApiView {
    /// The request that carries a call to this server with the held
    /// credentials; `None` where no URL can be made for it.
    pub open spec fn request(self, method: HttpMethod, call: ApiCallView) -> Option<HttpRequestView> {
        match url_with_params(self.url + call.endpoint.spec_path(), call.params) {
            Some(url) => Some(
                HttpRequestView {
                    method,
                    endpoint: call.endpoint,
                    params: call.params,
                    url,
                    credentials: Some((self.username, self.password)),
                    delay_millis: 0,
                },
            ),
            None => None,
        }
    }

    /// One exchange: send the call, then hand over what came back.
    pub open spec fn execute(self, method: HttpMethod, call: ApiCallView, replies: Seq<Reply>) -> Outcome<Reply> {
        match self.request(method, call) {
            None => Outcome::Fail(
                SonarFailureView::Configuration(
                    ConfigurationErrorView::InvalidUrl { url: self.url + call.endpoint.spec_path() },
                ),
            ),
            Some(request) => if replies.len() == 0 {
                Outcome::Send(request)
            } else {
                Outcome::Done(replies[0], 1)
            },
        }
    }

    /// One posted call whose reply only has to be a success.
    pub open spec fn command(self, call: ApiCallView, replies: Seq<Reply>) -> Outcome<()> {
        match self.execute(HttpMethod::Post, call, replies) {
            Outcome::Send(request) => Outcome::Send(request),
            Outcome::Fail(failure) => Outcome::Fail(failure),
            Outcome::Done(reply, used) => match refusal(reply, call.context) {
                Some(failure) => Outcome::Fail(failure),
                None => Outcome::Done((), used),
            },
        }
    }

    /// One query: the decoded body of the reply to a call.
    pub open spec fn query(self, method: HttpMethod, call: ApiCallView, replies: Seq<Reply>) -> Outcome<Payload> {
        match self.execute(method, call, replies) {
            Outcome::Send(request) => Outcome::Send(request),
            Outcome::Fail(failure) => Outcome::Fail(failure),
            Outcome::Done(reply, used) => match decoded(reply, call.context) {
                Err(failure) => Outcome::Fail(failure),
                Ok(body) => Outcome::Done(body, used),
            },
        }
    }

    /// Commands one after the other, each on the replies the earlier ones
    /// left over. The first that does not succeed ends the sequence.
    pub open spec fn sequence(self, calls: Seq<ApiCallView>, replies: Seq<Reply>) -> Outcome<()>
        decreases calls.len(),
    {
        if calls.len() == 0 {
            Outcome::Done((), 0)
        } else {
            match self.command(calls[0], replies) {
                Outcome::Done(_, used) => self.sequence(calls.skip(1), replies.skip(used as int)).after(used),
                other => other,
            }
        }
    }

    /// Sets one server setting, whatever it was before.
    pub open spec fn set_property(self, property: SonarProperty, replies: Seq<Reply>) -> Outcome<()> {
        self.command(ApiCallView::set_setting(property.name@, property.value@), replies)
    }
}

/// A copy of the messages of an error body.
fn messages(body: &Payload) -> (list: Vec<String>)
    ensures
        list.deep_view() == messages_of(*body),
{
    let mut list: Vec<String> = Vec::new();
    if let Payload::Errors(SonarErrors { errors: Some(errors) }) = body {
        let mut i: usize = 0;
        while i < errors.len()
            invariant
                i <= errors.len(),
                list.len() == i,
                forall|j: int| 0 <= j < i ==> list@[j]@ == errors@[j].msg@,
            decreases errors.len() - i,
        {
            list.push(errors[i].msg.clone());
            i += 1;
        }
    }
    assert(list.deep_view() =~= messages_of(*body));
    list
}

impl SonarApi {
    /// The absolute URL of a path on this server with the given query
    /// parameters, escaped; `None` where the server's address is no URL.
    fn build_url(&self, path: &str, params: &Vec<(String, String)>) -> (url: Option<String>)
        ensures
            url.deep_view() == url_with_params(self@.url + path@, params.deep_view()),
    {
        let address = String::from_str(self.url.as_str()).concat(path);
        parse_with_params(address.as_str(), params)
    }

    /// One exchange over the wire: the request for a call while nothing has
    /// come back, the reply once it is there.
    fn execute<'a>(&self, method: HttpMethod, call: &ApiCall, replies: &'a [Reply]) -> (step: Step<&'a Reply>)
        ensures
            step@ == self@.execute(method, call@, replies@),
            step@.used() <= replies@.len(),
    {
        match self.build_url(call.endpoint.path(), &call.params) {
            None => Step::Fail(
                SonarFailure::Configuration(
                    ConfigurationError::InvalidUrl {
                        url: String::from_str(self.url.as_str()).concat(call.endpoint.path()),
                    },
                ),
            ),
            Some(url) => if replies.len() == 0 {
                Step::Send(
                    HttpRequest {
                        method,
                        endpoint: call.endpoint,
                        params: copy_params(&call.params),
                        url,
                        credentials: Some((self.username.clone(), self.password.clone())),
                        delay_millis: 0,
                    },
                )
            } else {
                Step::Done(&replies[0], 1)
            },
        }
    }

    /// An exchange with `GET`.
    fn execute_get<'a>(&self, call: &ApiCall, replies: &'a [Reply]) -> (step: Step<&'a Reply>)
        ensures
            step@ == self@.execute(HttpMethod::Get, call@, replies@),
            step@.used() <= replies@.len(),
    {
        self.execute(HttpMethod::Get, call, replies)
    }

    /// An exchange with `POST`.
    fn execute_post<'a>(&self, call: &ApiCall, replies: &'a [Reply]) -> (step: Step<&'a Reply>)
        ensures
            step@ == self@.execute(HttpMethod::Post, call@, replies@),
            step@.used() <= replies@.len(),
    {
        self.execute(HttpMethod::Post, call, replies)
    }

    /// Accepts a reply in the 2xx range and turns any other into the failure
    /// to report, under the caller's words.
    pub fn assert_response(reply: &Reply, msg: &str) -> (verdict: Result<(), SonarFailure>)
        ensures
            match verdict {
                Ok(_) => refusal(*reply, msg@) is None,
                Err(failure) => refusal(*reply, msg@) == Some(failure@),
            },
    {
        match reply {
            Reply::Lost => Err(SonarFailure::Transport { context: String::from_str(msg) }),
            Reply::Received { status, body } => if is_success(*status) {
                Ok(())
            } else {
                Err(
                    SonarFailure::Api {
                        status: *status,
                        messages: messages(body),
                        context: String::from_str(msg),
                    },
                )
            },
        }
    }

    /// Accepts a reply in the 2xx range whose body was decoded, and hands
    /// the body over; turns any other into the failure to report.
    pub fn assert_deserialize_response<'a>(reply: &'a Reply, msg: &str) -> (verdict: Result<&'a Payload, SonarFailure>)
        ensures
            match verdict {
                Ok(body) => decoded(*reply, msg@) == Ok::<Payload, SonarFailureView>(*body),
                Err(failure) => decoded(*reply, msg@) == Err::<Payload, SonarFailureView>(failure@),
            },
    {
        match Self::assert_response(reply, msg) {
            Err(failure) => Err(failure),
            Ok(_) => match reply {
                Reply::Lost => Err(SonarFailure::Transport { context: String::from_str(msg) }),
                Reply::Received { status: _, body } => match body {
                    Payload::Malformed => Err(
                        SonarFailure::Deserialization { context: String::from_str(msg) },
                    ),
                    _ => Ok(body),
                },
            },
        }
    }

    /// Posts one call and asks only that it succeeds.
    fn command(&self, call: &ApiCall, replies: &[Reply]) -> (step: Step<()>)
        ensures
            step@ == self@.command(call@, replies@),
            step@.used() <= replies@.len(),
    {
        match self.execute_post(call, replies) {
            Step::Send(request) => Step::Send(request),
            Step::Fail(failure) => Step::Fail(failure),
            Step::Done(reply, used) => match Self::assert_response(reply, call.context.as_str()) {
                Err(failure) => Step::Fail(failure),
                Ok(_) => Step::Done((), used),
            },
        }
    }

    /// Sends one query and decodes its answer.
    fn query<'a>(&self, method: HttpMethod, call: &ApiCall, replies: &'a [Reply]) -> (step: Step<&'a Payload>)
        ensures
            step@ == self@.query(method, call@, replies@),
            step@.used() <= replies@.len(),
    {
        let exchange = match method {
            HttpMethod::Get => self.execute_get(call, replies),
            HttpMethod::Post => self.execute_post(call, replies),
        };
        match exchange {
            Step::Send(request) => Step::Send(request),
            Step::Fail(failure) => Step::Fail(failure),
            Step::Done(reply, used) => match Self::assert_deserialize_response(reply, call.context.as_str()) {
                Err(failure) => Step::Fail(failure),
                Ok(body) => Step::Done(body, used),
            },
        }
    }

    /// Posts the calls one after the other.
    fn sequence(&self, calls: &Vec<ApiCall>, replies: &[Reply]) -> (step: Step<()>)
        ensures
            step@ == self@.sequence(calls.deep_view(), replies@),
            step@.used() <= replies@.len(),
    {
        let mut i: usize = 0;
        let mut position: usize = 0;
        proof {
            assert(calls.deep_view().skip(0) =~= calls.deep_view());
            assert(replies@.skip(0) =~= replies@);
        }
        while i < calls.len()
            invariant
                i <= calls.len(),
                position <= replies.len(),
                self@.sequence(calls.deep_view(), replies@) == self@.sequence(
                    calls.deep_view().skip(i as int),
                    replies@.skip(position as int),
                ).after(position as nat),
            decreases calls.len() - i,
        {
            let rest = slice_subrange(replies, position, replies.len());
            proof {
                assert(calls.deep_view().skip(i as int)[0] == calls@[i as int]@);
                assert(calls.deep_view().skip(i as int).skip(1) =~= calls.deep_view().skip(i + 1));
            }
            match self.command(&calls[i], rest) {
                Step::Send(request) => {
                    return Step::Send(request);
                },
                Step::Fail(failure) => {
                    return Step::Fail(failure);
                },
                Step::Done(_, used) => {
                    proof {
                        assert(replies@.skip(position as int).skip(used as int) =~= replies@.skip(
                            position + used,
                        ));
                    }
                    position = position + used;
                },
            }
            i += 1;
        }
        Step::Done((), position)
    }

    /// Sets one server setting. There is nothing to look up first: setting
    /// a value twice leaves it as it is.
    pub fn set_property(&self, property: &SonarProperty, replies: &[Reply]) -> (step: Step<()>)
        ensures
            step@ == self@.set_property(*property, replies@),
            step@.used() <= replies@.len(),
    {
        let call = ApiCall::set_setting(property.name.as_str(), property.value.as_str());
        self.command(&call, replies)
    }
}

/// The candidate passwords of an account, in the order to try them. An
/// absent candidate is passed over.
#[derive(Debug, Clone)]
pub struct PasswordProvider {
    pub strategies: Vec<Option<String>>,
}

impl PasswordProvider {
    /// One candidate only.
    pub fn specific_password(password: String) -> (provider: PasswordProvider)
        ensures
            provider.strategies.deep_view() == seq![Some(password@)],
    {
        let mut strategies: Vec<Option<String>> = Vec::new();
        strategies.push(Some(password));
        assert(strategies.deep_view() =~= seq![Some(password@)]);
        PasswordProvider { strategies }
    }

    /// A first candidate and one to fall back on.
    pub fn password_or_fallback(password: Option<String>, fallback_password: Option<String>) -> (provider: PasswordProvider)
        ensures
            provider.strategies.deep_view() == seq![
                password.deep_view(),
                fallback_password.deep_view(),
            ],
    {
        let mut strategies: Vec<Option<String>> = Vec::new();
        let ghost first = password.deep_view();
        let ghost second = fallback_password.deep_view();
        strategies.push(password);
        strategies.push(fallback_password);
        assert(strategies.deep_view() =~= seq![first, second]);
        PasswordProvider { strategies }
    }
}

/// The pause between two probes of the server, in milliseconds.
pub const PROBE_INTERVAL_MILLIS: u64 = 1000;

/// What the server says of a candidate password.
pub enum Verdict {
    /// The server answered that the credentials are valid.
    Valid,
    /// The server answered otherwise, refused to answer, or was not reached.
    Rejected,
    /// The server answered with a success, but not in the shape of a
    /// credential check.
    Broken,
}

/// How the reply to a credential check is read.
pub open spec fn verdict_of(reply: Reply) -> Verdict {
    match reply {
        Reply::Received { status, body } => if is_success(status) {
            match body {
                Payload::Validation(result) => if result.valid {
                    Verdict::Valid
                } else {
                    Verdict::Rejected
                },
                _ => Verdict::Broken,
            }
        } else {
            Verdict::Rejected
        },
        Reply::Lost => Verdict::Rejected,
    }
}

/// The address of a server without the slash it may end in.
pub open spec fn base_url(url: Seq<char>) -> Seq<char> {
    if url.len() > 0 && url.last() == '/' {
        url.drop_last()
    } else {
        url
    }
}

} // verus!
