//! The connection to the server, the account the client acts as, and the
//! tokens it mints.

use vstd::prelude::*;
use vstd::slice::slice_subrange;
use vstd::string::StringExecFns;
use crate::calls::{ApiCall, ApiCallView};
use crate::exchange::{
    is_success, Endpoint, HttpMethod, HttpRequest, HttpRequestView, Outcome, Payload, Reply, Step,
};
use crate::failure::{SonarFailure, SonarFailureView};
use crate::sonar_api::{
    base_url, verdict_of, PasswordProvider, SonarApi, SonarApiView, SonarDefaults, Verdict,
    PROBE_INTERVAL_MILLIS,
};
use crate::sonar_api_model::SonarAdminUpdateRequest;

verus! {

impl SonarApiView {
    /// The probe of a server: an unauthenticated request for its version.
    pub open spec fn probe(url: Seq<char>, delay_millis: u64) -> HttpRequestView {
        HttpRequestView {
            method: HttpMethod::Get,
            endpoint: Endpoint::ServerVersion,
            params: Seq::empty(),
            url: url + Endpoint::ServerVersion.spec_path(),
            credentials: None,
            delay_millis,
        }
    }

    /// Probing from the attempt numbered `tried`, all earlier ones having
    /// failed.
    pub open spec fn wait_ready_from(url: Seq<char>, attempts: nat, replies: Seq<Reply>, tried: nat) -> Outcome<()>
        decreases attempts - tried,
    {
        if tried >= attempts {
            Outcome::Fail(SonarFailureView::Unreachable { attempts })
        } else if tried >= replies.len() {
            Outcome::Send(Self::probe(url, if tried == 0 { 0 } else { PROBE_INTERVAL_MILLIS }))
        } else if replies[tried as int].succeeded() {
            Outcome::Done((), tried + 1)
        } else {
            Self::wait_ready_from(url, attempts, replies, tried + 1)
        }
    }

    /// Probes the server until it answers with a success, at most
    /// `attempts` times, pausing before every probe but the first.
    pub open spec fn wait_ready(url: Seq<char>, attempts: nat, replies: Seq<Reply>) -> Outcome<()> {
        Self::wait_ready_from(url, attempts, replies, 0)
    }

    /// The credential check of one candidate password.
    pub open spec fn validation(url: Seq<char>, username: Seq<char>, password: Seq<char>) -> HttpRequestView {
        HttpRequestView {
            method: HttpMethod::Get,
            endpoint: Endpoint::AuthenticationValidate,
            params: Seq::empty(),
            url: url + Endpoint::AuthenticationValidate.spec_path(),
            credentials: Some((username, password)),
            delay_millis: 0,
        }
    }

    /// Tries the candidates in order, one request for each that is present,
    /// and settles on the first that the server calls valid.
    pub open spec fn find_password(
        url: Seq<char>,
        username: Seq<char>,
        candidates: Seq<Option<Seq<char>>>,
        replies: Seq<Reply>,
    ) -> Outcome<Seq<char>>
        decreases candidates.len(),
    {
        if candidates.len() == 0 {
            Outcome::Fail(SonarFailureView::AuthenticationFailed { username })
        } else {
            match candidates[0] {
                None => Self::find_password(url, username, candidates.skip(1), replies),
                Some(password) => if replies.len() == 0 {
                    Outcome::Send(Self::validation(url, username, password))
                } else {
                    match verdict_of(replies[0]) {
                        Verdict::Valid => Outcome::Done(password, 1),
                        Verdict::Broken => Outcome::Fail(
                            SonarFailureView::Deserialization {
                                context: "Cannot deserialize authentication check result."@,
                            },
                        ),
                        Verdict::Rejected => Self::find_password(
                            url,
                            username,
                            candidates.skip(1),
                            replies.skip(1),
                        ).after(1),
                    }
                },
            }
        }
    }

    /// Connects: waits for the server, then finds the password that works.
    pub open spec fn connect(
        url: Seq<char>,
        username: Seq<char>,
        candidates: Seq<Option<Seq<char>>>,
        attempts: nat,
        defaults: SonarDefaults,
        replies: Seq<Reply>,
    ) -> Outcome<SonarApiView> {
        let base = base_url(url);
        Self::wait_ready(base, attempts, replies).and_then(
            |unit: (), waited: nat|
                Self::find_password(base, username, candidates, replies.skip(waited as int)).and_then(
                    |password: Seq<char>, tried: nat|
                        Outcome::Done(
                            SonarApiView {
                                url: base,
                                username,
                                password,
                                admin_login: defaults.admin_login@,
                                default_group: defaults.default_group@,
                                default_template: defaults.default_template@,
                            },
                            0,
                        ),
                ),
        )
    }

    /// The same client holding another password.
    pub open spec fn with_password(self, password: Seq<char>) -> SonarApiView {
        SonarApiView { password, ..self }
    }

    /// Changes the password of the account the client acts as, unless it is
    /// the one already held.
    pub open spec fn change_current_user_password(self, password: Seq<char>, replies: Seq<Reply>) -> Outcome<()> {
        if self.password == password {
            Outcome::Done((), 0)
        } else {
            self.command(
                ApiCallView::change_own_password(self.username, password, self.password),
                replies,
            )
        }
    }

    /// Applies what should change on the administrator's account.
    pub open spec fn update_admin(self, update_request: SonarAdminUpdateRequest, replies: Seq<Reply>) -> Outcome<()> {
        match update_request.password {
            Some(password) => self.change_current_user_password(password@, replies),
            None => Outcome::Done((), 0),
        }
    }

    /// The password held once a change of the own password has come this
    /// far: the new one as soon as the server has accepted it.
    pub open spec fn password_after(self, password: Seq<char>, replies: Seq<Reply>) -> Seq<char> {
        if self.change_current_user_password(password, replies) is Done {
            password
        } else {
            self.password
        }
    }

    /// Mints an API token for a user and hands its text over.
    pub open spec fn generate_user_token(self, user: Seq<char>, name: Seq<char>, replies: Seq<Reply>) -> Outcome<Seq<char>> {
        let call = ApiCallView::generate_token(user, name);
        self.query(HttpMethod::Post, call, replies).and_then(
            |body: Payload, used: nat|
                match body {
                    Payload::GeneratedToken(minted) => Outcome::Done(minted.token@, 0),
                    _ => Outcome::Fail(SonarFailureView::Deserialization { context: call.context }),
                },
        )
    }
}

/// An empty list of query parameters.
fn no_params() -> (params: Vec<(String, String)>)
    ensures
        params.deep_view() == Seq::<(Seq<char>, Seq<char>)>::empty(),
{
    let params: Vec<(String, String)> = Vec::new();
    assert(params.deep_view() =~= Seq::empty());
    params
}

/// Strips the slash a server address may end in.
fn without_trailing_slash(url: String) -> (base: String)
    ensures
        base@ == base_url(url@),
{
    let length = url.as_str().unicode_len();
    if length > 0 && url.as_str().get_char(length - 1) == '/' {
        String::from_str(url.as_str().substring_char(0, length - 1))
    } else {
        url
    }
}

impl SonarApi {
    /// A client for the server at `url` that acts as `username`. A slash at
    /// the end of the address is dropped.
    pub fn with_credentials(url: String, username: String, password: String, defaults: SonarDefaults) -> (api: SonarApi)
        ensures
            api@ == (SonarApiView {
                url: base_url(url@),
                username: username@,
                password: password@,
                admin_login: defaults.admin_login@,
                default_group: defaults.default_group@,
                default_template: defaults.default_template@,
            }),
    {
        SonarApi { url: without_trailing_slash(url), username, password, defaults }
    }

    /// Probes the server this client is for until it answers.
    pub fn wait_until_ready(&self, number_attempts: usize, replies: &[Reply]) -> (step: Step<()>)
        ensures
            step@ == SonarApiView::wait_ready(self@.url, number_attempts as nat, replies@),
            step@.used() <= replies@.len(),
    {
        Self::wait_ready(&self.url, number_attempts, replies)
    }

    /// Connects to the server at `url` as `username`: waits until the
    /// server answers, then tries the candidate passwords in order and
    /// holds the first that the server accepts.
    pub fn new(
        url: String,
        username: String,
        _password_provider: PasswordProvider,
        number_attempts: usize,
        defaults: SonarDefaults,
        replies: &[Reply],
    ) -> (step: Step<SonarApi>)
        ensures
            step@ == SonarApiView::connect(
                url@,
                username@,
                _password_provider.strategies.deep_view(),
                number_attempts as nat,
                defaults,
                replies@,
            ),
            step@.used() <= replies@.len(),
    {
        let base_url = without_trailing_slash(url);
        let waited = match Self::wait_ready(&base_url, number_attempts, replies) {
            Step::Send(request) => {
                return Step::Send(request);
            },
            Step::Fail(failure) => {
                return Step::Fail(failure);
            },
            Step::Done(_, used) => used,
        };
        let rest = slice_subrange(replies, waited, replies.len());
        match Self::find_password(&base_url, &username, _password_provider, rest) {
            Step::Send(request) => Step::Send(request),
            Step::Fail(failure) => Step::Fail(failure),
            Step::Done(password, used) => Step::Done(
                SonarApi { url: base_url, username, password, defaults },
                waited + used,
            ),
        }
    }

    /// Probes the server until it answers with a success. The probe is sent
    /// at most `number_attempts` times, with a pause before every one but
    /// the first; a lost request or an answer outside the 2xx range means
    /// "not yet".
    pub fn wait_ready(url: &String, number_attempts: usize, replies: &[Reply]) -> (step: Step<()>)
        ensures
            step@ == SonarApiView::wait_ready(url@, number_attempts as nat, replies@),
            step@.used() <= replies@.len(),
    {
        let mut attempt: usize = 0;
        while attempt < number_attempts && attempt < replies.len()
            invariant
                attempt <= number_attempts,
                attempt <= replies.len(),
                SonarApiView::wait_ready(url@, number_attempts as nat, replies@)
                    == SonarApiView::wait_ready_from(
                    url@,
                    number_attempts as nat,
                    replies@,
                    attempt as nat,
                ),
            decreases number_attempts - attempt,
        {
            if let Reply::Received { status, body: _ } = &replies[attempt] {
                if is_success(*status) {
                    return Step::Done((), attempt + 1);
                }
            }
            attempt += 1;
        }
        if attempt >= number_attempts {
            Step::Fail(SonarFailure::Unreachable { attempts: number_attempts })
        } else {
            let mut address = url.clone();
            address.append(Endpoint::ServerVersion.path());
            Step::Send(
                HttpRequest {
                    method: HttpMethod::Get,
                    endpoint: Endpoint::ServerVersion,
                    params: no_params(),
                    url: address,
                    credentials: None,
                    delay_millis: if attempt == 0 {
                        0
                    } else {
                        PROBE_INTERVAL_MILLIS
                    },
                },
            )
        }
    }

    /// Finds the password that the server accepts for `username` among the
    /// candidates, trying them in order. A candidate that the server does
    /// not call valid is passed over, whatever the reason.
    pub fn find_password(url: &String, username: &String, _password_provider: PasswordProvider, replies: &[Reply]) -> (step: Step<String>)
        ensures
            step@ == SonarApiView::find_password(
                url@,
                username@,
                _password_provider.strategies.deep_view(),
                replies@,
            ),
            step@.used() <= replies@.len(),
    {
        let ghost candidates = _password_provider.strategies.deep_view();
        let strategies = &_password_provider.strategies;
        let mut i: usize = 0;
        let mut position: usize = 0;
        proof {
            assert(candidates.skip(0) =~= candidates);
            assert(replies@.skip(0) =~= replies@);
        }
        while i < strategies.len()
            invariant
                i <= strategies.len(),
                position <= replies.len(),
                *strategies == _password_provider.strategies,
                candidates == strategies.deep_view(),
                SonarApiView::find_password(url@, username@, candidates, replies@)
                    == SonarApiView::find_password(
                    url@,
                    username@,
                    candidates.skip(i as int),
                    replies@.skip(position as int),
                ).after(position as nat),
            decreases strategies.len() - i,
        {
            proof {
                assert(candidates.skip(i as int)[0] == strategies@[i as int].deep_view());
                assert(candidates.skip(i as int).skip(1) =~= candidates.skip(i + 1));
            }
            if let Some(password) = &strategies[i] {
                if position >= replies.len() {
                    let mut address = url.clone();
                    address.append(Endpoint::AuthenticationValidate.path());
                    return Step::Send(
                        HttpRequest {
                            method: HttpMethod::Get,
                            endpoint: Endpoint::AuthenticationValidate,
                            params: no_params(),
                            url: address,
                            credentials: Some((username.clone(), password.clone())),
                            delay_millis: 0,
                        },
                    );
                }
                proof {
                    assert(replies@.skip(position as int)[0] == replies@[position as int]);
                    assert(replies@.skip(position as int).skip(1) =~= replies@.skip(position + 1));
                }
                if let Reply::Received { status, body } = &replies[position] {
                    if is_success(*status) {
                        match body {
                            Payload::Validation(result) => {
                                if result.valid {
                                    return Step::Done(password.clone(), position + 1);
                                }
                            },
                            _ => {
                                return Step::Fail(
                                    SonarFailure::Deserialization {
                                        context: String::from_str(
                                            "Cannot deserialize authentication check result.",
                                        ),
                                    },
                                );
                            },
                        }
                    }
                }
                position += 1;
            }
            i += 1;
        }
        Step::Fail(SonarFailure::AuthenticationFailed { username: username.clone() })
    }

    /// Changes the password of the account the client acts as, giving the
    /// held password as the previous one, and holds the new password from
    /// the moment the server has accepted it. Nothing is sent where the new
    /// password is the one already held.
    pub fn change_current_user_password(&mut self, password: &String, replies: &[Reply]) -> (step: Step<()>)
        ensures
            step@ == old(self)@.change_current_user_password(password@, replies@),
            step@.used() <= replies@.len(),
            final(self)@ == old(self)@.with_password(old(self)@.password_after(password@, replies@)),
    {
        if self.password == *password {
            return Step::Done((), 0);
        }
        let call = ApiCall::change_own_password(
            self.username.as_str(),
            password.as_str(),
            self.password.as_str(),
        );
        let step = self.command(&call, replies);
        if let Step::Done(_, _) = &step {
            self.password = password.clone();
        }
        step
    }

    /// Applies what should change on the administrator's account: its
    /// password, where one is given.
    pub fn update_admin(&mut self, update_request: &SonarAdminUpdateRequest, replies: &[Reply]) -> (step: Step<()>)
        ensures
            step@ == old(self)@.update_admin(*update_request, replies@),
            step@.used() <= replies@.len(),
            final(self)@ == (match update_request.password {
                Some(password) => old(self)@.with_password(
                    old(self)@.password_after(password@, replies@),
                ),
                None => old(self)@,
            }),
    {
        match &update_request.password {
            Some(password) => self.change_current_user_password(password, replies),
            None => Step::Done((), 0),
        }
    }

    /// Mints an API token with this name for a user and hands its text
    /// over.
    pub fn generate_user_token(&self, user: &String, name: &String, replies: &[Reply]) -> (step: Step<String>)
        ensures
            step@ == self@.generate_user_token(user@, name@, replies@),
            step@.used() <= replies@.len(),
    {
        let call = ApiCall::generate_token(user.as_str(), name.as_str());
        match self.query(HttpMethod::Post, &call, replies) {
            Step::Send(request) => Step::Send(request),
            Step::Fail(failure) => Step::Fail(failure),
            Step::Done(body, used) => match body {
                Payload::GeneratedToken(minted) => Step::Done(minted.token.clone(), used),
                _ => Step::Fail(SonarFailure::Deserialization { context: call.context }),
            },
        }
    }
}

} // verus!
