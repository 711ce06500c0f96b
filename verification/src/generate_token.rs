//! The `generate-token` command.

use vstd::prelude::*;
use vstd::slice::slice_subrange;
use crate::exchange::{Outcome, Reply, Step};
use crate::sonar_api::{base_url, SonarApi, SonarApiView, SonarDefaults};

verus! {

/// The arguments of the `generate-token` command.
#[derive(Debug, Clone)]
pub struct GenerateTokenCmd {
    /// The name of the token to mint.
    pub name: String,
    /// The address of the server.
    pub url: String,
    /// The account the token is for, which also makes the call.
    pub username: String,
    /// The password of that account.
    pub password: String,
    /// How often to probe the server before giving up.
    pub number_attempts: usize,
}

/// The whole run of `generate-token`, as a function of the replies so far:
/// wait for the server, then mint the token with the credentials given.
pub open spec fn generate_token_run(cmd: GenerateTokenCmd, defaults: SonarDefaults, replies: Seq<Reply>) -> Outcome<Seq<char>> {
    let api = SonarApiView {
        url: base_url(cmd.url@),
        username: cmd.username@,
        password: cmd.password@,
        admin_login: defaults.admin_login@,
        default_group: defaults.default_group@,
        default_template: defaults.default_template@,
    };
    SonarApiView::wait_ready(api.url, cmd.number_attempts as nat, replies).and_then(
        |unit: (), waited: nat|
            api.generate_user_token(cmd.username@, cmd.name@, replies.skip(waited as int)),
    )
}

/// One step of the `generate-token` command, given the replies so far. The
/// run ends with the text of the token.
pub fn generate_token(cmd: &GenerateTokenCmd, defaults: SonarDefaults, replies: &[Reply]) -> (step: Step<String>)
    ensures
        step@ == generate_token_run(*cmd, defaults, replies@),
        step@.used() <= replies@.len(),
{
    let sonar_api = SonarApi::with_credentials(
        cmd.url.clone(),
        cmd.username.clone(),
        cmd.password.clone(),
        defaults,
    );
    let waited = match sonar_api.wait_until_ready(cmd.number_attempts, replies) {
        Step::Send(request) => {
            return Step::Send(request);
        },
        Step::Fail(failure) => {
            return Step::Fail(failure);
        },
        Step::Done(_, used) => used,
    };
    let rest = slice_subrange(replies, waited, replies.len());
    match sonar_api.generate_user_token(&cmd.username, &cmd.name, rest) {
        Step::Send(request) => Step::Send(request),
        Step::Fail(failure) => Step::Fail(failure),
        Step::Done(token, used) => Step::Done(token, waited + used),
    }
}

} // verus!
