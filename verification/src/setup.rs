//! The `setup` command: the desired state of a configuration, and the run
//! that applies it.

use std::collections::HashMap;
use vstd::prelude::*;
use vstd::slice::slice_subrange;
use vstd::string::StringExecFns;
use crate::config_file_model::ConfigurationFile;
use crate::exchange::{for_each, Outcome, Reply, Step};
use crate::failure::{ConfigurationError, ConfigurationErrorView, SonarFailure, SonarFailureView};
use crate::sonar_api::{PasswordProvider, SonarApi, SonarApiView, SonarDefaults};
use crate::sonar_api_model::{
    SonarAdminUpdateRequest, SonarGroupCreationRequest, SonarProperty, SonarUser,
};

verus! {

/// The error of the `envsubst` crate. Nothing is read from it.
#[verifier::external_type_specification]
#[verifier::external_body]
pub struct ExEnvsubstError(envsubst::Error);

/// Whether a text holds one of the characters that a substitution variable
/// may not hold, in its name or in its value.
pub open spec fn has_forbidden(text: Seq<char>) -> bool {
    text.contains('$') || text.contains('{') || text.contains('}')
}

/// Whether some variable has a name or a value that cannot be used.
pub open spec fn unusable(variables: Map<String, String>) -> bool {
    exists|name: String| #[trigger]
        variables.contains_key(name) && (has_forbidden(name@) || has_forbidden(variables[name]@))
}

/// Whether a text still holds a placeholder: a `${` with no `}` before it
/// and one somewhere after it.
pub open spec fn is_templated(text: Seq<char>) -> bool {
    exists|i: int|
        0 <= i && i + 1 < text.len() && #[trigger] text[i] == '$' && text[i + 1] == '{' && (forall|
            j: int,
        | 0 <= j < i ==> text[j] != '}') && (exists|j: int| i < j < text.len() && text[j] == '}')
}

/// Calls `envsubst::substitute`, which replaces each `${name}` of the
/// template by the value of the variable `name`. Trusted: with no variables
/// the template comes back as it is; the call fails exactly where the name
/// or the value of some variable holds `$`, `{` or `}`. Of the text that
/// comes back otherwise nothing is claimed: the crate walks the variables
/// in an order that differs from run to run.
#[verifier::external_body]
fn substitute(template: &String, variables: &HashMap<String, String>) -> (substituted: Result<String, envsubst::Error>)
    ensures
        substituted is Err <==> unusable(variables@),
        variables@.len() == 0 ==> substituted is Ok && substituted->Ok_0@ == template@,
{
    envsubst::substitute(template.as_str(), variables)
}

/// Calls `envsubst::is_templated`. Trusted: the answer is that of
/// [`is_templated`], which says in full what the crate looks for.
#[verifier::external_body]
fn templated(text: &String) -> (answer: bool)
    ensures
        answer == is_templated(text@),
{
    envsubst::is_templated(text)
}

/// What a substitution is worth: the text, if the substitution went through
/// and left no placeholder behind.
pub open spec fn resolution_of(tokenized: Seq<char>, substituted: Option<Seq<char>>) -> Result<Seq<char>, SonarFailureView> {
    match substituted {
        None => Err(SonarFailureView::Configuration(ConfigurationErrorView::InvalidVariables)),
        Some(text) => if is_templated(text) {
            Err(
                SonarFailureView::Configuration(
                    ConfigurationErrorView::UnresolvedVariable { template: tokenized },
                ),
            )
        } else {
            Ok(text)
        },
    }
}

/// The text that a substitution gave, if it gave any.
pub open spec fn text_of(substituted: Result<String, envsubst::Error>) -> Option<Seq<char>> {
    match substituted {
        Ok(text) => Some(text@),
        Err(_) => None,
    }
}

/// The view of the result of a resolution.
pub open spec fn result_view(result: Result<String, SonarFailure>) -> Result<Seq<char>, SonarFailureView> {
    match result {
        Ok(text) => Ok(text@),
        Err(failure) => Err(failure@),
    }
}

/// Judges the outcome of a substitution: a failed one and one that leaves a
/// placeholder in the text are both fatal.
pub fn resolution(tokenized: &String, substituted: Result<String, envsubst::Error>) -> (resolved: Result<String, SonarFailure>)
    ensures
        result_view(resolved) == resolution_of(tokenized@, text_of(substituted)),
{
    match substituted {
        Err(_) => Err(SonarFailure::Configuration(ConfigurationError::InvalidVariables)),
        Ok(text) => if templated(&text) {
            Err(
                SonarFailure::Configuration(
                    ConfigurationError::UnresolvedVariable { template: tokenized.clone() },
                ),
            )
        } else {
            Ok(text)
        },
    }
}

/// Replaces the placeholders of a text by the values of the variables.
/// Whatever the substitution makes of the text, a text that comes back
/// holds no placeholder any more.
pub fn resolve_variables(tokenized: &String, context: &HashMap<String, String>) -> (resolved: Result<String, SonarFailure>)
    ensures
        exists|substituted: Option<Seq<char>>|
            {
                &&& result_view(resolved) == #[trigger] resolution_of(tokenized@, substituted)
                &&& substituted is None <==> unusable(context@)
                &&& context@.len() == 0 ==> substituted == Some(tokenized@)
            },
{
    let substituted = substitute(tokenized, context);
    let ghost outcome = text_of(substituted);
    let resolved = resolution(tokenized, substituted);
    assert(result_view(resolved) == resolution_of(tokenized@, outcome));
    resolved
}

/// The arguments of the `setup` command.
#[derive(Debug, Clone)]
pub struct SetupCmd {
    /// The path of the configuration file.
    pub file: String,
    /// The address of the server.
    pub url: String,
    /// The administrator's current password, where the operator gives it.
    pub admin_password: Option<String>,
    /// How often to probe the server before giving up.
    pub number_attempts: usize,
}

/// The state the server is to be brought to: the configuration after
/// variable substitution.
#[derive(Debug, Clone)]
pub struct DesiredState {
    pub admin: Option<SonarAdminUpdateRequest>,
    pub properties: Vec<SonarProperty>,
    pub groups: Vec<SonarGroupCreationRequest>,
    pub users: Vec<SonarUser>,
}

impl DesiredState {
    /// This state is the configuration with every text put through the
    /// resolver; a section that the configuration lacks is empty.
    pub open spec fn resolved_from<F: Fn(&String) -> String>(&self, config_file: &ConfigurationFile, resolver: &F) -> bool {
        &&& match (config_file.admin, self.admin) {
            (Some(written), Some(resolved)) => resolved.resolved_from(&written, resolver),
            (None, None) => true,
            _ => false,
        }
        &&& match config_file.properties {
            Some(written) => {
                &&& self.properties.len() == written.len()
                &&& forall|i: int|
                    0 <= i < written.len() ==> (#[trigger] self.properties[i]).resolved_from(
                        &written[i],
                        resolver,
                    )
            },
            None => self.properties.len() == 0,
        }
        &&& match config_file.groups {
            Some(written) => {
                &&& self.groups.len() == written.len()
                &&& forall|i: int|
                    0 <= i < written.len() ==> (#[trigger] self.groups[i]).resolved_from(
                        &written[i],
                        resolver,
                    )
            },
            None => self.groups.len() == 0,
        }
        &&& match config_file.users {
            Some(written) => {
                &&& self.users.len() == written.len()
                &&& forall|i: int|
                    0 <= i < written.len() ==> (#[trigger] self.users[i]).resolved_from(
                        &written[i],
                        resolver,
                    )
            },
            None => self.users.len() == 0,
        }
    }

    /// The desired state that a configuration describes, after variable
    /// substitution by the resolver.
    pub fn from_configuration<F: Fn(&String) -> String>(config_file: &ConfigurationFile, resolver: &F) -> (desired: DesiredState)
        requires
            forall|text: &String| call_requires(resolver, (text,)),
        ensures
            desired.resolved_from(config_file, resolver),
    {
        let admin = match &config_file.admin {
            Some(admin) => Some(SonarAdminUpdateRequest::from_configuration(admin, resolver)),
            None => None,
        };
        let properties = match &config_file.properties {
            Some(properties) => SonarProperty::from_configuration_properties(properties, resolver),
            None => Vec::new(),
        };
        let groups = match &config_file.groups {
            Some(groups) => SonarGroupCreationRequest::from_configuration_groups(groups, resolver),
            None => Vec::new(),
        };
        let users = match &config_file.users {
            Some(users) => SonarUser::from_configuration_users(users, resolver),
            None => Vec::new(),
        };
        DesiredState { admin, properties, groups, users }
    }
}

/// The password the administrator is to get, where the configuration
/// names one.
pub open spec fn target_password(admin_modification: Option<SonarAdminUpdateRequest>) -> Option<Seq<char>> {
    match admin_modification {
        Some(SonarAdminUpdateRequest { password: Some(password) }) => Some(password@),
        _ => None,
    }
}

/// The password the administrator is believed to have now: the one given
/// on the command line, else the one of the environment, else the one of a
/// fresh server.
pub open spec fn current_password(cmd: SetupCmd, environment_password: Option<String>) -> Seq<char> {
    match cmd.admin_password {
        Some(password) => password@,
        None => match environment_password {
            Some(password) => password@,
            None => crate::DEFAULT_ADMIN_PASSWORD@,
        },
    }
}

/// The candidate passwords of the administrator: first the one that the
/// configuration wants to set, which is the right one on a server that was
/// set up before; then the one believed to be current.
pub fn init_password_provider(
    _cmd: &SetupCmd,
    _admin_modification: &Option<SonarAdminUpdateRequest>,
    environment_password: &Option<String>,
) -> (provider: PasswordProvider)
    ensures
        provider.strategies.deep_view() == seq![
            target_password(*_admin_modification),
            Some(current_password(*_cmd, *environment_password)),
        ],
{
    let target_password = match _admin_modification {
        Some(SonarAdminUpdateRequest { password: Some(password) }) => Some(password.clone()),
        _ => None,
    };
    let current_password = match &_cmd.admin_password {
        Some(password) => password.clone(),
        None => match environment_password {
            Some(password) => password.clone(),
            None => String::from_str(crate::DEFAULT_ADMIN_PASSWORD),
        },
    };
    PasswordProvider::password_or_fallback(target_password, Some(current_password))
}

/// The whole run of `setup`, as a function of the replies so far: connect
/// as the administrator, then the settings, the groups and the users, each
/// list in its order, and at last the administrator's own account.
pub open spec fn setup_run(
    cmd: SetupCmd,
    desired: DesiredState,
    environment_password: Option<String>,
    defaults: SonarDefaults,
    replies: Seq<Reply>,
) -> Outcome<()> {
    SonarApiView::connect(
        cmd.url@,
        defaults.admin_login@,
        seq![target_password(desired.admin), Some(current_password(cmd, environment_password))],
        cmd.number_attempts as nat,
        defaults,
        replies,
    ).and_then(
        |api: SonarApiView, connected: nat|
            api.reconcile(desired, replies.skip(connected as int)),
    )
}

impl SonarApiView {
    /// Everything after the connection: the settings, the groups and the
    /// users, each list in its order, and at last the administrator's own
    /// account.
    pub open spec fn reconcile(self, desired: DesiredState, replies: Seq<Reply>) -> Outcome<()> {
        for_each(
            desired.properties@,
            |property: SonarProperty, rest: Seq<Reply>| self.set_property(property, rest),
            replies,
        ).and_then(
            |unit: (), set: nat|
                for_each(
                    desired.groups@,
                    |group: SonarGroupCreationRequest, rest: Seq<Reply>| self.create_group(group, rest),
                    replies.skip(set as int),
                ).and_then(
                    |unit: (), grouped: nat|
                        for_each(
                            desired.users@,
                            |user: SonarUser, rest: Seq<Reply>| self.create_user(user, rest),
                            replies.skip(set as int).skip(grouped as int),
                        ).and_then(
                            |unit: (), peopled: nat|
                                match desired.admin {
                                    Some(update_request) => self.update_admin(
                                        update_request,
                                        replies.skip(set as int).skip(grouped as int).skip(
                                            peopled as int,
                                        ),
                                    ),
                                    None => Outcome::Done((), 0),
                                },
                        ),
                ),
        )
    }
}

/// Applies every setting in turn.
fn set_properties(api: &SonarApi, properties: &Vec<SonarProperty>, replies: &[Reply]) -> (step: Step<()>)
    ensures
        step@ == for_each(
            properties@,
            |property: SonarProperty, rest: Seq<Reply>| api@.set_property(property, rest),
            replies@,
        ),
        step@.used() <= replies@.len(),
{
    let ghost operation = |property: SonarProperty, rest: Seq<Reply>| api@.set_property(property, rest);
    let mut i: usize = 0;
    let mut position: usize = 0;
    proof {
        assert(properties@.skip(0) =~= properties@);
        assert(replies@.skip(0) =~= replies@);
    }
    while i < properties.len()
        invariant
            i <= properties.len(),
            position <= replies.len(),
            operation == |property: SonarProperty, rest: Seq<Reply>| api@.set_property(property, rest),
            for_each(properties@, operation, replies@) == for_each(
                properties@.skip(i as int),
                operation,
                replies@.skip(position as int),
            ).after(position as nat),
        decreases properties.len() - i,
    {
        let rest = slice_subrange(replies, position, replies.len());
        proof {
            assert(properties@.skip(i as int)[0] == properties@[i as int]);
            assert(properties@.skip(i as int).skip(1) =~= properties@.skip(i + 1));
        }
        match api.set_property(&properties[i], rest) {
            Step::Send(request) => {
                return Step::Send(request);
            },
            Step::Fail(failure) => {
                return Step::Fail(failure);
            },
            Step::Done(_, used) => {
                proof {
                    assert(replies@.skip(position as int).skip(used as int) =~= replies@.skip(
                        position + used,
                    ));
                }
                position = position + used;
            },
        }
        i += 1;
    }
    Step::Done((), position)
}

/// Brings every group to its desired state in turn.
fn create_groups(api: &SonarApi, groups: &Vec<SonarGroupCreationRequest>, replies: &[Reply]) -> (step: Step<()>)
    ensures
        step@ == for_each(
            groups@,
            |group: SonarGroupCreationRequest, rest: Seq<Reply>| api@.create_group(group, rest),
            replies@,
        ),
        step@.used() <= replies@.len(),
{
    let ghost operation = |group: SonarGroupCreationRequest, rest: Seq<Reply>| api@.create_group(group, rest);
    let mut i: usize = 0;
    let mut position: usize = 0;
    proof {
        assert(groups@.skip(0) =~= groups@);
        assert(replies@.skip(0) =~= replies@);
    }
    while i < groups.len()
        invariant
            i <= groups.len(),
            position <= replies.len(),
            operation == |group: SonarGroupCreationRequest, rest: Seq<Reply>| api@.create_group(group, rest),
            for_each(groups@, operation, replies@) == for_each(
                groups@.skip(i as int),
                operation,
                replies@.skip(position as int),
            ).after(position as nat),
        decreases groups.len() - i,
    {
        let rest = slice_subrange(replies, position, replies.len());
        proof {
            assert(groups@.skip(i as int)[0] == groups@[i as int]);
            assert(groups@.skip(i as int).skip(1) =~= groups@.skip(i + 1));
        }
        match api.create_group(&groups[i], rest) {
            Step::Send(request) => {
                return Step::Send(request);
            },
            Step::Fail(failure) => {
                return Step::Fail(failure);
            },
            Step::Done(_, used) => {
                proof {
                    assert(replies@.skip(position as int).skip(used as int) =~= replies@.skip(
                        position + used,
                    ));
                }
                position = position + used;
            },
        }
        i += 1;
    }
    Step::Done((), position)
}

/// Brings every user to its desired state in turn.
fn create_users(api: &mut SonarApi, users: &Vec<SonarUser>, replies: &[Reply]) -> (step: Step<()>)
    ensures
        step@ == for_each(
            users@,
            |user: SonarUser, rest: Seq<Reply>| old(api)@.create_user(user, rest),
            replies@,
        ),
        step@.used() <= replies@.len(),
        *final(api) == *old(api),
{
    let ghost before = *api;
    let ghost operation = |user: SonarUser, rest: Seq<Reply>| before@.create_user(user, rest);
    let mut i: usize = 0;
    let mut position: usize = 0;
    proof {
        assert(users@.skip(0) =~= users@);
        assert(replies@.skip(0) =~= replies@);
    }
    while i < users.len()
        invariant
            i <= users.len(),
            position <= replies.len(),
            *api == before,
            *old(api) == before,
            operation == |user: SonarUser, rest: Seq<Reply>| before@.create_user(user, rest),
            for_each(users@, operation, replies@) == for_each(
                users@.skip(i as int),
                operation,
                replies@.skip(position as int),
            ).after(position as nat),
        decreases users.len() - i,
    {
        let rest = slice_subrange(replies, position, replies.len());
        proof {
            assert(users@.skip(i as int)[0] == users@[i as int]);
            assert(users@.skip(i as int).skip(1) =~= users@.skip(i + 1));
        }
        match api.create_user(&users[i], rest) {
            Step::Send(request) => {
                return Step::Send(request);
            },
            Step::Fail(failure) => {
                return Step::Fail(failure);
            },
            Step::Done(_, used) => {
                proof {
                    assert(replies@.skip(position as int).skip(used as int) =~= replies@.skip(
                        position + used,
                    ));
                }
                position = position + used;
            },
        }
        i += 1;
    }
    Step::Done((), position)
}

impl SonarApiView {
    /// The password held after a reconciliation has come this far: the
    /// administrator's new one once the whole run is done, where the desired
    /// state names one; until then the one held before.
    pub open spec fn password_after_reconcile(self, desired: DesiredState, replies: Seq<Reply>) -> Seq<char> {
        match desired.admin {
            Some(SonarAdminUpdateRequest { password: Some(password) }) => if self.reconcile(
                desired,
                replies,
            ) is Done {
                password@
            } else {
                self.password
            },
            _ => self.password,
        }
    }
}

impl SonarApi {
    /// Everything after the connection: the settings, the groups and the
    /// users, each list in its order, and at last the administrator's own
    /// account. The order matters: a group has to be there before a user
    /// can join it, and the password change comes last because every other
    /// call is made with the password held before it.
    pub fn reconcile(&mut self, desired: &DesiredState, replies: &[Reply]) -> (step: Step<()>)
        ensures
            step@ == old(self)@.reconcile(*desired, replies@),
            step@.used() <= replies@.len(),
            final(self)@ == old(self)@.with_password(
                old(self)@.password_after_reconcile(*desired, replies@),
            ),
    {
        let set = match set_properties(self, &desired.properties, replies) {
            Step::Send(request) => {
                return Step::Send(request);
            },
            Step::Fail(failure) => {
                return Step::Fail(failure);
            },
            Step::Done(_, used) => used,
        };
        let rest = slice_subrange(replies, set, replies.len());
        let grouped = match create_groups(self, &desired.groups, rest) {
            Step::Send(request) => {
                return Step::Send(request);
            },
            Step::Fail(failure) => {
                return Step::Fail(failure);
            },
            Step::Done(_, used) => used,
        };
        let rest = slice_subrange(rest, grouped, rest.len());
        let peopled = match create_users(self, &desired.users, rest) {
            Step::Send(request) => {
                return Step::Send(request);
            },
            Step::Fail(failure) => {
                return Step::Fail(failure);
            },
            Step::Done(_, used) => used,
        };
        let rest = slice_subrange(rest, peopled, rest.len());
        match &desired.admin {
            None => Step::Done((), set + grouped + peopled),
            Some(update_request) => match self.update_admin(update_request, rest) {
                Step::Send(request) => Step::Send(request),
                Step::Fail(failure) => Step::Fail(failure),
                Step::Done(_, used) => Step::Done((), set + grouped + peopled + used),
            },
        }
    }
}

/// One step of the `setup` command, given the replies so far: connect to
/// the server as the administrator, then bring the server to the desired
/// state.
pub fn setup(
    cmd: &SetupCmd,
    desired: &DesiredState,
    environment_password: &Option<String>,
    defaults: SonarDefaults,
    replies: &[Reply],
) -> (step: Step<()>)
    ensures
        step@ == setup_run(*cmd, *desired, *environment_password, defaults, replies@),
        step@.used() <= replies@.len(),
{
    let provider = init_password_provider(cmd, &desired.admin, environment_password);
    let username = defaults.admin_login.clone();
    let (mut api, connected) = match SonarApi::new(
        cmd.url.clone(),
        username,
        provider,
        cmd.number_attempts,
        defaults,
        replies,
    ) {
        Step::Send(request) => {
            return Step::Send(request);
        },
        Step::Fail(failure) => {
            return Step::Fail(failure);
        },
        Step::Done(api, used) => (api, used),
    };
    let rest = slice_subrange(replies, connected, replies.len());
    match api.reconcile(desired, rest) {
        Step::Send(request) => Step::Send(request),
        Step::Fail(failure) => Step::Fail(failure),
        Step::Done(_, used) => Step::Done((), connected + used),
    }
}

} // verus!
