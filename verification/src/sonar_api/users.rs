//! Users and their memberships.

use vstd::prelude::*;
use vstd::slice::slice_subrange;
use crate::calls::{ApiCall, ApiCallView};
use crate::exchange::{HttpMethod, Outcome, Payload, Reply, Step};
use crate::failure::{ConfigurationError, ConfigurationErrorView, SonarFailure, SonarFailureView};
use crate::sonar_api::{SonarApi, SonarApiView};
use crate::sonar_api_model::{SonarUser, SonarUserMembership};
use crate::text::{contains_text, same_text};

verus! {

impl SonarApiView {
    /// Whether a user with exactly this login exists.
    pub open spec fn user_exists(self, login: Seq<char>, replies: Seq<Reply>) -> Outcome<bool> {
        let call = ApiCallView::search_users(login);
        self.query(HttpMethod::Get, call, replies).and_then(
            |body: Payload, used: nat|
                match body {
                    Payload::Users(listing) => Outcome::Done(listing.logins().contains(login), 0),
                    _ => Outcome::Fail(SonarFailureView::Deserialization { context: call.context }),
                },
        )
    }

    /// Makes a user a member of a group.
    pub open spec fn add_user_to_group(self, user: Seq<char>, group: Seq<char>, replies: Seq<Reply>) -> Outcome<()> {
        self.command(ApiCallView::add_member(user, group), replies)
    }

    /// Ends the membership of a user in a group.
    pub open spec fn remove_user_from_group(
        self,
        user: Seq<char>,
        group: Seq<char>,
        replies: Seq<Reply>,
    ) -> Outcome<()> {
        self.command(ApiCallView::remove_member(user, group), replies)
    }

    /// The names of the groups a user belongs to. An answer that is not one
    /// whole page is refused rather than worked on in part.
    pub open spec fn get_user_groups(self, user: Seq<char>, replies: Seq<Reply>) -> Outcome<
        Seq<Seq<char>>,
    > {
        let call = ApiCallView::groups_of_user(user);
        self.query(HttpMethod::Get, call, replies).and_then(
            |body: Payload, used: nat|
                match body {
                    Payload::UserGroups(listing) => if listing.complete() {
                        Outcome::Done(listing.names(), 0)
                    } else {
                        Outcome::Fail(
                            SonarFailureView::Configuration(
                                ConfigurationErrorView::UnsupportedPagination { login: user },
                            ),
                        )
                    },
                    _ => Outcome::Fail(SonarFailureView::Deserialization { context: call.context }),
                },
        )
    }

    /// Sets the password of a user.
    pub open spec fn change_user_password(
        self,
        user: Seq<char>,
        password: Seq<char>,
        replies: Seq<Reply>,
    ) -> Outcome<()> {
        self.command(ApiCallView::change_password(user, password), replies)
    }

    /// The password a new account is created with where none is given.
    pub open spec fn initial_password(user: SonarUser) -> Seq<char> {
        match user.password {
            Some(password) => password@,
            None => "password"@,
        }
    }

    /// Brings the account itself into being, or refreshes the one that is
    /// there: its name, and its password where one is given.
    pub open spec fn user_upsert(self, user: SonarUser, exists: bool, replies: Seq<Reply>) -> Outcome<()> {
        if !exists {
            self.command(
                ApiCallView::create_user(user.login@, user.name@, Self::initial_password(user)),
                replies,
            )
        } else {
            self.command(ApiCallView::update_user(user.login@, user.name@), replies).and_then(
                |unit: (), renamed: nat|
                    match user.password {
                        Some(password) => self.change_user_password(
                            user.login@,
                            password@,
                            replies.skip(renamed as int),
                        ),
                        None => Outcome::Done((), 0),
                    },
            )
        }
    }

    /// One removal for each group the user is in that is also among the
    /// desired ones and is not the default group, in the order of `current`.
    pub open spec fn removal_calls(
        self,
        login: Seq<char>,
        desired: Seq<Seq<char>>,
        current: Seq<Seq<char>>,
    ) -> Seq<ApiCallView>
        decreases current.len(),
    {
        if current.len() == 0 {
            Seq::empty()
        } else {
            let group = current.last();
            let earlier = self.removal_calls(login, desired, current.drop_last());
            if desired.contains(group) && group != self.default_group {
                earlier.push(ApiCallView::remove_member(login, group))
            } else {
                earlier
            }
        }
    }

    /// One addition for each desired group the user is not in, in the order
    /// of `desired`.
    pub open spec fn addition_calls(
        self,
        login: Seq<char>,
        desired: Seq<Seq<char>>,
        current: Seq<Seq<char>>,
    ) -> Seq<ApiCallView>
        decreases desired.len(),
    {
        if desired.len() == 0 {
            Seq::empty()
        } else {
            let group = desired.last();
            let earlier = Self::addition_calls(self, login, desired.drop_last(), current);
            if !current.contains(group) {
                earlier.push(ApiCallView::add_member(login, group))
            } else {
                earlier
            }
        }
    }

    /// The calls that settle the memberships of a user: the removals, then
    /// the additions.
    pub open spec fn membership_calls(
        self,
        login: Seq<char>,
        desired: Seq<Seq<char>>,
        current: Seq<Seq<char>>,
    ) -> Seq<ApiCallView> {
        self.removal_calls(login, desired, current) + self.addition_calls(login, desired, current)
    }

    /// Brings a user to its desired state. The administrator's login is
    /// refused before anything is sent.
    pub open spec fn create_user(self, user: SonarUser, replies: Seq<Reply>) -> Outcome<()> {
        if user.login@ == self.admin_login {
            Outcome::Fail(
                SonarFailureView::Configuration(
                    ConfigurationErrorView::ReservedLogin { login: user.login@ },
                ),
            )
        } else {
            self.user_exists(user.login@, replies).and_then(
                |exists: bool, looked: nat|
                    self.user_upsert(user, exists, replies.skip(looked as int)).and_then(
                        |unit: (), written: nat|
                            self.get_user_groups(
                                user.login@,
                                replies.skip(looked as int).skip(written as int),
                            ).and_then(
                                |current: Seq<Seq<char>>, fetched: nat|
                                    self.sequence(
                                        self.membership_calls(
                                            user.login@,
                                            user.groups.deep_view(),
                                            current,
                                        ),
                                        replies.skip(looked as int).skip(written as int).skip(
                                            fetched as int,
                                        ),
                                    ),
                            ),
                    ),
            )
        }
    }
}

/// Whether a login occurs in a listing of users.
fn has_login(users: &Vec<SonarUser>, login: &str) -> (found: bool)
    ensures
        found == Seq::new(users@.len(), |i: int| users@[i].login@).contains(login@),
{
    let mut i: usize = 0;
    while i < users.len()
        invariant
            i <= users.len(),
            forall|j: int| 0 <= j < i ==> users@[j].login@ != login@,
        decreases users.len() - i,
    {
        if same_text(users[i].login.as_str(), login) {
            assert(Seq::new(users@.len(), |i: int| users@[i].login@)[i as int] == login@);
            return true;
        }
        i += 1;
    }
    false
}

/// The names of a listing of memberships.
fn membership_names(groups: &Vec<SonarUserMembership>) -> (names: Vec<String>)
    ensures
        names.deep_view() == Seq::new(groups@.len(), |i: int| groups@[i].name@),
{
    let mut names: Vec<String> = Vec::new();
    let mut i: usize = 0;
    while i < groups.len()
        invariant
            i <= groups.len(),
            names.len() == i,
            forall|j: int| 0 <= j < i ==> names@[j]@ == groups@[j].name@,
        decreases groups.len() - i,
    {
        names.push(groups[i].name.clone());
        i += 1;
    }
    assert(names.deep_view() =~= Seq::new(groups@.len(), |i: int| groups@[i].name@));
    names
}

impl SonarApi {
    /// Whether a user with exactly this login exists.
    pub fn user_exists(&self, _login: &str, replies: &[Reply]) -> (step: Step<bool>)
        ensures
            step@ == self@.user_exists(_login@, replies@),
            step@.used() <= replies@.len(),
    {
        let call = ApiCall::search_users(_login);
        match self.query(HttpMethod::Get, &call, replies) {
            Step::Send(request) => Step::Send(request),
            Step::Fail(failure) => Step::Fail(failure),
            Step::Done(body, used) => match body {
                Payload::Users(listing) => Step::Done(has_login(&listing.users, _login), used),
                _ => Step::Fail(SonarFailure::Deserialization { context: call.context }),
            },
        }
    }

    /// Makes a user a member of a group.
    pub fn add_user_to_group(&self, user: &String, group: &String, replies: &[Reply]) -> (step: Step<()>)
        ensures
            step@ == self@.add_user_to_group(user@, group@, replies@),
            step@.used() <= replies@.len(),
    {
        let call = ApiCall::add_member(user.as_str(), group.as_str());
        self.command(&call, replies)
    }

    /// Ends the membership of a user in a group.
    pub fn remove_user_from_group(&self, user: &String, group: &String, replies: &[Reply]) -> (step: Step<()>)
        ensures
            step@ == self@.remove_user_from_group(user@, group@, replies@),
            step@.used() <= replies@.len(),
    {
        let call = ApiCall::remove_member(user.as_str(), group.as_str());
        self.command(&call, replies)
    }

    /// The names of the groups a user belongs to.
    pub fn get_user_groups(&self, _user: &String, replies: &[Reply]) -> (step: Step<Vec<String>>)
        ensures
            step@ == self@.get_user_groups(_user@, replies@),
            step@.used() <= replies@.len(),
    {
        let call = ApiCall::groups_of_user(_user.as_str());
        match self.query(HttpMethod::Get, &call, replies) {
            Step::Send(request) => Step::Send(request),
            Step::Fail(failure) => Step::Fail(failure),
            Step::Done(body, used) => match body {
                Payload::UserGroups(listing) => if listing.paging.page_size == listing.paging.total {
                    Step::Done(membership_names(&listing.groups), used)
                } else {
                    Step::Fail(
                        SonarFailure::Configuration(
                            ConfigurationError::UnsupportedPagination { login: _user.clone() },
                        ),
                    )
                },
                _ => Step::Fail(SonarFailure::Deserialization { context: call.context }),
            },
        }
    }

    /// Sets the password of a user. The caller acts as an administrator, so
    /// the old password is not needed.
    pub fn change_user_password(&mut self, user: &String, password: &String, replies: &[Reply]) -> (step: Step<()>)
        ensures
            step@ == old(self)@.change_user_password(user@, password@, replies@),
            step@.used() <= replies@.len(),
            *final(self) == *old(self),
    {
        let call = ApiCall::change_password(user.as_str(), password.as_str());
        self.command(&call, replies)
    }

    /// Brings the account itself into being, or refreshes the one that is
    /// there.
    fn user_upsert(&mut self, user: &SonarUser, exists: bool, replies: &[Reply]) -> (step: Step<()>)
        ensures
            step@ == old(self)@.user_upsert(*user, exists, replies@),
            step@.used() <= replies@.len(),
            *final(self) == *old(self),
    {
        if !exists {
            let call = match &user.password {
                Some(password) => ApiCall::create_user(
                    user.login.as_str(),
                    user.name.as_str(),
                    password.as_str(),
                ),
                None => ApiCall::create_user(user.login.as_str(), user.name.as_str(), "password"),
            };
            self.command(&call, replies)
        } else {
            let call = ApiCall::update_user(user.login.as_str(), user.name.as_str());
            match self.command(&call, replies) {
                Step::Send(request) => Step::Send(request),
                Step::Fail(failure) => Step::Fail(failure),
                Step::Done(_, renamed) => match &user.password {
                    None => Step::Done((), renamed),
                    Some(password) => {
                        let rest = slice_subrange(replies, renamed, replies.len());
                        match self.change_user_password(&user.login, password, rest) {
                            Step::Send(request) => Step::Send(request),
                            Step::Fail(failure) => Step::Fail(failure),
                            Step::Done(_, used) => Step::Done((), renamed + used),
                        }
                    },
                },
            }
        }
    }

    /// The calls that settle the memberships of a user.
    fn membership_calls(&self, user: &SonarUser, current: &Vec<String>) -> (calls: Vec<ApiCall>)
        ensures
            calls.deep_view() == self@.membership_calls(
                user.login@,
                user.groups.deep_view(),
                current.deep_view(),
            ),
    {
        let ghost desired = user.groups.deep_view();
        let ghost held = current.deep_view();
        let mut calls: Vec<ApiCall> = Vec::new();
        let mut i: usize = 0;
        proof {
            assert(held.take(0) =~= Seq::empty());
        }
        while i < current.len()
            invariant
                i <= current.len(),
                desired == user.groups.deep_view(),
                held == current.deep_view(),
                calls.deep_view() == self@.removal_calls(user.login@, desired, held.take(i as int)),
            decreases current.len() - i,
        {
            let group = &current[i];
            proof {
                assert(held.take(i + 1).drop_last() =~= held.take(i as int));
                assert(held.take(i + 1).last() == group@);
            }
            if contains_text(&user.groups, group) && !(*group == self.defaults.default_group) {
                let call = ApiCall::remove_member(user.login.as_str(), group.as_str());
                let ghost earlier = calls.deep_view();
                calls.push(call);
                assert(calls.deep_view() =~= earlier.push(call@));
            }
            i += 1;
        }
        let ghost removals = calls.deep_view();
        proof {
            assert(held.take(i as int) =~= held);
            assert(desired.take(0) =~= Seq::empty());
            assert(removals + Seq::empty() =~= removals);
        }
        let mut k: usize = 0;
        while k < user.groups.len()
            invariant
                k <= user.groups.len(),
                desired == user.groups.deep_view(),
                held == current.deep_view(),
                calls.deep_view() == removals + self@.addition_calls(
                    user.login@,
                    desired.take(k as int),
                    held,
                ),
            decreases user.groups.len() - k,
        {
            let group = &user.groups[k];
            proof {
                assert(desired.take(k + 1).drop_last() =~= desired.take(k as int));
                assert(desired.take(k + 1).last() == group@);
            }
            if !contains_text(current, group) {
                let call = ApiCall::add_member(user.login.as_str(), group.as_str());
                let ghost earlier = calls.deep_view();
                calls.push(call);
                assert(calls.deep_view() =~= earlier.push(call@));
                assert(earlier.push(call@) =~= removals + self@.addition_calls(
                    user.login@,
                    desired.take(k as int),
                    held,
                ).push(call@));
            }
            k += 1;
        }
        proof {
            assert(desired.take(k as int) =~= desired);
        }
        calls
    }

    /// Brings a user to its desired state. The administrator's login is
    /// refused before anything is sent. A user the server does not know is
    /// created, with the password `password` where none is given; one it
    /// knows gets its name refreshed and, where a password is given, that
    /// password. Then the memberships are settled: the user leaves every
    /// group it is in that is also among the desired ones, the default
    /// group excepted, and joins every desired group it was not in.
    pub fn create_user(&mut self, user: &SonarUser, replies: &[Reply]) -> (step: Step<()>)
        ensures
            step@ == old(self)@.create_user(*user, replies@),
            step@.used() <= replies@.len(),
            *final(self) == *old(self),
    {
        if user.login == self.defaults.admin_login {
            return Step::Fail(
                SonarFailure::Configuration(
                    ConfigurationError::ReservedLogin { login: user.login.clone() },
                ),
            );
        }
        let (exists, looked) = match self.user_exists(user.login.as_str(), replies) {
            Step::Send(request) => {
                return Step::Send(request);
            },
            Step::Fail(failure) => {
                return Step::Fail(failure);
            },
            Step::Done(exists, used) => (exists, used),
        };
        let rest = slice_subrange(replies, looked, replies.len());
        let written = match self.user_upsert(user, exists, rest) {
            Step::Send(request) => {
                return Step::Send(request);
            },
            Step::Fail(failure) => {
                return Step::Fail(failure);
            },
            Step::Done(_, used) => used,
        };
        let rest = slice_subrange(rest, written, rest.len());
        let (current, fetched) = match self.get_user_groups(&user.login, rest) {
            Step::Send(request) => {
                return Step::Send(request);
            },
            Step::Fail(failure) => {
                return Step::Fail(failure);
            },
            Step::Done(current, used) => (current, used),
        };
        let rest = slice_subrange(rest, fetched, rest.len());
        let calls = self.membership_calls(user, &current);
        match self.sequence(&calls, rest) {
            Step::Send(request) => Step::Send(request),
            Step::Fail(failure) => Step::Fail(failure),
            Step::Done(_, used) => Step::Done((), looked + written + fetched + used),
        }
    }
}

} // verus!
