//! Groups and the permissions bound to them.

use vstd::prelude::*;
use vstd::slice::slice_subrange;
use crate::calls::{ApiCall, ApiCallView};
use crate::exchange::{HttpMethod, Outcome, Payload, Reply, Step};
use crate::failure::{SonarFailure, SonarFailureView};
use crate::sonar_api::{SonarApi, SonarApiView};
use crate::sonar_api_model::{
    first_named, SonarGroup, SonarGroupCreationRequest, SonarPermissionTemplates,
};
use crate::text::{contains_text, decimal, decimal_text, same_text};

verus! {

/// The first group of a list with exactly this name.
fn find_named<'a>(groups: &'a Vec<SonarGroup>, name: &str) -> (found: Option<&'a SonarGroup>)
    ensures
        found.deep_view() == first_named(groups@, name@),
{
    let mut i: usize = 0;
    proof {
        assert(groups@.skip(0) =~= groups@);
    }
    while i < groups.len()
        invariant
            i <= groups.len(),
            first_named(groups@, name@) == first_named(groups@.skip(i as int), name@),
        decreases groups.len() - i,
    {
        proof {
            assert(groups@.skip(i as int).skip(1) =~= groups@.skip(i + 1));
            assert(groups@.skip(i as int)[0] == groups@[i as int]);
        }
        if same_text(groups[i].name.as_str(), name) {
            return Some(&groups[i]);
        }
        i += 1;
    }
    None
}

impl SonarApiView {
    /// Binds one permission to a group in the default template.
    pub open spec fn add_permission_to_group(
        self,
        group: Seq<char>,
        permission: Seq<char>,
        replies: Seq<Reply>,
    ) -> Outcome<()> {
        self.command(ApiCallView::bind_permission(group, permission, self.default_template), replies)
    }

    /// Takes one permission from a group in the default template.
    pub open spec fn remove_permission_to_group(
        self,
        group: Seq<char>,
        permission: Seq<char>,
        replies: Seq<Reply>,
    ) -> Outcome<()> {
        self.command(
            ApiCallView::unbind_permission(group, permission, self.default_template),
            replies,
        )
    }

    /// Looks a group up by its exact name: the search matches loosely, so
    /// the first group of the answer with just this name is the one.
    pub open spec fn get_group_by_name(self, name: Seq<char>, replies: Seq<Reply>) -> Outcome<
        Option<SonarGroup>,
    > {
        let call = ApiCallView::search_groups(name);
        self.query(HttpMethod::Get, call, replies).and_then(
            |body: Payload, used: nat|
                match body {
                    Payload::Groups(listing) => Outcome::Done(listing.named(name), 0),
                    _ => Outcome::Fail(SonarFailureView::Deserialization { context: call.context }),
                },
        )
    }

    /// Whether a group of exactly this name exists.
    pub open spec fn group_exists(self, name: Seq<char>, replies: Seq<Reply>) -> Outcome<bool> {
        self.get_group_by_name(name, replies).and_then(
            |found: Option<SonarGroup>, used: nat| Outcome::Done(found is Some, 0),
        )
    }

    /// Fetches the default permission template and, with it, the catalog of
    /// all permissions.
    pub open spec fn get_permission_templates(self, replies: Seq<Reply>) -> Outcome<
        SonarPermissionTemplates,
    > {
        let call = ApiCallView::search_templates(self.default_template);
        self.query(HttpMethod::Get, call, replies).and_then(
            |body: Payload, used: nat|
                match body {
                    Payload::PermissionTemplates(templates) => Outcome::Done(templates, 0),
                    _ => Outcome::Fail(SonarFailureView::Deserialization { context: call.context }),
                },
        )
    }

    /// The call that brings a group into being, or refreshes the
    /// description of the one that is there.
    pub open spec fn group_upsert(group: SonarGroupCreationRequest, found: Option<SonarGroup>) -> ApiCallView {
        match found {
            None => ApiCallView::create_group(group.name@, group.description@),
            Some(existing) => ApiCallView::update_group(
                decimal(existing.id as nat),
                group.name@,
                group.description@,
            ),
        }
    }

    /// One call for each permission of the catalog, in its order: bind
    /// what the group should hold, unbind everything else.
    pub open spec fn permission_calls(
        self,
        group: Seq<char>,
        desired: Seq<Seq<char>>,
        catalog: Seq<Seq<char>>,
    ) -> Seq<ApiCallView>
        decreases catalog.len(),
    {
        if catalog.len() == 0 {
            Seq::empty()
        } else {
            let key = catalog.last();
            self.permission_calls(group, desired, catalog.drop_last()).push(
                if desired.contains(key) {
                    ApiCallView::bind_permission(group, key, self.default_template)
                } else {
                    ApiCallView::unbind_permission(group, key, self.default_template)
                },
            )
        }
    }

    /// Brings a group to its desired state: look it up, create it or
    /// refresh its description, fetch the permission catalog, and settle
    /// every permission of the catalog.
    pub open spec fn create_group(self, group: SonarGroupCreationRequest, replies: Seq<Reply>) -> Outcome<()> {
        self.get_group_by_name(group.name@, replies).and_then(
            |found: Option<SonarGroup>, looked: nat|
                self.command(Self::group_upsert(group, found), replies.skip(looked as int)).and_then(
                    |unit: (), written: nat|
                        self.get_permission_templates(replies.skip(looked as int).skip(written as int)).and_then(
                            |templates: SonarPermissionTemplates, fetched: nat|
                                self.sequence(
                                    self.permission_calls(
                                        group.name@,
                                        group.permissions.deep_view(),
                                        templates.keys(),
                                    ),
                                    replies.skip(looked as int).skip(written as int).skip(fetched as int),
                                ),
                        ),
                ),
        )
    }
}

impl SonarApi {
    /// Binds one permission to a group in the default template.
    pub fn add_permission_to_group(&self, group: &String, permission: &String, replies: &[Reply]) -> (step: Step<()>)
        ensures
            step@ == self@.add_permission_to_group(group@, permission@, replies@),
            step@.used() <= replies@.len(),
    {
        let call = ApiCall::bind_permission(
            group.as_str(),
            permission.as_str(),
            self.defaults.default_template.as_str(),
        );
        self.command(&call, replies)
    }

    /// Takes one permission from a group in the default template.
    pub fn remove_permission_to_group(&self, group: &String, permission: &String, replies: &[Reply]) -> (step: Step<()>)
        ensures
            step@ == self@.remove_permission_to_group(group@, permission@, replies@),
            step@.used() <= replies@.len(),
    {
        let call = ApiCall::unbind_permission(
            group.as_str(),
            permission.as_str(),
            self.defaults.default_template.as_str(),
        );
        self.command(&call, replies)
    }

    /// Looks a group up by its exact name.
    pub fn get_group_by_name<'a>(&self, _name: &str, replies: &'a [Reply]) -> (step: Step<Option<&'a SonarGroup>>)
        ensures
            step@ == self@.get_group_by_name(_name@, replies@),
            step@.used() <= replies@.len(),
    {
        let call = ApiCall::search_groups(_name);
        match self.query(HttpMethod::Get, &call, replies) {
            Step::Send(request) => Step::Send(request),
            Step::Fail(failure) => Step::Fail(failure),
            Step::Done(body, used) => match body {
                Payload::Groups(listing) => Step::Done(find_named(&listing.groups, _name), used),
                _ => Step::Fail(SonarFailure::Deserialization { context: call.context }),
            },
        }
    }

    /// Whether a group of exactly this name exists.
    pub fn group_exists(&self, _name: &str, replies: &[Reply]) -> (step: Step<bool>)
        ensures
            step@ == self@.group_exists(_name@, replies@),
            step@.used() <= replies@.len(),
    {
        match self.get_group_by_name(_name, replies) {
            Step::Send(request) => Step::Send(request),
            Step::Fail(failure) => Step::Fail(failure),
            Step::Done(found, used) => Step::Done(found.is_some(), used),
        }
    }

    /// Fetches the default permission template and, with it, the catalog of
    /// all permissions.
    pub fn get_permission_templates<'a>(&self, replies: &'a [Reply]) -> (step: Step<&'a SonarPermissionTemplates>)
        ensures
            step@ == self@.get_permission_templates(replies@),
            step@.used() <= replies@.len(),
    {
        let call = ApiCall::search_templates(self.defaults.default_template.as_str());
        match self.query(HttpMethod::Get, &call, replies) {
            Step::Send(request) => Step::Send(request),
            Step::Fail(failure) => Step::Fail(failure),
            Step::Done(body, used) => match body {
                Payload::PermissionTemplates(templates) => Step::Done(templates, used),
                _ => Step::Fail(SonarFailure::Deserialization { context: call.context }),
            },
        }
    }

    /// The calls that settle every permission of the catalog for a group.
    fn permission_calls(&self, group: &SonarGroupCreationRequest, templates: &SonarPermissionTemplates) -> (calls: Vec<ApiCall>)
        ensures
            calls.deep_view() == self@.permission_calls(
                group.name@,
                group.permissions.deep_view(),
                templates.keys(),
            ),
    {
        let mut calls: Vec<ApiCall> = Vec::new();
        let mut i: usize = 0;
        proof {
            assert(templates.keys().take(0) =~= Seq::empty());
        }
        while i < templates.permissions.len()
            invariant
                i <= templates.permissions.len(),
                calls.deep_view() == self@.permission_calls(
                    group.name@,
                    group.permissions.deep_view(),
                    templates.keys().take(i as int),
                ),
            decreases templates.permissions.len() - i,
        {
            let permission = &templates.permissions[i];
            let call = if contains_text(&group.permissions, &permission.key) {
                ApiCall::bind_permission(
                    group.name.as_str(),
                    permission.key.as_str(),
                    self.defaults.default_template.as_str(),
                )
            } else {
                ApiCall::unbind_permission(
                    group.name.as_str(),
                    permission.key.as_str(),
                    self.defaults.default_template.as_str(),
                )
            };
            proof {
                let before = templates.keys().take(i as int);
                let now = templates.keys().take(i + 1);
                assert(now.drop_last() =~= before);
                assert(now.last() == permission.key@);
                assert(calls.deep_view().push(call@) =~= self@.permission_calls(
                    group.name@,
                    group.permissions.deep_view(),
                    now,
                ));
            }
            let ghost earlier = calls.deep_view();
            calls.push(call);
            assert(calls.deep_view() =~= earlier.push(call@));
            i += 1;
        }
        proof {
            assert(templates.keys().take(i as int) =~= templates.keys());
        }
        calls
    }

    /// Brings a group to its desired state. The group is created if the
    /// server has none of that name, else its description is refreshed.
    /// Then every permission of the server's catalog is bound to the group
    /// if the group should hold it, and unbound if not, so that afterwards
    /// the group holds exactly the desired permissions of the catalog.
    pub fn create_group(&self, group: &SonarGroupCreationRequest, replies: &[Reply]) -> (step: Step<()>)
        ensures
            step@ == self@.create_group(*group, replies@),
            step@.used() <= replies@.len(),
    {
        let (found, looked) = match self.get_group_by_name(group.name.as_str(), replies) {
            Step::Send(request) => {
                return Step::Send(request);
            },
            Step::Fail(failure) => {
                return Step::Fail(failure);
            },
            Step::Done(found, used) => (found, used),
        };
        let rest = slice_subrange(replies, looked, replies.len());
        let upsert = match found {
            None => ApiCall::create_group(group.name.as_str(), group.description.as_str()),
            Some(existing) => ApiCall::update_group(
                decimal_text(existing.id).as_str(),
                group.name.as_str(),
                group.description.as_str(),
            ),
        };
        let written = match self.command(&upsert, rest) {
            Step::Send(request) => {
                return Step::Send(request);
            },
            Step::Fail(failure) => {
                return Step::Fail(failure);
            },
            Step::Done(_, used) => used,
        };
        let rest = slice_subrange(rest, written, rest.len());
        let (templates, fetched) = match self.get_permission_templates(rest) {
            Step::Send(request) => {
                return Step::Send(request);
            },
            Step::Fail(failure) => {
                return Step::Fail(failure);
            },
            Step::Done(templates, used) => (templates, used),
        };
        let rest = slice_subrange(rest, fetched, rest.len());
        let calls = self.permission_calls(group, templates);
        match self.sequence(&calls, rest) {
            Step::Send(request) => Step::Send(request),
            Step::Fail(failure) => Step::Fail(failure),
            Step::Done(_, used) => Step::Done((), looked + written + fetched + used),
        }
    }
}

} // verus!
