//! The calls of a whole run. An operation asks for one request at a time;
//! here is the list of calls that a run which comes to its end has made,
//! and the proof that it made exactly these.

use vstd::prelude::*;
use crate::calls::ApiCallView;
use crate::exchange::{Endpoint, HttpRequestView, Outcome, Payload, Reply};
use crate::sonar_api::SonarApiView;
use crate::sonar_api_model::{SonarGroup, SonarGroupCreationRequest, SonarProperty, SonarUser};
use crate::text::decimal;

verus! {

/// The request is this call on the wire: same endpoint, same parameters.
pub open spec fn carries(request: HttpRequestView, call: ApiCallView) -> bool {
    request.endpoint == call.endpoint && request.params == call.params
}

/// The operation asks for this call next.
pub open spec fn asks<V>(outcome: Outcome<V>, call: ApiCallView) -> bool {
    outcome matches Outcome::Send(request) && carries(request, call)
}

/// The group of this name that a reply to a group search shows.
pub open spec fn group_seen(reply: Reply, name: Seq<char>) -> Option<SonarGroup> {
    match reply {
        Reply::Received { body: Payload::Groups(listing), .. } => listing.named(name),
        _ => None,
    }
}

/// The permission catalog that a reply to a template search shows.
pub open spec fn catalog_seen(reply: Reply) -> Seq<Seq<char>> {
    match reply {
        Reply::Received { body: Payload::PermissionTemplates(templates), .. } => templates.keys(),
        _ => Seq::empty(),
    }
}

/// Whether a reply to a user search shows a user with this login.
pub open spec fn user_seen(reply: Reply, login: Seq<char>) -> bool {
    match reply {
        Reply::Received { body: Payload::Users(listing), .. } => listing.logins().contains(login),
        _ => false,
    }
}

/// The groups that a reply to a membership query shows.
pub open spec fn memberships_seen(reply: Reply) -> Seq<Seq<char>> {
    match reply {
        Reply::Received { body: Payload::UserGroups(listing), .. } => listing.names(),
        _ => Seq::empty(),
    }
}

impl SonarApiView {
    /// The calls of a run that brings a group to its desired state, given
    /// what the server showed on the way: the group, if it has one of that
    /// name, and the permission catalog.
    pub open spec fn group_calls(
        self,
        group: SonarGroupCreationRequest,
        found: Option<SonarGroup>,
        catalog: Seq<Seq<char>>,
    ) -> Seq<ApiCallView> {
        seq![
            ApiCallView::search_groups(group.name@),
            Self::group_upsert(group, found),
            ApiCallView::search_templates(self.default_template),
        ] + self.permission_calls(group.name@, group.permissions.deep_view(), catalog)
    }

    /// The calls that bring a user's account into being or refresh it.
    pub open spec fn user_upsert_calls(user: SonarUser, exists: bool) -> Seq<ApiCallView> {
        if !exists {
            seq![ApiCallView::create_user(user.login@, user.name@, Self::initial_password(user))]
        } else {
            match user.password {
                Some(password) => seq![
                    ApiCallView::update_user(user.login@, user.name@),
                    ApiCallView::change_password(user.login@, password@),
                ],
                None => seq![ApiCallView::update_user(user.login@, user.name@)],
            }
        }
    }

    /// The calls of a run that brings a user to its desired state, given
    /// what the server showed on the way: whether it knows the user, and
    /// the groups the user is in.
    pub open spec fn user_calls(self, user: SonarUser, exists: bool, current: Seq<Seq<char>>) -> Seq<
        ApiCallView,
    > {
        seq![ApiCallView::search_users(user.login@)] + Self::user_upsert_calls(user, exists)
            + seq![ApiCallView::groups_of_user(user.login@)] + self.membership_calls(
            user.login@,
            user.groups.deep_view(),
            current,
        )
    }
}

/// The groups of a user that a run for that user was shown: they stand in
/// the reply after those to the search and to the calls for the account.
pub open spec fn user_groups_seen(user: SonarUser, replies: Seq<Reply>) -> Seq<Seq<char>> {
    let exists = user_seen(replies[0], user.login@);
    memberships_seen(replies[1 + SonarApiView::user_upsert_calls(user, exists).len() as int])
}

/// A sequence of commands that comes to its end has used one reply for
/// each call, and on the way it asked for each call in turn.
pub proof fn lemma_sequence_follows_calls(api: SonarApiView, calls: Seq<ApiCallView>, replies: Seq<Reply>)
    requires
        api.sequence(calls, replies) is Done,
    ensures
        api.sequence(calls, replies) == Outcome::Done((), calls.len()),
        calls.len() <= replies.len(),
        forall|k: int|
            0 <= k < calls.len() ==> asks(#[trigger] api.sequence(calls, replies.take(k)), calls[k]),
    decreases calls.len(),
{
    if calls.len() > 0 {
        let rest_calls = calls.skip(1);
        let rest = replies.skip(1);
        lemma_sequence_follows_calls(api, rest_calls, rest);
        assert forall|k: int| 0 <= k < calls.len() implies asks(
            #[trigger] api.sequence(calls, replies.take(k)),
            calls[k],
        ) by {
            if k > 0 {
                assert(replies.take(k)[0] == replies[0]);
                assert(replies.take(k).skip(1) =~= rest.take(k - 1));
                assert(asks(api.sequence(rest_calls, rest.take(k - 1)), rest_calls[k - 1]));
            }
        }
    }
}

/// A run that brings a group to its desired state and comes to its end has
/// made exactly the calls of [`SonarApiView::group_calls`], one for each
/// reply it used, in that order.
pub proof fn lemma_group_run_follows_calls(
    api: SonarApiView,
    group: SonarGroupCreationRequest,
    replies: Seq<Reply>,
)
    requires
        api.create_group(group, replies) is Done,
    ensures
        replies.len() >= 3,
        ({
            let calls = api.group_calls(
                group,
                group_seen(replies[0], group.name@),
                catalog_seen(replies[2]),
            );
            &&& api.create_group(group, replies) == Outcome::Done((), calls.len())
            &&& calls.len() <= replies.len()
            &&& forall|k: int|
                0 <= k < calls.len() ==> asks(
                    #[trigger] api.create_group(group, replies.take(k)),
                    calls[k],
                )
        }),
{
    let name = group.name@;
    let looked = api.get_group_by_name(name, replies);
    assert(looked is Done);
    assert(replies.len() >= 1);
    let found = group_seen(replies[0], name);
    assert(looked == Outcome::Done(found, 1));
    let upsert = SonarApiView::group_upsert(group, found);
    let after_look = replies.skip(1);
    let written = api.command(upsert, after_look);
    assert(written is Done);
    assert(after_look.len() >= 1);
    assert(after_look[0] == replies[1]);
    let after_write = after_look.skip(1);
    let fetched = api.get_permission_templates(after_write);
    assert(fetched is Done);
    assert(after_write.len() >= 1);
    assert(after_write[0] == replies[2]);
    let catalog = catalog_seen(replies[2]);
    let after_fetch = after_write.skip(1);
    assert(after_fetch =~= replies.skip(3));
    let bindings = api.permission_calls(name, group.permissions.deep_view(), catalog);
    let settled = api.sequence(bindings, after_fetch);
    assert(settled is Done);
    lemma_sequence_follows_calls(api, bindings, after_fetch);
    let calls = api.group_calls(group, found, catalog);
    assert(calls.len() == 3 + bindings.len());
    assert forall|k: int| 0 <= k < calls.len() implies asks(
        #[trigger] api.create_group(group, replies.take(k)),
        calls[k],
    ) by {
        let prefix = replies.take(k);
        if k == 0 {
            assert(prefix.len() == 0);
        } else {
            assert(prefix[0] == replies[0]);
            assert(api.get_group_by_name(name, prefix) == Outcome::Done(found, 1));
            let prefix_1 = prefix.skip(1);
            if k == 1 {
                assert(prefix_1.len() == 0);
            } else {
                assert(prefix_1[0] == replies[1]);
                assert(api.command(upsert, prefix_1) == Outcome::Done((), 1));
                let prefix_2 = prefix_1.skip(1);
                if k == 2 {
                    assert(prefix_2.len() == 0);
                } else {
                    assert(prefix_2[0] == replies[2]);
                    let prefix_3 = prefix_2.skip(1);
                    assert(prefix_3 =~= after_fetch.take(k - 3));
                    assert(asks(api.sequence(bindings, after_fetch.take(k - 3)), bindings[k - 3]));
                    assert(calls[k] == bindings[k - 3]);
                }
            }
        }
    }
}

/// A sequence of commands that asks for a request asks for the call whose
/// turn it is: the one after those that the replies answer.
pub proof fn lemma_sequence_asks_in_turn(api: SonarApiView, calls: Seq<ApiCallView>, replies: Seq<Reply>)
    requires
        api.sequence(calls, replies) is Send,
    ensures
        replies.len() < calls.len(),
        asks(api.sequence(calls, replies), calls[replies.len() as int]),
    decreases calls.len(),
{
    if calls.len() > 0 {
        if replies.len() > 0 {
            let rest = replies.skip(1);
            lemma_sequence_asks_in_turn(api, calls.skip(1), rest);
            assert(calls.skip(1)[rest.len() as int] == calls[replies.len() as int]);
        }
    }
}

/// The calls that settle permissions bind and unbind, and do nothing else.
pub proof fn lemma_permission_calls_bind_or_unbind(
    api: SonarApiView,
    group: Seq<char>,
    desired: Seq<Seq<char>>,
    catalog: Seq<Seq<char>>,
)
    ensures
        api.permission_calls(group, desired, catalog).len() == catalog.len(),
        forall|k: int|
            0 <= k < catalog.len() ==> (#[trigger] api.permission_calls(
                group,
                desired,
                catalog,
            )[k]) == (if desired.contains(catalog[k]) {
                ApiCallView::bind_permission(group, catalog[k], api.default_template)
            } else {
                ApiCallView::unbind_permission(group, catalog[k], api.default_template)
            }),
    decreases catalog.len(),
{
    if catalog.len() > 0 {
        lemma_permission_calls_bind_or_unbind(api, group, desired, catalog.drop_last());
    }
}

/// Group existence branching. Whatever the replies, a run that brings a
/// group to its desired state asks to create the group or to update it at
/// one point only: right after the search. There it asks to create the
/// group, with its description, where the search showed none of that name;
/// and to update it, by the identifier that the search showed, where there
/// is one. So a run that comes to its end has created the group exactly
/// once and never updated it, or updated it exactly once and never created
/// it.
pub proof fn lemma_group_is_created_or_updated(
    api: SonarApiView,
    group: SonarGroupCreationRequest,
    replies: Seq<Reply>,
)
    requires
        api.create_group(group, replies) is Send,
    ensures
        ({
            let request = api.create_group(group, replies)->Send_0;
            if replies.len() == 1 {
                match group_seen(replies[0], group.name@) {
                    None => carries(
                        request,
                        ApiCallView::create_group(group.name@, group.description@),
                    ),
                    Some(existing) => carries(
                        request,
                        ApiCallView::update_group(
                            decimal(existing.id as nat),
                            group.name@,
                            group.description@,
                        ),
                    ),
                }
            } else {
                request.endpoint != Endpoint::UserGroupsCreate && request.endpoint
                    != Endpoint::UserGroupsUpdate
            }
        }),
{
    let name = group.name@;
    if replies.len() >= 1 {
        let found = group_seen(replies[0], name);
        assert(api.get_group_by_name(name, replies) == Outcome::Done(found, 1));
        let after_look = replies.skip(1);
        if replies.len() >= 2 {
            assert(after_look[0] == replies[1]);
            let after_write = after_look.skip(1);
            if replies.len() >= 3 {
                assert(after_write[0] == replies[2]);
                let catalog = catalog_seen(replies[2]);
                let after_fetch = after_write.skip(1);
                let bindings = api.permission_calls(name, group.permissions.deep_view(), catalog);
                assert(api.sequence(bindings, after_fetch) is Send);
                lemma_sequence_asks_in_turn(api, bindings, after_fetch);
                lemma_permission_calls_bind_or_unbind(
                    api,
                    name,
                    group.permissions.deep_view(),
                    catalog,
                );
            } else {
                assert(after_write.len() == 0);
            }
        } else {
            assert(after_look.len() == 0);
        }
    }
}

/// A run that applies a setting and comes to its end has made one call.
pub proof fn lemma_property_run_follows_calls(
    api: SonarApiView,
    property: SonarProperty,
    replies: Seq<Reply>,
)
    requires
        api.set_property(property, replies) is Done,
    ensures
        api.set_property(property, replies) == Outcome::Done((), 1),
        replies.len() >= 1,
        asks(
            api.set_property(property, replies.take(0)),
            ApiCallView::set_setting(property.name@, property.value@),
        ),
{
}

/// A run that brings a user to its desired state and comes to its end has
/// made exactly the calls of [`SonarApiView::user_calls`], one for each
/// reply it used, in that order.
pub proof fn lemma_user_run_follows_calls(api: SonarApiView, user: SonarUser, replies: Seq<Reply>)
    requires
        api.create_user(user, replies) is Done,
    ensures
        user.login@ != api.admin_login,
        replies.len() >= 1,
        ({
            let exists = user_seen(replies[0], user.login@);
            let written = SonarApiView::user_upsert_calls(user, exists).len();
            &&& replies.len() >= 2 + written
            &&& ({
                let calls = api.user_calls(user, exists, user_groups_seen(user, replies));
                &&& api.create_user(user, replies) == Outcome::Done((), calls.len())
                &&& calls.len() <= replies.len()
                &&& forall|k: int|
                    0 <= k < calls.len() ==> asks(
                        #[trigger] api.create_user(user, replies.take(k)),
                        calls[k],
                    )
            })
        }),
{
    let login = user.login@;
    let desired = user.groups.deep_view();
    assert(api.user_exists(login, replies) is Done);
    assert(replies.len() >= 1);
    let exists = user_seen(replies[0], login);
    assert(api.user_exists(login, replies) == Outcome::Done(exists, 1));
    let upsert = SonarApiView::user_upsert_calls(user, exists);
    let written = upsert.len() as int;
    let after_look = replies.skip(1);
    assert(api.user_upsert(user, exists, after_look) is Done);
    assert(after_look.len() >= 1);
    assert(after_look[0] == replies[1]);
    if written == 2 {
        assert(after_look.skip(1).len() >= 1);
        assert(after_look.skip(1)[0] == replies[2]);
    }
    assert(api.user_upsert(user, exists, after_look) == Outcome::Done((), written as nat));
    let after_write = after_look.skip(written);
    assert(after_write =~= replies.skip(1 + written));
    assert(api.get_user_groups(login, after_write) is Done);
    assert(after_write.len() >= 1);
    assert(after_write[0] == replies[1 + written]);
    let current = memberships_seen(replies[1 + written]);
    let after_fetch = after_write.skip(1);
    assert(after_fetch =~= replies.skip(2 + written));
    let memberships = api.membership_calls(login, desired, current);
    assert(api.sequence(memberships, after_fetch) is Done);
    lemma_sequence_follows_calls(api, memberships, after_fetch);
    let calls = api.user_calls(user, exists, current);
    assert(calls.len() == 2 + written + memberships.len());
    assert forall|k: int| 0 <= k < calls.len() implies asks(
        #[trigger] api.create_user(user, replies.take(k)),
        calls[k],
    ) by {
        let prefix = replies.take(k);
        if k == 0 {
            assert(prefix.len() == 0);
        } else {
            assert(prefix[0] == replies[0]);
            assert(api.user_exists(login, prefix) == Outcome::Done(exists, 1));
            let prefix_look = prefix.skip(1);
            if k < 1 + written {
                if k == 1 {
                    assert(prefix_look.len() == 0);
                    assert(calls[k] == upsert[0]);
                } else {
                    assert(prefix_look[0] == replies[1]);
                    assert(prefix_look.skip(1).len() == 0);
                    assert(calls[k] == upsert[1]);
                }
            } else {
                assert(prefix_look[0] == replies[1]);
                if written == 2 {
                    assert(prefix_look.skip(1)[0] == replies[2]);
                }
                assert(api.user_upsert(user, exists, prefix_look) == Outcome::Done((), written as nat));
                let prefix_write = prefix_look.skip(written);
                if k == 1 + written {
                    assert(prefix_write.len() == 0);
                } else {
                    assert(prefix_write[0] == replies[1 + written]);
                    let prefix_fetch = prefix_write.skip(1);
                    assert(prefix_fetch =~= after_fetch.take(k - 2 - written));
                    assert(asks(
                        api.sequence(memberships, after_fetch.take(k - 2 - written)),
                        memberships[k - 2 - written],
                    ));
                    assert(calls[k] == memberships[k - 2 - written]);
                }
            }
        }
    }
}

/// Reserved-login rejection. A user with the administrator's login is
/// refused whatever the replies, so also before anything was sent.
pub proof fn lemma_reserved_login_is_refused(api: SonarApiView, user: SonarUser, replies: Seq<Reply>)
    requires
        user.login@ == api.admin_login,
    ensures
        api.create_user(user, replies) == Outcome::<()>::Fail(
            crate::failure::SonarFailureView::Configuration(
                crate::failure::ConfigurationErrorView::ReservedLogin { login: user.login@ },
            ),
        ),
{
}

} // verus!
