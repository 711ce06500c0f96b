//! Running an operation twice. A second run with the same desired state,
//! against a server that answers truthfully, leaves the server as the first
//! run left it.

use vstd::prelude::*;
use crate::calls::{lemma_params_read_back, ApiCallView};
use crate::exchange::{Endpoint, Outcome, Reply};
use crate::remote::{
    lemma_permission_calls_settle, lemma_receive_joined, lemma_receive_one, settled_bindings,
    GroupRecord, Remote, UserRecord,
};
use crate::runs::{
    asks, catalog_seen, group_seen, lemma_group_run_follows_calls, lemma_permission_calls_bind_or_unbind,
    lemma_user_run_follows_calls, user_groups_seen, user_seen,
};
use crate::sonar_api::SonarApiView;
use crate::sonar_api_model::{SonarGroup, SonarGroupCreationRequest, SonarProperty, SonarUser};
use crate::text::{decimal, lemma_decimal_is_injective};

verus! {

impl Remote {
    /// What a truthful search for a group shows: the group of that name
    /// with its identifier, or none where there is none.
    pub open spec fn shows_group(self, name: Seq<char>, found: Option<SonarGroup>) -> bool {
        match found {
            None => !self.groups.contains_key(name),
            Some(group) => self.groups.contains_key(name) && self.groups[name].id == group.id,
        }
    }

    /// What a truthful search for a user shows.
    pub open spec fn shows_user(self, login: Seq<char>, exists: bool) -> bool {
        exists == self.users.contains_key(login)
    }

    /// What a truthful query for the groups of a user shows.
    pub open spec fn shows_memberships(self, login: Seq<char>, current: Seq<Seq<char>>) -> bool {
        forall|group: Seq<char>| current.contains(group) <==> self.members.contains((login, group))
    }
}

/// Receiving two calls.
proof fn lemma_receive_two(remote: Remote, first: ApiCallView, second: ApiCallView)
    ensures
        remote.receive_all(seq![first, second]) == remote.receive(first).receive(second),
{
    assert(seq![first, second].drop_last() =~= seq![first]);
    assert(seq![first, second].last() == second);
    lemma_receive_one(remote, first);
}

/// Receiving three calls.
proof fn lemma_receive_three(remote: Remote, first: ApiCallView, second: ApiCallView, third: ApiCallView)
    ensures
        remote.receive_all(seq![first, second, third]) == remote.receive(first).receive(
            second,
        ).receive(third),
{
    let all = seq![first, second, third];
    assert(all.drop_last() =~= seq![first, second]);
    assert(all.last() == third);
    lemma_receive_two(remote, first, second);
}

/// Setting a value twice is setting it once.
pub proof fn lemma_setting_is_idempotent(remote: Remote, api: SonarApiView, property: SonarProperty)
    ensures
        ({
            let call = ApiCallView::set_setting(property.name@, property.value@);
            let once = remote.receive(call);
            &&& once.settings == remote.settings.insert(property.name@, property.value@)
            &&& once.receive(call) == once
        }),
{
    lemma_params_read_back(property.name@, property.value@, Seq::empty());
    let call = ApiCallView::set_setting(property.name@, property.value@);
    let once = remote.receive(call);
    assert(once.receive(call).settings =~= once.settings);
}

/// The server after a run that brought a group to its desired state.
pub open spec fn after_group_run(
    remote: Remote,
    api: SonarApiView,
    group: SonarGroupCreationRequest,
    found: Option<SonarGroup>,
    catalog: Seq<Seq<char>>,
) -> Remote {
    remote.receive_all(api.group_calls(group, found, catalog))
}

/// What a run that brings a group to its desired state does to a server
/// that showed the truth about the group: the group is there with the
/// desired description, within the catalog it holds the desired
/// permissions, and nothing else has changed.
pub proof fn lemma_group_run_effect(
    remote: Remote,
    api: SonarApiView,
    group: SonarGroupCreationRequest,
    found: Option<SonarGroup>,
    catalog: Seq<Seq<char>>,
)
    requires
        remote.wf(),
        remote.shows_group(group.name@, found),
    ensures
        ({
            let once = after_group_run(remote, api, group, found, catalog);
            &&& once.wf()
            &&& once.groups.contains_key(group.name@)
            &&& once.groups[group.name@].description == group.description@
            &&& once.groups.dom() == remote.groups.dom().insert(group.name@)
            &&& forall|name: Seq<char>|
                name != group.name@ && remote.groups.contains_key(name) ==> once.groups[name]
                    == remote.groups[name]
            &&& found is Some ==> once.groups[group.name@].id == remote.groups[group.name@].id
            &&& found is Some ==> once.next_id == remote.next_id
            &&& once.bindings == settled_bindings(
                remote.bindings,
                api.default_template,
                group.name@,
                group.permissions.deep_view(),
                catalog,
            )
            &&& once.settings == remote.settings
            &&& once.users == remote.users
            &&& once.members == remote.members
        }),
{
    let name = group.name@;
    let description = group.description@;
    let search = ApiCallView::search_groups(name);
    let upsert = SonarApiView::group_upsert(group, found);
    let fetch = ApiCallView::search_templates(api.default_template);
    let bindings = api.permission_calls(name, group.permissions.deep_view(), catalog);
    lemma_receive_joined(remote, seq![search, upsert, fetch], bindings);
    lemma_receive_three(remote, search, upsert, fetch);
    let written = remote.receive(upsert);
    assert(remote.receive(search) == remote);
    assert(written.receive(fetch) == written);
    lemma_permission_calls_settle(written, api, name, group.permissions.deep_view(), catalog);
    match found {
        None => {
            lemma_params_read_back(name, description, Seq::empty());
            assert(written.groups == remote.groups.insert(
                name,
                GroupRecord { id: remote.next_id, description },
            ));
            assert(written.groups.dom() =~= remote.groups.dom().insert(name));
        },
        Some(existing) => {
            let id = decimal(existing.id as nat);
            lemma_params_read_back(id, name, description);
            assert(written.groups == remote.described(id, description));
            assert(written.groups.dom() =~= remote.groups.dom().insert(name));
            assert forall|other: Seq<char>|
                other != name && remote.groups.contains_key(other) implies written.groups[other]
                == remote.groups[other] by {
                if decimal(remote.groups[other].id) == id {
                    lemma_decimal_is_injective(remote.groups[other].id, existing.id as nat);
                }
            }
        },
    }
}

/// A second run for a group changes nothing. Against a server that shows
/// the truth about the group, and with the same catalog, the second run
/// finds the group, and what it sends leaves the server as the first run
/// left it: the description is the one already there and every permission
/// is already settled.
pub proof fn lemma_group_run_is_idempotent(
    remote: Remote,
    api: SonarApiView,
    group: SonarGroupCreationRequest,
    found: Option<SonarGroup>,
    catalog: Seq<Seq<char>>,
    found_again: Option<SonarGroup>,
)
    requires
        remote.wf(),
        remote.shows_group(group.name@, found),
        after_group_run(remote, api, group, found, catalog).shows_group(group.name@, found_again),
    ensures
        found_again is Some,
        ({
            let once = after_group_run(remote, api, group, found, catalog);
            after_group_run(once, api, group, found_again, catalog) == once
        }),
{
    let once = after_group_run(remote, api, group, found, catalog);
    lemma_group_run_effect(remote, api, group, found, catalog);
    lemma_group_run_effect(once, api, group, found_again, catalog);
    let twice = after_group_run(once, api, group, found_again, catalog);
    assert(twice.groups.dom() =~= once.groups.dom());
    assert(twice.groups =~= once.groups) by {
        assert forall|name: Seq<char>| once.groups.contains_key(name) implies twice.groups[name]
            == once.groups[name] by {
        }
    }
    assert(twice.bindings =~= once.bindings);
    assert(twice =~= once);
}

/// What the removals of a membership settlement do to the server: the
/// user leaves every group it was shown to be in that is also desired and
/// is not the default group.
pub proof fn lemma_removal_calls_effect(
    remote: Remote,
    api: SonarApiView,
    login: Seq<char>,
    desired: Seq<Seq<char>>,
    current: Seq<Seq<char>>,
)
    ensures
        remote.receive_all(api.removal_calls(login, desired, current)) == (Remote {
            members: Set::new(
                |member: (Seq<char>, Seq<char>)|
                    remote.members.contains(member) && !(member.0 == login && current.contains(
                        member.1,
                    ) && desired.contains(member.1) && member.1 != api.default_group),
            ),
            ..remote
        }),
    decreases current.len(),
{
    let after = remote.receive_all(api.removal_calls(login, desired, current));
    let claimed = Set::new(
        |member: (Seq<char>, Seq<char>)|
            remote.members.contains(member) && !(member.0 == login && current.contains(member.1)
                && desired.contains(member.1) && member.1 != api.default_group),
    );
    if current.len() == 0 {
        assert(claimed =~= remote.members);
    } else {
        let group = current.last();
        let earlier = current.drop_last();
        lemma_removal_calls_effect(remote, api, login, desired, earlier);
        lemma_params_read_back(login, group, Seq::empty());
        assert forall|other: Seq<char>| current.contains(other) <==> (earlier.contains(other)
            || other == group) by {
            if current.contains(other) {
                let i = choose|i: int| 0 <= i < current.len() && current[i] == other;
                if i < current.len() - 1 {
                    assert(earlier[i] == other);
                }
            }
            if earlier.contains(other) {
                let i = choose|i: int| 0 <= i < earlier.len() && earlier[i] == other;
                assert(current[i] == other);
            }
            if other == group {
                assert(current[current.len() - 1] == group);
            }
        }
        if desired.contains(group) && group != api.default_group {
            let calls = api.removal_calls(login, desired, current);
            assert(calls.drop_last() =~= api.removal_calls(login, desired, earlier));
        }
        assert(after.members =~= claimed);
    }
}

/// What the additions of a membership settlement do to the server: the
/// user joins every desired group it was not shown to be in.
pub proof fn lemma_addition_calls_effect(
    remote: Remote,
    api: SonarApiView,
    login: Seq<char>,
    desired: Seq<Seq<char>>,
    current: Seq<Seq<char>>,
)
    ensures
        remote.receive_all(api.addition_calls(login, desired, current)) == (Remote {
            members: Set::new(
                |member: (Seq<char>, Seq<char>)|
                    remote.members.contains(member) || (member.0 == login && desired.contains(
                        member.1,
                    ) && !current.contains(member.1)),
            ),
            ..remote
        }),
    decreases desired.len(),
{
    let after = remote.receive_all(api.addition_calls(login, desired, current));
    let claimed = Set::new(
        |member: (Seq<char>, Seq<char>)|
            remote.members.contains(member) || (member.0 == login && desired.contains(member.1)
                && !current.contains(member.1)),
    );
    if desired.len() == 0 {
        assert(claimed =~= remote.members);
    } else {
        let group = desired.last();
        let earlier = desired.drop_last();
        lemma_addition_calls_effect(remote, api, login, earlier, current);
        lemma_params_read_back(login, group, Seq::empty());
        assert forall|other: Seq<char>| desired.contains(other) <==> (earlier.contains(other)
            || other == group) by {
            if desired.contains(other) {
                let i = choose|i: int| 0 <= i < desired.len() && desired[i] == other;
                if i < desired.len() - 1 {
                    assert(earlier[i] == other);
                }
            }
            if earlier.contains(other) {
                let i = choose|i: int| 0 <= i < earlier.len() && earlier[i] == other;
                assert(desired[i] == other);
            }
            if other == group {
                assert(desired[desired.len() - 1] == group);
            }
        }
        if !current.contains(group) {
            let calls = api.addition_calls(login, desired, current);
            assert(calls.drop_last() =~= api.addition_calls(login, earlier, current));
        }
        assert(after.members =~= claimed);
    }
}

/// The server after a run that brought a user to its desired state.
pub open spec fn after_user_run(
    remote: Remote,
    api: SonarApiView,
    user: SonarUser,
    exists: bool,
    current: Seq<Seq<char>>,
) -> Remote {
    remote.receive_all(api.user_calls(user, exists, current))
}

/// The memberships after a settlement: the user has left the groups that
/// were held and desired, the default group excepted, and joined the
/// desired groups that were not held.
pub open spec fn settled_members(
    members: Set<(Seq<char>, Seq<char>)>,
    login: Seq<char>,
    desired: Seq<Seq<char>>,
    current: Seq<Seq<char>>,
    default_group: Seq<char>,
) -> Set<(Seq<char>, Seq<char>)> {
    Set::new(
        |member: (Seq<char>, Seq<char>)|
            if member.0 == login && desired.contains(member.1) {
                if current.contains(member.1) {
                    members.contains(member) && member.1 == default_group
                } else {
                    true
                }
            } else {
                members.contains(member)
            },
    )
}

/// What a run that brings a user to its desired state does to a server
/// that showed the truth about the user: the account is there with the
/// desired name, and with the desired password where one is given or the
/// account is new; the memberships are settled as [`settled_members`]
/// says; and nothing else has changed.
pub proof fn lemma_user_run_effect(
    remote: Remote,
    api: SonarApiView,
    user: SonarUser,
    exists: bool,
    current: Seq<Seq<char>>,
)
    requires
        remote.shows_user(user.login@, exists),
    ensures
        ({
            let once = after_user_run(remote, api, user, exists, current);
            &&& once.users == remote.users.insert(
                user.login@,
                UserRecord {
                    name: user.name@,
                    password: if exists && user.password is None {
                        remote.users[user.login@].password
                    } else {
                        SonarApiView::initial_password(user)
                    },
                },
            )
            &&& once.members == settled_members(
                remote.members,
                user.login@,
                user.groups.deep_view(),
                current,
                api.default_group,
            )
            &&& once.settings == remote.settings
            &&& once.groups == remote.groups
            &&& once.next_id == remote.next_id
            &&& once.bindings == remote.bindings
        }),
{
    let login = user.login@;
    let desired = user.groups.deep_view();
    let search = seq![ApiCallView::search_users(login)];
    let upsert = SonarApiView::user_upsert_calls(user, exists);
    let query = seq![ApiCallView::groups_of_user(login)];
    let removals = api.removal_calls(login, desired, current);
    let additions = api.addition_calls(login, desired, current);
    let calls = api.user_calls(user, exists, current);
    assert(calls =~= search + upsert + query + removals + additions);
    lemma_receive_joined(remote, search + upsert + query + removals, additions);
    lemma_receive_joined(remote, search + upsert + query, removals);
    lemma_receive_joined(remote, search + upsert, query);
    lemma_receive_joined(remote, search, upsert);
    lemma_receive_one(remote, search[0]);
    assert(remote.receive_all(search) == remote);
    let written = remote.receive_all(upsert);
    lemma_receive_one(written, query[0]);
    assert(written.receive_all(query) == written);
    lemma_removal_calls_effect(written, api, login, desired, current);
    let removed = written.receive_all(removals);
    lemma_addition_calls_effect(removed, api, login, desired, current);
    let once = removed.receive_all(additions);
    assert(once == after_user_run(remote, api, user, exists, current));
    lemma_params_read_back(login, user.name@, SonarApiView::initial_password(user));
    if !exists {
        lemma_receive_one(remote, upsert[0]);
    } else {
        match user.password {
            Some(password) => {
                lemma_params_read_back(login, password@, Seq::empty());
                lemma_receive_two(remote, upsert[0], upsert[1]);
                assert(written.users =~= remote.users.insert(
                    login,
                    UserRecord { name: user.name@, password: password@ },
                ));
            },
            None => {
                lemma_receive_one(remote, upsert[0]);
            },
        }
    }
    assert(once.members =~= settled_members(
        remote.members,
        login,
        desired,
        current,
        api.default_group,
    ));
}

/// A second run for a user changes nothing, as far as the account goes and
/// as long as the user is to be in no group but the default one. Against a
/// server that shows the truth about the user and its groups, the second
/// run finds the account, and what it sends leaves the server as the first
/// run left it.
///
/// With any other desired group the memberships do not come to rest: a
/// group that the user is in and should be in is left by one run and
/// joined again by the next.
pub proof fn lemma_user_run_is_idempotent(
    remote: Remote,
    api: SonarApiView,
    user: SonarUser,
    exists: bool,
    current: Seq<Seq<char>>,
    exists_again: bool,
    current_again: Seq<Seq<char>>,
)
    requires
        forall|group: Seq<char>|
            user.groups.deep_view().contains(group) ==> group == api.default_group,
        remote.shows_user(user.login@, exists),
        remote.shows_memberships(user.login@, current),
        after_user_run(remote, api, user, exists, current).shows_user(user.login@, exists_again),
        after_user_run(remote, api, user, exists, current).shows_memberships(
            user.login@,
            current_again,
        ),
    ensures
        exists_again,
        ({
            let once = after_user_run(remote, api, user, exists, current);
            after_user_run(once, api, user, exists_again, current_again) == once
        }),
{
    let once = after_user_run(remote, api, user, exists, current);
    lemma_user_run_effect(remote, api, user, exists, current);
    lemma_user_run_effect(once, api, user, exists_again, current_again);
    let twice = after_user_run(once, api, user, exists_again, current_again);
    assert(twice.users =~= once.users);
    assert(twice.members =~= once.members);
    assert(twice =~= once);
}

/// Idempotence of a setting. A second run that applies the same setting
/// makes the one call that the first made, and that call leaves the server
/// as the first left it.
pub proof fn lemma_second_property_run_changes_nothing(
    remote: Remote,
    api: SonarApiView,
    property: SonarProperty,
    second: Seq<Reply>,
)
    requires
        api.set_property(property, second) is Done,
    ensures
        ({
            let call = ApiCallView::set_setting(property.name@, property.value@);
            let once = remote.receive(call);
            &&& api.set_property(property, second) == Outcome::Done((), 1)
            &&& asks(api.set_property(property, second.take(0)), call)
            &&& once.receive(call) == once
        }),
{
    lemma_setting_is_idempotent(remote, api, property);
}

/// Idempotence of a group. Take two runs for the same group that both come
/// to their end, the second against the server as the first left it, with
/// truthful answers to the searches and the same permission catalog. Then
/// the second run creates nothing, and the calls it makes leave the server
/// as the first run left it.
pub proof fn lemma_second_group_run_changes_nothing(
    remote: Remote,
    api: SonarApiView,
    group: SonarGroupCreationRequest,
    first: Seq<Reply>,
    second: Seq<Reply>,
)
    requires
        remote.wf(),
        api.create_group(group, first) is Done,
        api.create_group(group, second) is Done,
        remote.shows_group(group.name@, group_seen(first[0], group.name@)),
        after_group_run(
            remote,
            api,
            group,
            group_seen(first[0], group.name@),
            catalog_seen(first[2]),
        ).shows_group(group.name@, group_seen(second[0], group.name@)),
        catalog_seen(second[2]) == catalog_seen(first[2]),
    ensures
        ({
            let once = after_group_run(
                remote,
                api,
                group,
                group_seen(first[0], group.name@),
                catalog_seen(first[2]),
            );
            let calls = api.group_calls(
                group,
                group_seen(second[0], group.name@),
                catalog_seen(second[2]),
            );
            &&& api.create_group(group, second) == Outcome::Done((), calls.len())
            &&& forall|k: int|
                0 <= k < calls.len() ==> asks(
                    #[trigger] api.create_group(group, second.take(k)),
                    calls[k],
                )
            &&& forall|k: int|
                0 <= k < calls.len() ==> (#[trigger] calls[k]).endpoint
                    != Endpoint::UserGroupsCreate
            &&& once.receive_all(calls) == once
        }),
{
    let name = group.name@;
    let found = group_seen(first[0], name);
    let found_again = group_seen(second[0], name);
    let catalog = catalog_seen(first[2]);
    lemma_group_run_follows_calls(api, group, second);
    lemma_group_run_is_idempotent(remote, api, group, found, catalog, found_again);
    lemma_permission_calls_bind_or_unbind(api, name, group.permissions.deep_view(), catalog);
    let calls = api.group_calls(group, found_again, catalog);
    let bindings = api.permission_calls(name, group.permissions.deep_view(), catalog);
    assert forall|k: int| 0 <= k < calls.len() implies (#[trigger] calls[k]).endpoint
        != Endpoint::UserGroupsCreate by {
        if k >= 3 {
            assert(calls[k] == bindings[k - 3]);
        }
    }
}

/// Idempotence of a user who is to be in no group but the default one.
/// Take two runs for the same user that both come to their end, the second
/// against the server as the first left it, with truthful answers to the
/// search and to the membership query. Then the second run creates
/// nothing, and the calls it makes leave the server as the first run left
/// it.
pub proof fn lemma_second_user_run_changes_nothing(
    remote: Remote,
    api: SonarApiView,
    user: SonarUser,
    first: Seq<Reply>,
    second: Seq<Reply>,
)
    requires
        forall|group: Seq<char>|
            user.groups.deep_view().contains(group) ==> group == api.default_group,
        api.create_user(user, first) is Done,
        api.create_user(user, second) is Done,
        ({
            let exists = user_seen(first[0], user.login@);
            let current = user_groups_seen(user, first);
            let exists_again = user_seen(second[0], user.login@);
            let current_again = user_groups_seen(user, second);
            let once = after_user_run(remote, api, user, exists, current);
            &&& remote.shows_user(user.login@, exists)
            &&& remote.shows_memberships(user.login@, current)
            &&& once.shows_user(user.login@, exists_again)
            &&& once.shows_memberships(user.login@, current_again)
        }),
    ensures
        ({
            let exists = user_seen(first[0], user.login@);
            let current = user_groups_seen(user, first);
            let exists_again = user_seen(second[0], user.login@);
            let current_again = user_groups_seen(user, second);
            let once = after_user_run(remote, api, user, exists, current);
            let calls = api.user_calls(user, exists_again, current_again);
            &&& api.create_user(user, second) == Outcome::Done((), calls.len())
            &&& forall|k: int|
                0 <= k < calls.len() ==> asks(
                    #[trigger] api.create_user(user, second.take(k)),
                    calls[k],
                )
            &&& exists_again
            &&& once.receive_all(calls) == once
        }),
{
    let exists = user_seen(first[0], user.login@);
    let current = user_groups_seen(user, first);
    let exists_again = user_seen(second[0], user.login@);
    let current_again = user_groups_seen(user, second);
    lemma_user_run_follows_calls(api, user, second);
    lemma_user_run_is_idempotent(remote, api, user, exists, current, exists_again, current_again);
}

} // verus!
