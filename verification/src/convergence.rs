//! Permission convergence: after a run for a group, the group holds
//! exactly the desired permissions, whatever it held before.

use vstd::prelude::*;
use crate::exchange::{Outcome, Reply};
use crate::idempotence::{after_group_run, lemma_group_run_effect};
use crate::remote::{lemma_permission_calls_settle, Remote};
use crate::runs::{asks, catalog_seen, group_seen, lemma_group_run_follows_calls};
use crate::sonar_api::SonarApiView;
use crate::sonar_api_model::SonarGroupCreationRequest;

verus! {

/// Permission convergence. Whatever a group held before, once its
/// permissions have been settled against a catalog it holds exactly the
/// desired ones, provided that the desired ones and the ones it held are
/// all of the catalog.
pub proof fn lemma_permissions_converge(
    remote: Remote,
    api: SonarApiView,
    group: Seq<char>,
    desired: Seq<Seq<char>>,
    catalog: Seq<Seq<char>>,
)
    requires
        forall|permission: Seq<char>|
            desired.contains(permission) ==> catalog.contains(permission),
        forall|permission: Seq<char>|
            remote.bound(api.default_template, group).contains(permission) ==> catalog.contains(
                permission,
            ),
    ensures
        remote.receive_all(api.permission_calls(group, desired, catalog)).bound(
            api.default_template,
            group,
        ) == desired.to_set(),
{
    lemma_permission_calls_settle(remote, api, group, desired, catalog);
    let after = remote.receive_all(api.permission_calls(group, desired, catalog));
    assert forall|permission: Seq<char>|
        after.bound(api.default_template, group).contains(permission)
            <==> desired.to_set().contains(permission) by {
        if !catalog.contains(permission) {
            assert(!remote.bound(api.default_template, group).contains(permission));
        }
    }
    assert(after.bound(api.default_template, group) =~= desired.to_set());
}

/// Permission convergence of a whole run. Take a run that brings a group to
/// its desired state and comes to its end, against a server that showed the
/// truth about the group. If the desired permissions and the ones the group
/// held are all of the catalog that the server showed, then the calls of
/// the run, which are those of [`SonarApiView::group_calls`], leave the
/// group with exactly the desired permissions.
pub proof fn lemma_group_run_converges(
    remote: Remote,
    api: SonarApiView,
    group: SonarGroupCreationRequest,
    replies: Seq<Reply>,
)
    requires
        remote.wf(),
        api.create_group(group, replies) is Done,
        remote.shows_group(group.name@, group_seen(replies[0], group.name@)),
        forall|permission: Seq<char>|
            group.permissions.deep_view().contains(permission) ==> catalog_seen(
                replies[2],
            ).contains(permission),
        forall|permission: Seq<char>|
            remote.bound(api.default_template, group.name@).contains(permission)
                ==> catalog_seen(replies[2]).contains(permission),
    ensures
        ({
            let found = group_seen(replies[0], group.name@);
            let catalog = catalog_seen(replies[2]);
            let calls = api.group_calls(group, found, catalog);
            &&& api.create_group(group, replies) == Outcome::Done((), calls.len())
            &&& forall|k: int|
                0 <= k < calls.len() ==> asks(
                    #[trigger] api.create_group(group, replies.take(k)),
                    calls[k],
                )
            &&& remote.receive_all(calls).bound(api.default_template, group.name@)
                == group.permissions.deep_view().to_set()
        }),
{
    let found = group_seen(replies[0], group.name@);
    let catalog = catalog_seen(replies[2]);
    let desired = group.permissions.deep_view();
    lemma_group_run_follows_calls(api, group, replies);
    lemma_group_run_effect(remote, api, group, found, catalog);
    let after = after_group_run(remote, api, group, found, catalog);
    assert forall|permission: Seq<char>|
        after.bound(api.default_template, group.name@).contains(permission)
            <==> desired.to_set().contains(permission) by {
        if !catalog.contains(permission) {
            assert(!remote.bound(api.default_template, group.name@).contains(permission));
        }
    }
    assert(after.bound(api.default_template, group.name@) =~= desired.to_set());
}

} // verus!
