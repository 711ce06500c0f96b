use sonarqube_setup::exchange::{Endpoint, HttpRequest, Payload, Reply, Step};
use sonarqube_setup::failure::{ConfigurationError, SonarFailure};
use sonarqube_setup::setup::{setup, DesiredState, SetupCmd};
use sonarqube_setup::sonar_api::{SonarApi, SonarDefaults};
use sonarqube_setup::sonar_api_model::{
    SonarAdminUpdateRequest, SonarAuthenticationValidationResult, SonarGroup,
    SonarGroupCreationRequest, SonarGroups, SonarPaging, SonarPermission,
    SonarPermissionTemplates, SonarProperty, SonarUser, SonarUserGroups, SonarUserMembership,
    SonarUsers,
};

/// A server in memory that answers the way a real one does.
struct Server {
    admin_password: String,
    settings: Vec<(String, String)>,
    groups: Vec<(usize, String, String)>,
    catalog: Vec<String>,
    bindings: Vec<(String, String)>,
    users: Vec<(String, String, String)>,
    members: Vec<(String, String)>,
    log: Vec<HttpRequest>,
}

fn value(request: &HttpRequest, key: &str) -> String {
    for (k, v) in &request.params {
        if k == key {
            return v.clone();
        }
    }
    panic!("no parameter {} in {:?}", key, request);
}

fn paging(total: usize) -> SonarPaging {
    SonarPaging { page_index: 1, page_size: total, total }
}

fn ok() -> Reply {
    Reply::Received { status: 200, body: Payload::Empty }
}

impl Server {
    fn fresh(catalog: &[&str]) -> Server {
        Server {
            admin_password: "admin".to_string(),
            settings: Vec::new(),
            groups: Vec::new(),
            catalog: catalog.iter().map(|key| key.to_string()).collect(),
            bindings: Vec::new(),
            users: Vec::new(),
            members: Vec::new(),
            log: Vec::new(),
        }
    }

    fn count(&self, endpoint: Endpoint) -> usize {
        self.log.iter().filter(|request| request.endpoint == endpoint).count()
    }

    fn bound(&self, group: &str) -> Vec<String> {
        let mut keys: Vec<String> = self
            .bindings
            .iter()
            .filter(|(g, _)| g == group)
            .map(|(_, key)| key.clone())
            .collect();
        keys.sort();
        keys
    }

    fn groups_of(&self, login: &str) -> Vec<String> {
        let mut names: Vec<String> = self
            .members
            .iter()
            .filter(|(l, _)| l == login)
            .map(|(_, group)| group.clone())
            .collect();
        names.sort();
        names
    }

    fn answer(&mut self, request: &HttpRequest) -> Reply {
        self.log.push(request.clone());
        match request.endpoint {
            Endpoint::ServerVersion => ok(),
            Endpoint::AuthenticationValidate => {
                let valid = match &request.credentials {
                    Some((_, password)) => *password == self.admin_password,
                    None => false,
                };
                Reply::Received {
                    status: 200,
                    body: Payload::Validation(SonarAuthenticationValidationResult { valid }),
                }
            }
            Endpoint::SettingsSet => {
                let key = value(request, "key");
                self.settings.retain(|(k, _)| *k != key);
                self.settings.push((key, value(request, "value")));
                ok()
            }
            Endpoint::UserGroupsSearch => {
                let q = value(request, "q");
                let groups: Vec<SonarGroup> = self
                    .groups
                    .iter()
                    .filter(|(_, name, _)| name.contains(&q))
                    .map(|(id, name, description)| SonarGroup {
                        id: *id,
                        name: name.clone(),
                        description: description.clone(),
                        permissions: Vec::new(),
                    })
                    .collect();
                Reply::Received {
                    status: 200,
                    body: Payload::Groups(SonarGroups { paging: paging(groups.len()), groups }),
                }
            }
            Endpoint::UserGroupsCreate => {
                let id = 100 + self.groups.len();
                self.groups.push((id, value(request, "name"), value(request, "description")));
                ok()
            }
            Endpoint::UserGroupsUpdate => {
                let id = value(request, "id");
                for group in self.groups.iter_mut() {
                    if group.0.to_string() == id {
                        group.2 = value(request, "description");
                    }
                }
                ok()
            }
            Endpoint::PermissionsSearchTemplates => {
                let permissions = self
                    .catalog
                    .iter()
                    .map(|key| SonarPermission {
                        key: key.clone(),
                        name: key.clone(),
                        description: String::new(),
                    })
                    .collect();
                Reply::Received {
                    status: 200,
                    body: Payload::PermissionTemplates(SonarPermissionTemplates {
                        permission_templates: Vec::new(),
                        default_templates: Vec::new(),
                        permissions,
                    }),
                }
            }
            Endpoint::PermissionsAddGroupToTemplate => {
                let binding = (value(request, "groupName"), value(request, "permission"));
                if !self.bindings.contains(&binding) {
                    self.bindings.push(binding);
                }
                ok()
            }
            Endpoint::PermissionsRemoveGroupFromTemplate => {
                let binding = (value(request, "groupName"), value(request, "permission"));
                self.bindings.retain(|held| *held != binding);
                ok()
            }
            Endpoint::UsersSearch => {
                let q = value(request, "q");
                let users: Vec<SonarUser> = self
                    .users
                    .iter()
                    .filter(|(login, _, _)| login.contains(&q))
                    .map(|(login, name, _)| SonarUser {
                        login: login.clone(),
                        name: name.clone(),
                        password: None,
                        groups: Vec::new(),
                    })
                    .collect();
                Reply::Received {
                    status: 200,
                    body: Payload::Users(SonarUsers { paging: paging(users.len()), users }),
                }
            }
            Endpoint::UsersCreate => {
                self.users.push((
                    value(request, "login"),
                    value(request, "name"),
                    value(request, "password"),
                ));
                ok()
            }
            Endpoint::UsersUpdate => {
                let login = value(request, "login");
                for user in self.users.iter_mut() {
                    if user.0 == login {
                        user.1 = value(request, "name");
                    }
                }
                ok()
            }
            Endpoint::UsersChangePassword => {
                let login = value(request, "login");
                if login == "admin" {
                    self.admin_password = value(request, "password");
                }
                for user in self.users.iter_mut() {
                    if user.0 == login {
                        user.2 = value(request, "password");
                    }
                }
                ok()
            }
            Endpoint::UsersGroups => {
                let login = value(request, "login");
                let groups: Vec<SonarUserMembership> = self
                    .groups_of(&login)
                    .into_iter()
                    .map(|name| SonarUserMembership {
                        id: 1,
                        name,
                        description: String::new(),
                        selected: true,
                        default: false,
                    })
                    .collect();
                Reply::Received {
                    status: 200,
                    body: Payload::UserGroups(SonarUserGroups {
                        paging: paging(groups.len()),
                        groups,
                    }),
                }
            }
            Endpoint::UserGroupsAddUser => {
                let member = (value(request, "login"), value(request, "name"));
                if !self.members.contains(&member) {
                    self.members.push(member);
                }
                ok()
            }
            Endpoint::UserGroupsRemoveUser => {
                let member = (value(request, "login"), value(request, "name"));
                self.members.retain(|held| *held != member);
                ok()
            }
            Endpoint::UserTokensGenerate => ok(),
        }
    }
}

/// Sends what the operation asks for until it is done or fails.
fn drive<T>(
    server: &mut Server,
    mut operation: impl FnMut(&[Reply]) -> Step<T>,
) -> Result<T, SonarFailure> {
    let mut replies: Vec<Reply> = Vec::new();
    loop {
        match operation(&replies) {
            Step::Send(request) => {
                let reply = server.answer(&request);
                replies.push(reply);
            }
            Step::Done(value, used) => {
                assert_eq!(used, replies.len());
                return Ok(value);
            }
            Step::Fail(failure) => return Err(failure),
        }
    }
}

fn client() -> SonarApi {
    SonarApi::with_credentials(
        "http://sonar.example".to_string(),
        "admin".to_string(),
        "admin".to_string(),
        SonarDefaults::standard(),
    )
}

fn qa(permissions: &[&str]) -> SonarGroupCreationRequest {
    SonarGroupCreationRequest {
        name: "qa".to_string(),
        description: "QA team".to_string(),
        permissions: permissions.iter().map(|key| key.to_string()).collect(),
    }
}

fn command() -> SetupCmd {
    SetupCmd {
        file: "sonar.yml".to_string(),
        url: "http://sonar.example/".to_string(),
        admin_password: None,
        number_attempts: 3,
    }
}

#[test]
fn end_to_end_scenario() {
    let mut server = Server::fresh(&["admin", "scan"]);
    let desired = DesiredState {
        admin: None,
        properties: vec![SonarProperty {
            name: "sonar.core.serverBaseURL".to_string(),
            value: "http://x".to_string(),
        }],
        groups: vec![qa(&["admin"])],
        users: Vec::new(),
    };
    let cmd = command();
    let done = drive(&mut server, |replies| {
        setup(&cmd, &desired, &None, SonarDefaults::standard(), replies)
    });
    assert!(done.is_ok());
    assert_eq!(server.count(Endpoint::SettingsSet), 1);
    assert_eq!(server.count(Endpoint::UserGroupsCreate), 1);
    assert_eq!(server.count(Endpoint::UserGroupsUpdate), 0);
    assert_eq!(server.count(Endpoint::PermissionsAddGroupToTemplate), 1);
    assert_eq!(server.count(Endpoint::PermissionsRemoveGroupFromTemplate), 1);
    let created = server
        .log
        .iter()
        .find(|request| request.endpoint == Endpoint::UserGroupsCreate)
        .unwrap();
    assert_eq!(value(created, "name"), "qa");
    assert_eq!(value(created, "description"), "QA team");
    let added = server
        .log
        .iter()
        .find(|request| request.endpoint == Endpoint::PermissionsAddGroupToTemplate)
        .unwrap();
    assert_eq!(value(added, "permission"), "admin");
    assert_eq!(value(added, "groupName"), "qa");
    assert_eq!(value(added, "templateId"), "default_template");
    let removed = server
        .log
        .iter()
        .find(|request| request.endpoint == Endpoint::PermissionsRemoveGroupFromTemplate)
        .unwrap();
    assert_eq!(value(removed, "permission"), "scan");
    assert_eq!(
        server.settings,
        vec![("sonar.core.serverBaseURL".to_string(), "http://x".to_string())]
    );
    assert_eq!(server.bound("qa"), vec!["admin".to_string()]);
}

#[test]
fn setup_goes_in_order_and_changes_the_admin_password_last() {
    let mut server = Server::fresh(&["admin"]);
    let desired = DesiredState {
        admin: Some(SonarAdminUpdateRequest { password: Some("s3cret".to_string()) }),
        properties: vec![SonarProperty { name: "a".to_string(), value: "1".to_string() }],
        groups: vec![qa(&["admin"])],
        users: vec![SonarUser {
            login: "jane".to_string(),
            name: "Jane".to_string(),
            password: Some("pw".to_string()),
            groups: vec!["qa".to_string()],
        }],
    };
    let cmd = command();
    let done = drive(&mut server, |replies| {
        setup(&cmd, &desired, &None, SonarDefaults::standard(), replies)
    });
    assert!(done.is_ok());
    let order: Vec<Endpoint> = server.log.iter().map(|request| request.endpoint).collect();
    assert_eq!(
        order,
        vec![
            Endpoint::ServerVersion,
            Endpoint::AuthenticationValidate,
            Endpoint::AuthenticationValidate,
            Endpoint::SettingsSet,
            Endpoint::UserGroupsSearch,
            Endpoint::UserGroupsCreate,
            Endpoint::PermissionsSearchTemplates,
            Endpoint::PermissionsAddGroupToTemplate,
            Endpoint::UsersSearch,
            Endpoint::UsersCreate,
            Endpoint::UsersGroups,
            Endpoint::UserGroupsAddUser,
            Endpoint::UsersChangePassword,
        ]
    );
    assert_eq!(server.admin_password, "s3cret");
    let last = server.log.last().unwrap();
    assert_eq!(value(last, "login"), "admin");
    assert_eq!(value(last, "password"), "s3cret");
    assert_eq!(value(last, "previousPassword"), "admin");
    // every call before the change was made with the password found at the start
    for request in &server.log[3..] {
        assert_eq!(
            request.credentials,
            Some(("admin".to_string(), "admin".to_string()))
        );
    }

    // a second run finds the new password at once and changes nothing on the account
    server.log.clear();
    let again = drive(&mut server, |replies| {
        setup(&cmd, &desired, &None, SonarDefaults::standard(), replies)
    });
    assert!(again.is_ok());
    assert_eq!(server.count(Endpoint::AuthenticationValidate), 1);
    assert_eq!(server.count(Endpoint::UsersChangePassword), 1); // jane's, not the admin's
    assert_eq!(server.count(Endpoint::UserGroupsCreate), 0);
    assert_eq!(server.count(Endpoint::UsersCreate), 0);
    assert_eq!(server.admin_password, "s3cret");
}

#[test]
fn group_permissions_converge_from_any_start() {
    let catalog = ["admin", "scan", "provisioning", "gateadmin"];
    let desired = ["scan", "gateadmin"];
    let starts: Vec<Vec<&str>> = vec![
        vec![],
        vec!["admin", "scan", "provisioning", "gateadmin"],
        vec!["admin", "scan"],
        vec!["provisioning"],
    ];
    for start in starts {
        let mut server = Server::fresh(&catalog);
        for key in &start {
            server.bindings.push(("qa".to_string(), key.to_string()));
        }
        let api = client();
        let group = qa(&desired);
        let done = drive(&mut server, |replies| api.create_group(&group, replies));
        assert!(done.is_ok());
        assert_eq!(
            server.bound("qa"),
            vec!["gateadmin".to_string(), "scan".to_string()]
        );
        assert_eq!(
            server.count(Endpoint::PermissionsAddGroupToTemplate)
                + server.count(Endpoint::PermissionsRemoveGroupFromTemplate),
            4
        );
    }
}

#[test]
fn group_is_created_once_when_absent_and_updated_once_when_present() {
    let mut server = Server::fresh(&["admin"]);
    let api = client();
    let group = qa(&["admin"]);
    assert!(drive(&mut server, |replies| api.create_group(&group, replies)).is_ok());
    assert_eq!(server.count(Endpoint::UserGroupsCreate), 1);
    assert_eq!(server.count(Endpoint::UserGroupsUpdate), 0);

    server.log.clear();
    let changed = SonarGroupCreationRequest {
        description: "Quality".to_string(),
        ..qa(&["admin"])
    };
    assert!(drive(&mut server, |replies| api.create_group(&changed, replies)).is_ok());
    assert_eq!(server.count(Endpoint::UserGroupsCreate), 0);
    assert_eq!(server.count(Endpoint::UserGroupsUpdate), 1);
    let update = server
        .log
        .iter()
        .find(|request| request.endpoint == Endpoint::UserGroupsUpdate)
        .unwrap();
    assert_eq!(value(update, "id"), "100");
    assert_eq!(value(update, "description"), "Quality");
    assert_eq!(
        server.groups,
        vec![(100, "qa".to_string(), "Quality".to_string())]
    );
}

#[test]
fn group_search_matches_the_exact_name_only() {
    let mut server = Server::fresh(&[]);
    server.groups.push((7, "qa-leads".to_string(), "Leads".to_string()));
    let api = client();
    let found = drive(&mut server, |replies| {
        match api.get_group_by_name("qa", replies) {
            Step::Send(request) => Step::Send(request),
            Step::Fail(failure) => Step::Fail(failure),
            Step::Done(found, used) => Step::Done(found.map(|group| group.id), used),
        }
    });
    assert_eq!(found.unwrap(), None);
    let exists = drive(&mut server, |replies| api.group_exists("qa-leads", replies));
    assert_eq!(exists.unwrap(), true);
    let found = drive(&mut server, |replies| {
        match api.get_group_by_name("qa-leads", replies) {
            Step::Send(request) => Step::Send(request),
            Step::Fail(failure) => Step::Fail(failure),
            Step::Done(found, used) => Step::Done(found.map(|group| group.id), used),
        }
    });
    assert_eq!(found.unwrap(), Some(7));
}

#[test]
fn running_a_group_twice_changes_nothing_more() {
    let mut server = Server::fresh(&["admin", "scan"]);
    server.bindings.push(("qa".to_string(), "scan".to_string()));
    let api = client();
    let group = qa(&["admin"]);
    assert!(drive(&mut server, |replies| api.create_group(&group, replies)).is_ok());
    let groups = server.groups.clone();
    let bindings = server.bindings.clone();
    server.log.clear();
    assert!(drive(&mut server, |replies| api.create_group(&group, replies)).is_ok());
    assert_eq!(server.groups, groups);
    assert_eq!(server.bindings, bindings);
    assert_eq!(server.count(Endpoint::UserGroupsCreate), 0);
}

#[test]
fn running_a_property_twice_changes_nothing_more() {
    let mut server = Server::fresh(&[]);
    let api = client();
    let property = SonarProperty { name: "k".to_string(), value: "v".to_string() };
    assert!(drive(&mut server, |replies| api.set_property(&property, replies)).is_ok());
    let settings = server.settings.clone();
    assert!(drive(&mut server, |replies| api.set_property(&property, replies)).is_ok());
    assert_eq!(server.settings, settings);
    assert_eq!(settings, vec![("k".to_string(), "v".to_string())]);
}

#[test]
fn running_a_user_twice_changes_nothing_more_without_other_groups() {
    let mut server = Server::fresh(&[]);
    let mut api = client();
    let user = SonarUser {
        login: "jane".to_string(),
        name: "Jane".to_string(),
        password: Some("pw".to_string()),
        groups: vec!["sonar-users".to_string()],
    };
    assert!(drive(&mut server, |replies| api.create_user(&user, replies)).is_ok());
    assert_eq!(server.count(Endpoint::UsersCreate), 1);
    let users = server.users.clone();
    let members = server.members.clone();
    assert_eq!(users, vec![("jane".to_string(), "Jane".to_string(), "pw".to_string())]);
    assert_eq!(members, vec![("jane".to_string(), "sonar-users".to_string())]);
    server.log.clear();
    assert!(drive(&mut server, |replies| api.create_user(&user, replies)).is_ok());
    assert_eq!(server.users, users);
    assert_eq!(server.members, members);
    assert_eq!(server.count(Endpoint::UsersCreate), 0);
    assert_eq!(server.count(Endpoint::UsersUpdate), 1);
    assert_eq!(server.count(Endpoint::UsersChangePassword), 1);
    assert_eq!(server.count(Endpoint::UserGroupsRemoveUser), 0);
    assert_eq!(server.count(Endpoint::UserGroupsAddUser), 0);
}

#[test]
fn memberships_that_are_held_and_desired_are_left() {
    let mut server = Server::fresh(&[]);
    server.users.push(("jane".to_string(), "Jane".to_string(), "pw".to_string()));
    server.members.push(("jane".to_string(), "sonar-users".to_string()));
    server.members.push(("jane".to_string(), "qa".to_string()));
    server.members.push(("jane".to_string(), "ops".to_string()));
    let mut api = client();
    let user = SonarUser {
        login: "jane".to_string(),
        name: "Jane".to_string(),
        password: None,
        groups: vec!["sonar-users".to_string(), "qa".to_string(), "dev".to_string()],
    };
    assert!(drive(&mut server, |replies| api.create_user(&user, replies)).is_ok());
    // "qa" was held and desired: left. "sonar-users" is the default group: kept.
    // "ops" is not desired: untouched. "dev" was not held: joined.
    assert_eq!(
        server.groups_of("jane"),
        vec!["dev".to_string(), "ops".to_string(), "sonar-users".to_string()]
    );
    assert_eq!(server.count(Endpoint::UserGroupsRemoveUser), 1);
    assert_eq!(server.count(Endpoint::UserGroupsAddUser), 1);
    assert_eq!(server.count(Endpoint::UsersChangePassword), 0);
}

#[test]
fn new_user_without_password_gets_the_default_one() {
    let mut server = Server::fresh(&[]);
    let mut api = client();
    let user = SonarUser {
        login: "joe".to_string(),
        name: "Joe".to_string(),
        password: None,
        groups: Vec::new(),
    };
    assert!(drive(&mut server, |replies| api.create_user(&user, replies)).is_ok());
    assert_eq!(
        server.users,
        vec![("joe".to_string(), "Joe".to_string(), "password".to_string())]
    );
}

#[test]
fn reserved_login_is_refused_before_any_call() {
    let mut server = Server::fresh(&[]);
    let mut api = client();
    let user = SonarUser {
        login: "admin".to_string(),
        name: "Root".to_string(),
        password: None,
        groups: Vec::new(),
    };
    let refused = drive(&mut server, |replies| api.create_user(&user, replies));
    match refused {
        Err(SonarFailure::Configuration(ConfigurationError::ReservedLogin { login })) => {
            assert_eq!(login, "admin")
        }
        other => panic!("unexpected {:?}", other),
    }
    assert!(server.log.is_empty());
}
