use std::collections::HashMap;

use sonarqube_setup::config_file_model::{Admin, ConfigurationFile, Group, Property, User};
use sonarqube_setup::failure::{ConfigurationError, SonarFailure};
use sonarqube_setup::setup::{init_password_provider, resolve_variables, DesiredState, SetupCmd};
use sonarqube_setup::sonar_api::SonarDefaults;
use sonarqube_setup::sonar_api_model::{
    SonarAdminUpdateRequest, SonarGroupCreationRequest, SonarProperty, SonarUser,
};
use sonarqube_setup::text::decimal_text;

fn shout(text: &String) -> String {
    text.to_uppercase()
}

fn context(pairs: &[(&str, &str)]) -> HashMap<String, String> {
    pairs.iter().map(|(k, v)| (k.to_string(), v.to_string())).collect()
}

#[test]
fn property_is_resolved_field_by_field() {
    let property = Property { name: "key".to_string(), value: "value".to_string() };
    let setting = SonarProperty::from_configuration_property(&property, &shout);
    assert_eq!(setting.name, "KEY");
    assert_eq!(setting.value, "VALUE");
    let all = SonarProperty::from_configuration_properties(
        &vec![property.clone(), Property { name: "b".to_string(), value: "c".to_string() }],
        &shout,
    );
    assert_eq!(all.len(), 2);
    assert_eq!(all[0].name, "KEY");
    assert_eq!(all[1].name, "B");
    assert_eq!(all[1].value, "C");
}

#[test]
fn group_permissions_come_out_in_the_opposite_order() {
    let group = Group {
        name: "qa".to_string(),
        description: "team".to_string(),
        permissions: vec!["admin".to_string(), "scan".to_string(), "gate".to_string()],
    };
    let request = SonarGroupCreationRequest::from_configuration_group(&group, &shout);
    assert_eq!(request.name, "QA");
    assert_eq!(request.description, "TEAM");
    assert_eq!(
        request.permissions,
        vec!["GATE".to_string(), "SCAN".to_string(), "ADMIN".to_string()]
    );
    let all = SonarGroupCreationRequest::from_configuration_groups(&vec![group], &shout);
    assert_eq!(all.len(), 1);
    assert_eq!(all[0].permissions[0], "GATE");
}

#[test]
fn user_always_gets_a_password_and_maybe_no_groups() {
    let user = User {
        name: "Jane".to_string(),
        login: "jane".to_string(),
        password: "pw".to_string(),
        groups: None,
    };
    let account = SonarUser::from_configuration_user(&user, &shout);
    assert_eq!(account.login, "JANE");
    assert_eq!(account.name, "JANE");
    assert_eq!(account.password, Some("PW".to_string()));
    assert!(account.groups.is_empty());
    let grouped = User { groups: Some(vec!["a".to_string(), "b".to_string()]), ..user };
    let all = SonarUser::from_configuration_users(&vec![grouped], &shout);
    assert_eq!(all[0].groups, vec!["A".to_string(), "B".to_string()]);
}

#[test]
fn admin_password_is_resolved_where_there_is_one() {
    let with = SonarAdminUpdateRequest::from_configuration(
        &Admin { password: Some("x".to_string()) },
        &shout,
    );
    assert_eq!(with.password, Some("X".to_string()));
    let without = SonarAdminUpdateRequest::from_configuration(&Admin { password: None }, &shout);
    assert_eq!(without.password, None);
}

#[test]
fn desired_state_has_empty_sections_where_the_file_has_none() {
    let file = ConfigurationFile { admin: None, properties: None, users: None, groups: None };
    let desired = DesiredState::from_configuration(&file, &shout);
    assert!(desired.admin.is_none());
    assert!(desired.properties.is_empty());
    assert!(desired.groups.is_empty());
    assert!(desired.users.is_empty());
    let file = ConfigurationFile {
        admin: Some(Admin { password: Some("p".to_string()) }),
        properties: Some(vec![Property { name: "a".to_string(), value: "b".to_string() }]),
        users: Some(Vec::new()),
        groups: Some(vec![Group {
            name: "g".to_string(),
            description: "d".to_string(),
            permissions: Vec::new(),
        }]),
    };
    let desired = DesiredState::from_configuration(&file, &shout);
    assert_eq!(desired.admin.unwrap().password, Some("P".to_string()));
    assert_eq!(desired.properties[0].value, "B");
    assert_eq!(desired.groups[0].name, "G");
    assert!(desired.users.is_empty());
}

#[test]
fn variables_are_substituted() {
    let vars = context(&[("VAR", "var"), ("OTHER", "x")]);
    let resolved = resolve_variables(&"foo ${VAR} bar".to_string(), &vars);
    assert_eq!(resolved.unwrap(), "foo var bar");
    let plain = resolve_variables(&"nothing here".to_string(), &vars);
    assert_eq!(plain.unwrap(), "nothing here");
}

#[test]
fn unresolved_variable_is_a_configuration_error() {
    let vars = context(&[("VAR", "var")]);
    match resolve_variables(&"${HOST}:${VAR}".to_string(), &vars) {
        Err(SonarFailure::Configuration(ConfigurationError::UnresolvedVariable { template })) => {
            assert_eq!(template, "${HOST}:${VAR}")
        }
        other => panic!("unexpected {:?}", other),
    }
    match resolve_variables(&"${HOST}".to_string(), &HashMap::new()) {
        Err(SonarFailure::Configuration(ConfigurationError::UnresolvedVariable { template })) => {
            assert_eq!(template, "${HOST}")
        }
        other => panic!("unexpected {:?}", other),
    }
}

#[test]
fn text_that_only_looks_like_a_placeholder_passes() {
    let none = HashMap::new();
    assert_eq!(resolve_variables(&"foo${".to_string(), &none).unwrap(), "foo${");
    assert_eq!(resolve_variables(&"foo}".to_string(), &none).unwrap(), "foo}");
    // the first closing brace stands before the first opening
    assert_eq!(resolve_variables(&"a}b${c}".to_string(), &none).unwrap(), "a}b${c}");
    assert_eq!(resolve_variables(&"".to_string(), &none).unwrap(), "");
}

#[test]
fn variables_with_forbidden_characters_are_refused() {
    let vars = context(&[("VAR", "${VAR}")]);
    match resolve_variables(&"plain".to_string(), &vars) {
        Err(SonarFailure::Configuration(ConfigurationError::InvalidVariables)) => {}
        other => panic!("unexpected {:?}", other),
    }
    let vars = context(&[("A{", "x")]);
    match resolve_variables(&"plain".to_string(), &vars) {
        Err(SonarFailure::Configuration(ConfigurationError::InvalidVariables)) => {}
        other => panic!("unexpected {:?}", other),
    }
}

fn command(admin_password: Option<&str>) -> SetupCmd {
    SetupCmd {
        file: "f".to_string(),
        url: "u".to_string(),
        admin_password: admin_password.map(|p| p.to_string()),
        number_attempts: 1,
    }
}

#[test]
fn password_candidates_are_the_target_then_the_current() {
    let target = Some(SonarAdminUpdateRequest { password: Some("next".to_string()) });
    let provider = init_password_provider(&command(Some("cli")), &target, &Some("env".to_string()));
    assert_eq!(
        provider.strategies,
        vec![Some("next".to_string()), Some("cli".to_string())]
    );
    let provider = init_password_provider(&command(None), &target, &Some("env".to_string()));
    assert_eq!(
        provider.strategies,
        vec![Some("next".to_string()), Some("env".to_string())]
    );
    let provider = init_password_provider(&command(None), &None, &None);
    assert_eq!(provider.strategies, vec![None, Some("admin".to_string())]);
    let no_password = Some(SonarAdminUpdateRequest { password: None });
    let provider = init_password_provider(&command(None), &no_password, &None);
    assert_eq!(provider.strategies, vec![None, Some("admin".to_string())]);
}

#[test]
fn standard_names() {
    let defaults = SonarDefaults::standard();
    assert_eq!(defaults.admin_login, "admin");
    assert_eq!(defaults.default_group, "sonar-users");
    assert_eq!(defaults.default_template, "default_template");
    assert_eq!(sonarqube_setup::ADMIN_USER, "admin");
    assert_eq!(sonarqube_setup::DEFAULT_ADMIN_PASSWORD, "admin");
    assert_eq!(sonarqube_setup::ENV_ADMIN_PASSWORD, "ADMIN_PASSWORD");
}

#[test]
fn numbers_are_written_in_decimal() {
    assert_eq!(decimal_text(0), "0");
    assert_eq!(decimal_text(7), "7");
    assert_eq!(decimal_text(10), "10");
    assert_eq!(decimal_text(4096), "4096");
    assert_eq!(decimal_text(1234567890), "1234567890");
}
