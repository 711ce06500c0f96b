use sonarqube_setup::exchange::{Endpoint, HttpMethod, Payload, Reply, Step};
use sonarqube_setup::failure::SonarFailure;
use sonarqube_setup::generate_token::{generate_token, GenerateTokenCmd};
use sonarqube_setup::sonar_api::{PasswordProvider, SonarApi, SonarDefaults, PROBE_INTERVAL_MILLIS};
use sonarqube_setup::sonar_api_model::{
    SonarAuthenticationValidationResult, SonarGeneratedToken, SonarProperty,
};

fn status(code: u16) -> Reply {
    Reply::Received { status: code, body: Payload::Empty }
}

fn verdict(valid: bool) -> Reply {
    Reply::Received {
        status: 200,
        body: Payload::Validation(SonarAuthenticationValidationResult { valid }),
    }
}

fn url() -> String {
    "http://sonar.example".to_string()
}

#[test]
fn probe_is_sent_exactly_as_often_as_allowed() {
    let attempts = 4;
    let mut replies: Vec<Reply> = Vec::new();
    let mut delays: Vec<u64> = Vec::new();
    loop {
        match SonarApi::wait_ready(&url(), attempts, &replies) {
            Step::Send(request) => {
                assert_eq!(request.method, HttpMethod::Get);
                assert_eq!(request.endpoint, Endpoint::ServerVersion);
                assert_eq!(request.url, "http://sonar.example/api/server/version");
                assert_eq!(request.credentials, None);
                delays.push(request.delay_millis);
                replies.push(if replies.len() % 2 == 0 { Reply::Lost } else { status(503) });
            }
            Step::Fail(SonarFailure::Unreachable { attempts: tried }) => {
                assert_eq!(tried, attempts);
                break;
            }
            other => panic!("unexpected step {:?}", other),
        }
    }
    assert_eq!(replies.len(), attempts);
    assert_eq!(delays, vec![0, 1000, 1000, 1000]);
    assert_eq!(PROBE_INTERVAL_MILLIS, 1000);
}

#[test]
fn probe_with_no_attempts_gives_up_at_once() {
    match SonarApi::wait_ready(&url(), 0, &[]) {
        Step::Fail(SonarFailure::Unreachable { attempts }) => assert_eq!(attempts, 0),
        other => panic!("unexpected step {:?}", other),
    }
}

#[test]
fn probe_ends_with_the_first_success() {
    let replies = vec![Reply::Lost, status(404), status(204), status(500)];
    match SonarApi::wait_ready(&url(), 10, &replies) {
        Step::Done((), used) => assert_eq!(used, 3),
        other => panic!("unexpected step {:?}", other),
    }
    // a success that comes after the budget is spent does not count
    match SonarApi::wait_ready(&url(), 2, &replies) {
        Step::Fail(SonarFailure::Unreachable { attempts }) => assert_eq!(attempts, 2),
        other => panic!("unexpected step {:?}", other),
    }
}

#[test]
fn second_candidate_wins_and_third_is_never_tried() {
    let provider = || PasswordProvider {
        strategies: vec![
            Some("A".to_string()),
            None,
            Some("B".to_string()),
            Some("C".to_string()),
        ],
    };
    let user = "admin".to_string();
    let mut replies: Vec<Reply> = Vec::new();
    let mut tried: Vec<String> = Vec::new();
    let found = loop {
        match SonarApi::find_password(&url(), &user, provider(), &replies) {
            Step::Send(request) => {
                assert_eq!(request.endpoint, Endpoint::AuthenticationValidate);
                assert_eq!(request.url, "http://sonar.example/api/authentication/validate");
                let (name, password) = request.credentials.unwrap();
                assert_eq!(name, "admin");
                replies.push(verdict(password == "B"));
                tried.push(password);
            }
            Step::Done(password, used) => {
                assert_eq!(used, 2);
                break password;
            }
            other => panic!("unexpected step {:?}", other),
        }
    };
    assert_eq!(found, "B");
    assert_eq!(tried, vec!["A".to_string(), "B".to_string()]);
}

#[test]
fn no_valid_candidate_is_an_authentication_failure() {
    let provider = PasswordProvider::password_or_fallback(
        Some("A".to_string()),
        Some("B".to_string()),
    );
    let replies = vec![status(401), verdict(false)];
    match SonarApi::find_password(&url(), &"admin".to_string(), provider, &replies) {
        Step::Fail(SonarFailure::AuthenticationFailed { username }) => {
            assert_eq!(username, "admin")
        }
        other => panic!("unexpected step {:?}", other),
    }
}

#[test]
fn lost_and_refused_checks_pass_the_candidate_over() {
    let provider = || PasswordProvider {
        strategies: vec![
            Some("A".to_string()),
            Some("B".to_string()),
            Some("C".to_string()),
        ],
    };
    let replies = vec![Reply::Lost, status(500), verdict(true)];
    match SonarApi::find_password(&url(), &"admin".to_string(), provider(), &replies) {
        Step::Done(password, used) => {
            assert_eq!(password, "C");
            assert_eq!(used, 3);
        }
        other => panic!("unexpected step {:?}", other),
    }
}

#[test]
fn unreadable_check_result_is_fatal() {
    let provider = PasswordProvider::specific_password("A".to_string());
    let replies = vec![Reply::Received { status: 200, body: Payload::Malformed }];
    match SonarApi::find_password(&url(), &"admin".to_string(), provider, &replies) {
        Step::Fail(SonarFailure::Deserialization { context }) => {
            assert_eq!(context, "Cannot deserialize authentication check result.")
        }
        other => panic!("unexpected step {:?}", other),
    }
}

#[test]
fn no_candidate_at_all_fails_without_a_request() {
    let provider = PasswordProvider::password_or_fallback(None, None);
    match SonarApi::find_password(&url(), &"admin".to_string(), provider, &[]) {
        Step::Fail(SonarFailure::AuthenticationFailed { username }) => {
            assert_eq!(username, "admin")
        }
        other => panic!("unexpected step {:?}", other),
    }
}

#[test]
fn providers_hold_their_candidates_in_order() {
    let one = PasswordProvider::specific_password("x".to_string());
    assert_eq!(one.strategies, vec![Some("x".to_string())]);
    let two = PasswordProvider::password_or_fallback(None, Some("y".to_string()));
    assert_eq!(two.strategies, vec![None, Some("y".to_string())]);
}

#[test]
fn new_waits_then_resolves_and_strips_one_trailing_slash() {
    let provider = || {
        PasswordProvider::password_or_fallback(Some("new".to_string()), Some("old".to_string()))
    };
    let connect = |replies: &[Reply]| {
        SonarApi::new(
            "http://sonar.example//".to_string(),
            "admin".to_string(),
            provider(),
            5,
            SonarDefaults::standard(),
            replies,
        )
    };
    match connect(&[]) {
        Step::Send(request) => {
            assert_eq!(request.url, "http://sonar.example//api/server/version")
        }
        other => panic!("unexpected step {:?}", other.map_or_debug()),
    }
    match connect(&[status(503), status(200)]) {
        Step::Send(request) => {
            assert_eq!(request.endpoint, Endpoint::AuthenticationValidate);
            assert_eq!(
                request.credentials,
                Some(("admin".to_string(), "new".to_string()))
            );
        }
        other => panic!("unexpected step {:?}", other.map_or_debug()),
    }
    let api = match connect(&[status(503), status(200), verdict(false), verdict(true)]) {
        Step::Done(api, used) => {
            assert_eq!(used, 4);
            api
        }
        other => panic!("unexpected step {:?}", other.map_or_debug()),
    };
    let property = SonarProperty { name: "k".to_string(), value: "v".to_string() };
    match api.set_property(&property, &[]) {
        Step::Send(request) => {
            assert_eq!(request.url, "http://sonar.example//api/settings/set?key=k&value=v");
            assert_eq!(
                request.credentials,
                Some(("admin".to_string(), "old".to_string()))
            );
        }
        other => panic!("unexpected step {:?}", other),
    }
}

trait DebugStep {
    fn map_or_debug(self) -> String;
}

impl DebugStep for Step<SonarApi> {
    fn map_or_debug(self) -> String {
        match self {
            Step::Send(request) => format!("Send({:?})", request),
            Step::Done(_, used) => format!("Done(_, {})", used),
            Step::Fail(failure) => format!("Fail({:?})", failure),
        }
    }
}

#[test]
fn generate_token_waits_then_mints() {
    let cmd = GenerateTokenCmd {
        name: "ci".to_string(),
        url: "http://sonar.example/".to_string(),
        username: "bot".to_string(),
        password: "pw".to_string(),
        number_attempts: 2,
    };
    match generate_token(&cmd, SonarDefaults::standard(), &[]) {
        Step::Send(request) => assert_eq!(request.endpoint, Endpoint::ServerVersion),
        other => panic!("unexpected step {:?}", other),
    }
    match generate_token(&cmd, SonarDefaults::standard(), &[status(200)]) {
        Step::Send(request) => {
            assert_eq!(request.method, HttpMethod::Post);
            assert_eq!(request.endpoint, Endpoint::UserTokensGenerate);
            assert_eq!(
                request.url,
                "http://sonar.example/api/user_tokens/generate?login=bot&name=ci"
            );
            assert_eq!(request.credentials, Some(("bot".to_string(), "pw".to_string())));
        }
        other => panic!("unexpected step {:?}", other),
    }
    let minted = Reply::Received {
        status: 200,
        body: Payload::GeneratedToken(SonarGeneratedToken {
            login: "bot".to_string(),
            name: "ci".to_string(),
            token: "squ_123".to_string(),
        }),
    };
    match generate_token(&cmd, SonarDefaults::standard(), &[status(200), minted]) {
        Step::Done(token, used) => {
            assert_eq!(token, "squ_123");
            assert_eq!(used, 2);
        }
        other => panic!("unexpected step {:?}", other),
    }
    match generate_token(&cmd, SonarDefaults::standard(), &[Reply::Lost, status(500)]) {
        Step::Fail(SonarFailure::Unreachable { attempts }) => assert_eq!(attempts, 2),
        other => panic!("unexpected step {:?}", other),
    }
    match generate_token(&cmd, SonarDefaults::standard(), &[status(200), status(200)]) {
        Step::Fail(SonarFailure::Deserialization { context }) => {
            assert_eq!(context, "Error while generating user token [ci].")
        }
        other => panic!("unexpected step {:?}", other),
    }
}
