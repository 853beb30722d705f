use aspen::errors::AspenError;
use aspen::errors::ProjError;
use aspen::flow::bootstrap_request;
use aspen::flow::get_aspen;
use aspen::flow::start;
use aspen::flow::step;
use aspen::flow::Credentials;
use aspen::flow::FlowState;
use aspen::flow::FlowStep;
use aspen::flow::HttpEvent;
use aspen::flow::Method;
use aspen::AspenInfo;

fn logon_page() -> String {
    let mut page = String::new();
    page.push_str("<script>sessionId='ABC123';</script>\n");
    page.push_str("<input name=\"org.apache.struts.taglib.html.TOKEN\" value=\"tok-xyz\">\n");
    page
}

fn info() -> AspenInfo {
    AspenInfo {
        session_id: "ABC123".to_string(),
        apache_token: "tok-xyz".to_string(),
    }
}

fn creds() -> (Option<String>, Option<String>) {
    (Some("alice".to_string()), Some("hunter2".to_string()))
}

#[test]
fn bootstrap_request_shape() {
    let request = bootstrap_request();
    assert_eq!(request.method, Method::Get);
    assert_eq!(request.url, "https://aspen.cpsd.us/aspen/logon.do");
    assert_eq!(request.cookie, None);
    assert_eq!(request.user_agent, None);
    assert!(request.query.is_empty());
}

#[test]
fn start_without_username_fails_before_any_request() {
    let (_, password) = creds();
    let r = start(None, password);
    assert_eq!(
        r,
        FlowStep::Failed {
            error: ProjError::MissingConfig
        }
    );
}

#[test]
fn start_without_password_fails_before_any_request() {
    let (username, _) = creds();
    let r = start(username, None);
    assert_eq!(
        r,
        FlowStep::Failed {
            error: ProjError::MissingConfig
        }
    );
}

#[test]
fn start_with_both_credentials_emits_the_bootstrap_get() {
    let (username, password) = creds();
    match start(username, password) {
        FlowStep::Continue { state, request } => {
            assert_eq!(
                state,
                FlowState::Bootstrapping {
                    creds: Credentials {
                        username: "alice".to_string(),
                        password: "hunter2".to_string(),
                    }
                }
            );
            assert_eq!(request, bootstrap_request());
        }
        other => panic!("expected a request, got {:?}", other),
    }
}

#[test]
fn bootstrap_body_yields_the_login_post() {
    let (username, password) = creds();
    let begun = start(username, password);
    let state = match begun {
        FlowStep::Continue { state, .. } => state,
        other => panic!("expected a request, got {:?}", other),
    };
    match step(state, HttpEvent::Body(logon_page())) {
        FlowStep::Continue { state, request } => {
            assert_eq!(state, FlowState::LoggingIn { info: info() });
            assert_eq!(request.method, Method::Post);
            assert_eq!(request.url, "https://aspen.cpsd.us/aspen/logon.do");
            assert_eq!(
                request.cookie.as_deref(),
                Some("JSESSIONID=ABC123.aspen-app2")
            );
            assert_eq!(
                request.user_agent.as_deref(),
                Some("Mozilla/5.0 (Macintosh; Intel Mac OS X 10_15_7) AppleWebKit/537.36 (KHTML, like Gecko) Chrome/96.0.4664.45 Safari/537.36")
            );
            let expected_query = vec![
                (
                    "org.apache.struts.taglib.html.TOKEN".to_string(),
                    "tok-xyz".to_string(),
                ),
                ("userEvent".to_string(), "930".to_string()),
                ("deploymentId".to_string(), "x2sis".to_string()),
                ("username".to_string(), "alice".to_string()),
                ("password".to_string(), "hunter2".to_string()),
            ];
            assert_eq!(request.query, expected_query);
        }
        other => panic!("expected the login request, got {:?}", other),
    }
}

#[test]
fn bootstrap_body_without_tokens_fails_with_no_session() {
    let state = FlowState::Bootstrapping {
        creds: Credentials {
            username: "alice".to_string(),
            password: "hunter2".to_string(),
        },
    };
    let r = step(state, HttpEvent::Body("<html>nothing here</html>".to_string()));
    assert_eq!(
        r,
        FlowStep::Failed {
            error: ProjError::Aspen(AspenError::NoSession)
        }
    );
}

#[test]
fn transport_failure_becomes_a_network_error() {
    let state = FlowState::Fetching { info: info() };
    let r = step(state, HttpEvent::Failure("connection reset".to_string()));
    assert_eq!(
        r,
        FlowStep::Failed {
            error: ProjError::NetworkError("connection reset".to_string())
        }
    );
}

#[test]
fn rejected_login_stops_the_flow() {
    let state = FlowState::LoggingIn { info: info() };
    let body = "<html>Invalid login. Please try again.</html>".to_string();
    let r = step(state, HttpEvent::Body(body));
    assert_eq!(
        r,
        FlowStep::Failed {
            error: ProjError::Aspen(AspenError::InvalidLogin)
        }
    );
}

#[test]
fn accepted_login_emits_exactly_the_class_list_get() {
    let state = FlowState::LoggingIn { info: info() };
    let body = "<html>Welcome back.</html>".to_string();
    match step(state, HttpEvent::Body(body)) {
        FlowStep::Continue { state, request } => {
            assert_eq!(state, FlowState::Fetching { info: info() });
            assert_eq!(request.method, Method::Get);
            assert_eq!(
                request.url,
                "https://aspen.cpsd.us/aspen/portalClassList.do?navkey=academics.classes.list"
            );
            // The final fetch carries the bare session id: no `.aspen-app2` here.
            assert_eq!(request.cookie.as_deref(), Some("JSESSIONID=ABC123"));
            assert_eq!(request.user_agent, None);
            assert!(request.query.is_empty());
        }
        other => panic!("expected the class-list request, got {:?}", other),
    }
}

#[test]
fn final_body_is_returned_unchanged() {
    let state = FlowState::Fetching { info: info() };
    let r = step(state, HttpEvent::Body("<classes>math</classes>".to_string()));
    assert_eq!(
        r,
        FlowStep::Done {
            body: "<classes>math</classes>".to_string()
        }
    );
}

#[test]
fn get_aspen_happy_path_passes_the_class_list_through() {
    let (username, password) = creds();
    let r = get_aspen(
        username,
        password,
        HttpEvent::Body(logon_page()),
        HttpEvent::Body("<html>Welcome back.</html>".to_string()),
        HttpEvent::Body("<classes>math</classes>".to_string()),
    );
    assert_eq!(r, Ok("<classes>math</classes>".to_string()));
}

#[test]
fn get_aspen_missing_environment_is_fatal() {
    let (_, password) = creds();
    let r = get_aspen(
        None,
        password,
        HttpEvent::Body(logon_page()),
        HttpEvent::Body("ok".to_string()),
        HttpEvent::Body("classes".to_string()),
    );
    assert_eq!(r, Err(ProjError::MissingConfig));
}

#[test]
fn get_aspen_invalid_login_is_reported() {
    let (username, password) = creds();
    let r = get_aspen(
        username,
        password,
        HttpEvent::Body(logon_page()),
        HttpEvent::Body("Invalid login.".to_string()),
        HttpEvent::Body("<classes>math</classes>".to_string()),
    );
    assert_eq!(r, Err(ProjError::Aspen(AspenError::InvalidLogin)));
}

#[test]
fn get_aspen_bad_logon_page_is_no_session() {
    let (username, password) = creds();
    let r = get_aspen(
        username,
        password,
        HttpEvent::Body("<html>redesigned portal</html>".to_string()),
        HttpEvent::Body("ok".to_string()),
        HttpEvent::Body("classes".to_string()),
    );
    assert_eq!(r, Err(ProjError::Aspen(AspenError::NoSession)));
}

#[test]
fn get_aspen_transport_failure_is_a_network_error() {
    let (username, password) = creds();
    let r = get_aspen(
        username,
        password,
        HttpEvent::Failure("dns lookup failed".to_string()),
        HttpEvent::Body("ok".to_string()),
        HttpEvent::Body("classes".to_string()),
    );
    assert_eq!(r, Err(ProjError::NetworkError("dns lookup failed".to_string())));
}

#[test]
fn running_the_flow_twice_gives_the_same_result() {
    let run = || {
        let (username, password) = creds();
        get_aspen(
            username,
            password,
            HttpEvent::Body(logon_page()),
            HttpEvent::Body("<html>Welcome back.</html>".to_string()),
            HttpEvent::Body("<classes>math</classes>".to_string()),
        )
    };
    assert_eq!(run(), run());
}

#[test]
fn running_a_failing_flow_twice_gives_the_same_error() {
    let run = || {
        let (username, password) = creds();
        get_aspen(
            username,
            password,
            HttpEvent::Body(logon_page()),
            HttpEvent::Body("Invalid login.".to_string()),
            HttpEvent::Body("<classes>math</classes>".to_string()),
        )
    };
    assert_eq!(run(), run());
}

#[test]
fn project_error_messages() {
    assert_eq!(
        ProjError::Aspen(AspenError::NoSession).message(),
        "AspenError"
    );
    assert_eq!(
        ProjError::NetworkError("timed out".to_string()).message(),
        "Network error"
    );
    assert_eq!(ProjError::MissingConfig.message(), "Missing configuration");
}
