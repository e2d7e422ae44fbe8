use aichat::client::common::{
    answer_of, build_client, built_client, checked_proxy, client_builder, client_name, client_options, connect_timeout, init_client,
    resolve_proxy, resolve_secret, secret_env_name, set_proxy, DEFAULT_CONNECT_TIMEOUT,
};
use aichat::client::{
    BuildFailure, ExtraConfig, InvalidProxy, LimitExceeded, MissingCredential, ModelInfo, NoSuchClient, TransportFailure,
};

fn some(text: &str) -> Option<String> {
    Some(text.to_string())
}

fn names(list: &[&str]) -> Vec<String> {
    list.iter().map(|name| name.to_string()).collect()
}

#[test]
fn extra_config_defaults_to_nothing() {
    let extra = ExtraConfig::default();
    assert_eq!(extra.proxy, None);
    assert_eq!(extra.connect_timeout, None);
}

#[test]
fn the_connect_timeout_defaults_to_ten_seconds() {
    assert_eq!(DEFAULT_CONNECT_TIMEOUT, 10);
    assert_eq!(connect_timeout(&None), 10);
    assert_eq!(connect_timeout(&Some(ExtraConfig::default())), 10);
    let extra = ExtraConfig { proxy: None, connect_timeout: Some(3) };
    assert_eq!(connect_timeout(&Some(extra)), 3);
    let extra = ExtraConfig { proxy: None, connect_timeout: Some(0) };
    assert_eq!(connect_timeout(&Some(extra)), 0);
}

#[test]
fn a_configured_proxy_decides_alone() {
    let env = some("http://env:1");
    assert_eq!(resolve_proxy(&some("socks5://me:9"), &env, &env), some("socks5://me:9"));
    assert_eq!(resolve_proxy(&some(""), &env, &env), None);
    assert_eq!(resolve_proxy(&some("false"), &env, &env), None);
    assert_eq!(resolve_proxy(&some("-"), &env, &env), None);
    assert_eq!(resolve_proxy(&some("False"), &None, &None), some("False"));
    assert_eq!(resolve_proxy(&some("--"), &None, &None), some("--"));
}

#[test]
fn the_environment_decides_without_a_configured_proxy() {
    assert_eq!(resolve_proxy(&None, &some("http://a"), &some("http://b")), some("http://a"));
    assert_eq!(resolve_proxy(&None, &None, &some("http://b")), some("http://b"));
    assert_eq!(resolve_proxy(&None, &some(""), &some("http://b")), some(""));
    assert_eq!(resolve_proxy(&None, &None, &None), None);
}

#[test]
fn set_proxy_makes_the_proxy_that_was_chosen() {
    assert!(matches!(set_proxy(&some("http://127.0.0.1:7890"), &None, &None), Ok(Some(_))));
    assert!(matches!(set_proxy(&None, &some("https://proxy.test:443"), &None), Ok(Some(_))));
    assert!(matches!(set_proxy(&None, &None, &some("http://proxy.test")), Ok(Some(_))));
}

#[test]
fn set_proxy_makes_none_where_none_is_wanted() {
    let env = some("http://env:1");
    assert!(matches!(set_proxy(&some("-"), &env, &env), Ok(None)));
    assert!(matches!(set_proxy(&some("false"), &env, &env), Ok(None)));
    assert!(matches!(set_proxy(&some(""), &env, &env), Ok(None)));
    assert!(matches!(set_proxy(&None, &None, &None), Ok(None)));
}

#[test]
fn an_invalid_proxy_is_named() {
    match set_proxy(&some("ftp://127.0.0.1"), &None, &None) {
        Err(invalid) => {
            assert_eq!(invalid.proxy, "ftp://127.0.0.1");
            assert_eq!(invalid.message(), "Invalid proxy `ftp://127.0.0.1`");
        }
        Ok(_) => panic!("accepted"),
    }
    match set_proxy(&None, &some("ftp://first"), &some("http://second")) {
        Err(invalid) => assert_eq!(invalid.proxy, "ftp://first"),
        Ok(_) => panic!("accepted"),
    }
}

#[test]
fn checked_proxy_goes_by_what_was_read() {
    let read = reqwest::Proxy::all("http://127.0.0.1:7890");
    assert!(checked_proxy("anything".to_string(), read).is_ok());
    let reason = match reqwest::Proxy::all("ftp://127.0.0.1") {
        Err(error) => error.to_string(),
        Ok(_) => panic!("accepted"),
    };
    assert!(!reason.is_empty());
    let read = reqwest::Proxy::all("ftp://127.0.0.1");
    match checked_proxy("the address".to_string(), read) {
        Err(invalid) => {
            assert_eq!(invalid, InvalidProxy { proxy: "the address".to_string(), cause: reason })
        }
        Ok(_) => panic!("accepted"),
    }
}

#[test]
fn client_options_take_timeout_and_proxy_together() {
    let extra = ExtraConfig { proxy: some("-"), connect_timeout: Some(30) };
    match client_options(&Some(extra), &some("http://a"), &None) {
        Ok(options) => {
            assert_eq!(options.connect_timeout, 30);
            assert!(options.proxy.is_none());
        }
        Err(_) => panic!("refused"),
    }
    match client_options(&None, &None, &some("http://b")) {
        Ok(options) => {
            assert_eq!(options.connect_timeout, 10);
            assert!(options.proxy.is_some());
        }
        Err(_) => panic!("refused"),
    }
    let extra = ExtraConfig { proxy: some("ftp://c"), connect_timeout: None };
    match client_options(&Some(extra), &some("http://a"), &None) {
        Err(invalid) => assert_eq!(invalid.proxy, "ftp://c"),
        Ok(_) => panic!("accepted"),
    }
}

#[test]
fn a_client_goes_by_its_configured_name() {
    assert_eq!(client_name(&some("work"), "openai"), "work");
    assert_eq!(client_name(&None, "openai"), "openai");
}

#[test]
fn the_secret_variable_is_named_in_upper_case() {
    assert_eq!(secret_env_name("openai", "api_key"), "OPENAI_API_KEY");
    assert_eq!(secret_env_name("azure-openai", "api_key"), "AZURE-OPENAI_API_KEY");
    assert_eq!(secret_env_name("Ünï9", "k"), "ÜNï9_K");
}

#[test]
fn a_secret_comes_from_the_configuration_first() {
    assert_eq!(resolve_secret(&some("cfg"), &some("env"), "api_key"), Ok("cfg".to_string()));
    assert_eq!(resolve_secret(&some("cfg"), &None, "api_key"), Ok("cfg".to_string()));
    assert_eq!(resolve_secret(&None, &some("env"), "api_key"), Ok("env".to_string()));
}

#[test]
fn a_missing_secret_names_its_field() {
    assert_eq!(
        resolve_secret(&None, &None, "api_key"),
        Err(MissingCredential { field: "api_key".to_string() })
    );
}

#[test]
fn init_client_takes_the_first_row_of_the_configured_kind() {
    let registry = names(&["openai", "localai", "openai"]);
    let configured = names(&["localai", "openai"]);
    assert_eq!(init_client(&registry, &configured, &ModelInfo::new(0, "localai", "m")), Ok(1));
    assert_eq!(init_client(&registry, &configured, &ModelInfo::new(1, "openai", "m")), Ok(0));
}

#[test]
fn init_client_fails_for_an_unknown_kind() {
    let registry = names(&["openai", "localai"]);
    let configured = names(&["openai", "mystery"]);
    assert_eq!(
        init_client(&registry, &configured, &ModelInfo::new(1, "mystery", "m")),
        Err(NoSuchClient { client: "mystery".to_string(), index: 1 })
    );
}

#[test]
fn init_client_fails_for_a_position_without_a_client() {
    let registry = names(&["openai"]);
    let configured = names(&["openai"]);
    assert_eq!(
        init_client(&registry, &configured, &ModelInfo::new(1, "openai", "m")),
        Err(NoSuchClient { client: "openai".to_string(), index: 1 })
    );
    assert_eq!(
        init_client(&registry, &Vec::new(), &ModelInfo::default()),
        Err(NoSuchClient { client: String::new(), index: 0 })
    );
    assert_eq!(
        init_client(&Vec::new(), &configured, &ModelInfo::new(0, "openai", "m")),
        Err(NoSuchClient { client: "openai".to_string(), index: 0 })
    );
}

#[test]
fn an_answer_comes_back_as_it_is() {
    assert_eq!(answer_of(Ok("hi".to_string())), Ok("hi".to_string()));
}

#[test]
fn a_failed_request_gets_its_context() {
    assert_eq!(
        answer_of(Err("timed out".to_string())),
        Err(TransportFailure {
            context: "failed to get answer".to_string(),
            cause: "timed out".to_string(),
        })
    );
}

#[test]
fn build_client_builds_with_and_without_options() {
    assert!(build_client(&None, &None, &None).is_ok());
    let extra = ExtraConfig { proxy: some("http://127.0.0.1:7890"), connect_timeout: Some(1) };
    assert!(build_client(&Some(extra), &None, &None).is_ok());
    let extra = ExtraConfig { proxy: some("false"), connect_timeout: None };
    assert!(build_client(&Some(extra), &some("ftp://unused"), &None).is_ok());
    assert!(build_client(&None, &None, &some("https://proxy.test")).is_ok());
}

#[test]
fn build_client_refuses_an_invalid_proxy() {
    let extra = ExtraConfig { proxy: some("ftp://127.0.0.1"), connect_timeout: Some(1) };
    match build_client(&Some(extra), &None, &None) {
        Err(BuildFailure::InvalidProxy(invalid)) => assert_eq!(invalid.proxy, "ftp://127.0.0.1"),
        _ => panic!("built, or failed otherwise"),
    }
    match build_client(&Some(ExtraConfig::default()), &some("ftp://env"), &None) {
        Err(BuildFailure::InvalidProxy(invalid)) => assert_eq!(invalid.proxy, "ftp://env"),
        _ => panic!("built, or failed otherwise"),
    }
    match client_builder(&Some(ExtraConfig::default()), &None, &some("ftp://env")) {
        Err(invalid) => assert_eq!(invalid.proxy, "ftp://env"),
        Ok(_) => panic!("started"),
    }
    assert!(client_builder(&None, &None, &some("http://env")).is_ok());
}

#[test]
fn built_client_reports_a_refusal_with_its_context() {
    let error = match reqwest::Proxy::all("ftp://127.0.0.1") {
        Err(error) => error,
        Ok(_) => panic!("accepted"),
    };
    let text = error.to_string();
    assert!(!text.is_empty());
    match built_client(Err(error)) {
        Err(failure) => assert_eq!(
            failure,
            BuildFailure::Transport(TransportFailure {
                context: "Failed to build client".to_string(),
                cause: text,
            })
        ),
        Ok(_) => panic!("built"),
    }
    assert!(built_client(reqwest::Client::builder().build()).is_ok());
}

#[test]
fn failures_say_what_went_wrong() {
    assert_eq!(LimitExceeded.message(), "Exceed max tokens limit");
    let failure = NoSuchClient { client: "mystery".to_string(), index: 12 };
    assert_eq!(failure.message(), "Unknown client mystery at config.clients[12]");
    let failure = NoSuchClient { client: String::new(), index: 0 };
    assert_eq!(failure.message(), "Unknown client  at config.clients[0]");
    let failure = MissingCredential { field: "api_key".to_string() };
    assert_eq!(failure.message(), "Miss api_key");
    let failure = InvalidProxy { proxy: "ftp://x".to_string(), cause: "unknown".to_string() };
    assert_eq!(failure.message(), "Invalid proxy `ftp://x`");
}

#[test]
fn init_client_names_the_position_in_its_message() {
    let registry = names(&["openai"]);
    let configured = names(&["openai", "mystery"]);
    match init_client(&registry, &configured, &ModelInfo::new(1, "mystery", "m")) {
        Err(failure) => {
            assert_eq!(failure.message(), "Unknown client mystery at config.clients[1]")
        }
        Ok(_) => panic!("chosen"),
    }
}
