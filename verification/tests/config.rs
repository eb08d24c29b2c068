use sentinel::fleet::{
    BackendConfig, CheckerConfig, GlobalConfig, NotifierConfig, ResourceConfig, SentinelApp,
    SentinelAppError,
};
use sentinel::http::{HttpCodes, HttpCodesRaw, HttpSentinel, HttpSentinelConfig, HttpSentinelError};
use sentinel::notifier::Message;
use sentinel::render::u16_to_string;
use sentinel::sentinel::{ResourceError, ResourceErrorState};
use sentinel::smtp::{
    EmailIdent, SmtpCommand, SmtpConfig, SmtpSender, SmtpWorker, WorkerAction,
};

fn smtp_config(recipients: Vec<EmailIdent>) -> SmtpConfig {
    SmtpConfig {
        host: String::from("smtp.example.org"),
        login: String::from("watcher@example.org"),
        pwd: String::from("SECRET-REDACTED"),
        ident: Some(String::from("Watcher")),
        recipients,
    }
}

fn notifier_entry(name: &str, ty: &str) -> NotifierConfig {
    NotifierConfig {
        name: String::from(name),
        type_: String::from(ty),
        config: BackendConfig::Smtp(smtp_config(vec![EmailIdent::new(
            String::from("ops@example.org"),
            None,
        )])),
    }
}

fn resource_entry(name: &str, ty: &str, url: &str, notifiers: Vec<String>) -> ResourceConfig {
    ResourceConfig {
        interval: 5000,
        name: String::from(name),
        type_: String::from(ty),
        notifiers,
        config: CheckerConfig::Http(HttpSentinelConfig {
            url: String::from(url),
            codes: HttpCodesRaw::Success(vec![200, 204]),
        }),
    }
}

#[test]
fn decimal_rendering_is_exact() {
    assert_eq!(u16_to_string(0), "0");
    assert_eq!(u16_to_string(7), "7");
    assert_eq!(u16_to_string(100), "100");
    assert_eq!(u16_to_string(404), "404");
    assert_eq!(u16_to_string(65535), "65535");
}

#[test]
fn error_descriptions() {
    assert_eq!(
        HttpSentinelError::NonSuccessfulHttpCode { code: 503 }.description(),
        "Non-successful HTTP code: 503"
    );
    assert_eq!(
        HttpSentinelError::ReqwestHttpError { err: String::from("timed out") }.description(),
        "Reqwest HTTP error: timed out"
    );
    assert_eq!(
        HttpSentinelError::InvalidStatusCode { code: 42 }.description(),
        "Invalid status code: 42"
    );
    assert_eq!(
        HttpSentinelError::UrlParseError { url: String::from(":bad") }.description(),
        "Url parse error: :bad"
    );
}

#[test]
fn message_rendering_per_transition() {
    let e1 = HttpSentinelError::NonSuccessfulHttpCode { code: 500 };
    let e2 = HttpSentinelError::NonSuccessfulHttpCode { code: 503 };

    let m = ResourceErrorState::New(&e1).create_message("db");
    assert_eq!(m.title, "Error (new) db");
    assert_eq!(m.body, "Resource db report new error:\nNon-successful HTTP code: 500");

    let m = ResourceErrorState::Changed(&e1, &e2).create_message("db");
    assert_eq!(m.title, "Error (changed) db");
    assert_eq!(
        m.body,
        "Resource db report changed error:\nOld error: Non-successful HTTP code: 500\nNew error: Non-successful HTTP code: 503"
    );

    let m = ResourceErrorState::Resolved(&e2).create_message("db");
    assert_eq!(m.title, "Error (resolved) db");
    assert_eq!(m.body, "Resource db resolved error:\nNon-successful HTTP code: 503");
}

#[test]
fn status_code_lists_are_validated() {
    assert!(matches!(
        HttpCodes::try_from(HttpCodesRaw::Success(vec![200, 301, 999])),
        Ok(HttpCodes::Success(_))
    ));
    assert!(matches!(
        HttpCodes::try_from(HttpCodesRaw::Error(vec![500])),
        Ok(HttpCodes::Error(_))
    ));
    // The first invalid entry is reported.
    match HttpCodes::try_from(HttpCodesRaw::Success(vec![200, 1000, 42])) {
        Err(HttpSentinelError::InvalidStatusCode { code }) => assert_eq!(code, 1000),
        _ => panic!("an out-of-range code must be rejected"),
    }
    match HttpCodes::try_from(HttpCodesRaw::Error(vec![99])) {
        Err(HttpSentinelError::InvalidStatusCode { code }) => assert_eq!(code, 99),
        _ => panic!("an out-of-range code must be rejected"),
    }
}

#[test]
fn classification_follows_the_mode() {
    let config = HttpSentinelConfig {
        url: String::from("http://localhost/"),
        codes: HttpCodesRaw::Success(vec![200, 204]),
    };
    let s = HttpSentinel::create_sentinel(config, 1000, vec![], String::from("frontend")).unwrap();
    assert_eq!(s.sentinel_impl.classify_status(200), Ok(200));
    assert_eq!(
        s.sentinel_impl.classify_status(500),
        Err(HttpSentinelError::NonSuccessfulHttpCode { code: 500 })
    );

    let config = HttpSentinelConfig {
        url: String::from("http://localhost/"),
        codes: HttpCodesRaw::Error(vec![500, 503]),
    };
    let s = HttpSentinel::create_sentinel(config, 1000, vec![], String::from("frontend")).unwrap();
    assert_eq!(s.sentinel_impl.classify_status(301), Ok(301));
    assert_eq!(
        s.sentinel_impl.classify_status(503),
        Err(HttpSentinelError::NonSuccessfulHttpCode { code: 503 })
    );
}

#[test]
fn url_must_parse_at_construction() {
    let config = HttpSentinelConfig {
        url: String::from("not a url at all"),
        codes: HttpCodesRaw::Success(vec![200]),
    };
    match HttpSentinel::create_sentinel(config, 1000, vec![], String::from("frontend")) {
        Err(HttpSentinelError::UrlParseError { url }) => assert_eq!(url, "not a url at all"),
        _ => panic!("a malformed URL must be rejected"),
    }
    let config = HttpSentinelConfig {
        url: String::from("https://example.org/health"),
        codes: HttpCodesRaw::Success(vec![200]),
    };
    let s = HttpSentinel::create_sentinel(config, 250, vec![String::from("mail")], String::from("health"))
        .unwrap();
    assert_eq!(s.resource_name, "health");
    assert_eq!(s.sentinel_impl.url, "https://example.org/health");
    assert_eq!(s.interval, 250);
    assert_eq!(s.notifiers, vec![String::from("mail")]);
}

#[test]
fn emails_are_built_per_recipient() {
    let recipients = vec![
        EmailIdent::new(String::from("a@example.org"), Some(String::from("A"))),
        EmailIdent::new(String::from("b@example.org"), None),
    ];
    let sender = SmtpSender::from_config(smtp_config(recipients));
    assert_eq!(sender.from.address, "watcher@example.org");
    assert_eq!(sender.from.name, Some(String::from("Watcher")));

    let msg = Message::new(String::from("title"), String::from("body"));
    let emails = sender.build_emails(&msg);
    assert_eq!(emails.len(), 2);
    assert_eq!(emails[0].to.address, "a@example.org");
    assert_eq!(emails[0].to.name, Some(String::from("A")));
    assert_eq!(emails[1].to.address, "b@example.org");
    assert_eq!(emails[1].to.name, None);
    for e in &emails {
        assert_eq!(e.from.address, "watcher@example.org");
        assert_eq!(e.subject, "title");
        assert_eq!(e.text, "body");
    }
}

#[test]
fn worker_delivers_until_shut_down() {
    let mut worker = SmtpWorker::new();
    assert!(worker.running);
    let sender = SmtpSender::from_config(smtp_config(vec![EmailIdent::new(
        String::from("ops@example.org"),
        None,
    )]));
    let msg = Message::new(String::from("t"), String::from("b"));
    let mut emails = sender.build_emails(&msg);
    let email = emails.remove(0);
    match worker.handle(SmtpCommand::Email(email)) {
        WorkerAction::Deliver(e) => assert_eq!(e.to.address, "ops@example.org"),
        WorkerAction::Stop => panic!("an email must be delivered"),
    }
    assert!(worker.running);
    assert!(matches!(worker.handle(SmtpCommand::Shutdown), WorkerAction::Stop));
    assert!(!worker.running);
}

#[test]
fn unknown_notifier_kind_aborts_startup() {
    let config = GlobalConfig {
        resources: vec![],
        notifiers: vec![notifier_entry("mail", "smtp"), notifier_entry("chat", "xmpp")],
    };
    match SentinelApp::new(config) {
        Err(SentinelAppError::UnknownNotifierType { ty }) => assert_eq!(ty, "xmpp"),
        _ => panic!("an unknown backend kind must abort startup"),
    }
}

#[test]
fn unknown_notifier_reference_aborts_startup() {
    let config = GlobalConfig {
        resources: vec![resource_entry(
            "frontend",
            "http",
            "http://localhost/",
            vec![String::from("mail"), String::from("pager")],
        )],
        notifiers: vec![notifier_entry("mail", "smtp")],
    };
    match SentinelApp::new(config) {
        Err(SentinelAppError::UnknownNotifierName { name }) => assert_eq!(name, "pager"),
        _ => panic!("an unresolved notifier reference must abort startup"),
    }
}

#[test]
fn unknown_checker_kind_aborts_startup() {
    let config = GlobalConfig {
        resources: vec![resource_entry("frontend", "tcp", "http://localhost/", vec![String::from("mail")])],
        notifiers: vec![notifier_entry("mail", "smtp")],
    };
    match SentinelApp::new(config) {
        Err(SentinelAppError::UnknownSentinelType { ty }) => assert_eq!(ty, "tcp"),
        _ => panic!("an unknown checker kind must abort startup"),
    }
}

#[test]
fn invalid_resource_url_aborts_startup() {
    let config = GlobalConfig {
        resources: vec![resource_entry("frontend", "http", "::::", vec![String::from("mail")])],
        notifiers: vec![notifier_entry("mail", "smtp")],
    };
    match SentinelApp::new(config) {
        Err(SentinelAppError::Sentinel(HttpSentinelError::UrlParseError { url })) => {
            assert_eq!(url, "::::")
        }
        _ => panic!("a malformed URL must abort startup"),
    }
}

#[test]
fn valid_configuration_builds_the_fleet() {
    let config = GlobalConfig {
        resources: vec![
            resource_entry("one", "http", "http://one.example.org/", vec![String::from("mail")]),
            resource_entry("two", "http", "http://two.example.org/", vec![]),
        ],
        notifiers: vec![notifier_entry("mail", "smtp")],
    };
    let app = SentinelApp::new(config).unwrap();
    assert_eq!(app.notifiers.entries.len(), 1);
    assert_eq!(app.notifiers.entries[0].0, "mail");
    assert!(app.notifiers.contains_name(&String::from("mail")));
    assert!(!app.notifiers.contains_name(&String::from("pager")));
    assert_eq!(app.fleet.slots.len(), 2);
    assert_eq!(app.fleet.slots[0].sentinel.resource_name, "one");
    assert_eq!(app.fleet.slots[0].sentinel.sentinel_impl.url, "http://one.example.org/");
    assert_eq!(app.fleet.slots[1].sentinel.resource_name, "two");
    assert!(!app.fleet.slots[0].stopped);
    assert!(!app.fleet.slots[1].stopped);
}
