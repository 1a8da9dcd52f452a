use sozu_core::command::exchange::{Exchange, Output, Purpose};
use sozu_core::command::messages::{
    Application, CertFingerprint, CertificateAndKey, CommandKind, HttpFront, HttpsFront, Instance,
    Order, QueryKind, TcpFront,
};
use sozu_core::command::operations::CertificateCheck;
use sozu_core::command::{
    add_application, add_backend, add_certificate, add_frontend, add_tcp_front, dump_state,
    hard_stop, load_state, logging_filter, metrics, order_command, query_application,
    remove_application, remove_backend, remove_certificate, remove_frontend, remove_tcp_front,
    save_state, soft_stop,
};

fn check(exchange: &Exchange, kind: CommandKind, purpose: Purpose) {
    let id = &exchange.command.id;
    assert!(id.starts_with("ID-"), "{}", id);
    assert_eq!(id.len(), 9);
    assert!(id[3..].chars().all(|c| c.is_ascii_alphanumeric()));
    assert_eq!(exchange.command.kind, kind);
    assert_eq!(exchange.command.target_worker, None);
    assert_eq!(exchange.purpose, purpose);
}

fn check_order(exchange: &Exchange, order: Order) {
    check(exchange, CommandKind::ProxyConfiguration(order), Purpose::Order);
}

fn e<T>(reason: &str) -> Result<T, String> {
    Err(reason.to_string())
}

fn text(line: &str) -> Output {
    Output::Line(line.to_string())
}

#[test]
fn save_state_command() {
    check(&save_state("/tmp/s.json"), CommandKind::SaveState("/tmp/s.json".to_string()), Purpose::SaveState);
}

#[test]
fn load_state_command() {
    check(
        &load_state("/tmp/s.json"),
        CommandKind::LoadState("/tmp/s.json".to_string()),
        Purpose::LoadState("/tmp/s.json".to_string()),
    );
}

#[test]
fn dump_state_command() {
    check(&dump_state(), CommandKind::DumpState, Purpose::DumpState);
}

#[test]
fn stop_commands() {
    check(&soft_stop(), CommandKind::ProxyConfiguration(Order::SoftStop), Purpose::Stop);
    check(&hard_stop(), CommandKind::ProxyConfiguration(Order::HardStop), Purpose::Stop);
}

#[test]
fn metrics_command() {
    check(&metrics(), CommandKind::Metrics, Purpose::Metrics);
}

#[test]
fn order_command_wraps_the_order() {
    check_order(&order_command(Order::Status), Order::Status);
}

#[test]
fn application_orders() {
    check_order(
        &add_application("app_1", true),
        Order::AddApplication(Application { app_id: "app_1".to_string(), sticky_session: true }),
    );
    check_order(&remove_application("app_1"), Order::RemoveApplication("app_1".to_string()));
}

#[test]
fn http_front_orders() {
    let front = HttpFront {
        app_id: "app_1".to_string(),
        hostname: "example.com".to_string(),
        path_begin: "/api".to_string(),
    };
    check_order(&add_frontend("app_1", "example.com", "/api", None).unwrap(), Order::AddHttpFront(front.clone()));
    check_order(&remove_frontend("app_1", "example.com", "/api", None).unwrap(), Order::RemoveHttpFront(front));
}

#[test]
fn https_front_orders() {
    let front = HttpsFront {
        app_id: "app_1".to_string(),
        hostname: "example.com".to_string(),
        path_begin: "/".to_string(),
        fingerprint: CertFingerprint(vec![0xab, 0xcd, 0x01]),
    };
    let certificate = Some(CertificateCheck::Fingerprint(vec![0xab, 0xcd, 0x01]));
    check_order(
        &add_frontend("app_1", "example.com", "/", certificate.clone()).unwrap(),
        Order::AddHttpsFront(front.clone()),
    );
    check_order(
        &remove_frontend("app_1", "example.com", "/", certificate).unwrap(),
        Order::RemoveHttpsFront(front),
    );
}

#[test]
fn front_without_fingerprint_sends_nothing() {
    let unreadable = Some(CertificateCheck::Unreadable("No such file".to_string()));
    let invalid = Some(CertificateCheck::Invalid("bad PEM".to_string()));
    assert_eq!(add_frontend("a", "h", "/", unreadable.clone()), Err(text("could not load file: No such file")));
    assert_eq!(
        add_frontend("a", "h", "/", invalid.clone()),
        Err(text("could not calculate fingerprint for certificate: bad PEM"))
    );
    assert_eq!(remove_frontend("a", "h", "/", unreadable), Err(text("could not load file: No such file")));
    assert_eq!(
        remove_frontend("a", "h", "/", invalid),
        Err(text("could not calculate fingerprint for certificate: bad PEM"))
    );
}

#[test]
fn backend_orders() {
    let instance = Instance {
        app_id: "app_1".to_string(),
        instance_id: "app_1-0".to_string(),
        ip_address: "10.0.0.1".to_string(),
        port: 8080,
    };
    check_order(&add_backend("app_1", "app_1-0", "10.0.0.1", 8080), Order::AddInstance(instance.clone()));
    check_order(&remove_backend("app_1", "app_1-0", "10.0.0.1", 8080), Order::RemoveInstance(instance));
}

#[test]
fn certificate_order() {
    let exchange = add_certificate(
        Ok("CERT".to_string()),
        Ok(vec!["LINK 1".to_string(), "LINK 2".to_string()]),
        Ok("KEY".to_string()),
    )
    .unwrap();
    check_order(
        &exchange,
        Order::AddCertificate(CertificateAndKey {
            certificate: "CERT".to_string(),
            certificate_chain: vec!["LINK 1".to_string(), "LINK 2".to_string()],
            key: "KEY".to_string(),
        }),
    );
}

#[test]
fn certificate_that_cannot_be_loaded_sends_nothing() {
    assert_eq!(
        add_certificate(e("a"), e("b"), e("c")),
        Err(text("could not load certificate: a"))
    );
    assert_eq!(
        add_certificate(Ok("CERT".to_string()), e("b"), e("c")),
        Err(text("could not load certificate chain: b"))
    );
    assert_eq!(
        add_certificate(Ok("CERT".to_string()), Ok(vec![]), e("c")),
        Err(text("could not load key: c"))
    );
    assert_eq!(
        add_certificate(e("a"), Ok(vec![]), Ok("KEY".to_string())),
        Err(text("could not load certificate: a"))
    );
}

#[test]
fn remove_certificate_order() {
    check_order(
        &remove_certificate(CertificateCheck::Fingerprint(vec![1, 2, 3])).unwrap(),
        Order::RemoveCertificate(CertFingerprint(vec![1, 2, 3])),
    );
    assert_eq!(
        remove_certificate(CertificateCheck::Unreadable("denied".to_string())),
        Err(text("could not load file: denied"))
    );
    assert_eq!(
        remove_certificate(CertificateCheck::Invalid("empty".to_string())),
        Err(text("could not calculate fingerprint for certificate: empty"))
    );
}

#[test]
fn tcp_front_orders() {
    let front = TcpFront { app_id: "app_1".to_string(), ip_address: "0.0.0.0".to_string(), port: 5432 };
    check_order(&add_tcp_front("app_1", "0.0.0.0", 5432), Order::AddTcpFront(front.clone()));
    check_order(&remove_tcp_front("app_1", "0.0.0.0", 5432), Order::RemoveTcpFront(front));
}

#[test]
fn query_commands() {
    check(&query_application(None), CommandKind::Query(QueryKind::Applications), Purpose::Query);
    check(
        &query_application(Some("app_1")),
        CommandKind::Query(QueryKind::Application("app_1".to_string())),
        Purpose::Query,
    );
}

#[test]
fn logging_filter_order() {
    check_order(&logging_filter("info,sozu=debug"), Order::Logging("info,sozu=debug".to_string()));
}
