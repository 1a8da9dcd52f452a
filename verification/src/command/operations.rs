//! The operations that send one command: each makes the command, under a
//! new identifier, and says what it was sent for.

use vstd::prelude::*;
use vstd::string::*;
use crate::command::exchange::{prefixed_line, Exchange, Output, OutputView, Purpose, PurposeView};
use crate::command::ids::{generate_id, is_tagged_id};
use crate::command::messages::{
    texts, Application, ApplicationView, CertFingerprint, CertificateAndKey, CertificateAndKeyView,
    CommandKind, CommandKindView, HttpFront, HttpFrontView, HttpsFront, HttpsFrontView, Instance,
    InstanceView, Order, OrderView, QueryKind, QueryKindView, TcpFront, TcpFrontView,
};

verus! {

/// Whether `exchange` sends a command of the given kind to no worker in
/// particular, under an identifier of the tag `ID`, for the given purpose.
pub open spec fn sends(exchange: Exchange, kind: CommandKindView, purpose: PurposeView) -> bool {
    &&& exchange.command@.kind == kind
    &&& exchange.command@.target_worker is None
    &&& is_tagged_id("ID"@, exchange.command@.id)
    &&& exchange.purpose@ == purpose
}

/// Whether `exchange` sends the given order.
pub open spec fn orders(exchange: Exchange, order: OrderView) -> bool {
    sends(exchange, CommandKindView::ProxyConfiguration(order), PurposeView::Order)
}

fn open(kind: CommandKind, purpose: Purpose) -> (res: Exchange)
    ensures
        sends(res, kind@, purpose@),
{
    Exchange::new(generate_id(), kind, purpose)
}

/// Asks the proxy to save its state to `path`.
pub fn save_state(path: &str) -> (res: Exchange)
    ensures
        sends(res, CommandKindView::SaveState(path@), PurposeView::SaveState),
{
    open(CommandKind::SaveState(String::from_str(path)), Purpose::SaveState)
}

/// Asks the proxy to load its state from `path`.
pub fn load_state(path: &str) -> (res: Exchange)
    ensures
        sends(res, CommandKindView::LoadState(path@), PurposeView::LoadState(path@)),
{
    open(CommandKind::LoadState(String::from_str(path)), Purpose::LoadState(String::from_str(path)))
}

/// Asks the proxy for a dump of its state.
pub fn dump_state() -> (res: Exchange)
    ensures
        sends(res, CommandKindView::DumpState, PurposeView::DumpState),
{
    open(CommandKind::DumpState, Purpose::DumpState)
}

/// Asks the proxy to stop once its connections have ended.
pub fn soft_stop() -> (res: Exchange)
    ensures
        sends(res, CommandKindView::ProxyConfiguration(OrderView::SoftStop), PurposeView::Stop),
{
    open(CommandKind::ProxyConfiguration(Order::SoftStop), Purpose::Stop)
}

/// Asks the proxy to stop at once.
pub fn hard_stop() -> (res: Exchange)
    ensures
        sends(res, CommandKindView::ProxyConfiguration(OrderView::HardStop), PurposeView::Stop),
{
    open(CommandKind::ProxyConfiguration(Order::HardStop), Purpose::Stop)
}

/// Asks the proxy for its metrics.
pub fn metrics() -> (res: Exchange)
    ensures
        sends(res, CommandKindView::Metrics, PurposeView::Metrics),
{
    open(CommandKind::Metrics, Purpose::Metrics)
}

/// Sends an order.
pub fn order_command(order: Order) -> (res: Exchange)
    ensures
        orders(res, order@),
{
    open(CommandKind::ProxyConfiguration(order), Purpose::Order)
}

/// Adds an application.
pub fn add_application(app_id: &str, sticky_session: bool) -> (res: Exchange)
    ensures
        orders(res, OrderView::AddApplication(ApplicationView { app_id: app_id@, sticky_session })),
{
    order_command(Order::AddApplication(Application { app_id: String::from_str(app_id), sticky_session }))
}

/// Removes an application.
pub fn remove_application(app_id: &str) -> (res: Exchange)
    ensures
        orders(res, OrderView::RemoveApplication(app_id@)),
{
    order_command(Order::RemoveApplication(String::from_str(app_id)))
}

/// What was made of a certificate file before an order that names the
/// certificate by its fingerprint.
#[derive(Debug, Clone, PartialEq, Eq)]
pub enum CertificateCheck {
    /// The file could not be read; the text says why.
    Unreadable(String),
    /// No fingerprint could be computed; the text says why.
    Invalid(String),
    /// The fingerprint of the certificate.
    Fingerprint(Vec<u8>),
}

/// The line shown where a certificate file could not be read.
pub open spec fn unreadable_line(reason: Seq<char>) -> OutputView {
    OutputView::Line("could not load file: "@ + reason)
}

/// The line shown where no fingerprint could be computed.
pub open spec fn invalid_line(reason: Seq<char>) -> OutputView {
    OutputView::Line("could not calculate fingerprint for certificate: "@ + reason)
}

/// The HTTP front of an application for a host name and a path.
pub open spec fn http_front(app_id: Seq<char>, hostname: Seq<char>, path_begin: Seq<char>) -> HttpFrontView {
    HttpFrontView { app_id, hostname, path_begin }
}

/// The HTTPS front of an application for a host name and a path, served
/// with the certificate of the given fingerprint.
pub open spec fn https_front(
    app_id: Seq<char>,
    hostname: Seq<char>,
    path_begin: Seq<char>,
    fingerprint: Seq<u8>,
) -> HttpsFrontView {
    HttpsFrontView { app_id, hostname, path_begin, fingerprint }
}

fn make_http_front(app_id: &str, hostname: &str, path_begin: &str) -> (res: HttpFront)
    ensures
        res@ == http_front(app_id@, hostname@, path_begin@),
{
    HttpFront {
        app_id: String::from_str(app_id),
        hostname: String::from_str(hostname),
        path_begin: String::from_str(path_begin),
    }
}

fn make_https_front(app_id: &str, hostname: &str, path_begin: &str, fingerprint: Vec<u8>) -> (res: HttpsFront)
    ensures
        res@ == https_front(app_id@, hostname@, path_begin@, fingerprint@),
{
    HttpsFront {
        app_id: String::from_str(app_id),
        hostname: String::from_str(hostname),
        path_begin: String::from_str(path_begin),
        fingerprint: CertFingerprint(fingerprint),
    }
}

/// Adds a front to an application: an HTTP front where no certificate is
/// given, an HTTPS front for the certificate of the given fingerprint. Where
/// the fingerprint could not be had, nothing is to be sent, and the line to
/// show is returned.
pub fn add_frontend(
    app_id: &str,
    hostname: &str,
    path_begin: &str,
    certificate: Option<CertificateCheck>,
) -> (res: Result<Exchange, Output>)
    ensures
        match certificate {
            None => res is Ok && orders(
                res->Ok_0,
                OrderView::AddHttpFront(http_front(app_id@, hostname@, path_begin@)),
            ),
            Some(CertificateCheck::Fingerprint(f)) => res is Ok && orders(
                res->Ok_0,
                OrderView::AddHttpsFront(https_front(app_id@, hostname@, path_begin@, f@)),
            ),
            Some(CertificateCheck::Unreadable(reason)) => res is Err && res->Err_0@ == unreadable_line(
                reason@,
            ),
            Some(CertificateCheck::Invalid(reason)) => res is Err && res->Err_0@ == invalid_line(reason@),
        },
{
    match certificate {
        None => Ok(order_command(Order::AddHttpFront(make_http_front(app_id, hostname, path_begin)))),
        Some(CertificateCheck::Fingerprint(f)) => Ok(
            order_command(Order::AddHttpsFront(make_https_front(app_id, hostname, path_begin, f))),
        ),
        Some(CertificateCheck::Unreadable(reason)) => Err(prefixed_line("could not load file: ", &reason)),
        Some(CertificateCheck::Invalid(reason)) => Err(
            prefixed_line("could not calculate fingerprint for certificate: ", &reason),
        ),
    }
}

/// Removes a front from an application: an HTTP front where no certificate
/// is given, an HTTPS front for the certificate of the given fingerprint.
/// Where the fingerprint could not be had, nothing is to be sent, and the
/// line to show is returned.
pub fn remove_frontend(
    app_id: &str,
    hostname: &str,
    path_begin: &str,
    certificate: Option<CertificateCheck>,
) -> (res: Result<Exchange, Output>)
    ensures
        match certificate {
            None => res is Ok && orders(
                res->Ok_0,
                OrderView::RemoveHttpFront(http_front(app_id@, hostname@, path_begin@)),
            ),
            Some(CertificateCheck::Fingerprint(f)) => res is Ok && orders(
                res->Ok_0,
                OrderView::RemoveHttpsFront(https_front(app_id@, hostname@, path_begin@, f@)),
            ),
            Some(CertificateCheck::Unreadable(reason)) => res is Err && res->Err_0@ == unreadable_line(
                reason@,
            ),
            Some(CertificateCheck::Invalid(reason)) => res is Err && res->Err_0@ == invalid_line(reason@),
        },
{
    match certificate {
        None => Ok(order_command(Order::RemoveHttpFront(make_http_front(app_id, hostname, path_begin)))),
        Some(CertificateCheck::Fingerprint(f)) => Ok(
            order_command(Order::RemoveHttpsFront(make_https_front(app_id, hostname, path_begin, f))),
        ),
        Some(CertificateCheck::Unreadable(reason)) => Err(prefixed_line("could not load file: ", &reason)),
        Some(CertificateCheck::Invalid(reason)) => Err(
            prefixed_line("could not calculate fingerprint for certificate: ", &reason),
        ),
    }
}

/// The backend server of an application at an address.
pub open spec fn instance(
    app_id: Seq<char>,
    instance_id: Seq<char>,
    ip_address: Seq<char>,
    port: u16,
) -> InstanceView {
    InstanceView { app_id, instance_id, ip_address, port }
}

fn make_instance(app_id: &str, instance_id: &str, ip: &str, port: u16) -> (res: Instance)
    ensures
        res@ == instance(app_id@, instance_id@, ip@, port),
{
    Instance {
        app_id: String::from_str(app_id),
        instance_id: String::from_str(instance_id),
        ip_address: String::from_str(ip),
        port,
    }
}

/// Adds a backend to an application.
pub fn add_backend(app_id: &str, instance_id: &str, ip: &str, port: u16) -> (res: Exchange)
    ensures
        orders(res, OrderView::AddInstance(instance(app_id@, instance_id@, ip@, port))),
{
    order_command(Order::AddInstance(make_instance(app_id, instance_id, ip, port)))
}

/// Removes a backend from an application.
pub fn remove_backend(app_id: &str, instance_id: &str, ip: &str, port: u16) -> (res: Exchange)
    ensures
        orders(res, OrderView::RemoveInstance(instance(app_id@, instance_id@, ip@, port))),
{
    order_command(Order::RemoveInstance(make_instance(app_id, instance_id, ip, port)))
}

/// The certificate that the three files of a certificate make, or the line
/// to show for the first of them that could not be loaded: the certificate,
/// then its chain, then its key. An error holds what the loading reported.
pub open spec fn loaded_certificate(
    certificate: Result<String, String>,
    chain: Result<Vec<String>, String>,
    key: Result<String, String>,
) -> Result<CertificateAndKeyView, OutputView> {
    match certificate {
        Err(reason) => Err(OutputView::Line("could not load certificate: "@ + reason@)),
        Ok(c) => match chain {
            Err(reason) => Err(OutputView::Line("could not load certificate chain: "@ + reason@)),
            Ok(links) => match key {
                Err(reason) => Err(OutputView::Line("could not load key: "@ + reason@)),
                Ok(k) => Ok(
                    CertificateAndKeyView { certificate: c@, certificate_chain: texts(links@), key: k@ },
                ),
            },
        },
    }
}

/// Adds a certificate with its chain, already split into its certificates,
/// and its key. Where one of the three could not be loaded, nothing is to
/// be sent, and the line to show is returned.
pub fn add_certificate(
    certificate: Result<String, String>,
    certificate_chain: Result<Vec<String>, String>,
    key: Result<String, String>,
) -> (res: Result<Exchange, Output>)
    ensures
        match loaded_certificate(certificate, certificate_chain, key) {
            Ok(loaded) => res is Ok && orders(res->Ok_0, OrderView::AddCertificate(loaded)),
            Err(shown) => res is Err && res->Err_0@ == shown,
        },
{
    match certificate {
        Err(reason) => Err(prefixed_line("could not load certificate: ", &reason)),
        Ok(c) => match certificate_chain {
            Err(reason) => Err(prefixed_line("could not load certificate chain: ", &reason)),
            Ok(links) => match key {
                Err(reason) => Err(prefixed_line("could not load key: ", &reason)),
                Ok(k) => Ok(
                    order_command(
                        Order::AddCertificate(
                            CertificateAndKey { certificate: c, certificate_chain: links, key: k },
                        ),
                    ),
                ),
            },
        },
    }
}

/// Removes the certificate of the given fingerprint. Where the fingerprint
/// could not be had, nothing is to be sent, and the line to show is
/// returned.
pub fn remove_certificate(certificate: CertificateCheck) -> (res: Result<Exchange, Output>)
    ensures
        match certificate {
            CertificateCheck::Fingerprint(f) => res is Ok && orders(
                res->Ok_0,
                OrderView::RemoveCertificate(f@),
            ),
            CertificateCheck::Unreadable(reason) => res is Err && res->Err_0@ == unreadable_line(reason@),
            CertificateCheck::Invalid(reason) => res is Err && res->Err_0@ == invalid_line(reason@),
        },
{
    match certificate {
        CertificateCheck::Fingerprint(f) => Ok(order_command(Order::RemoveCertificate(CertFingerprint(f)))),
        CertificateCheck::Unreadable(reason) => Err(prefixed_line("could not load file: ", &reason)),
        CertificateCheck::Invalid(reason) => Err(
            prefixed_line("could not calculate fingerprint for certificate: ", &reason),
        ),
    }
}

/// The TCP front of an application at an address.
pub open spec fn tcp_front(app_id: Seq<char>, ip_address: Seq<char>, port: u16) -> TcpFrontView {
    TcpFrontView { app_id, ip_address, port }
}

fn make_tcp_front(app_id: &str, ip_address: &str, port: u16) -> (res: TcpFront)
    ensures
        res@ == tcp_front(app_id@, ip_address@, port),
{
    TcpFront { app_id: String::from_str(app_id), ip_address: String::from_str(ip_address), port }
}

/// Adds a TCP front to an application.
pub fn add_tcp_front(app_id: &str, ip_address: &str, port: u16) -> (res: Exchange)
    ensures
        orders(res, OrderView::AddTcpFront(tcp_front(app_id@, ip_address@, port))),
{
    order_command(Order::AddTcpFront(make_tcp_front(app_id, ip_address, port)))
}

/// Removes a TCP front from an application.
pub fn remove_tcp_front(app_id: &str, ip_address: &str, port: u16) -> (res: Exchange)
    ensures
        orders(res, OrderView::RemoveTcpFront(tcp_front(app_id@, ip_address@, port))),
{
    order_command(Order::RemoveTcpFront(make_tcp_front(app_id, ip_address, port)))
}

/// Asks the proxy about one application, or about all of them where none
/// is named.
pub fn query_application(id: Option<&str>) -> (res: Exchange)
    ensures
        sends(
            res,
            CommandKindView::Query(
                match id {
                    Some(app_id) => QueryKindView::Application(app_id@),
                    None => QueryKindView::Applications,
                },
            ),
            PurposeView::Query,
        ),
{
    let kind = match id {
        Some(app_id) => CommandKind::Query(QueryKind::Application(String::from_str(app_id))),
        None => CommandKind::Query(QueryKind::Applications),
    };
    open(kind, Purpose::Query)
}

/// Sets the filter of the proxy's log.
pub fn logging_filter(filter: &str) -> (res: Exchange)
    ensures
        orders(res, OrderView::Logging(filter@)),
{
    order_command(Order::Logging(String::from_str(filter)))
}

} // verus!
