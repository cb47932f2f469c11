use readyset_clustertest::lifecycle::{
    BuildError, ConnectError, Deployment, ProcessKind, ProcessSlot, ProvisionError, Status,
    TeardownError,
};
use readyset_clustertest::topology::{
    readyset_postgres, readyset_postgres_cleanup, DatabaseType, DeploymentBuilder, Mode, ServerParams,
};

fn slot(kind: ProcessKind, index: usize) -> ProcessSlot {
    ProcessSlot { kind, index }
}

fn embedded_readers_topology() -> DeploymentBuilder {
    DeploymentBuilder::new(DatabaseType::PostgreSQL, "embedded_readers_adapters_lt_replicas")
        .deploy_upstream()
        .reader_replicas(2)
        .with_adapters(1)
        .with_servers(1, ServerParams::default().no_readers())
        .embedded_readers(true)
        .allow_full_materialization()
}

fn running(b: DeploymentBuilder) -> Deployment {
    Deployment::build(b).unwrap().start(None).unwrap()
}

#[test]
fn readyset_postgres_topology() {
    let b = readyset_postgres("ct_cleanup_works");
    assert_eq!(b.name, "ct_cleanup_works");
    assert_eq!(b.database_type, DatabaseType::PostgreSQL);
    assert_eq!(b.mode, Mode::Normal);
    assert!(b.deploy_upstream && b.standalone);
    assert_eq!(b.adapters, 1);
    assert!(b.servers.is_empty());
    assert_eq!(b.reader_replicas, None);
}

#[test]
fn readyset_postgres_cleanup_topology() {
    let b = readyset_postgres_cleanup("ct_cleanup_works");
    assert_eq!(b.mode, Mode::CleanupOnly);
    assert!(b.deploy_upstream && b.standalone);
    assert_eq!(b.adapters, 1);
}

#[test]
fn builder_settings() {
    let b = embedded_readers_topology().with_servers(2, ServerParams::default());
    assert_eq!(b.reader_replicas, Some(2));
    assert_eq!(b.adapters, 1);
    assert_eq!(
        b.servers,
        vec![ServerParams { no_readers: true }, ServerParams { no_readers: false }, ServerParams { no_readers: false }]
    );
    assert!(b.embedded_readers && b.allow_full_materialization && !b.standalone);
}

#[test]
fn cleanup_without_upstream_is_refused() {
    let b = DeploymentBuilder::new(DatabaseType::PostgreSQL, "c").cleanup().deploy_adapter();
    assert!(matches!(Deployment::build(b), Err(BuildError::CleanupWithoutUpstream)));
    let d = Deployment::build(readyset_postgres_cleanup("c")).unwrap();
    assert_eq!(d.status, Status::Provisioning);
}

#[test]
fn launch_order_is_upstream_servers_adapters() {
    let d = Deployment::build(embedded_readers_topology().with_adapters(2)).unwrap();
    assert_eq!(
        d.launch_order(),
        vec![slot(ProcessKind::Upstream, 0), slot(ProcessKind::Server, 0), slot(ProcessKind::Adapter, 0), slot(ProcessKind::Adapter, 1)]
    );
    let d = Deployment::build(readyset_postgres("n")).unwrap();
    assert_eq!(d.launch_order(), vec![slot(ProcessKind::Upstream, 0), slot(ProcessKind::Adapter, 0)]);
}

#[test]
fn fewer_adapters_than_replicas_is_accepted() {
    let d = running(embedded_readers_topology());
    let adapters = d.launch_order().into_iter().filter(|s| s.kind == ProcessKind::Adapter).count();
    assert_eq!(adapters, 1);
    assert_eq!(d.first_adapter(), Ok(slot(ProcessKind::Adapter, 0)));
}

#[test]
fn start_failures_are_reported() {
    let a = slot(ProcessKind::Adapter, 0);
    for e in [ProvisionError::ExitedEarly(a), ProvisionError::ReadinessTimeout(a), ProvisionError::PortConflict(a)] {
        let d = Deployment::build(readyset_postgres("n")).unwrap();
        assert_eq!(d.start(Some(e)).err(), Some(e));
    }
    let d = Deployment::build(readyset_postgres_cleanup("n")).unwrap().start_without_waiting(None).unwrap();
    assert_eq!(d.status, Status::Running);
    assert!(!d.awaited_ready);
}

#[test]
fn connections_need_a_running_deployment() {
    let d = Deployment::build(readyset_postgres("n")).unwrap();
    assert_eq!(d.first_adapter(), Err(ConnectError::NotRunning));
    assert_eq!(d.upstream(), Err(ConnectError::NotRunning));
    let d = d.start(None).unwrap();
    assert!(d.awaited_ready);
    assert_eq!(d.upstream(), Ok(slot(ProcessKind::Upstream, 0)));
    let d = running(DeploymentBuilder::new(DatabaseType::MySQL, "m").with_adapters(0));
    assert_eq!(d.first_adapter(), Err(ConnectError::NoAdapters));
    assert_eq!(d.upstream(), Err(ConnectError::NoUpstream));
}

#[test]
fn teardown_order_reverses_launch_and_spares_upstream() {
    let d = running(embedded_readers_topology().with_adapters(2).with_servers(1, ServerParams::default()));
    assert_eq!(
        d.teardown_order(),
        vec![slot(ProcessKind::Adapter, 1), slot(ProcessKind::Adapter, 0), slot(ProcessKind::Server, 1), slot(ProcessKind::Server, 0)]
    );
    let d = running(readyset_postgres("n"));
    assert_eq!(d.teardown_order(), vec![slot(ProcessKind::Adapter, 0)]);
}

#[test]
fn teardown_is_idempotent() {
    let mut d = running(readyset_postgres("n"));
    assert_eq!(d.teardown(None), Ok(()));
    assert_eq!(d.status, Status::TornDown);
    assert!(d.teardown_order().is_empty());
    assert_eq!(d.teardown(None), Ok(()));
    assert_eq!(d.teardown(Some(slot(ProcessKind::Adapter, 0))), Ok(()));
    assert_eq!(d.status, Status::TornDown);
}

#[test]
fn teardown_failure_is_surfaced() {
    let mut d = running(readyset_postgres("n"));
    let a = slot(ProcessKind::Adapter, 0);
    assert_eq!(d.teardown(Some(a)), Err(TeardownError::DidNotStop(a)));
    assert_eq!(d.status, Status::Running);
    assert_eq!(d.teardown(None), Ok(()));
}

#[test]
fn cleanup_ends_when_adapters_exit() {
    let mut d = Deployment::build(readyset_postgres_cleanup("ct_cleanup_works").with_adapters(2))
        .unwrap()
        .start_without_waiting(None)
        .unwrap();
    assert!(!d.observe_adapters(&vec![true, false]));
    assert!(!d.adapters_exited);
    assert!(d.observe_adapters(&vec![false, false]));
    assert!(d.adapters_exited);
    assert!(d.teardown_order().is_empty());
    assert_eq!(d.teardown(None), Ok(()));
}
