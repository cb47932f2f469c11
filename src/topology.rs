use vstd::prelude::*;

verus! {

/// The SQL dialect spoken by the upstream database and by the adapters in front of it.
#[derive(Clone, Copy, Debug, PartialEq, Eq, Structural)]
pub enum DatabaseType {
    MySQL,
    PostgreSQL,
}

/// How a deployment is launched.
#[derive(Clone, Copy, Debug, PartialEq, Eq, Structural)]
pub enum Mode {
    /// Processes serve traffic until they are torn down.
    Normal,
    /// Adapters remove the replication artifacts left by an earlier run and then exit.
    CleanupOnly,
}

/// Per-server parameters of a cache server.
#[derive(Clone, Copy, Debug, PartialEq, Eq, Structural)]
pub struct ServerParams {
    /// The server keeps no local readers: reads are served by readers embedded elsewhere.
    pub no_readers: bool,
}

impl Default for ServerParams {
    fn default() -> (r: ServerParams)
        ensures
            r.no_readers == false,
    {
        ServerParams { no_readers: false }
    }
}

impl ServerParams {
    /// The same parameters, with local readers switched off.
    pub fn no_readers(self) -> (r: ServerParams)
        ensures
            r.no_readers,
    {
        ServerParams { no_readers: true, ..self }
    }
}

/// A topology specification: what a deployment will launch once it is started.
pub struct DeploymentBuilder {
    /// Namespaces the processes and resources of the deployment.
    pub name: String,
    pub database_type: DatabaseType,
    pub mode: Mode,
    /// A fresh upstream database is provisioned for the deployment.
    pub deploy_upstream: bool,
    /// Adapters run with an embedded cache server.
    pub standalone: bool,
    /// One entry for each cache server, in launch order.
    pub servers: Vec<ServerParams>,
    pub adapters: usize,
    pub reader_replicas: Option<usize>,
    pub embedded_readers: bool,
    pub allow_full_materialization: bool,
}

impl DeploymentBuilder {
    /// A specification with nothing to launch yet, in normal mode.
    pub fn new(database_type: DatabaseType, name: &str) -> (r: DeploymentBuilder)
        ensures
            r.name@ == name@,
            r.database_type == database_type,
            r.mode == Mode::Normal,
            !r.deploy_upstream,
            !r.standalone,
            r.servers@.len() == 0,
            r.adapters == 0,
            r.reader_replicas.is_none(),
            !r.embedded_readers,
            !r.allow_full_materialization,
    {
        DeploymentBuilder {
            name: String::from_str(name),
            database_type,
            mode: Mode::Normal,
            deploy_upstream: false,
            standalone: false,
            servers: Vec::new(),
            adapters: 0,
            reader_replicas: None,
            embedded_readers: false,
            allow_full_materialization: false,
        }
    }

    /// Adapters run with an embedded cache server.
    pub fn standalone(self) -> (r: DeploymentBuilder)
        ensures
            r == (DeploymentBuilder { standalone: true, ..self }),
    {
        DeploymentBuilder { standalone: true, ..self }
    }

    /// Launch in cleanup-only mode.
    pub fn cleanup(self) -> (r: DeploymentBuilder)
        ensures
            r == (DeploymentBuilder { mode: Mode::CleanupOnly, ..self }),
    {
        DeploymentBuilder { mode: Mode::CleanupOnly, ..self }
    }

    /// Provision a fresh upstream database for the deployment.
    pub fn deploy_upstream(self) -> (r: DeploymentBuilder)
        ensures
            r == (DeploymentBuilder { deploy_upstream: true, ..self }),
    {
        DeploymentBuilder { deploy_upstream: true, ..self }
    }

    /// Deploy exactly one adapter.
    pub fn deploy_adapter(self) -> (r: DeploymentBuilder)
        ensures
            r == (DeploymentBuilder { adapters: 1, ..self }),
    {
        DeploymentBuilder { adapters: 1, ..self }
    }

    /// Deploy `count` adapters.
    pub fn with_adapters(self, count: usize) -> (r: DeploymentBuilder)
        ensures
            r == (DeploymentBuilder { adapters: count, ..self }),
    {
        DeploymentBuilder { adapters: count, ..self }
    }

    /// Replicate each reader `count` times.
    pub fn reader_replicas(self, count: usize) -> (r: DeploymentBuilder)
        ensures
            r == (DeploymentBuilder { reader_replicas: Some(count), ..self }),
    {
        DeploymentBuilder { reader_replicas: Some(count), ..self }
    }

    /// Run readers inside the adapters.
    pub fn embedded_readers(self, enabled: bool) -> (r: DeploymentBuilder)
        ensures
            r == (DeploymentBuilder { embedded_readers: enabled, ..self }),
    {
        DeploymentBuilder { embedded_readers: enabled, ..self }
    }

    /// Let the cache servers materialize queries in full.
    pub fn allow_full_materialization(self) -> (r: DeploymentBuilder)
        ensures
            r == (DeploymentBuilder { allow_full_materialization: true, ..self }),
    {
        DeploymentBuilder { allow_full_materialization: true, ..self }
    }

    /// Append `count` cache servers, each with the parameters `params`.
    pub fn with_servers(self, count: u32, params: ServerParams) -> (r: DeploymentBuilder)
        requires
            self.servers@.len() + count <= usize::MAX,
        ensures
            r.servers@ == self.servers@ + Seq::new(count as nat, |i: int| params),
            r == (DeploymentBuilder { servers: r.servers, ..self }),
    {
        let mut b = self;
        let mut k: u32 = 0;
        while k < count
            invariant
                k <= count,
                b.servers@ == self.servers@ + Seq::new(k as nat, |i: int| params),
                b == (DeploymentBuilder { servers: b.servers, ..self }),
                self.servers@.len() + count <= usize::MAX,
            decreases count - k,
        {
            b.servers.push(params);
            k = k + 1;
            assert(b.servers@ =~= self.servers@ + Seq::new(k as nat, |i: int| params));
        }
        b
    }
}

/// A PostgreSQL deployment of one standalone adapter in front of a fresh upstream database.
pub fn readyset_postgres(name: &str) -> (r: DeploymentBuilder)
    ensures
        r.name@ == name@,
        r.database_type == DatabaseType::PostgreSQL,
        r.mode == Mode::Normal,
        r.deploy_upstream,
        r.standalone,
        r.servers@.len() == 0,
        r.adapters == 1,
        r.reader_replicas.is_none(),
        !r.embedded_readers,
        !r.allow_full_materialization,
{
    DeploymentBuilder::new(DatabaseType::PostgreSQL, name).standalone().deploy_upstream().deploy_adapter()
}

/// The cleanup-only counterpart of [`readyset_postgres`]: the same topology, whose adapter
/// removes the replication artifacts of an earlier deployment of that name and then exits.
pub fn readyset_postgres_cleanup(name: &str) -> (r: DeploymentBuilder)
    ensures
        r.name@ == name@,
        r.database_type == DatabaseType::PostgreSQL,
        r.mode == Mode::CleanupOnly,
        r.deploy_upstream,
        r.standalone,
        r.servers@.len() == 0,
        r.adapters == 1,
        r.reader_replicas.is_none(),
        !r.embedded_readers,
        !r.allow_full_materialization,
{
    DeploymentBuilder::new(DatabaseType::PostgreSQL, name).standalone().cleanup().deploy_upstream().deploy_adapter()
}

} // verus!
