use vstd::prelude::*;

use crate::topology::{DeploymentBuilder, Mode};

verus! {

/// The lifecycle status of a deployment; it only ever moves forward.
#[derive(Clone, Copy, Debug, PartialEq, Eq, Structural)]
pub enum Status {
    Provisioning,
    Running,
    TornDown,
}

/// The role of a process in a deployment.
#[derive(Clone, Copy, Debug, PartialEq, Eq, Structural)]
pub enum ProcessKind {
    Upstream,
    Server,
    Adapter,
}

/// One process of a deployment: its role, and its position among the processes of that role.
#[derive(Clone, Copy, Debug, PartialEq, Eq, Structural)]
pub struct ProcessSlot {
    pub kind: ProcessKind,
    pub index: usize,
}

/// Why a topology specification was refused.
#[derive(Clone, Copy, Debug, PartialEq, Eq, Structural)]
pub enum BuildError {
    /// Cleanup-only mode removes artifacts from an upstream database, and none is configured.
    CleanupWithoutUpstream,
}

/// Why a deployment failed to start. Fatal: the caller builds a new deployment to try again.
#[derive(Clone, Copy, Debug, PartialEq, Eq, Structural)]
pub enum ProvisionError {
    /// The process exited before it reported ready.
    ExitedEarly(ProcessSlot),
    /// The process was still running but had not reported ready in time.
    ReadinessTimeout(ProcessSlot),
    /// The process could not bind its port.
    PortConflict(ProcessSlot),
}

/// Why no connection can be handed out.
#[derive(Clone, Copy, Debug, PartialEq, Eq, Structural)]
pub enum ConnectError {
    NotRunning,
    NoAdapters,
    NoUpstream,
}

/// A process that did not stop when it was told to.
#[derive(Clone, Copy, Debug, PartialEq, Eq, Structural)]
pub enum TeardownError {
    DidNotStop(ProcessSlot),
}

/// A deployment: its topology and where it stands in its lifecycle.
pub struct Deployment {
    pub topology: DeploymentBuilder,
    pub status: Status,
    /// `start` waited for every process to report ready.
    pub awaited_ready: bool,
    /// All adapters were observed to have exited on their own.
    pub adapters_exited: bool,
}

/// Whether a topology can be deployed: cleanup-only mode needs an upstream database.
pub open spec fn accepts(t: DeploymentBuilder) -> bool {
    t.mode == Mode::Normal || t.deploy_upstream
}

/// `count` processes of role `kind`, by position.
pub open spec fn slots(kind: ProcessKind, count: nat) -> Seq<ProcessSlot> {
    Seq::new(count, |i: int| ProcessSlot { kind, index: i as usize })
}

/// `count` processes of role `kind`, from the last position to the first.
pub open spec fn slots_reversed(kind: ProcessKind, count: nat) -> Seq<ProcessSlot> {
    Seq::new(count, |i: int| ProcessSlot { kind, index: (count - 1 - i) as usize })
}

/// The processes of a topology in the order they are launched: the upstream database first,
/// then the cache servers, then the adapters, since each resolves the state of those before it
/// at boot.
pub open spec fn launch_order_spec(t: DeploymentBuilder) -> Seq<ProcessSlot> {
    let upstream = if t.deploy_upstream {
        seq![ProcessSlot { kind: ProcessKind::Upstream, index: 0 }]
    } else {
        Seq::empty()
    };
    upstream + slots(ProcessKind::Server, t.servers@.len()) + slots(ProcessKind::Adapter, t.adapters as nat)
}

/// The processes that teardown stops, in the reverse of launch order: the adapters that are
/// still running, then the cache servers. The upstream database is never stopped, so what the
/// deployment left there can still be inspected and cleaned up. Nothing is stopped unless the
/// deployment is running.
pub open spec fn teardown_order_spec(d: Deployment) -> Seq<ProcessSlot> {
    if d.status != Status::Running {
        Seq::empty()
    } else {
        let adapters = if d.adapters_exited {
            Seq::empty()
        } else {
            slots_reversed(ProcessKind::Adapter, d.topology.adapters as nat)
        };
        adapters + slots_reversed(ProcessKind::Server, d.topology.servers@.len())
    }
}

/// The deployment and the result after the processes of its teardown order were told to stop,
/// `refused` naming one that did not. A deployment already torn down stays as it is.
pub open spec fn teardown_spec(d: Deployment, refused: Option<ProcessSlot>) -> (Deployment, Result<(), TeardownError>) {
    if d.status == Status::TornDown {
        (d, Ok(()))
    } else {
        match refused {
            Some(p) => (d, Err(TeardownError::DidNotStop(p))),
            None => (Deployment { status: Status::TornDown, ..d }, Ok(())),
        }
    }
}

/// The deployment that `start` makes of `d`, after the launch and, if `awaited`, the wait for
/// readiness ended with `failure`.
pub open spec fn start_spec(d: Deployment, awaited: bool, failure: Option<ProvisionError>) -> Result<Deployment, ProvisionError> {
    match failure {
        Some(e) => Err(e),
        None => Ok(Deployment { status: Status::Running, awaited_ready: awaited, ..d }),
    }
}

/// Appends `count` slots of role `kind` to `v`, in increasing or decreasing position.
fn push_slots(v: &mut Vec<ProcessSlot>, kind: ProcessKind, count: usize, reversed: bool)
    ensures
        final(v)@ == old(v)@ + (if reversed {
            slots_reversed(kind, count as nat)
        } else {
            slots(kind, count as nat)
        }),
{
    let ghost added = if reversed {
        slots_reversed(kind, count as nat)
    } else {
        slots(kind, count as nat)
    };
    let mut i: usize = 0;
    while i < count
        invariant
            i <= count,
            v@ == old(v)@ + added.subrange(0, i as int),
            added.len() == count,
            added == (if reversed { slots_reversed(kind, count as nat) } else { slots(kind, count as nat) }),
        decreases count - i,
    {
        let index = if reversed { count - 1 - i } else { i };
        v.push(ProcessSlot { kind, index });
        i = i + 1;
        assert(v@ =~= old(v)@ + added.subrange(0, i as int));
    }
    assert(added.subrange(0, count as int) =~= added);
}

impl Deployment {
    /// Checks a topology and makes a deployment of it that has not been launched yet.
    pub fn build(topology: DeploymentBuilder) -> (r: Result<Deployment, BuildError>)
        ensures
            r is Err <==> !accepts(topology),
            r is Err ==> r == Err::<Deployment, BuildError>(BuildError::CleanupWithoutUpstream),
            r is Ok ==> r->Ok_0 == (Deployment {
                topology,
                status: Status::Provisioning,
                awaited_ready: false,
                adapters_exited: false,
            }),
    {
        if topology.mode == Mode::CleanupOnly && !topology.deploy_upstream {
            return Err(BuildError::CleanupWithoutUpstream);
        }
        Ok(Deployment { topology, status: Status::Provisioning, awaited_ready: false, adapters_exited: false })
    }

    /// The processes to launch, in order.
    pub fn launch_order(&self) -> (r: Vec<ProcessSlot>)
        ensures
            r@ == launch_order_spec(self.topology),
    {
        let mut v: Vec<ProcessSlot> = Vec::new();
        if self.topology.deploy_upstream {
            v.push(ProcessSlot { kind: ProcessKind::Upstream, index: 0 });
        }
        push_slots(&mut v, ProcessKind::Server, self.topology.servers.len(), false);
        push_slots(&mut v, ProcessKind::Adapter, self.topology.adapters, false);
        proof {
            assert(v@ =~= launch_order_spec(self.topology));
        }
        v
    }

    /// Marks the deployment running once its processes were launched and each reported ready;
    /// `failure` is the first process that did not.
    pub fn start(self, failure: Option<ProvisionError>) -> (r: Result<Deployment, ProvisionError>)
        requires
            self.status == Status::Provisioning,
        ensures
            r == start_spec(self, true, failure),
    {
        match failure {
            Some(e) => Err(e),
            None => Ok(Deployment { status: Status::Running, awaited_ready: true, ..self }),
        }
    }

    /// Marks the deployment running once its processes were launched, without waiting for them
    /// to report ready; `failure` is the first process that could not be launched. For
    /// cleanup-only deployments, whose adapters exit once their work is done.
    pub fn start_without_waiting(self, failure: Option<ProvisionError>) -> (r: Result<Deployment, ProvisionError>)
        requires
            self.status == Status::Provisioning,
        ensures
            r == start_spec(self, false, failure),
    {
        match failure {
            Some(e) => Err(e),
            None => Ok(Deployment { status: Status::Running, awaited_ready: false, ..self }),
        }
    }

    /// The adapter to connect to for queries.
    pub fn first_adapter(&self) -> (r: Result<ProcessSlot, ConnectError>)
        ensures
            self.status != Status::Running ==> r == Err::<ProcessSlot, ConnectError>(ConnectError::NotRunning),
            self.status == Status::Running && self.topology.adapters == 0 ==> r == Err::<ProcessSlot, ConnectError>(ConnectError::NoAdapters),
            self.status == Status::Running && self.topology.adapters > 0 ==> r == Ok::<ProcessSlot, ConnectError>(ProcessSlot { kind: ProcessKind::Adapter, index: 0 }),
    {
        if self.status != Status::Running {
            Err(ConnectError::NotRunning)
        } else if self.topology.adapters == 0 {
            Err(ConnectError::NoAdapters)
        } else {
            Ok(ProcessSlot { kind: ProcessKind::Adapter, index: 0 })
        }
    }

    /// The upstream database to connect to.
    pub fn upstream(&self) -> (r: Result<ProcessSlot, ConnectError>)
        ensures
            self.status != Status::Running ==> r == Err::<ProcessSlot, ConnectError>(ConnectError::NotRunning),
            self.status == Status::Running && !self.topology.deploy_upstream ==> r == Err::<ProcessSlot, ConnectError>(ConnectError::NoUpstream),
            self.status == Status::Running && self.topology.deploy_upstream ==> r == Ok::<ProcessSlot, ConnectError>(ProcessSlot { kind: ProcessKind::Upstream, index: 0 }),
    {
        if self.status != Status::Running {
            Err(ConnectError::NotRunning)
        } else if !self.topology.deploy_upstream {
            Err(ConnectError::NoUpstream)
        } else {
            Ok(ProcessSlot { kind: ProcessKind::Upstream, index: 0 })
        }
    }

    /// Records one poll of adapter liveness, `alive[i]` for the adapter at position `i`, and
    /// says whether every adapter has exited. Once they all have, the deployment remembers it.
    pub fn observe_adapters(&mut self, alive: &Vec<bool>) -> (r: bool)
        requires
            alive@.len() == old(self).topology.adapters,
        ensures
            r == (forall|i: int| 0 <= i < alive@.len() ==> !alive@[i]),
            *final(self) == (Deployment { adapters_exited: old(self).adapters_exited || r, ..*old(self) }),
    {
        let mut i: usize = 0;
        while i < alive.len()
            invariant
                i <= alive@.len(),
                forall|j: int| 0 <= j < i ==> !alive@[j],
            decreases alive@.len() - i,
        {
            if alive[i] {
                return false;
            }
            i = i + 1;
        }
        self.adapters_exited = true;
        true
    }

    /// The processes to tell to stop, in order.
    pub fn teardown_order(&self) -> (r: Vec<ProcessSlot>)
        ensures
            r@ == teardown_order_spec(*self),
    {
        let mut v: Vec<ProcessSlot> = Vec::new();
        if self.status != Status::Running {
            return v;
        }
        if !self.adapters_exited {
            push_slots(&mut v, ProcessKind::Adapter, self.topology.adapters, true);
        }
        push_slots(&mut v, ProcessKind::Server, self.topology.servers.len(), true);
        proof {
            assert(v@ =~= teardown_order_spec(*self));
        }
        v
    }

    /// Records the end of a teardown: `refused` names a process that did not stop, which is
    /// reported and leaves the deployment as it was. Tearing down a deployment that is already
    /// torn down changes nothing and succeeds.
    pub fn teardown(&mut self, refused: Option<ProcessSlot>) -> (r: Result<(), TeardownError>)
        ensures
            (*final(self), r) == teardown_spec(*old(self), refused),
    {
        if self.status == Status::TornDown {
            return Ok(());
        }
        match refused {
            Some(p) => Err(TeardownError::DidNotStop(p)),
            None => {
                self.status = Status::TornDown;
                Ok(())
            },
        }
    }
}

/// The position of a status in the lifecycle.
pub open spec fn rank(s: Status) -> int {
    match s {
        Status::Provisioning => 0,
        Status::Running => 1,
        Status::TornDown => 2,
    }
}

/// The lifecycle only moves forward: a successful start goes from provisioning to running, and
/// teardown, whatever its outcome, never moves a deployment back.
pub proof fn lemma_status_moves_forward(d: Deployment, awaited: bool, failure: Option<ProvisionError>, refused: Option<ProcessSlot>)
    ensures
        d.status == Status::Provisioning && start_spec(d, awaited, failure) is Ok
            ==> start_spec(d, awaited, failure)->Ok_0.status == Status::Running,
        rank(teardown_spec(d, refused).0.status) >= rank(d.status),
{
}

/// Teardown is idempotent: once a teardown succeeded, the deployment is torn down, a second
/// teardown has nothing to stop, and it succeeds and leaves the deployment as the first left it.
pub proof fn lemma_teardown_idempotent(d: Deployment, refused: Option<ProcessSlot>)
    ensures
        ({
            let (once, first) = teardown_spec(d, None);
            let (twice, second) = teardown_spec(once, refused);
            &&& first is Ok
            &&& once.status == Status::TornDown
            &&& teardown_order_spec(once).len() == 0
            &&& twice == once
            &&& second is Ok
        }),
{
}

/// Teardown never stops the upstream database, so the replication artifacts that a deployment
/// left there outlive it; and every deployment in cleanup-only mode has an upstream database to
/// clean up.
pub proof fn lemma_teardown_spares_upstream(d: Deployment)
    ensures
        forall|j: int| 0 <= j < teardown_order_spec(d).len() ==> teardown_order_spec(d)[j].kind != ProcessKind::Upstream,
        accepts(d.topology) && d.topology.mode == Mode::CleanupOnly ==> d.topology.deploy_upstream,
{
}

/// Routing needs no adapter per reader replica: a normal-mode topology is accepted whatever its
/// adapter count, fewer adapters than reader replicas included, and exactly that many adapters
/// are launched.
pub proof fn lemma_fewer_adapters_than_replicas(t: DeploymentBuilder)
    requires
        t.mode == Mode::Normal,
        t.reader_replicas is Some,
        t.adapters < t.reader_replicas->Some_0,
    ensures
        accepts(t),
        ({
            let order = launch_order_spec(t);
            let first_adapter = order.len() - t.adapters;
            &&& order.subrange(first_adapter, order.len() as int) == slots(ProcessKind::Adapter, t.adapters as nat)
            &&& forall|j: int| 0 <= j < first_adapter ==> order[j].kind != ProcessKind::Adapter
        }),
{
    let order = launch_order_spec(t);
    assert(order.subrange(order.len() - t.adapters, order.len() as int) =~= slots(ProcessKind::Adapter, t.adapters as nat));
}

} // verus!
