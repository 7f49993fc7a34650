//! The server builder: it accumulates a listen address and an optional
//! event-loop count, and finalizes into a serving run that drives a
//! handler factory over incoming connections until the shutdown signal
//! resolves. The byte-level socket I/O itself is the connection driver's
//! business and stays outside this crate; a run here is described by the
//! connections it is handed, each a sequence of already-decoded requests,
//! and by the report it returns.

use vstd::prelude::*;

use crate::frame::{ErrorKind, Request, Response};
use crate::service::{dispatch, dispatch_ens, IntoErrorKind, NewService};
use crate::shutdown::ShutdownSignal;

verus! {

/// A host address: the four octets of a version-4 address or the eight
/// segments of a version-6 address.
#[derive(Clone, Copy, Debug, PartialEq, Eq, Structural)]
pub enum IpAddr {
    /// A version-4 address, one variant field per octet.
    V4(u8, u8, u8, u8),
    /// A version-6 address, one variant field per segment.
    V6(u16, u16, u16, u16, u16, u16, u16, u16),
}

/// The network endpoint a server listens on: a host address and a port.
#[derive(Clone, Copy, Debug, PartialEq, Eq, Structural)]
pub struct SocketAddr {
    /// The host address.
    pub ip: IpAddr,
    /// The port.
    pub port: u16,
}

/// The server builder: a mandatory listen address and an optional count
/// of parallel event loops. Both are immutable once a run is finalized.
#[derive(Clone, Debug, PartialEq, Eq)]
pub struct Server {
    /// The address the server listens on.
    pub socket_addr: SocketAddr,
    /// The configured number of parallel event loops; `None` means a
    /// single default loop.
    pub threads: Option<usize>,
}

/// What a finalized serving run did: the observable record that a
/// connection driver reports back.
#[derive(Debug, PartialEq, Eq)]
pub struct ServeReport {
    /// How many parallel event loops the run applied.
    pub threads: usize,
    /// How many connections the run accepted.
    pub accepted: usize,
    /// Per accepted connection, the domain result of each of its requests,
    /// in the order the requests arrived.
    pub outcomes: Vec<Vec<Result<Response, ErrorKind>>>,
}

/// What serving one accepted connection guarantees: some instance the
/// factory declares it may produce handled every request of the
/// connection in order, each through the adapter.
pub open spec fn connection_ens<S>(
    factory: S,
    reqs: Seq<Request>,
    results: Seq<Result<Response, ErrorKind>>,
) -> bool where
    S: NewService<Request = Request, Response = Response>,
    S::Error: IntoErrorKind,
{
    exists|inst: S::Instance|
        {
            &&& #[trigger] factory.new_service_ens(inst)
            &&& results.len() == reqs.len()
            &&& forall|j: int|
                0 <= j < reqs.len() ==> #[trigger] dispatch_ens(inst, reqs[j], results[j])
        }
}

/// What `serve_until` guarantees: the run applies exactly the configured
/// number of event loops (one where none was configured); a signal that
/// has resolved stops the run before any connection is accepted; a
/// pending signal lets every offered connection be accepted and served by
/// its own fresh handler instance.
pub open spec fn serve_until_ens<S>(
    server: Server,
    factory: S,
    shutdown_signal: ShutdownSignal,
    connections: Seq<Vec<Request>>,
    report: ServeReport,
) -> bool where
    S: NewService<Request = Request, Response = Response>,
    S::Error: IntoErrorKind,
{
    &&& report.threads == server.effective_threads()
    &&& shutdown_signal.resolved ==> report.accepted == 0 && report.outcomes@.len() == 0
    &&& !shutdown_signal.resolved ==> {
        &&& report.accepted == connections.len()
        &&& report.outcomes@.len() == connections.len()
        &&& forall|i: int|
            0 <= i < connections.len() ==> #[trigger] connection_ens(
                factory,
                connections[i]@,
                report.outcomes@[i]@,
            )
    }
}

impl Server {
    /// The number of parallel event loops a finalized run applies: the
    /// configured count, or one where none was configured.
    pub open spec fn effective_threads(self) -> usize {
        match self.threads {
            Some(n) => n,
            None => 1usize,
        }
    }

    /// Set the address for the server (mandatory); no event-loop count is
    /// configured yet.
    pub fn new(socket_addr: SocketAddr) -> (s: Self)
        ensures
            s.socket_addr == socket_addr,
            s.threads is None,
    {
        Self { socket_addr, threads: None }
    }

    /// Set the number of parallel event loops (optional). The count must
    /// be positive; the address is kept as it is.
    pub fn threads(self, threads: usize) -> (s: Self)
        requires
            threads >= 1,
        ensures
            s.socket_addr == self.socket_addr,
            s.threads == Some(threads),
    {
        Self { socket_addr: self.socket_addr, threads: Some(threads) }
    }

    /// Finalize the configuration and serve every offered connection: the
    /// run of `serve_until` under a signal that never resolves.
    pub fn serve<S>(self, service: S, connections: Vec<Vec<Request>>) -> (report: ServeReport) where
        S: NewService<Request = Request, Response = Response> + Send + Sync,
        S::Error: IntoErrorKind,
        S::Instance: Send + Sync,

        ensures
            serve_until_ens(
                self,
                service,
                (ShutdownSignal { resolved: false }),
                connections@,
                report,
            ),
    {
        self.serve_until(service, ShutdownSignal::pending(), connections)
    }

    /// Finalize the configuration and run the server: apply the
    /// event-loop count, then accept and serve the offered connections —
    /// one fresh handler instance per connection, every request of a
    /// connection dispatched through the adapter in arrival order — until
    /// the shutdown signal resolves. A signal that has already resolved
    /// stops the run before the first connection is accepted.
    pub fn serve_until<S>(
        self,
        service: S,
        shutdown_signal: ShutdownSignal,
        connections: Vec<Vec<Request>>,
    ) -> (report: ServeReport) where
        S: NewService<Request = Request, Response = Response> + Send + Sync,
        S::Error: IntoErrorKind,
        S::Instance: Send + Sync,

        ensures
            serve_until_ens(self, service, shutdown_signal, connections@, report),
    {
        let threads: usize = match self.threads {
            Some(n) => n,
            None => 1,
        };
        let mut outcomes: Vec<Vec<Result<Response, ErrorKind>>> = Vec::new();
        let mut accepted: usize = 0;
        let mut i: usize = 0;
        while i < connections.len() && !shutdown_signal.poll()
            invariant
                i <= connections@.len(),
                accepted == i,
                outcomes@.len() == i,
                shutdown_signal.resolved ==> i == 0,
                forall|k: int|
                    0 <= k < i ==> #[trigger] connection_ens(
                        service,
                        connections@[k]@,
                        outcomes@[k]@,
                    ),
            decreases connections@.len() - i,
        {
            let conn = &connections[i];
            let inst = service.new_service();
            let mut results: Vec<Result<Response, ErrorKind>> = Vec::new();
            let mut j: usize = 0;
            while j < conn.len()
                invariant
                    j <= conn@.len(),
                    results@.len() == j,
                    service.new_service_ens(inst),
                    forall|jj: int|
                        0 <= jj < j ==> #[trigger] dispatch_ens(inst, conn@[jj], results@[jj]),
                decreases conn@.len() - j,
            {
                let r = dispatch(&inst, conn[j]);
                results.push(r);
                j += 1;
            }
            proof {
                assert(connection_ens(service, conn@, results@));
            }
            outcomes.push(results);
            accepted += 1;
            i += 1;
        }
        ServeReport { threads, accepted, outcomes }
    }
}

/// Finalizing applies exactly the configured event-loop count: a run of a
/// server configured with `n` loops reports `n` of them.
pub proof fn lemma_event_loops_applied<S>(
    server: Server,
    factory: S,
    shutdown_signal: ShutdownSignal,
    connections: Seq<Vec<Request>>,
    report: ServeReport,
    n: usize,
) where
    S: NewService<Request = Request, Response = Response>,
    S::Error: IntoErrorKind,

    requires
        server.threads == Some(n),
        serve_until_ens(server, factory, shutdown_signal, connections, report),
    ensures
        report.threads == n,
{
}

/// Once the shutdown signal has resolved, a run serves nothing: no
/// connection is accepted and no request is handled.
pub proof fn lemma_no_serving_after_shutdown<S>(
    server: Server,
    factory: S,
    shutdown_signal: ShutdownSignal,
    connections: Seq<Vec<Request>>,
    report: ServeReport,
) where
    S: NewService<Request = Request, Response = Response>,
    S::Error: IntoErrorKind,

    requires
        shutdown_signal.resolved,
        serve_until_ens(server, factory, shutdown_signal, connections, report),
    ensures
        report.accepted == 0,
        report.outcomes@.len() == 0,
{
}

} // verus!
