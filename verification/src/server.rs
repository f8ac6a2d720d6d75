//! The server core: configuration, the three handler registries (hooks,
//! task-panic handlers, read-error handlers), and the accept loop's
//! decisions, including graceful shutdown.
//!
//! Handlers themselves are asynchronous callables owned by the transport
//! layer; the core registers them by identifier, in order, and the pipeline
//! schedules them by registration index.

use crate::config::ServerConfig;
use crate::pipeline::HandlerPipeline;
use crate::pipeline::PipelinePhase;
use vstd::prelude::*;

verus! {

/// The server: configuration and the ordered handler registries.  Populated
/// during setup, before the accept loop starts; read-shared afterwards.
pub struct Server {
    /// The configuration the accept loop and framer read.
    config: ServerConfig,
    /// Identifiers of the registered hooks, in registration order.
    hooks: Vec<u64>,
    /// Identifiers of the registered task-panic handlers, in order.
    task_panics: Vec<u64>,
    /// Identifiers of the registered read-error handlers, in order.
    read_errors: Vec<u64>,
}

impl Server {
    /// The configuration.
    pub closed spec fn config_spec(self) -> ServerConfig {
        self.config
    }

    /// The registered hook identifiers, in order.
    pub closed spec fn hooks_spec(self) -> Seq<u64> {
        self.hooks@
    }

    /// The registered task-panic handler identifiers, in order.
    pub closed spec fn task_panics_spec(self) -> Seq<u64> {
        self.task_panics@
    }

    /// The registered read-error handler identifiers, in order.
    pub closed spec fn read_errors_spec(self) -> Seq<u64> {
        self.read_errors@
    }

    /// A server with the default configuration and empty registries.
    pub fn new() -> (r: Self)
        ensures
            r.config_spec().spec_host() == crate::config::DEFAULT_HOST@,
            r.config_spec().spec_port() == crate::config::DEFAULT_LISTEN_PORT,
            r.config_spec().spec_buffer_size() == crate::config::DEFAULT_BUFFER_SIZE,
            r.hooks_spec() == Seq::<u64>::empty(),
            r.task_panics_spec() == Seq::<u64>::empty(),
            r.read_errors_spec() == Seq::<u64>::empty(),
    {
        Server {
            config: ServerConfig::new(),
            hooks: Vec::new(),
            task_panics: Vec::new(),
            read_errors: Vec::new(),
        }
    }

    /// Sets the host address.
    pub fn host(&mut self, host: String)
        ensures
            final(self).config_spec().spec_host() == host@,
            final(self).config_spec().spec_port() == old(self).config_spec().spec_port(),
            final(self).config_spec().spec_buffer_size() == old(
                self,
            ).config_spec().spec_buffer_size(),
            final(self).hooks_spec() == old(self).hooks_spec(),
            final(self).task_panics_spec() == old(self).task_panics_spec(),
            final(self).read_errors_spec() == old(self).read_errors_spec(),
    {
        self.config.host(host);
    }

    /// Sets the listening port.
    pub fn port(&mut self, port: usize)
        ensures
            final(self).config_spec().spec_port() == port,
            final(self).config_spec().spec_host() == old(self).config_spec().spec_host(),
            final(self).config_spec().spec_buffer_size() == old(
                self,
            ).config_spec().spec_buffer_size(),
            final(self).hooks_spec() == old(self).hooks_spec(),
            final(self).task_panics_spec() == old(self).task_panics_spec(),
            final(self).read_errors_spec() == old(self).read_errors_spec(),
    {
        self.config.port(port);
    }

    /// Sets the network buffer size.
    pub fn buffer(&mut self, buffer_size: usize)
        ensures
            final(self).config_spec().spec_buffer_size() == buffer_size,
            final(self).config_spec().spec_host() == old(self).config_spec().spec_host(),
            final(self).config_spec().spec_port() == old(self).config_spec().spec_port(),
            final(self).hooks_spec() == old(self).hooks_spec(),
            final(self).task_panics_spec() == old(self).task_panics_spec(),
            final(self).read_errors_spec() == old(self).read_errors_spec(),
    {
        self.config.buffer(buffer_size);
    }

    /// The configuration, for the accept loop and the framer.
    pub fn get_config(&self) -> (r: &ServerConfig)
        ensures
            r == self.config_spec(),
    {
        &self.config
    }

    /// Registers a hook, after all previously registered hooks.
    pub fn hook(&mut self, id: u64)
        ensures
            final(self).hooks_spec() == old(self).hooks_spec().push(id),
            final(self).config_spec() == old(self).config_spec(),
            final(self).task_panics_spec() == old(self).task_panics_spec(),
            final(self).read_errors_spec() == old(self).read_errors_spec(),
    {
        self.hooks.push(id);
    }

    /// Registers a task-panic handler, after all previously registered ones.
    pub fn task_panic(&mut self, id: u64)
        ensures
            final(self).task_panics_spec() == old(self).task_panics_spec().push(id),
            final(self).config_spec() == old(self).config_spec(),
            final(self).hooks_spec() == old(self).hooks_spec(),
            final(self).read_errors_spec() == old(self).read_errors_spec(),
    {
        self.task_panics.push(id);
    }

    /// Registers a read-error handler, after all previously registered ones.
    pub fn read_error(&mut self, id: u64)
        ensures
            final(self).read_errors_spec() == old(self).read_errors_spec().push(id),
            final(self).config_spec() == old(self).config_spec(),
            final(self).hooks_spec() == old(self).hooks_spec(),
            final(self).task_panics_spec() == old(self).task_panics_spec(),
    {
        self.read_errors.push(id);
    }

    /// The registered hook identifiers, in registration order.
    pub fn get_hook(&self) -> (r: &Vec<u64>)
        ensures
            r@ == self.hooks_spec(),
    {
        &self.hooks
    }

    /// The registered task-panic handler identifiers, in registration order.
    pub fn get_task_panic(&self) -> (r: &Vec<u64>)
        ensures
            r@ == self.task_panics_spec(),
    {
        &self.task_panics
    }

    /// The registered read-error handler identifiers, in registration order.
    pub fn get_read_error(&self) -> (r: &Vec<u64>)
        ensures
            r@ == self.read_errors_spec(),
    {
        &self.read_errors
    }

    /// A fresh pipeline for one accepted connection, scheduling this
    /// server's hooks and task-panic handlers.
    pub fn pipeline_for_connection(&self) -> (r: HandlerPipeline)
        ensures
            r == (HandlerPipeline {
                hook_count: self.hooks_spec().len() as usize,
                panic_count: self.task_panics_spec().len() as usize,
                phase: PipelinePhase::Dispatching(0),
            }),
    {
        HandlerPipeline::new(self.hooks.len(), self.task_panics.len())
    }
}

impl Default for Server {
    /// A server with the default configuration and empty registries.
    fn default() -> (r: Self)
        ensures
            r.config_spec().spec_host() == crate::config::DEFAULT_HOST@,
            r.config_spec().spec_port() == crate::config::DEFAULT_LISTEN_PORT,
            r.config_spec().spec_buffer_size() == crate::config::DEFAULT_BUFFER_SIZE,
            r.hooks_spec() == Seq::<u64>::empty(),
            r.task_panics_spec() == Seq::<u64>::empty(),
            r.read_errors_spec() == Seq::<u64>::empty(),
    {
        Self::new()
    }
}

/// What reached the accept loop.
#[derive(Clone, Copy, Debug, PartialEq, Eq, Structural)]
pub enum AcceptEvent {
    /// The listener accepted a connection.
    Incoming,
    /// A graceful shutdown was requested.
    ShutdownSignal,
    /// The listener failed unrecoverably.
    ListenerClosed,
}

/// What the transport layer must do for an accept-loop event.
#[derive(Clone, Copy, Debug, PartialEq, Eq, Structural)]
pub enum AcceptAction {
    /// Spawn an independent connection-handling task for the accepted
    /// socket.
    SpawnConnection,
    /// The loop has stopped: announce completion so that every waiter
    /// returns.
    AnnounceCompletion,
}

/// The accept loop's state: whether it still accepts connections, and how
/// many connection tasks it has spawned.
#[derive(Clone, Copy, Debug, PartialEq, Eq, Structural)]
pub struct AcceptLoop {
    /// Whether the loop still accepts connections.
    pub running: bool,
    /// How many connection tasks were spawned in this run.
    pub connections_spawned: u64,
}

/// The state after an event: an accepted connection bumps the spawn count; a
/// shutdown signal or listener failure stops the loop, leaving every spawned
/// connection untouched; a stopped loop never changes again.
pub open spec fn spec_accept_step(l: AcceptLoop, event: AcceptEvent) -> AcceptLoop {
    if !l.running {
        l
    } else {
        match event {
            AcceptEvent::Incoming => AcceptLoop {
                running: true,
                connections_spawned: (l.connections_spawned + 1) as u64,
            },
            AcceptEvent::ShutdownSignal => AcceptLoop { running: false, ..l },
            AcceptEvent::ListenerClosed => AcceptLoop { running: false, ..l },
        }
    }
}

/// The action an event calls for: spawn a task for an accepted connection;
/// announce completion when stopping; nothing once stopped.
pub open spec fn spec_accept_action(l: AcceptLoop, event: AcceptEvent) -> Option<AcceptAction> {
    if !l.running {
        None
    } else {
        match event {
            AcceptEvent::Incoming => Some(AcceptAction::SpawnConnection),
            AcceptEvent::ShutdownSignal => Some(AcceptAction::AnnounceCompletion),
            AcceptEvent::ListenerClosed => Some(AcceptAction::AnnounceCompletion),
        }
    }
}

/// The state after a whole sequence of events.
pub open spec fn spec_accept_run(l: AcceptLoop, events: Seq<AcceptEvent>) -> AcceptLoop
    decreases events.len(),
{
    if events.len() == 0 {
        l
    } else {
        spec_accept_run(spec_accept_step(l, events[0]), events.skip(1))
    }
}

impl AcceptLoop {
    /// A running accept loop that has spawned nothing yet.
    pub fn new() -> (r: Self)
        ensures
            r == (AcceptLoop { running: true, connections_spawned: 0 }),
    {
        AcceptLoop { running: true, connections_spawned: 0 }
    }

    /// Reacts to one event.  A shutdown signal stops the loop and announces
    /// completion, so that `wait` returns; it neither touches the spawned
    /// connections nor produces any action against them — they run to
    /// completion on their own.
    pub fn on_event(&mut self, event: AcceptEvent) -> (a: Option<AcceptAction>)
        requires
            old(self).connections_spawned < u64::MAX,
        ensures
            *final(self) == spec_accept_step(*old(self), event),
            a == spec_accept_action(*old(self), event),
    {
        if !self.running {
            return None;
        }
        match event {
            AcceptEvent::Incoming => {
                self.connections_spawned = self.connections_spawned + 1;
                Some(AcceptAction::SpawnConnection)
            },
            AcceptEvent::ShutdownSignal => {
                self.running = false;
                Some(AcceptAction::AnnounceCompletion)
            },
            AcceptEvent::ListenerClosed => {
                self.running = false;
                Some(AcceptAction::AnnounceCompletion)
            },
        }
    }
}

/// A stopped accept loop is inert: no sequence of further events changes its
/// state, spawns a connection, or touches the connections already spawned.
pub proof fn lemma_stopped_loop_is_inert(l: AcceptLoop, events: Seq<AcceptEvent>)
    requires
        !l.running,
    ensures
        spec_accept_run(l, events) == l,
        forall|k: int|
            0 <= k < events.len() ==> spec_accept_action(l, #[trigger] events[k]) is None,
    decreases events.len(),
{
    if events.len() > 0 {
        assert(spec_accept_step(l, events[0]) == l);
        lemma_stopped_loop_is_inert(l, events.skip(1));
    }
}

} // verus!
