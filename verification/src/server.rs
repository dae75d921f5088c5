//! The server: its configuration, the check on request paths, and the
//! decisions of the loop that accepts connections.
use vstd::prelude::*;
use vstd::string::StringSliceAdditionalSpecFns;
use crate::error::{Error, ErrorSource, deny};
use crate::status::URI_TOO_LONG;

verus! {

/// The duration of `secs` whole seconds (`Duration::from_secs`).
pub uninterp spec fn duration_of_secs(secs: u64) -> core::time::Duration;

/// Calls `Duration::from_secs`, which depends on its argument alone. The
/// duration is carried, never inspected.
#[verifier::external_body]
fn duration_from_secs(secs: u64) -> (r: core::time::Duration)
    ensures
        r == duration_of_secs(secs),
{
    core::time::Duration::from_secs(secs)
}

/// The default size of the connection read buffer: 16 KB.
pub const DEFAULT_MAX_BUF_SIZE: usize = 16384;

/// The default number of concurrent connections.
pub const DEFAULT_MAX_CONNECTIONS: usize = 1000;

/// The default limit on a request body: 100 MB.
pub const DEFAULT_MAX_REQUEST_SIZE: usize = 104_857_600;

/// The default time to wait for inflight connections at shutdown, in
/// seconds.
pub const DEFAULT_SHUTDOWN_TIMEOUT_SECS: u64 = 10;

/// How a server is configured.
pub struct ServerConfig {
    pub keep_alive: bool,
    pub max_buf_size: usize,
    pub max_connections: usize,
    pub max_request_size: usize,
    pub shutdown_timeout: core::time::Duration,
}

impl ServerConfig {
    pub open spec fn spec_keep_alive(self) -> bool {
        self.keep_alive
    }

    pub open spec fn spec_max_buf_size(self) -> usize {
        self.max_buf_size
    }

    pub open spec fn spec_max_connections(self) -> usize {
        self.max_connections
    }

    pub open spec fn spec_max_request_size(self) -> usize {
        self.max_request_size
    }

    pub open spec fn spec_shutdown_timeout(self) -> core::time::Duration {
        self.shutdown_timeout
    }

    /// Whether HTTP/1.1 persistent connections are enabled.
    pub fn keep_alive(&self) -> (r: bool)
        ensures
            r == self.spec_keep_alive(),
    {
        self.keep_alive
    }

    /// The maximum size of the connection read buffer.
    pub fn max_buf_size(&self) -> (r: usize)
        ensures
            r == self.spec_max_buf_size(),
    {
        self.max_buf_size
    }

    /// The maximum number of concurrent connections.
    pub fn max_connections(&self) -> (r: usize)
        ensures
            r == self.spec_max_connections(),
    {
        self.max_connections
    }

    /// The maximum request body size in bytes.
    pub fn max_request_size(&self) -> (r: usize)
        ensures
            r == self.spec_max_request_size(),
    {
        self.max_request_size
    }

    /// How long the server waits for inflight connections at shutdown.
    pub fn shutdown_timeout(&self) -> (r: core::time::Duration)
        ensures
            r == self.spec_shutdown_timeout(),
    {
        self.shutdown_timeout
    }
}

impl Default for ServerConfig {
    /// Keep-alive on, a 16 KB read buffer, 1000 connections, 100 MB bodies
    /// and a 10 second shutdown timeout.
    fn default() -> (r: Self)
        ensures
            r.spec_keep_alive(),
            r.spec_max_buf_size() == DEFAULT_MAX_BUF_SIZE,
            r.spec_max_connections() == DEFAULT_MAX_CONNECTIONS,
            r.spec_max_request_size() == DEFAULT_MAX_REQUEST_SIZE,
            r.spec_shutdown_timeout() == duration_of_secs(DEFAULT_SHUTDOWN_TIMEOUT_SECS),
    {
        ServerConfig {
            keep_alive: true,
            max_buf_size: DEFAULT_MAX_BUF_SIZE,
            max_connections: DEFAULT_MAX_CONNECTIONS,
            max_request_size: DEFAULT_MAX_REQUEST_SIZE,
            shutdown_timeout: duration_from_secs(DEFAULT_SHUTDOWN_TIMEOUT_SECS),
        }
    }
}

/// Serves an app over HTTP.
pub struct Server<App> {
    app: App,
    config: ServerConfig,
}

impl<App> Server<App> {
    pub closed spec fn spec_app(self) -> App {
        self.app
    }

    pub closed spec fn spec_config(self) -> ServerConfig {
        self.config
    }

    /// A server for `app` with the default configuration.
    pub fn new(app: App) -> (r: Self)
        ensures
            r.spec_app() == app,
            r.spec_config().spec_keep_alive(),
            r.spec_config().spec_max_buf_size() == DEFAULT_MAX_BUF_SIZE,
            r.spec_config().spec_max_connections() == DEFAULT_MAX_CONNECTIONS,
            r.spec_config().spec_max_request_size() == DEFAULT_MAX_REQUEST_SIZE,
            r.spec_config().spec_shutdown_timeout() == duration_of_secs(DEFAULT_SHUTDOWN_TIMEOUT_SECS),
    {
        Server { app, config: ServerConfig::default() }
    }

    /// Enables or disables HTTP/1.1 persistent connections.
    pub fn keep_alive(self, keep_alive: bool) -> (r: Self)
        ensures
            r.spec_app() == self.spec_app(),
            r.spec_config() == (ServerConfig { keep_alive, ..self.spec_config() }),
    {
        let Server { app, config } = self;
        Server { app, config: ServerConfig { keep_alive, ..config } }
    }

    /// Sets the maximum size of the HTTP/1.1 connection read buffer.
    pub fn max_buf_size(self, max_buf_size: usize) -> (r: Self)
        ensures
            r.spec_app() == self.spec_app(),
            r.spec_config() == (ServerConfig { max_buf_size, ..self.spec_config() }),
    {
        let Server { app, config } = self;
        Server { app, config: ServerConfig { max_buf_size, ..config } }
    }

    /// Sets the maximum number of concurrent connections.
    pub fn max_connections(self, max_connections: usize) -> (r: Self)
        ensures
            r.spec_app() == self.spec_app(),
            r.spec_config() == (ServerConfig { max_connections, ..self.spec_config() }),
    {
        let Server { app, config } = self;
        Server { app, config: ServerConfig { max_connections, ..config } }
    }

    /// Sets the maximum request body size in bytes.
    pub fn max_request_size(self, max_request_size: usize) -> (r: Self)
        ensures
            r.spec_app() == self.spec_app(),
            r.spec_config() == (ServerConfig { max_request_size, ..self.spec_config() }),
    {
        let Server { app, config } = self;
        Server { app, config: ServerConfig { max_request_size, ..config } }
    }

    /// Sets how long the server waits for inflight connections at shutdown.
    pub fn shutdown_timeout(self, shutdown_timeout: core::time::Duration) -> (r: Self)
        ensures
            r.spec_app() == self.spec_app(),
            r.spec_config() == (ServerConfig { shutdown_timeout, ..self.spec_config() }),
    {
        let Server { app, config } = self;
        Server { app, config: ServerConfig { shutdown_timeout, ..config } }
    }

    /// The app and the configuration, for serving.
    pub fn into_parts(self) -> (r: (App, ServerConfig))
        ensures
            r.0 == self.spec_app(),
            r.1 == self.spec_config(),
    {
        (self.app, self.config)
    }
}

// ---------------------------------------------------------------------------
// Requests

/// The longest request path that the server routes.
pub const MAX_URI_PATH_LEN: usize = 8192;

/// Refuses a request whose path is longer than `MAX_URI_PATH_LEN` bytes with
/// `414`.
pub fn check_path(path: &str) -> (r: Result<(), Error>)
    ensures
        r is Ok <==> path.spec_bytes().len() <= MAX_URI_PATH_LEN,
        r matches Err(e) ==> e.spec_status() == URI_TOO_LONG && (e.spec_source() matches ErrorSource::Message(m)
            && m@ == "path exceeds the maximum allowed length of 8 KB"@),
{
    if path.as_bytes().len() > MAX_URI_PATH_LEN {
        Err(deny(URI_TOO_LONG, "path exceeds the maximum allowed length of 8 KB"))
    } else {
        Ok(())
    }
}

// ---------------------------------------------------------------------------
// The accept loop

/// How the server ends.
pub enum Exit {
    Success,
    Failure,
}

/// The number of spawned connections that the accept loop hands to a
/// background task to be joined.
pub const CONNECTION_BATCH: usize = 1024;

/// What the accept loop hears.
pub enum AcceptEvent {
    /// A connection was accepted; `permit` tells whether a connection slot
    /// was free.
    Accepted { permit: bool },
    /// Accepting failed, with the operating system's error code if any.
    Failed(Option<i32>),
    /// Shutdown was requested.
    Shutdown,
}

/// What the accept loop does next.
pub enum AcceptAction {
    /// Wait for the next connection.
    Accept,
    /// Drop the connection: no slot is free.
    Reject,
    /// Serve the connection; when `drain` holds, hand the connections
    /// spawned so far to a background task to be joined.
    Serve { drain: bool },
    /// Stop accepting, wait for the inflight connections, and exit.
    Stop(Exit),
}

/// An error of the accept call that the loop cannot recover from: out of
/// memory (`ENOMEM`) or out of file descriptors (`ENFILE`, `EMFILE`).
pub open spec fn is_fatal_accept_error(code: Option<i32>) -> bool {
    code == Some(12i32) || code == Some(23i32) || code == Some(24i32)
}

/// The state of the accept loop: the number of connections spawned since
/// the last batch was handed off.
pub struct AcceptLoop {
    spawned: usize,
}

/// The decision of the accept loop, from the number of connections spawned
/// since the last hand-off and what it heard: the next count and action.
pub open spec fn accept_step(spawned: usize, event: AcceptEvent) -> (usize, AcceptAction) {
    match event {
        AcceptEvent::Shutdown => (spawned, AcceptAction::Stop(Exit::Success)),
        AcceptEvent::Failed(code) => if is_fatal_accept_error(code) {
            (spawned, AcceptAction::Stop(Exit::Failure))
        } else {
            (spawned, AcceptAction::Accept)
        },
        AcceptEvent::Accepted { permit } => if !permit {
            (spawned, AcceptAction::Reject)
        } else if spawned + 1 >= CONNECTION_BATCH {
            (0, AcceptAction::Serve { drain: true })
        } else {
            ((spawned + 1) as usize, AcceptAction::Serve { drain: false })
        },
    }
}

impl AcceptLoop {
    #[verifier::type_invariant]
    spec fn inv(self) -> bool {
        self.spawned < CONNECTION_BATCH
    }

    pub closed spec fn spec_spawned(self) -> usize {
        self.spawned
    }

    /// A loop that has spawned no connection.
    pub fn new() -> (r: Self)
        ensures
            r.spec_spawned() == 0,
    {
        AcceptLoop { spawned: 0 }
    }

    /// Decides what to do with an event.
    pub fn step(&mut self, event: AcceptEvent) -> (r: AcceptAction)
        ensures
            (final(self).spec_spawned(), r) == accept_step(old(self).spec_spawned(), event),
            final(self).spec_spawned() < CONNECTION_BATCH,
    {
        proof {
            use_type_invariant(&*self);
        }
        match event {
            AcceptEvent::Shutdown => AcceptAction::Stop(Exit::Success),
            AcceptEvent::Failed(code) => {
                let fatal = match code {
                    Some(c) => c == 12 || c == 23 || c == 24,
                    None => false,
                };
                if fatal {
                    AcceptAction::Stop(Exit::Failure)
                } else {
                    AcceptAction::Accept
                }
            },
            AcceptEvent::Accepted { permit } => if !permit {
                AcceptAction::Reject
            } else if self.spawned + 1 >= CONNECTION_BATCH {
                self.spawned = 0;
                AcceptAction::Serve { drain: true }
            } else {
                self.spawned = self.spawned + 1;
                AcceptAction::Serve { drain: false }
            },
        }
    }
}

/// The exit of the server: the loop's exit when the inflight connections
/// finished within the shutdown timeout, otherwise failure.
pub fn exit_code(stopped: Exit, drained_in_time: bool) -> (r: Exit)
    ensures
        r == (if drained_in_time {
            stopped
        } else {
            Exit::Failure
        }),
{
    if drained_in_time {
        stopped
    } else {
        Exit::Failure
    }
}

/// The accept loop never holds a full batch: after any event the number of
/// connections awaiting hand-off stays below the batch size, and a hand-off
/// happens exactly when the batch fills.
pub proof fn lemma_batches_bounded(spawned: usize, event: AcceptEvent)
    requires
        spawned < CONNECTION_BATCH,
    ensures
        accept_step(spawned, event).0 < CONNECTION_BATCH,
        accept_step(spawned, event).1 == (AcceptAction::Serve { drain: true }) <==> (
        event == (AcceptEvent::Accepted { permit: true }) && spawned + 1 == CONNECTION_BATCH),
{
}

/// The loop stops only on a shutdown request, which exits successfully, or
/// on an accept error it cannot recover from, which fails.
pub proof fn lemma_stops(spawned: usize, event: AcceptEvent)
    ensures
        accept_step(spawned, event).1 == AcceptAction::Stop(Exit::Success) <==> event is Shutdown,
        accept_step(spawned, event).1 == AcceptAction::Stop(Exit::Failure) <==> (
        event matches AcceptEvent::Failed(code) && is_fatal_accept_error(code)),
{
}

/// A server exits successfully exactly when shutdown was requested and
/// every inflight connection finished within the shutdown timeout.
pub proof fn lemma_exit_success(spawned: usize, event: AcceptEvent, drained_in_time: bool)
    ensures
        accept_step(spawned, event).1 matches AcceptAction::Stop(stopped) ==> ((if drained_in_time {
            stopped
        } else {
            Exit::Failure
        }) == Exit::Success <==> (event is Shutdown && drained_in_time)),
{
}

/// The number of connections served at once after a run of events, from
/// `active`: `true` is a connection that arrives and gets a slot only while
/// fewer than `max` are served (as a semaphore of `max` permits gives
/// them), `false` is a served connection that finishes.
pub open spec fn served_after(spawned: usize, active: nat, max: nat, events: Seq<bool>) -> nat
    decreases events.len(),
{
    if events.len() == 0 {
        active
    } else if events[0] {
        let (next, action) = accept_step(spawned, AcceptEvent::Accepted { permit: active < max });
        served_after(
            next,
            if action is Serve {
                active + 1
            } else {
                active
            },
            max,
            events.drop_first(),
        )
    } else {
        served_after(
            spawned,
            if active > 0 {
                (active - 1) as nat
            } else {
                0
            },
            max,
            events.drop_first(),
        )
    }
}

/// The server serves at most `max_connections` connections at once: a
/// connection is served only when it got a slot, so from at most `max`
/// served connections no run of arrivals and departures leads to more.
pub proof fn lemma_at_most_max_connections(spawned: usize, active: nat, max: nat, events: Seq<bool>)
    requires
        active <= max,
    ensures
        served_after(spawned, active, max, events) <= max,
    decreases events.len(),
{
    if events.len() > 0 {
        if events[0] {
            let (next, action) = accept_step(spawned, AcceptEvent::Accepted { permit: active < max });
            lemma_at_most_max_connections(
                next,
                if action is Serve {
                    active + 1
                } else {
                    active
                },
                max,
                events.drop_first(),
            );
        } else {
            lemma_at_most_max_connections(
                spawned,
                if active > 0 {
                    (active - 1) as nat
                } else {
                    0
                },
                max,
                events.drop_first(),
            );
        }
    }
}

} // verus!
