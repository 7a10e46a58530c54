//! The connection supervisor, a mitigation of slowloris-style denial of
//! service: per-connection accounting and the policy that closes connections
//! which, under load, move too little data.
//!
//! Time is counted in whole microseconds since the endpoint's clock started.
//! The supervisor knows nothing of what the bytes mean; it is told of
//! progress and of elapsed intervals, and answers with an outcome.

use vstd::prelude::*;

verus! {

/// The number of concurrently open connections above which throughput is
/// policed.
pub const CONNECTION_COUNT_THRESHOLD: usize = 1000;

/// The throughput that a connection must sustain under load, in bytes per
/// second.
pub const MIN_THROUGHPUT: usize = 500;

/// The time between two evaluations of a connection, in microseconds.
pub const SUPERVISION_INTERVAL_MICROS: u64 = 1_000_000;

/// The longest that a handshake may take, in seconds. The endpoint is
/// built with this limit.
pub const HANDSHAKE_TIMEOUT_SECS: u64 = 5;

/// The number of handshakes that may be in flight at once. The endpoint is
/// built with this limit.
pub const MAX_INFLIGHT_HANDSHAKES: usize = 100;

/// The number of microseconds in a second.
pub const MICROS_PER_SECOND: u64 = 1_000_000;

/// What the supervisor keeps for one connection: the bytes moved since the
/// last evaluation, and when that evaluation was.
#[derive(Clone, Copy, Debug, PartialEq, Eq, Structural)]
pub struct MyConnectionContext {
    transferred_bytes: usize,
    last_update: u64,
}

/// The supervisor itself. It keeps nothing across connections.
#[derive(Default)]
pub struct MyConnectionSupervisor;

/// What is to happen to a connection after an evaluation.
#[derive(Clone, Copy, Debug, PartialEq, Eq, Structural)]
pub enum Outcome {
    /// The connection stays open.
    Continue,
    /// The connection is closed at once, and the peer is not told.
    ImmediateClose,
}

impl Outcome {
    /// Why the connection is closed, in words for the transport's log;
    /// nothing where it continues.
    pub fn reason(&self) -> (reason: Option<&'static str>)
        ensures
            *self == Outcome::Continue ==> reason is None,
            *self == Outcome::ImmediateClose ==> reason is Some && reason->Some_0@
                == "Connection throughput was below MIN_THROUGHPUT"@,
    {
        match self {
            Outcome::Continue => None,
            Outcome::ImmediateClose => Some("Connection throughput was below MIN_THROUGHPUT"),
        }
    }
}

/// Whether a connection is policed at all: handshaking connections are
/// exempt, and so is every connection while the endpoint is not under load.
pub open spec fn policing_active(is_handshaking: bool, connection_count: int) -> bool {
    !is_handshaking && connection_count > CONNECTION_COUNT_THRESHOLD
}

/// Whether `bytes` moved in `elapsed_micros` is less than the minimum
/// throughput: `bytes / seconds < MIN_THROUGHPUT`, cleared of the division.
/// Where no time has passed, a connection that moved nothing counts as too
/// slow and one that moved anything as fast enough.
pub open spec fn below_min_throughput(bytes: int, elapsed_micros: int) -> bool {
    if elapsed_micros == 0 {
        bytes == 0
    } else {
        bytes * MICROS_PER_SECOND < MIN_THROUGHPUT * elapsed_micros
    }
}

/// Whether an evaluation at `now` closes the connection.
pub open spec fn must_close(
    context: MyConnectionContext,
    now: u64,
    is_handshaking: bool,
    connection_count: usize,
) -> bool {
    &&& policing_active(is_handshaking, connection_count as int)
    &&& below_min_throughput(context.bytes() as int, now - context.updated())
}

impl MyConnectionContext {
    /// The bytes moved since the last evaluation.
    pub closed spec fn bytes(self) -> usize {
        self.transferred_bytes
    }

    /// The time of the last evaluation.
    pub closed spec fn updated(self) -> u64 {
        self.last_update
    }

    /// The bytes moved since the last evaluation.
    pub fn transferred_bytes(&self) -> (r: usize)
        ensures
            r == self.bytes(),
    {
        self.transferred_bytes
    }

    /// The time of the last evaluation.
    pub fn last_update(&self) -> (r: u64)
        ensures
            r == self.updated(),
    {
        self.last_update
    }
}

/// Tells whether `bytes` moved in `elapsed_micros` is below the minimum
/// throughput.
pub fn is_below_min_throughput(bytes: usize, elapsed_micros: u64) -> (r: bool)
    ensures
        r == below_min_throughput(bytes as int, elapsed_micros as int),
{
    if elapsed_micros == 0 {
        bytes == 0
    } else {
        assert((bytes as u128) * (MICROS_PER_SECOND as u128) <= u128::MAX
            && (MIN_THROUGHPUT as u128) * (elapsed_micros as u128) <= u128::MAX)
            by (nonlinear_arith)
            requires
                bytes <= u64::MAX,
                elapsed_micros <= u64::MAX,
                MICROS_PER_SECOND == 1_000_000,
                MIN_THROUGHPUT == 500,
        ;
        let moved: u128 = (bytes as u128) * (MICROS_PER_SECOND as u128);
        let owed: u128 = (MIN_THROUGHPUT as u128) * (elapsed_micros as u128);
        moved < owed
    }
}

impl MyConnectionSupervisor {
    /// The context of a connection that opens at `now`: nothing moved yet.
    pub fn create_connection_context(&mut self, now: u64) -> (context: MyConnectionContext)
        ensures
            context.bytes() == 0,
            context.updated() == now,
    {
        MyConnectionContext { transferred_bytes: 0, last_update: now }
    }

    /// The time until the next evaluation of the connection: always one
    /// supervision interval. The context is left as it is.
    pub fn supervisor_timeout(&mut self, context: &mut MyConnectionContext) -> (interval: Option<
        u64,
    >)
        ensures
            interval == Some(SUPERVISION_INTERVAL_MICROS),
            *final(context) == *old(context),
    {
        Some(SUPERVISION_INTERVAL_MICROS)
    }

    /// Evaluates a connection at `now`.
    ///
    /// A policed connection whose throughput since the last evaluation is
    /// below the minimum is closed, and its context is left as it is. Every
    /// other connection continues, with its counter back at zero and `now`
    /// as the time of its last evaluation.
    ///
    /// A policed connection must not be evaluated at a time before its last
    /// evaluation.
    pub fn on_supervisor_timeout(
        &mut self,
        context: &mut MyConnectionContext,
        now: u64,
        is_handshaking: bool,
        connection_count: usize,
    ) -> (outcome: Outcome)
        requires
            policing_active(is_handshaking, connection_count as int) ==> now >= old(
                context,
            ).updated(),
        ensures
            must_close(*old(context), now, is_handshaking, connection_count) ==> outcome
                == Outcome::ImmediateClose && *final(context) == *old(context),
            !must_close(*old(context), now, is_handshaking, connection_count) ==> outcome
                == Outcome::Continue && final(context).bytes() == 0 && final(context).updated()
                == now,
    {
        if !is_handshaking && connection_count > CONNECTION_COUNT_THRESHOLD {
            let elapsed: u64 = now - context.last_update;
            if is_below_min_throughput(context.transferred_bytes, elapsed) {
                return Outcome::ImmediateClose;
            }
        }
        context.last_update = now;
        context.transferred_bytes = 0;
        Outcome::Continue
    }

    /// Counts `bytes` sent on a stream of the connection.
    pub fn on_tx_stream_progress(&mut self, context: &mut MyConnectionContext, bytes: usize)
        requires
            old(context).bytes() + bytes <= usize::MAX,
        ensures
            final(context).bytes() == old(context).bytes() + bytes,
            final(context).updated() == old(context).updated(),
    {
        context.transferred_bytes += bytes;
    }

    /// Counts `bytes` received on a stream of the connection.
    pub fn on_rx_stream_progress(&mut self, context: &mut MyConnectionContext, bytes: usize)
        requires
            old(context).bytes() + bytes <= usize::MAX,
        ensures
            final(context).bytes() == old(context).bytes() + bytes,
            final(context).updated() == old(context).updated(),
    {
        context.transferred_bytes += bytes;
    }
}

/// Under load, a connection that is past its handshake and moved nothing
/// since its last evaluation is closed at the next one, however long the
/// interval was.
pub proof fn lemma_idle_connection_is_closed(
    context: MyConnectionContext,
    now: u64,
    connection_count: usize,
)
    requires
        context.bytes() == 0,
        now >= context.updated(),
        connection_count > CONNECTION_COUNT_THRESHOLD,
    ensures
        must_close(context, now, false, connection_count),
{
}

/// A connection that moved at least `MIN_THROUGHPUT` bytes for every second
/// of a non-empty interval is not closed, whatever the load.
pub proof fn lemma_fast_connection_continues(
    context: MyConnectionContext,
    now: u64,
    is_handshaking: bool,
    connection_count: usize,
)
    requires
        now > context.updated(),
        context.bytes() * MICROS_PER_SECOND >= MIN_THROUGHPUT * (now - context.updated()),
    ensures
        !must_close(context, now, is_handshaking, connection_count),
{
}

/// A handshaking connection is never closed, nor is any connection while no
/// more than `CONNECTION_COUNT_THRESHOLD` connections are open.
pub proof fn lemma_exempt_connection_continues(
    context: MyConnectionContext,
    now: u64,
    is_handshaking: bool,
    connection_count: usize,
)
    requires
        is_handshaking || connection_count <= CONNECTION_COUNT_THRESHOLD,
    ensures
        !must_close(context, now, is_handshaking, connection_count),
{
}

} // verus!
