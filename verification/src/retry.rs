//! When to try a remote call again, and when to give up.
use vstd::prelude::*;

verus! {

/// How many times a request to another service is tried.
pub const GRPC_MAX_ATTEMPTS: u32 = 3;

/// The pause before the second try, in milliseconds; each later pause is twice the one before.
pub const GRPC_FIRST_BACKOFF_MS: u64 = 500;

/// The pause before try `attempt + 1` after `attempt` failed tries.
pub open spec fn backoff_after(failed: nat) -> nat
    decreases failed,
{
    if failed <= 1 {
        GRPC_FIRST_BACKOFF_MS as nat
    } else {
        2 * backoff_after((failed - 1) as nat)
    }
}

/// The retry state of a request to another service: tries that failed so far,
/// and the pause to take after the next failure.
#[derive(Debug)]
pub struct GrpcRetry {
    failed: u32,
    backoff_ms: u64,
}

impl GrpcRetry {
    #[verifier::type_invariant]
    spec fn inv(self) -> bool {
        &&& self.failed <= GRPC_MAX_ATTEMPTS
        &&& self.backoff_ms == backoff_after((self.failed + 1) as nat)
    }

    /// Tries that failed so far.
    pub closed spec fn failures(self) -> nat {
        self.failed as nat
    }

    /// Whether the request was given up.
    pub open spec fn given_up(self) -> bool {
        self.failures() >= GRPC_MAX_ATTEMPTS
    }

    /// Whether the request was given up.
    pub fn is_given_up(&self) -> (b: bool)
        ensures
            b == self.given_up(),
    {
        self.failed >= GRPC_MAX_ATTEMPTS
    }

    /// A request not tried yet.
    pub fn new() -> (r: Self)
        ensures
            r.failures() == 0,
    {
        GrpcRetry { failed: 0, backoff_ms: GRPC_FIRST_BACKOFF_MS }
    }

    /// Records a failed try: the pause to take before trying again, or `None`
    /// when that was the last try.
    pub fn record_failure(&mut self) -> (pause_ms: Option<u64>)
        requires
            !old(self).given_up(),
        ensures
            final(self).failures() == old(self).failures() + 1,
            final(self).given_up() ==> pause_ms is None,
            !final(self).given_up() ==> (pause_ms matches Some(p) && p == backoff_after(
                final(self).failures(),
            )),
    {
        proof {
            use_type_invariant(&*self);
        }
        let failed = self.failed + 1;
        if failed >= GRPC_MAX_ATTEMPTS {
            assert(failed == 3);
            assert(backoff_after(4) == 4000) by {
                reveal_with_fuel(backoff_after, 4);
            }
            *self = GrpcRetry { failed, backoff_ms: 4000 };
            None
        } else {
            let pause = self.backoff_ms;
            assert(backoff_after((failed + 1) as nat) == 2 * backoff_after(failed as nat));
            assert(self.backoff_ms <= 1000) by {
                reveal_with_fuel(backoff_after, 3);
            }
            *self = GrpcRetry { failed, backoff_ms: pause * 2 };
            Some(pause)
        }
    }
}

/// The pauses are 500 ms after the first failed try and 1000 ms after the
/// second, and the third failed try gives the request up.
pub proof fn law_backoff_schedule()
    ensures
        backoff_after(1) == 500,
        backoff_after(2) == 1000,
        GRPC_MAX_ATTEMPTS == 3,
{
    reveal_with_fuel(backoff_after, 3);
}

/// How many times an event is offered to the message bus.
pub const PUBLISH_MAX_ATTEMPTS: u32 = 3;

/// What became of one try to publish an event.
#[derive(Debug, Clone, Copy, PartialEq, Eq, Structural)]
pub enum PublishOutcome {
    /// No working channel could be had.
    ChannelUnavailable,
    /// There was no channel to publish on.
    NoChannel,
    /// The broker refused the event.
    PublishFailed,
    /// The broker took the event.
    Published,
}

/// What to do after a try to publish.
#[derive(Debug, Clone, Copy, PartialEq, Eq, Structural)]
pub enum PublishStep {
    /// The event went out.
    Delivered,
    /// Pause, then try again.
    Retry { pause_ms: u64 },
    /// Pause, then report failure.
    GiveUp { pause_ms: u64 },
}

/// The pause after a failed try with this outcome.
pub open spec fn pause_after(outcome: PublishOutcome) -> u64 {
    match outcome {
        PublishOutcome::ChannelUnavailable => 200,
        PublishOutcome::PublishFailed => 100,
        _ => 0,
    }
}

/// The tries to publish one event.
#[derive(Debug)]
pub struct PublishRun {
    tries: u32,
}

impl PublishRun {
    #[verifier::type_invariant]
    spec fn inv(self) -> bool {
        self.tries <= PUBLISH_MAX_ATTEMPTS
    }

    /// Tries made so far.
    pub closed spec fn tries(self) -> nat {
        self.tries as nat
    }

    /// Starts publishing an event: `None` when there is no channel at all, and the
    /// event is dropped as published.
    pub fn start(has_channel: bool) -> (r: Option<Self>)
        ensures
            has_channel ==> (r matches Some(run) && run.tries() == 0),
            !has_channel ==> r is None,
    {
        if has_channel {
            Some(PublishRun { tries: 0 })
        } else {
            None
        }
    }

    /// Records the outcome of a try.
    pub fn record(&mut self, outcome: PublishOutcome) -> (step: PublishStep)
        requires
            old(self).tries() < PUBLISH_MAX_ATTEMPTS,
        ensures
            final(self).tries() == old(self).tries() + 1,
            outcome == PublishOutcome::Published ==> step == PublishStep::Delivered,
            outcome != PublishOutcome::Published && final(self).tries() < PUBLISH_MAX_ATTEMPTS
                ==> step == (PublishStep::Retry { pause_ms: pause_after(outcome) }),
            outcome != PublishOutcome::Published && final(self).tries() >= PUBLISH_MAX_ATTEMPTS
                ==> step == (PublishStep::GiveUp { pause_ms: pause_after(outcome) }),
    {
        self.tries = self.tries + 1;
        let pause_ms: u64 = match outcome {
            PublishOutcome::Published => {
                return PublishStep::Delivered;
            },
            PublishOutcome::ChannelUnavailable => 200,
            PublishOutcome::PublishFailed => 100,
            PublishOutcome::NoChannel => 0,
        };
        if self.tries < PUBLISH_MAX_ATTEMPTS {
            PublishStep::Retry { pause_ms }
        } else {
            PublishStep::GiveUp { pause_ms }
        }
    }
}

/// The state of the message bus channel.
#[derive(Debug, Clone, Copy, PartialEq, Eq, Structural)]
pub enum ChannelHealth {
    /// The channel works.
    Healthy,
    /// The channel is gone but the connection works: open a new channel on it.
    Recreate,
    /// The connection is gone.
    Dead,
}

/// Whether the channel can be used; `channel` and `connection` say whether each
/// exists and, if so, whether it is connected.
pub fn channel_health(channel: Option<bool>, connection: Option<bool>) -> (h: ChannelHealth)
    ensures
        channel == Some(true) ==> h == ChannelHealth::Healthy,
        channel != Some(true) && connection == Some(true) ==> h == ChannelHealth::Recreate,
        channel != Some(true) && connection != Some(true) ==> h == ChannelHealth::Dead,
{
    match channel {
        Some(true) => ChannelHealth::Healthy,
        _ => match connection {
            Some(true) => ChannelHealth::Recreate,
            _ => ChannelHealth::Dead,
        },
    }
}

/// The pause between tries to reach a broker or store that is down, in milliseconds.
pub const RECONNECT_PAUSE_MS: u64 = 5000;

/// What became of one try to connect to the message bus or the backup store.
#[derive(Debug, Clone, Copy, PartialEq, Eq, Structural)]
pub enum ConnectOutcome {
    /// Connected, with a channel where one is needed.
    Ready,
    /// Connected, but no channel could be opened.
    ChannelFailed,
    /// The server could not be reached.
    Unreachable,
}

/// What to do after a try to connect.
#[derive(Debug, Clone, Copy, PartialEq, Eq, Structural)]
pub enum ConnectStep {
    /// Connected: stop trying.
    Done,
    /// Wait `pause_ms`, then try again; `warn` says whether to report the
    /// failure loudly (only an unreachable server on the first try is).
    RetryAfter { pause_ms: u64, warn: bool },
}

/// The step after try number `attempt` (counting from 1) to connect: keep trying
/// every 5 seconds until connected, reporting only a first unreachable server loudly.
pub fn connect_step(attempt: u32, outcome: ConnectOutcome) -> (s: ConnectStep)
    requires
        attempt >= 1,
    ensures
        outcome == ConnectOutcome::Ready ==> s == ConnectStep::Done,
        outcome != ConnectOutcome::Ready ==> s == (ConnectStep::RetryAfter {
            pause_ms: RECONNECT_PAUSE_MS,
            warn: attempt == 1 && outcome == ConnectOutcome::Unreachable,
        }),
{
    match outcome {
        ConnectOutcome::Ready => ConnectStep::Done,
        ConnectOutcome::ChannelFailed => ConnectStep::RetryAfter {
            pause_ms: RECONNECT_PAUSE_MS,
            warn: false,
        },
        ConnectOutcome::Unreachable => ConnectStep::RetryAfter {
            pause_ms: RECONNECT_PAUSE_MS,
            warn: attempt == 1,
        },
    }
}

/// What became of one try to start consuming termination requests.
#[derive(Debug, Clone, Copy, PartialEq, Eq, Structural)]
pub enum ConsumerOutcome {
    /// There was no connected connection yet.
    NoConnection,
    /// The connection could not open a channel.
    ChannelFailed,
    /// A channel was opened and the requests were consumed until the stream ended.
    Consumed,
}

/// The step after a try to consume termination requests: once a channel was had
/// the consumer stops; until then it tries again every 5 seconds, quietly.
pub fn consumer_step(outcome: ConsumerOutcome) -> (s: ConnectStep)
    ensures
        outcome == ConsumerOutcome::Consumed ==> s == ConnectStep::Done,
        outcome != ConsumerOutcome::Consumed ==> s == (ConnectStep::RetryAfter {
            pause_ms: RECONNECT_PAUSE_MS,
            warn: false,
        }),
{
    match outcome {
        ConsumerOutcome::Consumed => ConnectStep::Done,
        _ => ConnectStep::RetryAfter { pause_ms: RECONNECT_PAUSE_MS, warn: false },
    }
}

} // verus!
