//! The ingestion loop's decisions: connection lifecycle with backoff, and the
//! bounded dispatch of frames to pipeline workers with a bounded queue.
//!
//! The caller performs each returned action (connect, read, run a pipeline,
//! close) and hands back what happened as the next input.

use vstd::prelude::*;

use crate::failure::{backoff_delay, backoff_spec};

verus! {

/// The connection phase of the loop.
#[derive(Clone, Copy, Debug, PartialEq, Eq, Structural)]
pub enum Phase {
    Disconnected,
    Connecting,
    Streaming,
    Draining,
    /// Shut down deliberately, or halted on a fatal failure.
    Stopped,
}

/// The loop's settings.
#[derive(Clone, Copy, Debug, PartialEq, Eq, Structural)]
pub struct LoopConfig {
    /// The most pipelines run at once.
    pub max_in_flight: usize,
    /// The most frames held while every worker is busy.
    pub queue_capacity: usize,
    pub backoff_floor_ms: u64,
    pub backoff_ceiling_ms: u64,
    /// How long streaming must last before the backoff starts over.
    pub stable_after_ms: u64,
}

impl LoopConfig {
    /// Settings the loop can run with.
    pub open spec fn valid(self) -> bool {
        self.max_in_flight >= 1 && self.backoff_floor_ms <= self.backoff_ceiling_ms
    }
}

/// What happened since the last step.
#[derive(Clone, Copy, Debug, PartialEq, Eq, Structural)]
pub enum Input {
    Start,
    /// The backoff delay has passed.
    BackoffElapsed,
    Connected,
    ConnectFailed,
    /// A frame was read from the connection.
    FrameRead,
    /// One pipeline finished, whatever its outcome.
    WorkDone,
    /// The connection failed or was closed by the feed.
    ConnectionLost,
    /// Time passed while streaming.
    Tick { elapsed_ms: u64 },
    Shutdown,
    ShutdownTimedOut,
    /// A store failure that must not be masked.
    Fatal,
}

/// What the caller is to do next.
#[derive(Clone, Copy, Debug, PartialEq, Eq, Structural)]
pub enum Action {
    Nothing,
    /// Wait this long, then report `BackoffElapsed`.
    Wait { delay_ms: u64 },
    /// Open the connection to the endpoint.
    Connect,
    /// Run the pipeline on the frame just read, or on the oldest queued one.
    Dispatch,
    /// Hold the frame just read in the queue.
    Enqueue,
    /// Do not take the frame now: keep it and stop reading (backpressure).
    Refuse,
    /// Close the connection; the loop is stopped.
    Close,
    /// The shutdown timeout passed: this much work is abandoned, and logged.
    Abandon { in_flight: usize, queued: usize },
    /// Stop at once and report the fatal failure.
    Halt,
}

/// The loop's state.
#[derive(Clone, Copy, Debug, PartialEq, Eq, Structural)]
pub struct IngestLoop {
    pub config: LoopConfig,
    pub phase: Phase,
    /// Connection attempts failed since the last stable streaming period.
    pub failures: u32,
    /// How long the current connection has been streaming.
    pub streamed_ms: u64,
    /// Pipelines running now.
    pub in_flight: usize,
    /// Frames read and waiting for a worker.
    pub queued: usize,
}

/// The state and action after one input, in every phase.
pub open spec fn next_spec(s: IngestLoop, i: Input) -> (IngestLoop, Action) {
    let c = s.config;
    let wait = backoff_spec(c.backoff_floor_ms, c.backoff_ceiling_ms, s.failures as nat) as u64;
    let more = if s.failures < u32::MAX {
        (s.failures + 1) as u32
    } else {
        s.failures
    };
    match (s.phase, i) {
        (Phase::Disconnected, Input::Start) | (Phase::Disconnected, Input::BackoffElapsed) => (
            IngestLoop { phase: Phase::Connecting, ..s },
            Action::Connect,
        ),
        (Phase::Connecting, Input::Connected) => (
            IngestLoop { phase: Phase::Streaming, streamed_ms: 0, ..s },
            Action::Nothing,
        ),
        (Phase::Connecting, Input::ConnectFailed) => (
            IngestLoop { phase: Phase::Disconnected, failures: more, ..s },
            Action::Wait { delay_ms: wait },
        ),
        (Phase::Streaming, Input::ConnectionLost) => (
            IngestLoop { phase: Phase::Disconnected, failures: more, ..s },
            Action::Wait { delay_ms: wait },
        ),
        (Phase::Streaming, Input::Tick { elapsed_ms }) => {
            let t = if s.streamed_ms as int + elapsed_ms as int <= u64::MAX as int {
                (s.streamed_ms + elapsed_ms) as u64
            } else {
                u64::MAX
            };
            (
                IngestLoop {
                    streamed_ms: t,
                    failures: if t >= c.stable_after_ms {
                        0
                    } else {
                        s.failures
                    },
                    ..s
                },
                Action::Nothing,
            )
        },
        (Phase::Streaming, Input::FrameRead) => if s.in_flight < c.max_in_flight {
            (IngestLoop { in_flight: (s.in_flight + 1) as usize, ..s }, Action::Dispatch)
        } else if s.queued < c.queue_capacity {
            (IngestLoop { queued: (s.queued + 1) as usize, ..s }, Action::Enqueue)
        } else {
            (s, Action::Refuse)
        },
        (_, Input::FrameRead) => (s, Action::Refuse),
        (Phase::Stopped, _) => (s, Action::Nothing),
        (_, Input::WorkDone) => if s.in_flight == 0 {
            (s, Action::Nothing)
        } else if s.queued > 0 {
            (IngestLoop { queued: (s.queued - 1) as usize, ..s }, Action::Dispatch)
        } else if s.phase == Phase::Draining && s.in_flight == 1 {
            (IngestLoop { in_flight: 0, phase: Phase::Stopped, ..s }, Action::Close)
        } else {
            (IngestLoop { in_flight: (s.in_flight - 1) as usize, ..s }, Action::Nothing)
        },
        (_, Input::Shutdown) => if s.in_flight == 0 && s.queued == 0 {
            (IngestLoop { phase: Phase::Stopped, ..s }, Action::Close)
        } else {
            (IngestLoop { phase: Phase::Draining, ..s }, Action::Nothing)
        },
        (Phase::Draining, Input::ShutdownTimedOut) => (
            IngestLoop { phase: Phase::Stopped, in_flight: 0, queued: 0, ..s },
            Action::Abandon { in_flight: s.in_flight, queued: s.queued },
        ),
        (_, Input::Fatal) => (IngestLoop { phase: Phase::Stopped, ..s }, Action::Halt),
        _ => (s, Action::Nothing),
    }
}

impl IngestLoop {
    /// No more pipelines run than the bound, no more frames wait than the
    /// queue holds, and frames wait only while every worker is busy.
    pub open spec fn wf(&self) -> bool {
        &&& self.config.valid()
        &&& self.in_flight <= self.config.max_in_flight
        &&& self.queued <= self.config.queue_capacity
        &&& self.queued > 0 ==> self.in_flight == self.config.max_in_flight
    }

    /// A new loop: disconnected, with nothing running and nothing queued.
    pub fn new(config: LoopConfig) -> (r: IngestLoop)
        requires
            config.valid(),
        ensures
            r.wf(),
            r == (IngestLoop {
                config,
                phase: Phase::Disconnected,
                failures: 0,
                streamed_ms: 0,
                in_flight: 0,
                queued: 0,
            }),
    {
        IngestLoop {
            config,
            phase: Phase::Disconnected,
            failures: 0,
            streamed_ms: 0,
            in_flight: 0,
            queued: 0,
        }
    }

    /// Whether the loop reads from the connection now: it is streaming and
    /// a frame read would find a worker or a place in the queue.
    pub fn accepts_frame(&self) -> (r: bool)
        ensures
            r == (self.phase == Phase::Streaming && (self.in_flight < self.config.max_in_flight
                || self.queued < self.config.queue_capacity)),
    {
        self.phase == Phase::Streaming && (self.in_flight < self.config.max_in_flight
            || self.queued < self.config.queue_capacity)
    }

    /// Takes one input and says what to do next. The concurrency bound and
    /// the queue bound hold in every state reached.
    pub fn step(&mut self, i: Input) -> (r: Action)
        requires
            old(self).wf(),
        ensures
            final(self).wf(),
            (*final(self), r) == next_spec(*old(self), i),
    {
        let c = self.config;
        let more = if self.failures < u32::MAX {
            self.failures + 1
        } else {
            self.failures
        };
        match (self.phase, i) {
            (Phase::Disconnected, Input::Start) | (Phase::Disconnected, Input::BackoffElapsed) => {
                self.phase = Phase::Connecting;
                Action::Connect
            },
            (Phase::Connecting, Input::Connected) => {
                self.phase = Phase::Streaming;
                self.streamed_ms = 0;
                Action::Nothing
            },
            (Phase::Connecting, Input::ConnectFailed) | (Phase::Streaming, Input::ConnectionLost) => {
                let wait = backoff_delay(c.backoff_floor_ms, c.backoff_ceiling_ms, self.failures);
                self.phase = Phase::Disconnected;
                self.failures = more;
                Action::Wait { delay_ms: wait }
            },
            (Phase::Streaming, Input::Tick { elapsed_ms }) => {
                let t = if self.streamed_ms <= u64::MAX - elapsed_ms {
                    self.streamed_ms + elapsed_ms
                } else {
                    u64::MAX
                };
                self.streamed_ms = t;
                if t >= c.stable_after_ms {
                    self.failures = 0;
                }
                Action::Nothing
            },
            (Phase::Streaming, Input::FrameRead) => {
                if self.in_flight < c.max_in_flight {
                    self.in_flight = self.in_flight + 1;
                    Action::Dispatch
                } else if self.queued < c.queue_capacity {
                    self.queued = self.queued + 1;
                    Action::Enqueue
                } else {
                    Action::Refuse
                }
            },
            (_, Input::FrameRead) => Action::Refuse,
            (Phase::Stopped, _) => Action::Nothing,
            (_, Input::WorkDone) => {
                if self.in_flight == 0 {
                    Action::Nothing
                } else if self.queued > 0 {
                    self.queued = self.queued - 1;
                    Action::Dispatch
                } else if self.phase == Phase::Draining && self.in_flight == 1 {
                    self.in_flight = 0;
                    self.phase = Phase::Stopped;
                    Action::Close
                } else {
                    self.in_flight = self.in_flight - 1;
                    Action::Nothing
                }
            },
            (_, Input::Shutdown) => {
                if self.in_flight == 0 && self.queued == 0 {
                    self.phase = Phase::Stopped;
                    Action::Close
                } else {
                    self.phase = Phase::Draining;
                    Action::Nothing
                }
            },
            (Phase::Draining, Input::ShutdownTimedOut) => {
                let a = Action::Abandon { in_flight: self.in_flight, queued: self.queued };
                self.phase = Phase::Stopped;
                self.in_flight = 0;
                self.queued = 0;
                a
            },
            (_, Input::Fatal) => {
                self.phase = Phase::Stopped;
                Action::Halt
            },
            _ => Action::Nothing,
        }
    }
}

} // verus!

verus! {

/// The state after a sequence of inputs, one step each.
pub open spec fn run(s: IngestLoop, inputs: Seq<Input>) -> IngestLoop
    decreases inputs.len(),
{
    if inputs.len() == 0 {
        s
    } else {
        next_spec(run(s, inputs.drop_last()), inputs.last()).0
    }
}

/// One step keeps the loop well formed.
pub proof fn step_keeps_wf(s: IngestLoop, i: Input)
    requires
        s.wf(),
    ensures
        next_spec(s, i).0.wf(),
{
}

/// Whatever inputs arrive, a loop started with valid settings never runs
/// more pipelines at once than its bound, nor holds more frames than its
/// queue.
pub proof fn concurrency_bound_holds(config: LoopConfig, inputs: Seq<Input>)
    requires
        config.valid(),
    ensures
        run(
            IngestLoop {
                config,
                phase: Phase::Disconnected,
                failures: 0,
                streamed_ms: 0,
                in_flight: 0,
                queued: 0,
            },
            inputs,
        ).in_flight <= config.max_in_flight,
        run(
            IngestLoop {
                config,
                phase: Phase::Disconnected,
                failures: 0,
                streamed_ms: 0,
                in_flight: 0,
                queued: 0,
            },
            inputs,
        ).queued <= config.queue_capacity,
    decreases inputs.len(),
{
    let s0 = IngestLoop {
        config,
        phase: Phase::Disconnected,
        failures: 0,
        streamed_ms: 0,
        in_flight: 0,
        queued: 0,
    };
    lemma_run_wf(s0, inputs);
    lemma_run_config(s0, inputs);
}

proof fn lemma_run_wf(s: IngestLoop, inputs: Seq<Input>)
    requires
        s.wf(),
    ensures
        run(s, inputs).wf(),
    decreases inputs.len(),
{
    if inputs.len() > 0 {
        lemma_run_wf(s, inputs.drop_last());
        step_keeps_wf(run(s, inputs.drop_last()), inputs.last());
    }
}

proof fn lemma_run_config(s: IngestLoop, inputs: Seq<Input>)
    ensures
        run(s, inputs).config == s.config,
    decreases inputs.len(),
{
    if inputs.len() > 0 {
        lemma_run_config(s, inputs.drop_last());
    }
}

} // verus!
