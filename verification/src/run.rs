//! The course of a wait, as steps that whoever drives the bot carries out.
//!
//! A wait alternates between the transport and the bot. Each [`Step`] names what the driver does
//! next, and carries the one function that takes the outcome and gives the following step.
use crate::errors::{BotError, PubSubError};
use crate::types::{Request, WaitOrderResponse};
use vstd::prelude::*;

verus! {

/// The longest pause between two looks at the channels, in nanoseconds.
pub const CYCLE_NANOS: u64 = 1000;

/// How long a submission or a cancellation waits for its response, in nanoseconds.
pub const RESPONSE_TIMEOUT_NANOS: i64 = 60_000_000_000;

/// What a wait is for.
#[derive(Clone, Copy, Debug, PartialEq, Eq, Structural)]
pub struct Run {
    /// A batch of market data ends the wait.
    pub wait_next_feed: bool,
    /// The length of the wait in nanoseconds.
    pub duration: i64,
    /// The order response that ends the wait.
    pub wait_order_response: WaitOrderResponse,
}

/// How a pause ended.
#[derive(Clone, Copy, Debug, PartialEq, Eq, Structural)]
pub enum Wakeup {
    Tick,
    TerminationRequest,
    InterruptSignal,
}

/// What to do next.
#[derive(Clone, Copy, Debug, PartialEq, Eq, Structural)]
pub enum Step {
    /// Pause, and report the wakeup.
    Pause(Pause),
    /// Read how much time has passed since the wait began, before the channels are looked at.
    ReadElapsed(SweepStart),
    /// Receive from the channel of an asset.
    Receive(Sweep),
    /// Read how much time has passed since the wait began, after channels that were all empty.
    ReadRemaining(CycleEnd),
    /// The wait is over, with this result.
    Return(bool),
}

/// A pause of at most `nanos` nanoseconds.
#[derive(Clone, Copy, Debug, PartialEq, Eq, Structural)]
pub struct Pause {
    pub run: Run,
    pub nanos: u64,
}

/// The moment before the channels are looked at in turn.
#[derive(Clone, Copy, Debug, PartialEq, Eq, Structural)]
pub struct SweepStart {
    pub run: Run,
}

/// The channels are looked at in turn, asset by asset.
#[derive(Clone, Copy, Debug, PartialEq, Eq, Structural)]
pub struct Sweep {
    pub run: Run,
    /// The asset whose channel is next.
    pub next: usize,
    /// How many of those before it had nothing.
    pub no_data: usize,
}

/// The moment after a look at channels that were all empty.
#[derive(Clone, Copy, Debug, PartialEq, Eq, Structural)]
pub struct CycleEnd {
    pub run: Run,
}

impl Step {
    /// The step is one of a wait of a bot with this many assets.
    pub open spec fn wf(self, assets: nat) -> bool {
        self matches Step::Receive(sweep) ==> sweep.wf(assets)
    }
}

impl Run {
    /// The pause before the next look at the channels, with so much time left. Time that has run
    /// out already does not shorten it.
    pub open spec fn pause(self, remaining: int) -> Step {
        Step::Pause(
            Pause {
                run: self,
                nanos: if 0 <= remaining <= CYCLE_NANOS {
                    remaining as u64
                } else {
                    CYCLE_NANOS
                },
            },
        )
    }

    /// The first step of the wait.
    pub open spec fn first(self) -> Step {
        self.pause(self.duration as int)
    }

    /// Pauses for a cycle, or for the remaining time where that is less.
    fn rest(self, remaining: i64) -> (r: Step)
        ensures
            r == self.pause(remaining as int),
    {
        let cap: u64 = remaining as u64;
        assert(remaining < 0 ==> cap > 1000) by (bit_vector)
            requires
                cap == remaining as u64,
        ;
        let nanos: u64 = if cap < CYCLE_NANOS {
            cap
        } else {
            CYCLE_NANOS
        };
        Step::Pause(Pause { run: self, nanos })
    }

    /// Begins the wait.
    pub fn start(self) -> (r: Step)
        ensures
            r == self.first(),
    {
        self.rest(self.duration)
    }
}

impl Pause {
    /// A tick leads on to the channels; a signal to stop ends the wait.
    pub open spec fn after(self, wakeup: Wakeup) -> Step {
        match wakeup {
            Wakeup::Tick => Step::ReadElapsed(SweepStart { run: self.run }),
            _ => Step::Return(false),
        }
    }

    /// The pause is over.
    pub fn woken(self, wakeup: Wakeup) -> (r: Step)
        ensures
            r == self.after(wakeup),
    {
        match wakeup {
            Wakeup::Tick => Step::ReadElapsed(SweepStart { run: self.run }),
            Wakeup::TerminationRequest => Step::Return(false),
            Wakeup::InterruptSignal => Step::Return(false),
        }
    }
}

impl SweepStart {
    /// The wait ends when its time is over; otherwise the channels are next, if there are any.
    pub open spec fn after(self, elapsed: u128, assets: nat) -> Step {
        if (elapsed as i64) > self.run.duration {
            Step::Return(true)
        } else if assets == 0 {
            Step::ReadRemaining(CycleEnd { run: self.run })
        } else {
            Step::Receive(Sweep { run: self.run, next: 0, no_data: 0 })
        }
    }

    /// `elapsed` nanoseconds have passed since the wait of a bot with `assets` assets began.
    pub fn begin(self, elapsed: u128, assets: usize) -> (r: Step)
        ensures
            r == self.after(elapsed, assets as nat),
            r.wf(assets as nat),
    {
        let elapsed: i64 = elapsed as i64;
        if elapsed > self.run.duration {
            Step::Return(true)
        } else if assets == 0 {
            Step::ReadRemaining(CycleEnd { run: self.run })
        } else {
            Step::Receive(Sweep { run: self.run, next: 0, no_data: 0 })
        }
    }
}

impl Sweep {
    pub open spec fn wf(self, assets: nat) -> bool {
        &&& self.next < assets
        &&& self.no_data <= self.next
    }

    /// One channel is done, and it was `silent` or had something that does not end the wait. When
    /// all are done, they are looked at again at once unless every one was silent.
    pub open spec fn after(self, silent: bool, assets: nat) -> Step {
        let no_data = if silent {
            self.no_data + 1
        } else {
            self.no_data as int
        };
        if self.next + 1 < assets {
            Step::Receive(
                Sweep {
                    run: self.run,
                    next: (self.next + 1) as usize,
                    no_data: no_data as usize,
                },
            )
        } else if no_data == assets {
            Step::ReadRemaining(CycleEnd { run: self.run })
        } else {
            Step::ReadElapsed(SweepStart { run: self.run })
        }
    }

    /// Goes on to the next channel.
    pub fn advance(self, silent: bool, assets: usize) -> (r: Step)
        requires
            self.wf(assets as nat),
        ensures
            r == self.after(silent, assets as nat),
            r.wf(assets as nat),
    {
        let no_data: usize = if silent {
            self.no_data + 1
        } else {
            self.no_data
        };
        let next: usize = self.next + 1;
        if next < assets {
            Step::Receive(Sweep { run: self.run, next, no_data })
        } else if no_data == assets {
            Step::ReadRemaining(CycleEnd { run: self.run })
        } else {
            Step::ReadElapsed(SweepStart { run: self.run })
        }
    }
}

impl CycleEnd {
    /// The wait ends when its time is over; otherwise a pause is next.
    pub open spec fn after(self, elapsed: u128) -> Step {
        if (elapsed as i64) > self.run.duration {
            Step::Return(true)
        } else {
            self.run.pause(self.run.duration - (elapsed as i64))
        }
    }

    /// `elapsed` nanoseconds have passed since the wait began.
    pub fn rest(self, elapsed: u128) -> (r: Step)
        requires
            (elapsed as i64) > self.run.duration || self.run.duration - (elapsed as i64)
                <= i64::MAX,
        ensures
            r == self.after(elapsed),
    {
        let elapsed: i64 = elapsed as i64;
        if elapsed > self.run.duration {
            Step::Return(true)
        } else {
            self.run.rest(self.run.duration - elapsed)
        }
    }
}

/// A request that is to be published on a channel.
#[derive(Clone, Copy, Debug, PartialEq, Eq, Structural)]
pub struct Outgoing {
    pub channel: usize,
    pub request: Request,
    /// The caller waits for the response.
    pub wait: bool,
}

impl Outgoing {
    /// The wait for the response to the request.
    pub open spec fn response_run(self) -> Run {
        match self.request {
            Request::Order { asset_no, order } => Run {
                wait_next_feed: false,
                duration: RESPONSE_TIMEOUT_NANOS,
                wait_order_response: WaitOrderResponse::Specified {
                    asset_no,
                    order_id: order.order_id,
                },
            },
        }
    }

    /// The request was handed to the transport, with this outcome.
    pub fn sent(self, outcome: Result<(), PubSubError>) -> (r: Result<Step, BotError>)
        ensures
            r == match outcome {
                Err(error) => Err::<Step, BotError>(BotError::PubSub(error)),
                Ok(_) => Ok::<Step, BotError>(
                    if self.wait {
                        self.response_run().first()
                    } else {
                        Step::Return(true)
                    },
                ),
            },
    {
        match outcome {
            Err(error) => Err(BotError::PubSub(error)),
            Ok(()) => if self.wait {
                let run = match self.request {
                    Request::Order { asset_no, order } => Run {
                        wait_next_feed: false,
                        duration: RESPONSE_TIMEOUT_NANOS,
                        wait_order_response: WaitOrderResponse::Specified {
                            asset_no,
                            order_id: order.order_id,
                        },
                    },
                };
                Ok(run.start())
            } else {
                Ok(Step::Return(true))
            },
        }
    }
}

} // verus!
