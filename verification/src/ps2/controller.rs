//! The PS/2 controller: every transfer to or from it waits for the status
//! port to show the controller ready, for a bounded number of polls, and then
//! goes ahead whether or not it did.

use vstd::prelude::*;
use crate::platform::{Request, Step};

verus! {

/// Port of the status register.
pub const PS2_STATUS: u16 = 0x64;

/// Port that takes controller commands.
pub const PS2_CMD: u16 = 0x64;

/// Port that takes and gives data bytes.
pub const PS2_DATA: u16 = 0x60;

pub const PS2_CMD_READ_CONFIG: u8 = 0x20;

pub const PS2_CMD_WRITE_CONFIG: u8 = 0x60;

pub const PS2_CMD_DISABLE_SECOND_PORT: u8 = 0xA7;

pub const PS2_CMD_ENABLE_SECOND_PORT: u8 = 0xA8;

pub const PS2_CMD_TEST_SECOND_PORT: u8 = 0xA9;

pub const PS2_CMD_WRITE_TO_SECOND_PORT: u8 = 0xD4;

/// Status bit that ends the wait before a read.
pub const STATUS_OUTPUT: u8 = 0x01;

/// Status bit that ends the wait before a write.
pub const STATUS_INPUT: u8 = 0x02;

/// How often the status port is polled before a transfer goes ahead without
/// the controller showing ready.
pub const POLL_LIMIT: u32 = 100;

/// The largest number of steps a transfer takes: each poll and each delay is
/// one, and so are the first step and the transfer itself.
pub const TRANSFER_STEPS: u32 = 2 * POLL_LIMIT + 2;

/// Where a transfer stands.
#[derive(Clone, Copy, Debug, PartialEq, Eq, Structural)]
pub enum Stage {
    /// Nothing was asked yet.
    Start,
    /// The status port is being read.
    Polling,
    /// The status was not ready; the delay before the next poll runs.
    Pausing,
    /// The wait is over; the transfer itself is under way.
    Transferring,
    /// The transfer is done. `value` is the byte that was read, or for a
    /// write whatever the platform handed in after it.
    Finished { value: u8 },
}

/// A transfer with the controller, between two steps.
pub struct Exchange {
    /// The status bit that ends the wait.
    pub awaited: u8,
    /// The transfer that follows the wait.
    pub request: Request,
    /// How often the status port was read.
    pub polls: nat,
    /// Where the transfer stands.
    pub stage: Stage,
}

impl Exchange {
    /// A transfer of which nothing was asked yet.
    pub open spec fn fresh(awaited: u8, request: Request) -> Exchange {
        Exchange { awaited, request, polls: 0, stage: Stage::Start }
    }

    /// The wait before a write of `value` to `port`.
    pub open spec fn sending(port: u16, value: u8) -> Exchange {
        Self::fresh(STATUS_INPUT, Request::Write { port, value })
    }

    /// The wait before a read of the data port.
    pub open spec fn receiving() -> Exchange {
        Self::fresh(STATUS_OUTPUT, Request::Read { port: PS2_DATA })
    }

    /// The transfer and what it asks or gives after one step. `input` is the
    /// answer to what the step before asked. The status port is read; a
    /// status with the awaited bit set ends the wait. Otherwise the delay
    /// runs, and after it the status port is read again, unless it was read
    /// `POLL_LIMIT` times: then the wait ends too. After the wait comes the
    /// transfer, and its answer is the result.
    pub open spec fn stepped(self, input: u8) -> (Exchange, Step<u8>) {
        match self.stage {
            Stage::Start => (
                Exchange { stage: Stage::Polling, ..self },
                Step::Ask(Request::Read { port: PS2_STATUS }),
            ),
            Stage::Polling => if input & self.awaited != 0 {
                (
                    Exchange { polls: self.polls + 1, stage: Stage::Transferring, ..self },
                    Step::Ask(self.request),
                )
            } else {
                (
                    Exchange { polls: self.polls + 1, stage: Stage::Pausing, ..self },
                    Step::Ask(Request::Pause),
                )
            },
            Stage::Pausing => if self.polls < POLL_LIMIT {
                (
                    Exchange { stage: Stage::Polling, ..self },
                    Step::Ask(Request::Read { port: PS2_STATUS }),
                )
            } else {
                (Exchange { stage: Stage::Transferring, ..self }, Step::Ask(self.request))
            },
            Stage::Transferring => (
                Exchange { stage: Stage::Finished { value: input }, ..self },
                Step::Done(input),
            ),
            Stage::Finished { value } => (self, Step::Done(value)),
        }
    }

    /// What holds of a transfer at any time: the status port was read at most
    /// `POLL_LIMIT` times, and fewer while another read is under way.
    pub open spec fn well_formed(self) -> bool {
        &&& self.polls <= POLL_LIMIT
        &&& self.stage == Stage::Polling ==> self.polls < POLL_LIMIT
        &&& self.stage == Stage::Start ==> self.polls == 0
    }

    /// The largest number of steps the transfer can still take before it
    /// gives its result.
    pub open spec fn budget(self) -> nat {
        match self.stage {
            Stage::Start => 2 * POLL_LIMIT as nat + 2,
            Stage::Polling => (2 * (POLL_LIMIT - self.polls) + 1) as nat,
            Stage::Pausing => (2 * (POLL_LIMIT - self.polls) + 2) as nat,
            Stage::Transferring => 1,
            Stage::Finished { .. } => 0,
        }
    }

}

/// A transfer with the controller.
#[derive(Clone, Copy)]
pub struct Transfer {
    awaited: u8,
    request: Request,
    polls: u32,
    stage: Stage,
}

impl View for Transfer {
    type V = Exchange;

    closed spec fn view(&self) -> Exchange {
        Exchange {
            awaited: self.awaited,
            request: self.request,
            polls: self.polls as nat,
            stage: self.stage,
        }
    }
}

impl Transfer {
    #[verifier::type_invariant]
    spec fn inv(self) -> bool {
        self@.well_formed()
    }

    /// Takes one step: hands in the answer to what the step before asked,
    /// and says what to do next or what the transfer gave.
    pub fn step(&mut self, input: u8) -> (step: Step<u8>)
        ensures
            (final(self)@, step) == old(self)@.stepped(input),
            old(self)@.well_formed(),
            final(self)@.well_formed(),
            step is Ask ==> final(self)@.budget() < old(self)@.budget(),
    {
        proof {
            use_type_invariant(&*self);
        }
        match self.stage {
            Stage::Start => {
                self.stage = Stage::Polling;
                Step::Ask(Request::Read { port: PS2_STATUS })
            },
            Stage::Polling => {
                if input & self.awaited != 0 {
                    self.stage = Stage::Transferring;
                    self.polls = self.polls + 1;
                    Step::Ask(self.request)
                } else {
                    self.stage = Stage::Pausing;
                    self.polls = self.polls + 1;
                    Step::Ask(Request::Pause)
                }
            },
            Stage::Pausing => {
                if self.polls < POLL_LIMIT {
                    self.stage = Stage::Polling;
                    Step::Ask(Request::Read { port: PS2_STATUS })
                } else {
                    self.stage = Stage::Transferring;
                    Step::Ask(self.request)
                }
            },
            Stage::Transferring => {
                self.stage = Stage::Finished { value: input };
                Step::Done(input)
            },
            Stage::Finished { value } => Step::Done(value),
        }
    }
}

/// A transfer that waits for the controller to take input and then carries out
/// `request`.
fn ps2_wait_for_input(request: Request) -> (transfer: Transfer)
    ensures
        transfer@ == Exchange::fresh(STATUS_INPUT, request),
{
    Transfer { awaited: STATUS_INPUT, request, polls: 0, stage: Stage::Start }
}

/// A transfer that waits for the controller to have output and then carries
/// out `request`.
fn ps2_wait_for_output(request: Request) -> (transfer: Transfer)
    ensures
        transfer@ == Exchange::fresh(STATUS_OUTPUT, request),
{
    Transfer { awaited: STATUS_OUTPUT, request, polls: 0, stage: Stage::Start }
}

/// The transfer that sends `command` to the controller.
pub fn ps2_send_command(command: u8) -> (transfer: Transfer)
    ensures
        transfer@ == Exchange::sending(PS2_CMD, command),
{
    ps2_wait_for_input(Request::Write { port: PS2_CMD, value: command })
}

/// The transfer that sends the data byte `data` to the controller.
pub fn ps2_send_data(data: u8) -> (transfer: Transfer)
    ensures
        transfer@ == Exchange::sending(PS2_DATA, data),
{
    ps2_wait_for_input(Request::Write { port: PS2_DATA, value: data })
}

/// The transfer that reads a data byte from the controller.
pub fn ps2_read_data() -> (transfer: Transfer)
    ensures
        transfer@ == Exchange::receiving(),
{
    ps2_wait_for_output(Request::Read { port: PS2_DATA })
}

/// The exchange after `inputs` were handed in one by one, and the last step's
/// outcome; `Ask(Pause)` stands for "no step was taken".
pub open spec fn run(exchange: Exchange, inputs: Seq<u8>) -> (Exchange, Step<u8>)
    decreases inputs.len(),
{
    if inputs.len() == 0 {
        (exchange, Step::Ask(Request::Pause))
    } else {
        run(exchange, inputs.drop_last()).0.stepped(inputs.last())
    }
}

/// One step keeps a transfer well formed, and uses up budget as long as the
/// transfer is not done.
pub proof fn lemma_step_bounded(exchange: Exchange, input: u8)
    requires
        exchange.well_formed(),
    ensures
        exchange.stepped(input).0.well_formed(),
        exchange.stepped(input).1 is Ask ==> exchange.stepped(input).0.budget() < exchange.budget(),
        exchange.stepped(input).1 is Done <==> (exchange.stage is Transferring
            || exchange.stage is Finished),
{
}

/// No wait is endless: whatever the status port shows, a transfer has given
/// its result after at most `TRANSFER_STEPS + 1` steps.
pub proof fn lemma_transfer_ends(awaited: u8, request: Request, inputs: Seq<u8>)
    requires
        inputs.len() > TRANSFER_STEPS,
    ensures
        run(Exchange::fresh(awaited, request), inputs).1 is Done,
{
    lemma_run_budget(Exchange::fresh(awaited, request), inputs);
}

/// After `n` steps a transfer is done or has used up `n` of its budget.
proof fn lemma_run_budget(exchange: Exchange, inputs: Seq<u8>)
    requires
        exchange.well_formed(),
    ensures
        run(exchange, inputs).0.well_formed(),
        inputs.len() > 0 && run(exchange, inputs).1 is Ask ==> run(exchange, inputs).0.budget()
            + inputs.len() <= exchange.budget(),
        inputs.len() > 0 && run(exchange, inputs).1 is Done ==> run(exchange, inputs).0.stage
            is Finished,
        inputs.len() > exchange.budget() ==> run(exchange, inputs).1 is Done,
    decreases inputs.len(),
{
    if inputs.len() > 0 {
        let before = inputs.drop_last();
        lemma_run_budget(exchange, before);
        lemma_step_bounded(run(exchange, before).0, inputs.last());
    }
}

} // verus!
