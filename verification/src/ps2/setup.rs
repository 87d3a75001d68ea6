//! Bringing up the mouse: commands to the device behind the controller's
//! second port, each sent until the device acknowledges it or the attempts run
//! out, and the sequence of them that makes the mouse report its movements.

use vstd::prelude::*;
use crate::interrupts::pic::{unmask_plan, PicState, Pics, MOUSE_LINE};
use crate::platform::{Request, Step};
use crate::ps2::controller::{
    ps2_read_data,
    ps2_send_command,
    ps2_send_data,
    lemma_step_bounded,
    Exchange,
    Stage,
    Transfer,
    PS2_CMD,
    PS2_CMD_DISABLE_SECOND_PORT,
    PS2_CMD_ENABLE_SECOND_PORT,
    PS2_CMD_READ_CONFIG,
    PS2_CMD_TEST_SECOND_PORT,
    PS2_CMD_WRITE_CONFIG,
    PS2_CMD_WRITE_TO_SECOND_PORT,
    PS2_DATA,
    PS2_STATUS,
    TRANSFER_STEPS,
};
use crate::ps2::mouse::{setup_mouse_interrupt, MouseState};

verus! {

pub const MOUSE_CMD_RESET: u8 = 0xFF;

pub const MOUSE_CMD_SET_DEFAULTS: u8 = 0xF6;

pub const MOUSE_CMD_ENABLE_DATA_REPORTING: u8 = 0xF4;

/// The byte with which the mouse acknowledges a command.
pub const MOUSE_RES_ACK: u8 = 0xFA;

/// The byte with which the mouse reports a passed self test.
pub const MOUSE_RES_SELF_TEST_PASSED: u8 = 0xAA;

/// How often a command is sent before it counts as failed.
pub const COMMAND_ATTEMPTS: u8 = 3;

/// The largest number of steps a command takes: nine transfers, of which all
/// but the first start in the step that ends the one before.
pub const COMMAND_STEPS: u32 = 9 * TRANSFER_STEPS - 8;

/// The answer of the controller to a passed test of its second port.
pub const PORT_TEST_PASSED: u8 = 0x00;

/// Entries of the bring-up sequence.
pub const SCRIPT_LENGTH: u8 = 13;

/// The most requests that follow the sequence: the two writes that let the
/// mouse's interrupt through, less the one asked on the step that ends the
/// sequence, and the request that turns interrupts on again.
pub const CLOSING_STEPS: u32 = 2;

/// The largest number of steps the bring-up takes: the first step, ten
/// transfers and three commands to the mouse, what follows the sequence, and
/// the step that gives the result.
pub const SETUP_STEPS: u32 = 1 + TRANSFER_STEPS + 9 * (TRANSFER_STEPS - 1) + 3 * (COMMAND_STEPS - 1)
    + CLOSING_STEPS + 1;

/// Starts a transfer of which nothing was asked yet: the status port is to be
/// read.
fn begin(transfer: &mut Transfer) -> (request: Request)
    requires
        old(transfer)@.stage == Stage::Start,
    ensures
        final(transfer)@ == old(transfer)@.stepped(0).0,
        request == (Request::Read { port: PS2_STATUS }),
{
    match transfer.step(0) {
        Step::Ask(request) => request,
        Step::Done(_) => Request::Read { port: PS2_STATUS },
    }
}

/// Where a command to the mouse stands.
#[derive(Clone, Copy, Debug, PartialEq, Eq, Structural)]
pub enum CommandPhase {
    /// The controller is told that the next data byte is for the mouse.
    Routing,
    /// The command byte is sent.
    Sending,
    /// The mouse's answer is read.
    Receiving,
    /// The command was acknowledged, or the attempts ran out.
    Finished { acknowledged: bool },
}

/// A command to the mouse, between two steps.
pub struct Command {
    /// The command byte.
    pub command: u8,
    /// Attempts that failed.
    pub attempt: nat,
    /// Where the current attempt stands.
    pub phase: CommandPhase,
    /// The transfer under way.
    pub transfer: Exchange,
}

impl Command {
    /// A command of which nothing was sent yet.
    pub open spec fn fresh(command: u8) -> Command {
        Command {
            command,
            attempt: 0,
            phase: CommandPhase::Routing,
            transfer: Exchange::sending(PS2_CMD, PS2_CMD_WRITE_TO_SECOND_PORT),
        }
    }

    /// The command as it goes on with `transfer` in phase `phase`: the
    /// transfer's first step is taken at once.
    pub open spec fn begun(self, phase: CommandPhase, transfer: Exchange) -> (Command, Step<bool>) {
        (
            Command { phase, transfer: transfer.stepped(0).0, ..self },
            Step::Ask(Request::Read { port: PS2_STATUS }),
        )
    }

    /// The command and what it asks or gives after one step. An attempt is
    /// three transfers: the controller command that routes the next byte to
    /// the mouse, the command byte, and the read of the answer. The answer
    /// `MOUSE_RES_ACK` ends the command with success. Any other answer starts
    /// the next attempt, and after `COMMAND_ATTEMPTS` attempts ends the
    /// command with failure.
    pub open spec fn stepped(self, input: u8) -> (Command, Step<bool>) {
        let (transfer, step) = self.transfer.stepped(input);
        match (self.phase, step) {
            (CommandPhase::Finished { acknowledged }, _) => (self, Step::Done(acknowledged)),
            (_, Step::Ask(request)) => (Command { transfer, ..self }, Step::Ask(request)),
            (CommandPhase::Routing, Step::Done(_)) => self.begun(
                CommandPhase::Sending,
                Exchange::sending(PS2_DATA, self.command),
            ),
            (CommandPhase::Sending, Step::Done(_)) => self.begun(
                CommandPhase::Receiving,
                Exchange::receiving(),
            ),
            (CommandPhase::Receiving, Step::Done(answer)) => if answer == MOUSE_RES_ACK {
                (
                    Command { phase: CommandPhase::Finished { acknowledged: true }, transfer, ..self },
                    Step::Done(true),
                )
            } else if self.attempt + 1 < COMMAND_ATTEMPTS {
                (Command { attempt: self.attempt + 1, ..self }).begun(
                    CommandPhase::Routing,
                    Exchange::sending(PS2_CMD, PS2_CMD_WRITE_TO_SECOND_PORT),
                )
            } else {
                (
                    Command {
                        phase: CommandPhase::Finished { acknowledged: false },
                        transfer,
                        ..self
                    },
                    Step::Done(false),
                )
            },
        }
    }

    /// What holds of a command at any time.
    pub open spec fn well_formed(self) -> bool {
        &&& self.attempt < COMMAND_ATTEMPTS
        &&& self.transfer.well_formed()
        &&& self.phase is Finished || !(self.transfer.stage is Finished)
    }

    /// Transfers that an unfinished command may still start after the one
    /// under way.
    pub open spec fn transfers_left(self) -> nat {
        let attempts_left = (COMMAND_ATTEMPTS - 1 - self.attempt) as nat;
        match self.phase {
            CommandPhase::Routing => 3 * attempts_left + 2,
            CommandPhase::Sending => 3 * attempts_left + 1,
            CommandPhase::Receiving => 3 * attempts_left,
            CommandPhase::Finished { .. } => 0,
        }
    }

    /// The largest number of steps the command can still take before it
    /// gives its result.
    pub open spec fn budget(self) -> nat {
        match self.phase {
            CommandPhase::Finished { .. } => 0,
            _ => self.transfer.budget() + self.transfers_left() * ((TRANSFER_STEPS - 1) as nat),
        }
    }
}

/// A command to the mouse.
#[derive(Clone, Copy)]
pub struct MouseCommand {
    command: u8,
    attempt: u8,
    phase: CommandPhase,
    transfer: Transfer,
}

impl View for MouseCommand {
    type V = Command;

    closed spec fn view(&self) -> Command {
        Command {
            command: self.command,
            attempt: self.attempt as nat,
            phase: self.phase,
            transfer: self.transfer@,
        }
    }
}

impl MouseCommand {
    #[verifier::type_invariant]
    spec fn inv(self) -> bool {
        self@.well_formed()
    }

    /// Takes one step: hands in the answer to what the step before asked,
    /// and says what to do next or whether the mouse acknowledged.
    pub fn step(&mut self, input: u8) -> (step: Step<bool>)
        ensures
            (final(self)@, step) == old(self)@.stepped(input),
            old(self)@.well_formed(),
            final(self)@.well_formed(),
            step is Ask ==> final(self)@.budget() < old(self)@.budget(),
    {
        proof {
            use_type_invariant(&*self);
            lemma_command_bounded(self@, input);
        }
        if let CommandPhase::Finished { acknowledged } = self.phase {
            return Step::Done(acknowledged);
        }
        let mut transfer = self.transfer;
        match transfer.step(input) {
            Step::Ask(request) => {
                self.transfer = transfer;
                Step::Ask(request)
            },
            Step::Done(answer) => match self.phase {
                CommandPhase::Routing => {
                    let mut next = ps2_send_data(self.command);
                    let request = begin(&mut next);
                    self.transfer = next;
                    self.phase = CommandPhase::Sending;
                    Step::Ask(request)
                },
                CommandPhase::Sending => {
                    let mut next = ps2_read_data();
                    let request = begin(&mut next);
                    self.transfer = next;
                    self.phase = CommandPhase::Receiving;
                    Step::Ask(request)
                },
                _ => if answer == MOUSE_RES_ACK {
                    self.phase = CommandPhase::Finished { acknowledged: true };
                    self.transfer = transfer;
                    Step::Done(true)
                } else if self.attempt + 1 < COMMAND_ATTEMPTS {
                    let mut next = ps2_send_command(PS2_CMD_WRITE_TO_SECOND_PORT);
                    let request = begin(&mut next);
                    self.transfer = next;
                    self.attempt = self.attempt + 1;
                    self.phase = CommandPhase::Routing;
                    Step::Ask(request)
                } else {
                    self.phase = CommandPhase::Finished { acknowledged: false };
                    self.transfer = transfer;
                    Step::Done(false)
                },
            },
        }
    }
}

/// The conversation that sends `command` to the mouse.
pub fn mouse_send_command(command: u8) -> (conversation: MouseCommand)
    ensures
        conversation@ == Command::fresh(command),
{
    MouseCommand {
        command,
        attempt: 0,
        phase: CommandPhase::Routing,
        transfer: ps2_send_command(PS2_CMD_WRITE_TO_SECOND_PORT),
    }
}

/// A command succeeds only on the mouse's acknowledgement: the step that ends
/// it with success is the one that takes the byte `MOUSE_RES_ACK` as the
/// answer read after the command byte.
pub proof fn lemma_success_needs_ack(command: Command, input: u8)
    requires
        command.well_formed(),
        !(command.phase is Finished),
        command.stepped(input).1 == Step::Done(true),
    ensures
        command.phase is Receiving,
        command.transfer.stage is Transferring,
        input == MOUSE_RES_ACK,
{
}

/// One step keeps a command well formed, and uses up budget as long as the
/// command is not done.
pub proof fn lemma_command_bounded(command: Command, input: u8)
    requires
        command.well_formed(),
    ensures
        command.stepped(input).0.well_formed(),
        command.stepped(input).1 is Ask ==> command.stepped(input).0.budget() < command.budget(),
        command.budget() <= COMMAND_STEPS,
{
    lemma_step_bounded(command.transfer, input);
    let after = command.stepped(input).0;
    assert(after.transfers_left() * (TRANSFER_STEPS - 1) == after.transfers_left() * 201);
    assert(command.transfers_left() * (TRANSFER_STEPS - 1) == command.transfers_left() * 201);
}

/// One entry of the bring-up sequence.
#[derive(Clone, Copy, Debug, PartialEq, Eq, Structural)]
pub enum Act {
    /// Send a command to the controller.
    Command(u8),
    /// Send a data byte to the controller.
    Data(u8),
    /// Read a data byte.
    Receive,
    /// Send a command to the mouse.
    Mouse(u8),
}

/// The configuration byte written back to the controller, given the one that
/// was read.
pub open spec fn new_config(config: u8) -> u8 {
    (config | 0x02) & 0x40
}

/// The bring-up sequence. `config` is the controller's configuration byte as
/// entry 2 read it.
pub open spec fn script(index: int, config: u8) -> Act {
    if index == 0 {
        Act::Command(PS2_CMD_DISABLE_SECOND_PORT)
    } else if index == 1 {
        Act::Command(PS2_CMD_READ_CONFIG)
    } else if index == 2 {
        Act::Receive
    } else if index == 3 {
        Act::Command(PS2_CMD_WRITE_CONFIG)
    } else if index == 4 {
        Act::Data(new_config(config))
    } else if index == 5 {
        Act::Command(PS2_CMD_TEST_SECOND_PORT)
    } else if index == 6 {
        Act::Receive
    } else if index == 7 {
        Act::Command(PS2_CMD_ENABLE_SECOND_PORT)
    } else if index == 8 {
        Act::Mouse(MOUSE_CMD_RESET)
    } else if index == 9 {
        Act::Receive
    } else if index == 10 {
        Act::Receive
    } else if index == 11 {
        Act::Mouse(MOUSE_CMD_SET_DEFAULTS)
    } else {
        Act::Mouse(MOUSE_CMD_ENABLE_DATA_REPORTING)
    }
}

/// Whether the bring-up goes on after entry `index` gave `value`; a command to
/// the mouse gives 1 when it was acknowledged and 0 when it was not. The test
/// of the second port must pass, the reset must be acknowledged, and the
/// mouse's self test must pass; nothing else is checked.
pub open spec fn passes(index: int, value: u8) -> bool {
    if index == 6 {
        value == PORT_TEST_PASSED
    } else if index == 8 {
        value != 0
    } else if index == 9 {
        value == MOUSE_RES_SELF_TEST_PASSED
    } else {
        true
    }
}

/// The conversation of one entry, between two steps.
pub enum Talk {
    /// A transfer with the controller.
    Plain(Exchange),
    /// A command to the mouse.
    Mouse(Command),
}

impl Talk {
    /// The conversation of an entry, before its first step.
    pub open spec fn of(act: Act) -> Talk {
        match act {
            Act::Command(command) => Talk::Plain(Exchange::sending(PS2_CMD, command)),
            Act::Data(data) => Talk::Plain(Exchange::sending(PS2_DATA, data)),
            Act::Receive => Talk::Plain(Exchange::receiving()),
            Act::Mouse(command) => Talk::Mouse(Command::fresh(command)),
        }
    }

    /// The conversation and what it asks or gives after one step.
    pub open spec fn stepped(self, input: u8) -> (Talk, Step<u8>) {
        match self {
            Talk::Plain(exchange) => (
                Talk::Plain(exchange.stepped(input).0),
                exchange.stepped(input).1,
            ),
            Talk::Mouse(command) => (
                Talk::Mouse(command.stepped(input).0),
                match command.stepped(input).1 {
                    Step::Ask(request) => Step::Ask(request),
                    Step::Done(acknowledged) => Step::Done(
                        if acknowledged {
                            1u8
                        } else {
                            0u8
                        },
                    ),
                },
            ),
        }
    }

    /// What holds of the conversation of an entry while the entry runs.
    pub open spec fn unfinished(self) -> bool {
        match self {
            Talk::Plain(exchange) => exchange.well_formed() && !(exchange.stage is Finished),
            Talk::Mouse(command) => command.well_formed() && !(command.phase is Finished),
        }
    }

    /// The largest number of steps the conversation can still take before it
    /// gives its result.
    pub open spec fn budget(self) -> nat {
        match self {
            Talk::Plain(exchange) => exchange.budget(),
            Talk::Mouse(command) => command.budget(),
        }
    }
}

/// The largest number of steps that entry `index` of the sequence takes after
/// the step that starts it.
pub open spec fn entry_steps(index: int) -> nat {
    match script(index, 0) {
        Act::Mouse(_) => (COMMAND_STEPS - 1) as nat,
        _ => (TRANSFER_STEPS - 1) as nat,
    }
}

/// The largest number of steps that the entries after entry `index` take.
pub open spec fn steps_after(index: int) -> nat
    decreases SCRIPT_LENGTH - index,
{
    if index + 1 >= SCRIPT_LENGTH {
        0
    } else {
        entry_steps(index + 1) + steps_after(index + 1)
    }
}

/// Where the bring-up stands.
#[derive(Clone, Copy, Debug, PartialEq, Eq, Structural)]
pub enum SetupStage {
    /// Nothing was asked yet.
    Start,
    /// Entry `index` of the sequence runs.
    Script { index: u8 },
    /// The sequence is over; what remains is being asked.
    Closing,
    /// The bring-up is over.
    Finished,
}

/// The bring-up of the mouse, between two steps.
pub struct Setup {
    /// Where the bring-up stands.
    pub stage: SetupStage,
    /// The controller's configuration byte, once it was read.
    pub config: u8,
    /// The conversation of the entry that runs.
    pub talk: Talk,
    /// What remains to be asked once the sequence is over.
    pub closing: Seq<Request>,
    /// Whether the mouse is up.
    pub ok: bool,
}

impl Setup {
    /// The bring-up before its first step.
    pub open spec fn fresh() -> Setup {
        Setup {
            stage: SetupStage::Start,
            config: 0,
            talk: Talk::of(script(0, 0)),
            closing: Seq::empty(),
            ok: false,
        }
    }

    /// The bring-up and what it asks or gives after one step; `pics` is the
    /// programming of the interrupt controllers at that time.
    ///
    /// Interrupts are turned off first. Then the entries of the sequence run
    /// one after the other. An entry that does not pass ends the bring-up
    /// with failure: interrupts are turned on again, and the result is
    /// `false`. After the last entry the mouse's interrupt is let through,
    /// interrupts are turned on again, and the result is `true`.
    pub open spec fn stepped(self, input: u8, pics: Pics) -> (Setup, Step<bool>) {
        match self.stage {
            SetupStage::Start => (
                Setup { stage: SetupStage::Script { index: 0 }, ..self },
                Step::Ask(Request::DisableInterrupts),
            ),
            SetupStage::Script { index } => {
                let (talk, step) = self.talk.stepped(input);
                match step {
                    Step::Ask(request) => (Setup { talk, ..self }, Step::Ask(request)),
                    Step::Done(value) => {
                        let config = if index == 2 {
                            value
                        } else {
                            self.config
                        };
                        if !passes(index as int, value) {
                            (
                                Setup {
                                    stage: SetupStage::Closing,
                                    config,
                                    talk,
                                    closing: Seq::empty(),
                                    ok: false,
                                },
                                Step::Ask(Request::EnableInterrupts),
                            )
                        } else if index + 1 < SCRIPT_LENGTH {
                            (
                                Setup {
                                    stage: SetupStage::Script { index: (index + 1) as u8 },
                                    config,
                                    talk: Talk::of(script(index + 1, config)).stepped(0).0,
                                    ..self
                                },
                                Step::Ask(Request::Read { port: PS2_STATUS }),
                            )
                        } else {
                            let plan = unmask_plan(pics.unmasked(MOUSE_LINE), MOUSE_LINE);
                            (
                                Setup {
                                    stage: SetupStage::Closing,
                                    config,
                                    talk,
                                    closing: plan.skip(1).push(Request::EnableInterrupts),
                                    ok: true,
                                },
                                Step::Ask(plan[0]),
                            )
                        }
                    },
                }
            },
            SetupStage::Closing => if self.closing.len() > 0 {
                (Setup { closing: self.closing.skip(1), ..self }, Step::Ask(self.closing[0]))
            } else {
                (Setup { stage: SetupStage::Finished, ..self }, Step::Done(self.ok))
            },
            SetupStage::Finished => (self, Step::Done(self.ok)),
        }
    }

    /// Whether the step that takes `input` is the one on which the last entry
    /// of the sequence ends.
    pub open spec fn completes(self, input: u8) -> bool {
        &&& self.stage == (SetupStage::Script { index: (SCRIPT_LENGTH - 1) as u8 })
        &&& self.talk.stepped(input).1 is Done
    }

    /// What holds of a bring-up at any time.
    pub open spec fn well_formed(self) -> bool {
        match self.stage {
            SetupStage::Start => self.talk == Talk::of(script(0, 0)),
            SetupStage::Script { index } => index < SCRIPT_LENGTH && self.talk.unfinished(),
            SetupStage::Closing => self.closing.len() <= CLOSING_STEPS && (self.closing.len() == 0
                || self.closing.last() == Request::EnableInterrupts),
            SetupStage::Finished => true,
        }
    }

    /// The largest number of steps the bring-up can still take before it
    /// gives its result.
    pub open spec fn budget(self) -> nat {
        match self.stage {
            SetupStage::Start => SETUP_STEPS as nat,
            SetupStage::Script { index } => self.talk.budget() + steps_after(index as int)
                + CLOSING_STEPS as nat + 1,
            SetupStage::Closing => self.closing.len() + 1,
            SetupStage::Finished => 0,
        }
    }
}

/// The conversation of one entry.
#[derive(Clone, Copy)]
pub enum Dialogue {
    /// A transfer with the controller.
    Plain(Transfer),
    /// A command to the mouse.
    Mouse(MouseCommand),
}

impl View for Dialogue {
    type V = Talk;

    open spec fn view(&self) -> Talk {
        match *self {
            Dialogue::Plain(transfer) => Talk::Plain(transfer@),
            Dialogue::Mouse(command) => Talk::Mouse(command@),
        }
    }
}

impl Dialogue {
    /// The conversation of entry `index` of the sequence, before its first
    /// step.
    fn of(index: u8, config: u8) -> (dialogue: Dialogue)
        requires
            index < SCRIPT_LENGTH,
        ensures
            dialogue@ == Talk::of(script(index as int, config)),
    {
        if index == 0 {
            Dialogue::Plain(ps2_send_command(PS2_CMD_DISABLE_SECOND_PORT))
        } else if index == 1 {
            Dialogue::Plain(ps2_send_command(PS2_CMD_READ_CONFIG))
        } else if index == 2 {
            Dialogue::Plain(ps2_read_data())
        } else if index == 3 {
            Dialogue::Plain(ps2_send_command(PS2_CMD_WRITE_CONFIG))
        } else if index == 4 {
            Dialogue::Plain(ps2_send_data((config | 0x02) & 0x40))
        } else if index == 5 {
            Dialogue::Plain(ps2_send_command(PS2_CMD_TEST_SECOND_PORT))
        } else if index == 6 {
            Dialogue::Plain(ps2_read_data())
        } else if index == 7 {
            Dialogue::Plain(ps2_send_command(PS2_CMD_ENABLE_SECOND_PORT))
        } else if index == 8 {
            Dialogue::Mouse(mouse_send_command(MOUSE_CMD_RESET))
        } else if index == 9 {
            Dialogue::Plain(ps2_read_data())
        } else if index == 10 {
            Dialogue::Plain(ps2_read_data())
        } else if index == 11 {
            Dialogue::Mouse(mouse_send_command(MOUSE_CMD_SET_DEFAULTS))
        } else {
            Dialogue::Mouse(mouse_send_command(MOUSE_CMD_ENABLE_DATA_REPORTING))
        }
    }

    /// Takes one step of the conversation.
    fn step(&mut self, input: u8) -> (step: Step<u8>)
        ensures
            (final(self)@, step) == old(self)@.stepped(input),
            step is Ask ==> final(self)@.unfinished(),
    {
        match self {
            Dialogue::Plain(transfer) => transfer.step(input),
            Dialogue::Mouse(command) => {
                match command.step(input) {
                    Step::Ask(request) => Step::Ask(request),
                    Step::Done(acknowledged) => Step::Done(
                        if acknowledged {
                            1u8
                        } else {
                            0u8
                        },
                    ),
                }
            },
        }
    }
}

/// Whether the bring-up goes on after entry `index` gave `value`.
fn entry_passes(index: u8, value: u8) -> (result: bool)
    ensures
        result == passes(index as int, value),
{
    if index == 6 {
        value == PORT_TEST_PASSED
    } else if index == 8 {
        value != 0
    } else if index == 9 {
        value == MOUSE_RES_SELF_TEST_PASSED
    } else {
        true
    }
}

/// The bring-up of the mouse.
pub struct MouseInit {
    stage: SetupStage,
    config: u8,
    talk: Dialogue,
    closing: Vec<Request>,
    sent: usize,
    ok: bool,
}

impl View for MouseInit {
    type V = Setup;

    closed spec fn view(&self) -> Setup {
        Setup {
            stage: self.stage,
            config: self.config,
            talk: self.talk@,
            closing: self.closing@.skip(self.sent as int),
            ok: self.ok,
        }
    }
}

impl MouseInit {
    #[verifier::type_invariant]
    spec fn inv(self) -> bool {
        &&& self.sent <= self.closing@.len()
        &&& self@.well_formed()
    }

    /// Takes one step: hands in the answer to what the step before asked,
    /// and says what to do next or whether the mouse is up. On the step that
    /// ends the sequence the pointer is centred on `mouse` and the mouse's
    /// interrupt is let through on `pic`; no other step touches them.
    pub fn step(&mut self, input: u8, mouse: &mut MouseState, pic: &mut PicState) -> (step: Step<
        bool,
    >)
        ensures
            (final(self)@, step) == old(self)@.stepped(input, old(pic)@),
            old(self)@.well_formed(),
            final(self)@.well_formed(),
            step is Ask ==> final(self)@.budget() < old(self)@.budget(),
            final(mouse)@ == if old(self)@.completes(input) {
                old(mouse)@.centered()
            } else {
                old(mouse)@
            },
            final(pic)@ == if old(self)@.completes(input) {
                old(pic)@.unmasked(MOUSE_LINE)
            } else {
                old(pic)@
            },
    {
        proof {
            use_type_invariant(&*self);
            lemma_setup_bounded(self@, input, pic@);
        }
        match self.stage {
            SetupStage::Start => {
                self.stage = SetupStage::Script { index: 0 };
                Step::Ask(Request::DisableInterrupts)
            },
            SetupStage::Script { index } => {
                let mut talk = self.talk;
                match talk.step(input) {
                    Step::Ask(request) => {
                        self.talk = talk;
                        Step::Ask(request)
                    },
                    Step::Done(value) => {
                        if index == 2 {
                            self.config = value;
                        }
                        if !entry_passes(index, value) {
                            self.sent = 0;
                            self.closing = Vec::new();
                            self.ok = false;
                            self.stage = SetupStage::Closing;
                            self.talk = talk;
                            assert(self@.closing =~= Seq::<Request>::empty());
                            Step::Ask(Request::EnableInterrupts)
                        } else if index + 1 < SCRIPT_LENGTH {
                            let mut next = Dialogue::of(index + 1, self.config);
                            let _ = next.step(0);
                            self.talk = next;
                            self.stage = SetupStage::Script { index: index + 1 };
                            Step::Ask(Request::Read { port: PS2_STATUS })
                        } else {
                            mouse.reset();
                            let mut plan = setup_mouse_interrupt(pic);
                            let first = plan[0];
                            plan.push(Request::EnableInterrupts);
                            self.sent = 0;
                            self.closing = plan;
                            self.sent = 1;
                            self.ok = true;
                            self.stage = SetupStage::Closing;
                            self.talk = talk;
                            assert(self@.closing =~= unmask_plan(
                                old(pic)@.unmasked(MOUSE_LINE),
                                MOUSE_LINE,
                            ).skip(1).push(Request::EnableInterrupts));
                            Step::Ask(first)
                        }
                    },
                }
            },
            SetupStage::Closing => {
                if self.sent < self.closing.len() {
                    let request = self.closing[self.sent];
                    self.sent = self.sent + 1;
                    assert(self@.closing =~= old(self)@.closing.skip(1));
                    Step::Ask(request)
                } else {
                    self.stage = SetupStage::Finished;
                    Step::Done(self.ok)
                }
            },
            SetupStage::Finished => Step::Done(self.ok),
        }
    }
}

/// The conversation that brings up the mouse.
pub fn init_mouse() -> (conversation: MouseInit)
    ensures
        conversation@ == Setup::fresh(),
{
    let conversation = MouseInit {
        stage: SetupStage::Start,
        config: 0,
        talk: Dialogue::of(0, 0),
        closing: Vec::new(),
        sent: 0,
        ok: false,
    };
    assert(conversation@.closing =~= Seq::<Request>::empty());
    conversation
}

/// The bring-up never gives its result with interrupts off: the request
/// before the result is the one that turns them on again.
pub proof fn lemma_interrupts_back_on(setup: Setup, input: u8, pics: Pics)
    requires
        setup.well_formed(),
    ensures
        setup.stepped(input, pics).0.well_formed(),
        setup.stepped(input, pics).0.stage is Closing && setup.stepped(input, pics).0.closing.len()
            == 0 ==> setup.stepped(input, pics).1 == Step::<bool>::Ask(Request::EnableInterrupts),
        setup.stepped(input, pics).1 is Done ==> (setup.stage is Closing && setup.closing.len()
            == 0) || setup.stage is Finished,
{
    if let SetupStage::Script { index } = setup.stage {
        lemma_talk_unfinished(setup.talk, input);
        if setup.talk.stepped(input).1 is Done {
            let value = setup.talk.stepped(input).1->Done_0;
            let config = if index == 2 {
                value
            } else {
                setup.config
            };
            lemma_fresh_talk(script(index + 1, config));
        }
    }
}

/// Whatever the controller and the mouse answer, the bring-up comes to an
/// end: one step keeps it well formed, and uses up budget as long as the
/// bring-up is not done. It starts with a budget of `SETUP_STEPS`.
pub proof fn lemma_setup_bounded(setup: Setup, input: u8, pics: Pics)
    requires
        setup.well_formed(),
    ensures
        setup.stepped(input, pics).0.well_formed(),
        setup.stepped(input, pics).1 is Ask ==> setup.stepped(input, pics).0.budget()
            < setup.budget(),
        Setup::fresh().well_formed(),
        Setup::fresh().budget() == SETUP_STEPS,
{
    lemma_interrupts_back_on(setup, input, pics);
    match setup.stage {
        SetupStage::Start => {
            lemma_fresh_talk(script(0, 0));
            reveal_with_fuel(steps_after, 13);
            assert(steps_after(0) == 9 * (TRANSFER_STEPS - 1) + 3 * (COMMAND_STEPS - 1));
        },
        SetupStage::Script { index } => {
            lemma_talk_unfinished(setup.talk, input);
            if setup.talk.stepped(input).1 is Done {
                let value = setup.talk.stepped(input).1->Done_0;
                let config = if index == 2 {
                    value
                } else {
                    setup.config
                };
                lemma_fresh_talk(script(index + 1, config));
            }
        },
        _ => {},
    }
}

/// A conversation that asks for more is not over, and has used up budget;
/// one that gives its result had budget left.
proof fn lemma_talk_unfinished(talk: Talk, input: u8)
    requires
        talk.unfinished(),
    ensures
        talk.stepped(input).1 is Ask ==> talk.stepped(input).0.unfinished(),
        talk.stepped(input).1 is Ask ==> talk.stepped(input).0.budget() < talk.budget(),
        talk.stepped(input).1 is Done ==> talk.budget() >= 1,
{
    match talk {
        Talk::Plain(exchange) => {
            lemma_step_bounded(exchange, input);
        },
        Talk::Mouse(command) => {
            lemma_command_bounded(command, input);
            lemma_step_bounded(command.transfer, input);
        },
    }
}

/// The first step of every entry asks for the status port, and leaves the
/// entry with the budget of its kind.
proof fn lemma_fresh_talk(act: Act)
    ensures
        Talk::of(act).unfinished(),
        Talk::of(act).stepped(0).1 == Step::<u8>::Ask(Request::Read { port: PS2_STATUS }),
        Talk::of(act).stepped(0).0.unfinished(),
        Talk::of(act).budget() == Talk::of(act).stepped(0).0.budget() + 1,
        Talk::of(act).stepped(0).0.budget() == match act {
            Act::Mouse(_) => (COMMAND_STEPS - 1) as nat,
            _ => (TRANSFER_STEPS - 1) as nat,
        },
{
    if let Act::Mouse(command) = act {
        let begun = Command::fresh(command).stepped(0).0;
        assert(begun.transfers_left() == 8);
        assert(begun.transfers_left() * (TRANSFER_STEPS - 1) == 8 * 201);
        assert(Command::fresh(command).transfers_left() * (TRANSFER_STEPS - 1) == 8 * 201);
    }
}

} // verus!
