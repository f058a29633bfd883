//! The protocol driver: one command at a time, encode, write, read, decode.
//!
//! The driver does no I/O. Each step hands its caller an `Action`: bytes to
//! write, a number of bytes to read, or the finished outcome. The caller does
//! the work on the serial link and reports back with `on_written` or
//! `on_received`. Nothing is retried, and a fault ends the exchange.
use vstd::prelude::*;

use crate::codec::{decode, decode_reply, encode, frame, outcome_view};
use crate::command::{
    expects_reply, reply_capacity, sends, Command, CommandView, Response, ResponseView,
};
use crate::error::{Csr8645Error, UartFault};

verus! {

/// What the driver asks its caller to do next.
#[derive(Debug, PartialEq, Eq)]
pub enum Action {
    /// Write these bytes to the serial link.
    Write(Vec<u8>),
    /// Read up to this many bytes from the serial link.
    Read(usize),
    /// The exchange is over, with this outcome.
    Finish(Result<Response, Csr8645Error>),
}

/// The mathematical value of an `Action`.
pub enum ActionView {
    Write(Seq<u8>),
    Read(nat),
    Finish(Result<ResponseView, Csr8645Error>),
}

impl View for Action {
    type V = ActionView;

    open spec fn view(&self) -> ActionView {
        match self {
            Action::Write(b) => ActionView::Write(b@),
            Action::Read(n) => ActionView::Read(*n as nat),
            Action::Finish(r) => ActionView::Finish(outcome_view(*r)),
        }
    }
}

/// Where the driver stands in an exchange.
pub enum StageView {
    /// No command is outstanding.
    Idle,
    /// The command's frame is being written.
    Sending(CommandView),
    /// The command's reply is being read.
    Receiving(CommandView),
}

/// A result received from the serial link, as a value.
pub open spec fn received_view(r: Result<Vec<u8>, UartFault>) -> Result<Seq<u8>, UartFault> {
    match r {
        Ok(b) => Ok(b@),
        Err(f) => Err(f),
    }
}

/// The stage and first action once command `c` is issued: its frame is
/// written, unless it only receives.
pub open spec fn start_step(c: CommandView) -> (StageView, ActionView) {
    if sends(c) {
        (StageView::Sending(c), ActionView::Write(frame(c)))
    } else {
        (StageView::Receiving(c), ActionView::Read(reply_capacity(c)))
    }
}

/// The stage and action once the frame of `c` has been written, or the write
/// failed. A failed write ends the exchange with the fault, and nothing is read.
pub open spec fn written_step(c: CommandView, outcome: Result<(), UartFault>) -> (
    StageView,
    ActionView,
) {
    match outcome {
        Err(f) => (StageView::Idle, ActionView::Finish(Err(Csr8645Error::UartError(f)))),
        Ok(_) => if expects_reply(c) {
            (StageView::Receiving(c), ActionView::Read(reply_capacity(c)))
        } else {
            (StageView::Idle, ActionView::Finish(Ok(ResponseView::Unit)))
        },
    }
}

/// The stage and action once the reply to `c` has been read, or the read
/// failed: the exchange ends either way.
pub open spec fn received_step(c: CommandView, outcome: Result<Seq<u8>, UartFault>) -> (
    StageView,
    ActionView,
) {
    match outcome {
        Err(f) => (StageView::Idle, ActionView::Finish(Err(Csr8645Error::UartError(f)))),
        Ok(raw) => (StageView::Idle, ActionView::Finish(decode_reply(c, raw))),
    }
}

/// The driver of one CSR8645 module. It owns no link: whoever holds it does
/// the writes and reads it asks for, one exchange at a time.
pub struct Csr8645 {
    /// The outstanding command, if any.
    pending: Option<Command>,
    /// Whether the outstanding command's frame has gone out and its reply is
    /// awaited.
    receiving: bool,
}

impl View for Csr8645 {
    type V = StageView;

    closed spec fn view(&self) -> StageView {
        match self.pending {
            None => StageView::Idle,
            Some(c) => if self.receiving {
                StageView::Receiving(c@)
            } else {
                StageView::Sending(c@)
            },
        }
    }
}

impl Csr8645 {
    /// A driver with no command outstanding.
    pub fn new() -> (r: Result<Csr8645, Csr8645Error>)
        ensures
            r matches Ok(d) && d@ == StageView::Idle,
    {
        Ok(Csr8645 { pending: None, receiving: false })
    }

    /// Whether no command is outstanding.
    pub fn is_idle(&self) -> (r: bool)
        ensures
            r == (self@ == StageView::Idle),
    {
        self.pending.is_none()
    }

    /// Starts the exchange for `command`.
    pub fn issue(&mut self, command: Command) -> (a: Action)
        requires
            old(self)@ == StageView::Idle,
        ensures
            (final(self)@, a@) == start_step(command@),
    {
        if command.sends() {
            let bytes = encode(&command);
            self.pending = Some(command);
            self.receiving = false;
            Action::Write(bytes)
        } else {
            let n = command.reply_capacity();
            self.pending = Some(command);
            self.receiving = true;
            Action::Read(n)
        }
    }

    /// Takes the outcome of the write that was asked for.
    pub fn on_written(&mut self, outcome: Result<(), UartFault>) -> (a: Action)
        requires
            old(self)@ is Sending,
        ensures
            (final(self)@, a@) == written_step(old(self)@->Sending_0, outcome),
    {
        match self.pending.take() {
            Some(command) => match outcome {
                Err(f) => Action::Finish(Err(Csr8645Error::UartError(f))),
                Ok(()) => if command.expects_reply() {
                    let n = command.reply_capacity();
                    self.pending = Some(command);
                    self.receiving = true;
                    Action::Read(n)
                } else {
                    Action::Finish(Ok(Response::Unit))
                },
            },
            None => Action::Finish(Ok(Response::Unit)),
        }
    }

    /// Takes the outcome of the read that was asked for: the bytes received,
    /// or the fault.
    pub fn on_received(&mut self, outcome: Result<Vec<u8>, UartFault>) -> (a: Action)
        requires
            old(self)@ is Receiving,
        ensures
            (final(self)@, a@) == received_step(old(self)@->Receiving_0, received_view(outcome)),
    {
        self.receiving = false;
        match self.pending.take() {
            Some(command) => match outcome {
                Err(f) => Action::Finish(Err(Csr8645Error::UartError(f))),
                Ok(raw) => Action::Finish(decode(&command, raw.as_slice())),
            },
            None => Action::Finish(Ok(Response::Unit)),
        }
    }

    /// Sets the name the module advertises. Starts the exchange; see `issue`.
    pub fn set_name(&mut self, name: &str) -> (a: Action)
        requires
            old(self)@ == StageView::Idle,
        ensures
            (final(self)@, a@) == start_step(CommandView::SetName(name@)),
    {
        self.issue(Command::SetName(name.to_owned()))
    }

    /// Asks for the module's name. Starts the exchange; see `issue`.
    pub fn get_name(&mut self) -> (a: Action)
        requires
            old(self)@ == StageView::Idle,
        ensures
            (final(self)@, a@) == start_step(CommandView::GetName),
    {
        self.issue(Command::GetName)
    }

    /// Sets the pairing PIN. Starts the exchange; see `issue`.
    pub fn set_pin(&mut self, pin: &str) -> (a: Action)
        requires
            old(self)@ == StageView::Idle,
        ensures
            (final(self)@, a@) == start_step(CommandView::SetPin(pin@)),
    {
        self.issue(Command::SetPin(pin.to_owned()))
    }

    /// Asks for the pairing PIN. Starts the exchange; see `issue`.
    pub fn get_pin(&mut self) -> (a: Action)
        requires
            old(self)@ == StageView::Idle,
        ensures
            (final(self)@, a@) == start_step(CommandView::GetPin),
    {
        self.issue(Command::GetPin)
    }

    /// Sets the serial baud rate. Starts the exchange; see `issue`.
    pub fn set_baudrate(&mut self, baudrate: u32) -> (a: Action)
        requires
            old(self)@ == StageView::Idle,
        ensures
            (final(self)@, a@) == start_step(CommandView::SetBaudrate(baudrate)),
    {
        self.issue(Command::SetBaudrate(baudrate))
    }

    /// Asks for the serial baud rate. Starts the exchange; see `issue`.
    pub fn get_baudrate(&mut self) -> (a: Action)
        requires
            old(self)@ == StageView::Idle,
        ensures
            (final(self)@, a@) == start_step(CommandView::GetBaudrate),
    {
        self.issue(Command::GetBaudrate)
    }

    /// Connects to the device at `address`. Starts the exchange; see `issue`.
    pub fn connect(&mut self, address: &str) -> (a: Action)
        requires
            old(self)@ == StageView::Idle,
        ensures
            (final(self)@, a@) == start_step(CommandView::Connect(address@)),
    {
        self.issue(Command::Connect(address.to_owned()))
    }

    /// Drops the current link. Starts the exchange; see `issue`.
    pub fn disconnect(&mut self) -> (a: Action)
        requires
            old(self)@ == StageView::Idle,
        ensures
            (final(self)@, a@) == start_step(CommandView::Disconnect),
    {
        self.issue(Command::Disconnect)
    }

    /// Asks whether a link is up. Starts the exchange; see `issue`.
    pub fn check_connection_status(&mut self) -> (a: Action)
        requires
            old(self)@ == StageView::Idle,
        ensures
            (final(self)@, a@) == start_step(CommandView::CheckConnectionStatus),
    {
        self.issue(Command::CheckConnectionStatus)
    }

    /// Asks for the addresses of the devices in range. Starts the exchange; see `issue`.
    pub fn scan(&mut self) -> (a: Action)
        requires
            old(self)@ == StageView::Idle,
        ensures
            (final(self)@, a@) == start_step(CommandView::Scan),
    {
        self.issue(Command::Scan)
    }

    /// Streams `data` to the connected device. Starts the exchange; see `issue`.
    pub fn send_data(&mut self, data: &[u8]) -> (a: Action)
        requires
            old(self)@ == StageView::Idle,
        ensures
            (final(self)@, a@) == start_step(CommandView::SendData(data@)),
    {
        self.issue(Command::SendData(vstd::slice::slice_to_vec(data)))
    }

    /// Receives up to `max_len` bytes from the connected device. Starts the exchange; see `issue`.
    pub fn receive_data(&mut self, max_len: usize) -> (a: Action)
        requires
            old(self)@ == StageView::Idle,
        ensures
            (final(self)@, a@) == start_step(CommandView::ReceiveData(max_len as nat)),
    {
        self.issue(Command::ReceiveData(max_len))
    }

    /// Streams audio bytes to the module. Starts the exchange; see `issue`.
    pub fn play_audio(&mut self, data: &[u8]) -> (a: Action)
        requires
            old(self)@ == StageView::Idle,
        ensures
            (final(self)@, a@) == start_step(CommandView::PlayAudio(data@)),
    {
        self.issue(Command::PlayAudio(vstd::slice::slice_to_vec(data)))
    }

    /// Receives up to `max_len` audio bytes. Starts the exchange; see `issue`.
    pub fn receive_audio(&mut self, max_len: usize) -> (a: Action)
        requires
            old(self)@ == StageView::Idle,
        ensures
            (final(self)@, a@) == start_step(CommandView::ReceiveAudio(max_len as nat)),
    {
        self.issue(Command::ReceiveAudio(max_len))
    }

    /// Asks for the module's state. Starts the exchange; see `issue`.
    pub fn get_status(&mut self) -> (a: Action)
        requires
            old(self)@ == StageView::Idle,
        ensures
            (final(self)@, a@) == start_step(CommandView::GetStatus),
    {
        self.issue(Command::GetStatus)
    }

    /// Turns status notifications on or off. Starts the exchange; see `issue`.
    pub fn set_notifications(&mut self, enable: bool) -> (a: Action)
        requires
            old(self)@ == StageView::Idle,
        ensures
            (final(self)@, a@) == start_step(CommandView::SetNotifications(enable)),
    {
        self.issue(Command::SetNotifications(enable))
    }
}

} // verus!
