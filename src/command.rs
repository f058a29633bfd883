//! The commands the module understands and the replies they produce.
use vstd::prelude::*;

verus! {

/// One operation of the module, with its parameters.
#[derive(Clone, Debug, PartialEq, Eq)]
pub enum Command {
    /// Sets the name the module advertises.
    SetName(String),
    /// Asks for the module's name.
    GetName,
    /// Sets the pairing PIN.
    SetPin(String),
    /// Asks for the pairing PIN.
    GetPin,
    /// Sets the serial baud rate.
    SetBaudrate(u32),
    /// Asks for the serial baud rate.
    GetBaudrate,
    /// Connects to the device with the given address.
    Connect(String),
    /// Drops the current link.
    Disconnect,
    /// Asks whether a link is up.
    CheckConnectionStatus,
    /// Asks for the addresses of the devices in range.
    Scan,
    /// Streams bytes to the connected device.
    SendData(Vec<u8>),
    /// Receives up to the given number of bytes from the connected device.
    ReceiveData(usize),
    /// Streams audio bytes to the module.
    PlayAudio(Vec<u8>),
    /// Receives up to the given number of audio bytes.
    ReceiveAudio(usize),
    /// Asks for the module's state.
    GetStatus,
    /// Turns status notifications on or off.
    SetNotifications(bool),
}

/// The mathematical value of a `Command`.
pub enum CommandView {
    SetName(Seq<char>),
    GetName,
    SetPin(Seq<char>),
    GetPin,
    SetBaudrate(u32),
    GetBaudrate,
    Connect(Seq<char>),
    Disconnect,
    CheckConnectionStatus,
    Scan,
    SendData(Seq<u8>),
    ReceiveData(nat),
    PlayAudio(Seq<u8>),
    ReceiveAudio(nat),
    GetStatus,
    SetNotifications(bool),
}

impl View for Command {
    type V = CommandView;

    open spec fn view(&self) -> CommandView {
        match self {
            Command::SetName(n) => CommandView::SetName(n@),
            Command::GetName => CommandView::GetName,
            Command::SetPin(p) => CommandView::SetPin(p@),
            Command::GetPin => CommandView::GetPin,
            Command::SetBaudrate(b) => CommandView::SetBaudrate(*b),
            Command::GetBaudrate => CommandView::GetBaudrate,
            Command::Connect(a) => CommandView::Connect(a@),
            Command::Disconnect => CommandView::Disconnect,
            Command::CheckConnectionStatus => CommandView::CheckConnectionStatus,
            Command::Scan => CommandView::Scan,
            Command::SendData(d) => CommandView::SendData(d@),
            Command::ReceiveData(n) => CommandView::ReceiveData(*n as nat),
            Command::PlayAudio(d) => CommandView::PlayAudio(d@),
            Command::ReceiveAudio(n) => CommandView::ReceiveAudio(*n as nat),
            Command::GetStatus => CommandView::GetStatus,
            Command::SetNotifications(e) => CommandView::SetNotifications(*e),
        }
    }
}

/// A decoded reply; each command has exactly one shape of reply.
#[derive(Clone, Debug, PartialEq, Eq)]
pub enum Response {
    /// The command has no informative reply.
    Unit,
    /// A yes-or-no answer.
    Bool(bool),
    /// A number.
    U32(u32),
    /// Text, as the module sent it.
    Text(String),
    /// Device addresses, one per line of the reply.
    AddressList(Vec<String>),
    /// Raw bytes, as received.
    Bytes(Vec<u8>),
}

/// The mathematical value of a `Response`.
pub enum ResponseView {
    Unit,
    Bool(bool),
    U32(u32),
    Text(Seq<char>),
    AddressList(Seq<Seq<char>>),
    Bytes(Seq<u8>),
}

impl View for Response {
    type V = ResponseView;

    open spec fn view(&self) -> ResponseView {
        match self {
            Response::Unit => ResponseView::Unit,
            Response::Bool(b) => ResponseView::Bool(*b),
            Response::U32(v) => ResponseView::U32(*v),
            Response::Text(t) => ResponseView::Text(t@),
            Response::AddressList(l) => ResponseView::AddressList(
                crate::text::string_views(l@),
            ),
            Response::Bytes(b) => ResponseView::Bytes(b@),
        }
    }
}

/// True of the commands that put something on the wire before any reply:
/// all but the two that only receive.
pub open spec fn sends(c: CommandView) -> bool {
    !(c is ReceiveData || c is ReceiveAudio)
}

/// True of the commands whose reply is read back after they are sent.
pub open spec fn expects_reply(c: CommandView) -> bool {
    match c {
        CommandView::GetName | CommandView::GetPin | CommandView::GetBaudrate
        | CommandView::CheckConnectionStatus | CommandView::Scan | CommandView::ReceiveData(_)
        | CommandView::ReceiveAudio(_) | CommandView::GetStatus => true,
        _ => false,
    }
}

/// The size of the buffer that receives a command's reply: 512 bytes for a
/// device scan, what the caller asked for in a bulk receive, 64 bytes else.
pub open spec fn reply_capacity(c: CommandView) -> nat {
    match c {
        CommandView::Scan => 512,
        CommandView::ReceiveData(n) => n,
        CommandView::ReceiveAudio(n) => n,
        _ => 64,
    }
}

impl Command {
    /// Whether the command puts something on the wire.
    pub fn sends(&self) -> (r: bool)
        ensures
            r == sends(self@),
    {
        match self {
            Command::ReceiveData(_) | Command::ReceiveAudio(_) => false,
            _ => true,
        }
    }

    /// Whether a reply is read back after the command is sent.
    pub fn expects_reply(&self) -> (r: bool)
        ensures
            r == expects_reply(self@),
    {
        match self {
            Command::GetName | Command::GetPin | Command::GetBaudrate
            | Command::CheckConnectionStatus | Command::Scan | Command::ReceiveData(_)
            | Command::ReceiveAudio(_) | Command::GetStatus => true,
            _ => false,
        }
    }

    /// The size of the buffer that receives the command's reply.
    pub fn reply_capacity(&self) -> (r: usize)
        ensures
            r as nat == reply_capacity(self@),
    {
        match self {
            Command::Scan => 512,
            Command::ReceiveData(n) => *n,
            Command::ReceiveAudio(n) => *n,
            _ => 64,
        }
    }
}

} // verus!
