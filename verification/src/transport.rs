//! What goes out on the serial link, and when.
//!
//! The library does not own the serial transmitter. It says what to do with
//! it, as a script of actions that the caller performs in order: write these
//! bytes, wait this long. There are two transports. The direct one writes a
//! frame as it is. The bridge wraps it in the text commands of a companion
//! network module, which broadcasts it over UDP. The bridge never reads an
//! answer: after each command it waits a fixed time and goes on, so a module
//! that did not reset, join or open its socket goes unnoticed.

use vstd::prelude::*;
use vstd::string::*;

verus! {

/// The wait after the reset command, in milliseconds.
pub const RESET_SETTLE_MS: u32 = 2000;

/// The wait after the command that joins the network, in milliseconds.
pub const JOIN_SETTLE_MS: u32 = 5000;

/// The wait after every other command, in milliseconds.
pub const SETTLE_MS: u32 = 500;

/// How a frame reaches its receiver.
#[derive(Clone, Copy, Debug, PartialEq, Eq, Structural)]
pub enum Transport {
    /// The frame's bytes go straight to the serial transmitter.
    DirectSerial,
    /// The frame is handed to a network module through text commands.
    AtBridge,
}

/// One thing to do with the serial link.
#[derive(Debug, PartialEq, Eq)]
pub enum LinkAction {
    /// Write these bytes to the transmitter, one at a time and in order. A
    /// byte that the transmitter refuses is dropped and the next one tried.
    Write(Vec<u8>),
    /// Wait this many milliseconds.
    Settle(u32),
}

/// A `LinkAction` as a mathematical value.
pub enum Step {
    Write(Seq<u8>),
    Settle(u32),
}

impl View for LinkAction {
    type V = Step;

    open spec fn view(&self) -> Step {
        match *self {
            LinkAction::Write(bytes) => Step::Write(bytes@),
            LinkAction::Settle(millis) => Step::Settle(millis),
        }
    }
}

/// A script as a sequence of mathematical values.
pub open spec fn script_steps(script: Seq<LinkAction>) -> Seq<Step> {
    Seq::new(script.len(), |i: int| script[i]@)
}

/// The bytes of a text made of ASCII characters.
pub open spec fn ascii(text: Seq<char>) -> Seq<u8> {
    Seq::new(text.len(), |i: int| text[i] as u8)
}

/// A command as it is written: the text, then carriage return and line feed.
pub open spec fn command_line(text: Seq<u8>) -> Seq<u8> {
    text + seq![13u8, 10u8]
}

/// The digits of `value` in base ten, as ASCII, without leading zeros.
pub open spec fn decimal(value: nat) -> Seq<u8>
    decreases value,
{
    if value < 10 {
        seq![(48 + value) as u8]
    } else {
        decimal(value / 10).push((48 + value % 10) as u8)
    }
}

/// The command that resets the module.
pub open spec fn reset_command() -> Seq<u8> {
    ascii("AT+RST"@)
}

/// The command that puts the module in station mode.
pub open spec fn station_mode_command() -> Seq<u8> {
    ascii("AT+CWMODE=1"@)
}

/// The command that joins the network `ssid` with `password`, both given as
/// their bytes and both put between double quotes as they are.
pub open spec fn join_command(ssid: Seq<u8>, password: Seq<u8>) -> Seq<u8> {
    ascii("AT+CWJAP=\""@) + ssid + ascii("\",\""@) + password + ascii("\""@)
}

/// The command that asks the module for its address.
pub open spec fn address_command() -> Seq<u8> {
    ascii("AT+CIFSR"@)
}

/// The command that allows several sockets.
pub open spec fn multiplex_command() -> Seq<u8> {
    ascii("AT+CIPMUX=1"@)
}

/// The command that opens socket 0 for UDP broadcast, `port` being both the
/// remote and the local port.
pub open spec fn open_socket_command(port: u16) -> Seq<u8> {
    ascii("AT+CIPSTART=0,\"UDP\",\"255.255.255.255\","@) + decimal(port as nat) + ascii(","@)
        + decimal(port as nat)
}

/// The command that announces `length` bytes for socket 0.
pub open spec fn send_command(length: nat) -> Seq<u8> {
    ascii("AT+CIPSEND=0,"@) + decimal(length)
}

/// The handshake that readies the bridge: six commands, each followed by its
/// wait.
pub open spec fn setup_steps(ssid: Seq<u8>, password: Seq<u8>, port: u16) -> Seq<Step> {
    seq![
        Step::Write(command_line(reset_command())),
        Step::Settle(2000),
        Step::Write(command_line(station_mode_command())),
        Step::Settle(500),
        Step::Write(command_line(join_command(ssid, password))),
        Step::Settle(5000),
        Step::Write(command_line(address_command())),
        Step::Settle(500),
        Step::Write(command_line(multiplex_command())),
        Step::Settle(500),
        Step::Write(command_line(open_socket_command(port))),
        Step::Settle(500),
    ]
}

/// What sending `message` takes. Directly: the bytes are written. Through the
/// bridge: the command that announces their number, a wait, the bytes as they
/// are, and a wait.
pub open spec fn send_steps(transport: Transport, message: Seq<u8>) -> Seq<Step> {
    match transport {
        Transport::DirectSerial => seq![Step::Write(message)],
        Transport::AtBridge => seq![
            Step::Write(command_line(send_command(message.len()))),
            Step::Settle(500),
            Step::Write(message),
            Step::Settle(500),
        ],
    }
}

/// Appends `bytes` to `out`.
pub fn append_bytes(out: &mut Vec<u8>, bytes: &[u8])
    ensures
        final(out)@ == old(out)@ + bytes@,
{
    let mut i: usize = 0;
    while i < bytes.len()
        invariant
            i <= bytes.len(),
            out@ == old(out)@ + bytes@.take(i as int),
        decreases bytes.len() - i,
    {
        out.push(bytes[i]);
        assert(bytes@.take(i as int).push(bytes@[i as int]) =~= bytes@.take(i as int + 1));
        i = i + 1;
    }
    assert(bytes@.take(bytes.len() as int) =~= bytes@);
}

/// Appends the bytes of `text`, which is made of ASCII characters.
pub fn append_text(out: &mut Vec<u8>, text: &str)
    requires
        is_ascii(text),
    ensures
        final(out)@ == old(out)@ + ascii(text@),
{
    broadcast use is_ascii_spec_bytes;

    let bytes: &[u8] = text.as_bytes();
    assert(bytes@ =~= ascii(text@));
    append_bytes(out, bytes);
}

/// Appends `value` in base ten.
pub fn append_decimal(out: &mut Vec<u8>, value: usize)
    ensures
        final(out)@ == old(out)@ + decimal(value as nat),
    decreases value,
{
    if value >= 10 {
        append_decimal(out, value / 10);
    }
    let digit: u8 = (value % 10) as u8;
    out.push(48 + digit);
    assert(out@ =~= old(out)@ + decimal(value as nat));
}

/// Appends carriage return and line feed, which end a command.
pub fn end_command(out: &mut Vec<u8>)
    ensures
        final(out)@ == command_line(old(out)@),
{
    out.push(13);
    out.push(10);
    assert(out@ =~= command_line(old(out)@));
}

/// The reset command, as written.
pub fn reset_line() -> (line: Vec<u8>)
    ensures
        line@ == command_line(reset_command()),
{
    let mut line: Vec<u8> = Vec::new();
    proof {
        reveal_strlit("AT+RST");
    }
    append_text(&mut line, "AT+RST");
    end_command(&mut line);
    line
}

/// The station mode command, as written.
pub fn station_mode_line() -> (line: Vec<u8>)
    ensures
        line@ == command_line(station_mode_command()),
{
    let mut line: Vec<u8> = Vec::new();
    proof {
        reveal_strlit("AT+CWMODE=1");
    }
    append_text(&mut line, "AT+CWMODE=1");
    end_command(&mut line);
    line
}

/// The command that joins the network `ssid` with `password`, as written.
/// Neither is checked: a double quote in one of them goes out as it is.
pub fn join_line(ssid: &str, password: &str) -> (line: Vec<u8>)
    ensures
        line@ == command_line(join_command(ssid.spec_bytes(), password.spec_bytes())),
{
    let mut line: Vec<u8> = Vec::new();
    proof {
        reveal_strlit("AT+CWJAP=\"");
        reveal_strlit("\",\"");
        reveal_strlit("\"");
    }
    append_text(&mut line, "AT+CWJAP=\"");
    append_bytes(&mut line, ssid.as_bytes());
    append_text(&mut line, "\",\"");
    append_bytes(&mut line, password.as_bytes());
    append_text(&mut line, "\"");
    end_command(&mut line);
    line
}

/// The address query, as written.
pub fn address_line() -> (line: Vec<u8>)
    ensures
        line@ == command_line(address_command()),
{
    let mut line: Vec<u8> = Vec::new();
    proof {
        reveal_strlit("AT+CIFSR");
    }
    append_text(&mut line, "AT+CIFSR");
    end_command(&mut line);
    line
}

/// The command that allows several sockets, as written.
pub fn multiplex_line() -> (line: Vec<u8>)
    ensures
        line@ == command_line(multiplex_command()),
{
    let mut line: Vec<u8> = Vec::new();
    proof {
        reveal_strlit("AT+CIPMUX=1");
    }
    append_text(&mut line, "AT+CIPMUX=1");
    end_command(&mut line);
    line
}

/// The command that opens the broadcast socket on `port`, as written.
pub fn open_socket_line(port: u16) -> (line: Vec<u8>)
    ensures
        line@ == command_line(open_socket_command(port)),
{
    let mut line: Vec<u8> = Vec::new();
    proof {
        reveal_strlit("AT+CIPSTART=0,\"UDP\",\"255.255.255.255\",");
        reveal_strlit(",");
    }
    append_text(&mut line, "AT+CIPSTART=0,\"UDP\",\"255.255.255.255\",");
    append_decimal(&mut line, port as usize);
    append_text(&mut line, ",");
    append_decimal(&mut line, port as usize);
    end_command(&mut line);
    line
}

/// The command that announces `length` bytes for socket 0, as written.
pub fn send_line(length: usize) -> (line: Vec<u8>)
    ensures
        line@ == command_line(send_command(length as nat)),
{
    let mut line: Vec<u8> = Vec::new();
    proof {
        reveal_strlit("AT+CIPSEND=0,");
    }
    append_text(&mut line, "AT+CIPSEND=0,");
    append_decimal(&mut line, length);
    end_command(&mut line);
    line
}

/// The script that readies the bridge. It is run once, before the first
/// frame: reset, station mode, join, address query, several sockets, open the
/// broadcast socket, each followed by its wait.
pub fn setup_actions(ssid: &str, password: &str, port: u16) -> (script: Vec<LinkAction>)
    ensures
        script_steps(script@) == setup_steps(ssid.spec_bytes(), password.spec_bytes(), port),
{
    let mut script: Vec<LinkAction> = Vec::new();
    script.push(LinkAction::Write(reset_line()));
    script.push(LinkAction::Settle(RESET_SETTLE_MS));
    script.push(LinkAction::Write(station_mode_line()));
    script.push(LinkAction::Settle(SETTLE_MS));
    script.push(LinkAction::Write(join_line(ssid, password)));
    script.push(LinkAction::Settle(JOIN_SETTLE_MS));
    script.push(LinkAction::Write(address_line()));
    script.push(LinkAction::Settle(SETTLE_MS));
    script.push(LinkAction::Write(multiplex_line()));
    script.push(LinkAction::Settle(SETTLE_MS));
    script.push(LinkAction::Write(open_socket_line(port)));
    script.push(LinkAction::Settle(SETTLE_MS));
    assert(script_steps(script@) =~= setup_steps(
        ssid.spec_bytes(),
        password.spec_bytes(),
        port,
    ));
    script
}

/// A copy of `bytes`.
pub fn copy_bytes(bytes: &[u8]) -> (copy: Vec<u8>)
    ensures
        copy@ == bytes@,
{
    let mut copy: Vec<u8> = Vec::new();
    append_bytes(&mut copy, bytes);
    assert(copy@ =~= bytes@);
    copy
}

/// The script that sends `message` over `transport`.
pub fn send_actions(transport: Transport, message: &[u8]) -> (script: Vec<LinkAction>)
    ensures
        script_steps(script@) == send_steps(transport, message@),
{
    let mut script: Vec<LinkAction> = Vec::new();
    match transport {
        Transport::DirectSerial => {
            script.push(LinkAction::Write(copy_bytes(message)));
        },
        Transport::AtBridge => {
            script.push(LinkAction::Write(send_line(message.len())));
            script.push(LinkAction::Settle(SETTLE_MS));
            script.push(LinkAction::Write(copy_bytes(message)));
            script.push(LinkAction::Settle(SETTLE_MS));
        },
    }
    assert(script_steps(script@) =~= send_steps(transport, message@));
    script
}

} // verus!
