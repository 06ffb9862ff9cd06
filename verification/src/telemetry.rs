//! The periodic driver: once a second a heartbeat and an attitude report.
//!
//! The loop holds what the frames need from one tick to the next, the
//! sequence counter and the time since boot, and turns each tick into the
//! script that sends both frames and then waits. The caller keeps the
//! orientation, performs the scripts, and never stops.

use vstd::prelude::*;
use vstd::string::StringSliceAdditionalSpecFns;
use crate::frame::{
    attitude_payload, encode_attitude, encode_heartbeat, frame_bytes, heartbeat_payload, Attitude,
};
use crate::sequence::{sequence_after, SequenceCounter};
use crate::transport::{
    script_steps, send_actions, send_steps, setup_actions, setup_steps, LinkAction, Step,
    Transport,
};

verus! {

/// The wait that ends a tick, in milliseconds.
pub const LOOP_PERIOD_MS: u32 = 1000;

/// What one tick adds to the time since boot, in milliseconds.
pub const TIME_STEP_MS: u32 = 1000;

/// Where the loop stands.
#[derive(Clone, Copy, Debug, PartialEq, Eq, Structural)]
pub enum LoopPhase {
    /// Nothing has been sent yet.
    Idle,
    /// The transport is ready and frames go out. There is no way back.
    Running,
}

/// The state of the telemetry loop.
#[derive(Debug)]
pub struct TelemetryLoop {
    transport: Transport,
    phase: LoopPhase,
    sequence: SequenceCounter,
    time_boot_ms: u32,
}

/// What starting the loop takes: the bridge's handshake, or nothing where
/// the frames go out directly.
pub open spec fn start_steps(
    transport: Transport,
    ssid: Seq<u8>,
    password: Seq<u8>,
    port: u16,
) -> Seq<Step> {
    match transport {
        Transport::DirectSerial => Seq::<Step>::empty(),
        Transport::AtBridge => setup_steps(ssid, password, port),
    }
}

/// The time since boot after one more tick. It wraps after some 49 days.
pub open spec fn time_after_tick(time_boot_ms: u32) -> u32 {
    ((time_boot_ms + 1000) % 0x1_0000_0000) as u32
}

/// What one tick takes, for a loop whose counter last handed out `sequence`
/// and whose time since boot, the tick included, is `time_boot_ms`: the
/// heartbeat is sent, then the attitude report, then the loop waits.
pub open spec fn tick_steps(
    transport: Transport,
    sequence: u8,
    time_boot_ms: u32,
    attitude: Attitude,
) -> Seq<Step> {
    let first = sequence_after(sequence);
    let second = sequence_after(first);
    send_steps(transport, frame_bytes(first, 0, heartbeat_payload())) + send_steps(
        transport,
        frame_bytes(second, 30, attitude_payload(time_boot_ms, attitude)),
    ) + seq![Step::Settle(1000)]
}

impl TelemetryLoop {
    /// The transport that the loop was made for.
    pub closed spec fn spec_transport(&self) -> Transport {
        self.transport
    }

    /// Where the loop stands.
    pub closed spec fn spec_phase(&self) -> LoopPhase {
        self.phase
    }

    /// The sequence number of the last frame, 0 before the first.
    pub closed spec fn spec_sequence(&self) -> u8 {
        self.sequence.last()
    }

    /// The time since boot that the last attitude report carried, in
    /// milliseconds; 0 before the first.
    pub closed spec fn spec_time_boot_ms(&self) -> u32 {
        self.time_boot_ms
    }

    /// An idle loop for `transport`: no frame produced, no time passed.
    pub fn new(transport: Transport) -> (state: Self)
        ensures
            state.spec_transport() == transport,
            state.spec_phase() == LoopPhase::Idle,
            state.spec_sequence() == 0,
            state.spec_time_boot_ms() == 0,
    {
        TelemetryLoop {
            transport,
            phase: LoopPhase::Idle,
            sequence: SequenceCounter::new(),
            time_boot_ms: 0,
        }
    }

    /// The transport that the loop was made for.
    #[verifier::when_used_as_spec(spec_transport)]
    pub fn transport(&self) -> (transport: Transport)
        ensures
            transport == self.spec_transport(),
    {
        self.transport
    }

    /// Where the loop stands.
    #[verifier::when_used_as_spec(spec_phase)]
    pub fn phase(&self) -> (phase: LoopPhase)
        ensures
            phase == self.spec_phase(),
    {
        self.phase
    }

    /// The sequence number of the last frame, 0 before the first.
    #[verifier::when_used_as_spec(spec_sequence)]
    pub fn sequence(&self) -> (sequence: u8)
        ensures
            sequence == self.spec_sequence(),
    {
        self.sequence.current()
    }

    /// The time since boot that the last attitude report carried.
    #[verifier::when_used_as_spec(spec_time_boot_ms)]
    pub fn time_boot_ms(&self) -> (time_boot_ms: u32)
        ensures
            time_boot_ms == self.spec_time_boot_ms(),
    {
        self.time_boot_ms
    }

    /// Starts the loop and returns what to do before the first tick: for the
    /// bridge its handshake with the network `ssid`, `password` and `port`,
    /// for the direct transport nothing. A loop that is running already stays
    /// as it is and gets an empty script.
    pub fn start(&mut self, ssid: &str, password: &str, port: u16) -> (script: Vec<LinkAction>)
        ensures
            final(self).phase() == LoopPhase::Running,
            final(self).transport() == old(self).transport(),
            final(self).sequence() == old(self).sequence(),
            final(self).time_boot_ms() == old(self).time_boot_ms(),
            old(self).phase() == LoopPhase::Idle ==> script_steps(script@) == start_steps(
                old(self).transport(),
                ssid.spec_bytes(),
                password.spec_bytes(),
                port,
            ),
            old(self).phase() == LoopPhase::Running ==> script@.len() == 0,
    {
        let idle: bool = self.phase == LoopPhase::Idle;
        self.phase = LoopPhase::Running;
        if idle && self.transport == Transport::AtBridge {
            setup_actions(ssid, password, port)
        } else {
            let script: Vec<LinkAction> = Vec::new();
            assert(script_steps(script@) =~= Seq::<Step>::empty());
            script
        }
    }

    /// One tick of a running loop: the time since boot advances by a second,
    /// a heartbeat and a report of `attitude` are encoded, and the script
    /// sends the two in that order and then waits a second. A loop that has
    /// not been started stays as it is and gets an empty script.
    pub fn tick(&mut self, attitude: &Attitude) -> (script: Vec<LinkAction>)
        ensures
            final(self).phase() == old(self).phase(),
            final(self).transport() == old(self).transport(),
            old(self).phase() == LoopPhase::Running ==> {
                &&& final(self).time_boot_ms() == time_after_tick(old(self).time_boot_ms())
                &&& final(self).sequence() == sequence_after(sequence_after(old(self).sequence()))
                &&& script_steps(script@) == tick_steps(
                    old(self).transport(),
                    old(self).sequence(),
                    time_after_tick(old(self).time_boot_ms()),
                    *attitude,
                )
            },
            old(self).phase() == LoopPhase::Idle ==> {
                &&& final(self).time_boot_ms() == old(self).time_boot_ms()
                &&& final(self).sequence() == old(self).sequence()
                &&& script@.len() == 0
            },
    {
        if self.phase == LoopPhase::Idle {
            return Vec::new();
        }
        self.time_boot_ms = self.time_boot_ms.wrapping_add(TIME_STEP_MS);
        let heartbeat = encode_heartbeat(&mut self.sequence);
        let report = encode_attitude(&mut self.sequence, self.time_boot_ms, attitude);
        let mut script: Vec<LinkAction> = send_actions(self.transport, heartbeat.as_slice());
        let ghost first = script@;
        let mut second: Vec<LinkAction> = send_actions(self.transport, report.as_slice());
        let ghost second_steps = second@;
        script.append(&mut second);
        script.push(LinkAction::Settle(LOOP_PERIOD_MS));
        assert(script_steps(script@) =~= script_steps(first) + script_steps(second_steps)
            + seq![Step::Settle(1000)]);
        script
    }
}

} // verus!
