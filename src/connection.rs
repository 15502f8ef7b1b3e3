//! The decisions of a device session. The radio work (scanning, connecting,
//! subscribing, waiting for notifications) is done by the caller, who reports
//! each outcome here and performs the step that comes back.
use vstd::prelude::*;

verus! {

/// Advertised names of the sensor start with this, followed by its serial.
pub const DEVICE_NAME_PREFIX: &'static str = "RaceBox Mini ";

/// Device information service.
pub const DEVICE_INFO_CHAR: u128 = 0x0000180a_0000_1000_8000_00805f9b34fb;

/// Model number string.
pub const MODEL_CHAR: u128 = 0x00002a24_0000_1000_8000_00805f9b34fb;

/// Serial number string.
pub const SERIAL_NUMBER_CHAR: u128 = 0x00002a25_0000_1000_8000_00805f9b34fb;

/// Firmware revision string.
pub const FIRMWARE_REV_CHAR: u128 = 0x00002a26_0000_1000_8000_00805f9b34fb;

/// Hardware revision string.
pub const HARDWARE_REV_CHAR: u128 = 0x00002a27_0000_1000_8000_00805f9b34fb;

/// Manufacturer name string.
pub const MANUFACTURER_CHAR: u128 = 0x00002a29_0000_1000_8000_00805f9b34fb;

/// UART service.
pub const UART_SERVICE_CHAR: u128 = 0x6E400001_B5A3_F393_E0A9_E50E24DCCA9E;

/// UART receive characteristic (host to device).
pub const RX_CHAR: u128 = 0x6E400002_B5A3_F393_E0A9_E50E24DCCA9E;

/// UART transmit characteristic: the device notifies its frames here.
pub const TX_CHAR: u128 = 0x6E400003_B5A3_F393_E0A9_E50E24DCCA9E;

/// Why a session could not be set up, or why it ended.
#[derive(Clone, Copy, Debug, PartialEq, Eq, Structural)]
pub enum SessionError {
    /// The host has no radio adapter.
    NoAdaptersFound,
    /// An adapter refused to start scanning.
    ScanFailed,
    /// Scanning every adapter found no peripheral at all.
    NoDevicesFound,
    /// No peripheral both carried the sensor's name and accepted a link.
    DeviceNotFound,
    /// The services of the linked peripheral could not be discovered.
    ServiceDiscoveryFailed,
    /// The peripheral has no transmit characteristic that notifies.
    NotifyCharacteristicNotFound,
    /// Subscribing to the transmit characteristic failed.
    SubscriptionFailed,
    /// The peripheral's notification stream ended.
    NotificationsEnded,
    /// The consumer of the frames is gone.
    ConsumerGone,
}

/// The serial that an advertised name carries: what follows the prefix, when
/// the name starts with it.
pub open spec fn serial_of(name: Seq<char>) -> Option<Seq<char>> {
    let prefix = DEVICE_NAME_PREFIX@;
    if prefix.len() <= name.len() && name.subrange(0, prefix.len() as int) == prefix {
        Some(name.subrange(prefix.len() as int, name.len() as int))
    } else {
        None
    }
}

/// The serial of the sensor that advertises `name`, or `None` when the name
/// is not the sensor's.
pub fn serial_from_name(name: &str) -> (r: Option<String>)
    ensures
        r is Some <==> serial_of(name@) is Some,
        r matches Some(s) ==> serial_of(name@) == Some(s@),
{
    let prefix = DEVICE_NAME_PREFIX;
    assert(prefix@ == DEVICE_NAME_PREFIX@);
    let prefix_len = prefix.unicode_len();
    let name_len = name.unicode_len();
    if name_len < prefix_len {
        return None;
    }
    let mut i: usize = 0;
    while i < prefix_len
        invariant
            prefix@ == DEVICE_NAME_PREFIX@,
            prefix_len == prefix@.len(),
            name_len == name@.len(),
            prefix_len <= name_len,
            i <= prefix_len,
            name@.subrange(0, i as int) == prefix@.subrange(0, i as int),
        decreases prefix_len - i,
    {
        if name.get_char(i) != prefix.get_char(i) {
            assert(name@.subrange(0, prefix_len as int)[i as int] != prefix@[i as int]);
            assert(name@.subrange(0, prefix_len as int) != prefix@);
            return None;
        }
        assert(name@.subrange(0, i + 1) =~= name@.subrange(0, i as int).push(name@[i as int]));
        assert(prefix@.subrange(0, i + 1) =~= prefix@.subrange(0, i as int).push(prefix@[i as int]));
        i = i + 1;
    }
    assert(prefix@.subrange(0, prefix_len as int) =~= prefix@);
    let serial = name.substring_char(prefix_len, name_len);
    Some(String::from_str(serial))
}

/// All scans started.
pub open spec fn scans_succeeded<P>(scans: Seq<Option<Vec<P>>>) -> bool {
    forall|i: int| 0 <= i < scans.len() ==> (#[trigger] scans[i]) is Some
}

/// The peripherals that the scans found, adapter after adapter, each in the
/// order its adapter lists them.
pub open spec fn found_peripherals<P>(scans: Seq<Option<Vec<P>>>) -> Seq<P>
    decreases scans.len(),
{
    if scans.len() == 0 {
        Seq::empty()
    } else {
        let last = match scans.last() {
            Some(found) => found@,
            None => Seq::empty(),
        };
        found_peripherals(scans.drop_last()) + last
    }
}

/// The adapters of the host and the peripherals that scanning them found.
pub struct RbManager<A, P> {
    pub adapter_list: Vec<A>,
    pub peripherals: Vec<P>,
}

impl<A, P> RbManager<A, P> {
    /// Collects what scanning gave. `scans` holds, for each adapter scanned,
    /// `None` when its scan could not start, else the peripherals it saw.
    pub fn new(adapter_list: Vec<A>, scans: Vec<Option<Vec<P>>>) -> (r: Result<
        RbManager<A, P>,
        SessionError,
    >)
        ensures
            adapter_list@.len() == 0 ==> r == Err::<RbManager<A, P>, SessionError>(
                SessionError::NoAdaptersFound,
            ),
            adapter_list@.len() > 0 && !scans_succeeded(scans@) ==> r == Err::<
                RbManager<A, P>,
                SessionError,
            >(SessionError::ScanFailed),
            adapter_list@.len() > 0 && scans_succeeded(scans@) && found_peripherals(scans@).len()
                == 0 ==> r == Err::<RbManager<A, P>, SessionError>(SessionError::NoDevicesFound),
            adapter_list@.len() > 0 && scans_succeeded(scans@) && found_peripherals(scans@).len()
                > 0 ==> (r matches Ok(m) && m.adapter_list@ == adapter_list@ && m.peripherals@
                == found_peripherals(scans@)),
    {
        if adapter_list.len() == 0 {
            return Err(SessionError::NoAdaptersFound);
        }
        let ghost all = scans@;
        let scan_count = scans.len();
        let mut rest = scans;
        let mut peripherals: Vec<P> = Vec::new();
        let mut i: usize = 0;
        while rest.len() > 0
            invariant
                adapter_list@.len() > 0,
                all == scans@,
                scan_count == all.len(),
                i <= all.len(),
                rest@ == all.subrange(i as int, all.len() as int),
                scans_succeeded(all.subrange(0, i as int)),
                peripherals@ == found_peripherals(all.subrange(0, i as int)),
            decreases rest@.len(),
        {
            let scan = rest.remove(0);
            assert(all.subrange(0, i + 1).drop_last() =~= all.subrange(0, i as int));
            match scan {
                Some(found) => {
                    let mut found = found;
                    peripherals.append(&mut found);
                },
                None => {
                    assert(!scans_succeeded(all));
                    return Err(SessionError::ScanFailed);
                },
            }
            i = i + 1;
            assert(scans_succeeded(all.subrange(0, i as int))) by {
                assert forall|k: int| 0 <= k < i implies (#[trigger] all.subrange(0, i as int)[k]) is Some by {
                    if k < i - 1 {
                        assert(all.subrange(0, i as int)[k] == all.subrange(0, i - 1)[k]);
                    }
                }
            }
        }
        assert(all.subrange(0, i as int) =~= all);
        if peripherals.len() == 0 {
            return Err(SessionError::NoDevicesFound);
        }
        Ok(RbManager { adapter_list, peripherals })
    }

    /// Hands over candidate `index`, found to be the sensor with `serial`,
    /// as the session's connection. The manager has no use after this.
    pub fn into_connection(self, index: usize, serial: String) -> (r: RbConnection<P>)
        requires
            index < self.peripherals@.len(),
        ensures
            r.peripheral == self.peripherals@[index as int],
            r.serial == serial,
    {
        let mut peripherals = self.peripherals;
        let peripheral = peripherals.swap_remove(index);
        RbConnection { peripheral, serial }
    }
}

/// An established link to the sensor with the given serial.
pub struct RbConnection<P> {
    pub peripheral: P,
    pub serial: String,
}

/// What the caller does next while picking the sensor among the candidates.
pub enum ConnectStep {
    /// Read the advertised name and link state of candidate `index`.
    Inspect(usize),
    /// Connect to candidate `index`.
    Connect(usize),
    /// Candidate `index` is the sensor with `serial`, and it is linked.
    Selected { index: usize, serial: String },
    /// No candidate is the sensor with a link: `DeviceNotFound`.
    NotFound,
}

/// Walks the candidates in discovery order. The first one whose name carries
/// the sensor's prefix and which is linked, already or by a new connect,
/// wins. A candidate that is already linked is taken as it is. A failed
/// connect moves on to the next candidate; none is tried twice.
pub struct ConnectSelector {
    /// Number of candidates.
    pub count: usize,
    /// The candidate under consideration.
    pub current: usize,
    /// The serial of the current candidate, once its name has matched.
    pub serial: Option<String>,
}

impl ConnectSelector {
    /// The step for the candidate under consideration: inspect it, or report
    /// that none is left.
    pub open spec fn next_step(self) -> ConnectStep {
        if self.current < self.count {
            ConnectStep::Inspect(self.current)
        } else {
            ConnectStep::NotFound
        }
    }

    /// A selector over `count` candidates, at the first.
    pub fn new(count: usize) -> (r: ConnectSelector)
        ensures
            r.count == count,
            r.current == 0,
            r.serial is None,
    {
        ConnectSelector { count, current: 0, serial: None }
    }

    /// The first step: inspect the first candidate, or `NotFound` when there
    /// is none.
    pub fn start(&self) -> (r: ConnectStep)
        ensures
            r == self.next_step(),
    {
        if self.current < self.count {
            ConnectStep::Inspect(self.current)
        } else {
            ConnectStep::NotFound
        }
    }

    /// Takes the advertised name (if any) and link state of the current
    /// candidate. A name without the prefix skips the candidate without
    /// connecting; a matching one that is linked is selected; a matching one
    /// that is not linked is to be connected.
    pub fn on_properties(&mut self, name: Option<&str>, connected: bool) -> (r: ConnectStep)
        requires
            old(self).current < old(self).count,
        ensures
            final(self).count == old(self).count,
            match name {
                Some(n) => serial_of(n@) is Some,
                None => false,
            } || !(r is Connect || r is Selected),
            match name {
                Some(n) => match serial_of(n@) {
                    Some(s) => if connected {
                        &&& r matches ConnectStep::Selected { index, serial } && index
                            == old(self).current && serial@ == s
                        &&& final(self).current == old(self).current
                    } else {
                        &&& r == ConnectStep::Connect(old(self).current)
                        &&& final(self).current == old(self).current
                        &&& final(self).serial matches Some(t) && t@ == s
                    },
                    None => final(self).current == old(self).current + 1 && final(self).serial is None
                        && r == final(self).next_step(),
                },
                None => final(self).current == old(self).current + 1 && final(self).serial is None
                    && r == final(self).next_step(),
            },
    {
        let serial = match name {
            Some(n) => serial_from_name(n),
            None => None,
        };
        match serial {
            Some(s) => {
                if connected {
                    ConnectStep::Selected { index: self.current, serial: s }
                } else {
                    self.serial = Some(s);
                    ConnectStep::Connect(self.current)
                }
            },
            None => {
                self.current = self.current + 1;
                self.serial = None;
                self.start()
            },
        }
    }

    /// Takes the outcome of connecting to the current candidate: selected
    /// when it succeeded, else on to the next candidate.
    pub fn on_connect_result(&mut self, linked: bool) -> (r: ConnectStep)
        requires
            old(self).current < old(self).count,
            old(self).serial is Some,
        ensures
            final(self).count == old(self).count,
            linked ==> (r matches ConnectStep::Selected { index, serial } && index
                == old(self).current && Some(serial) == old(self).serial),
            !linked ==> final(self).current == old(self).current + 1 && final(self).serial is None
                && r == final(self).next_step(),
    {
        let serial = self.serial.take();
        if linked {
            match serial {
                Some(s) => ConnectStep::Selected { index: self.current, serial: s },
                None => ConnectStep::NotFound,
            }
        } else {
            self.current = self.current + 1;
            self.start()
        }
    }
}

/// What the caller knows of one characteristic of the linked peripheral.
#[derive(Clone, Copy, Debug, PartialEq, Eq, Structural)]
pub struct CharacteristicInfo {
    pub uuid: u128,
    /// The characteristic supports notifications.
    pub notify: bool,
}

/// The characteristic that the frames come from: the transmit
/// characteristic, when it notifies.
pub open spec fn is_frame_source(c: CharacteristicInfo) -> bool {
    c.uuid == TX_CHAR && c.notify
}

/// The first characteristic that the frames come from, in discovery order.
pub fn find_notify_characteristic(chars: &Vec<CharacteristicInfo>) -> (r: Result<usize, SessionError>)
    ensures
        (exists|i: int| 0 <= i < chars@.len() && is_frame_source(#[trigger] chars@[i])) <==> r is Ok,
        r matches Ok(i) ==> i < chars@.len() && is_frame_source(chars@[i as int]) && forall|j: int|
            0 <= j < i ==> !is_frame_source(#[trigger] chars@[j]),
        r matches Err(e) ==> e == SessionError::NotifyCharacteristicNotFound,
{
    let mut i: usize = 0;
    while i < chars.len()
        invariant
            i <= chars@.len(),
            forall|j: int| 0 <= j < i ==> !is_frame_source(#[trigger] chars@[j]),
        decreases chars@.len() - i,
    {
        if chars[i].uuid == TX_CHAR && chars[i].notify {
            return Ok(i);
        }
        i = i + 1;
    }
    Err(SessionError::NotifyCharacteristicNotFound)
}

/// Where a streaming session stands.
#[derive(Clone, Copy, Debug, PartialEq, Eq, Structural)]
pub enum StreamPhase {
    /// Waiting for the services of the peripheral to be discovered.
    Discovering,
    /// Waiting for the subscription to the frame source.
    Subscribing,
    /// Forwarding each notification to the consumer.
    Streaming,
    /// Over; no further step.
    Finished,
}

/// What the caller reports to a streaming session.
pub enum StreamEvent {
    /// Services were discovered, with these characteristics.
    Discovered(Vec<CharacteristicInfo>),
    /// Service discovery failed.
    DiscoveryFailed,
    /// The subscription is in place and notifications can be received.
    Subscribed,
    /// Subscribing failed.
    SubscribeFailed,
    /// The peripheral sent this value.
    Notification(Vec<u8>),
    /// The peripheral's notifications ended.
    SourceClosed,
    /// The consumer can take no more values.
    SinkClosed,
    /// The consumer asked for the session to end.
    ShutdownRequested,
}

/// What the caller does next for a streaming session.
pub enum StreamAction {
    /// Subscribe to the characteristic at this index of the discovered list.
    Subscribe(usize),
    /// Hand this value to the consumer, waiting while its queue is full.
    Forward(Vec<u8>),
    /// Wait for the next event.
    Wait,
    /// End the session with this outcome.
    Finish(Result<(), SessionError>),
}

/// The phase and step that follow `event` in `phase`. An event that does not
/// belong to the phase changes nothing.
pub open spec fn stream_transition(phase: StreamPhase, event: StreamEvent) -> (StreamPhase, StreamAction) {
    match (phase, event) {
        (StreamPhase::Finished, _) => (StreamPhase::Finished, StreamAction::Wait),
        (_, StreamEvent::ShutdownRequested) => (StreamPhase::Finished, StreamAction::Finish(Ok(()))),
        (StreamPhase::Discovering, StreamEvent::Discovered(chars)) => {
            if exists|i: int| 0 <= i < chars@.len() && is_frame_source(#[trigger] chars@[i]) {
                let i = choose|i: int|
                    0 <= i < chars@.len() && is_frame_source(#[trigger] chars@[i]) && forall|j: int|
                        0 <= j < i ==> !is_frame_source(#[trigger] chars@[j]);
                (StreamPhase::Subscribing, StreamAction::Subscribe(i as usize))
            } else {
                (
                    StreamPhase::Finished,
                    StreamAction::Finish(Err(SessionError::NotifyCharacteristicNotFound)),
                )
            }
        },
        (StreamPhase::Discovering, StreamEvent::DiscoveryFailed) => (
            StreamPhase::Finished,
            StreamAction::Finish(Err(SessionError::ServiceDiscoveryFailed)),
        ),
        (StreamPhase::Subscribing, StreamEvent::Subscribed) => (
            StreamPhase::Streaming,
            StreamAction::Wait,
        ),
        (StreamPhase::Subscribing, StreamEvent::SubscribeFailed) => (
            StreamPhase::Finished,
            StreamAction::Finish(Err(SessionError::SubscriptionFailed)),
        ),
        (StreamPhase::Streaming, StreamEvent::Notification(value)) => (
            StreamPhase::Streaming,
            StreamAction::Forward(value),
        ),
        (StreamPhase::Streaming, StreamEvent::SourceClosed) => (
            StreamPhase::Finished,
            StreamAction::Finish(Err(SessionError::NotificationsEnded)),
        ),
        (StreamPhase::Streaming, StreamEvent::SinkClosed) => (
            StreamPhase::Finished,
            StreamAction::Finish(Err(SessionError::ConsumerGone)),
        ),
        (p, _) => (p, StreamAction::Wait),
    }
}

/// The phase reached and the steps given when a session in `phase` takes
/// `events` one after another.
pub open spec fn run_stream(phase: StreamPhase, events: Seq<StreamEvent>) -> (StreamPhase, Seq<
    StreamAction,
>)
    decreases events.len(),
{
    if events.len() == 0 {
        (phase, Seq::empty())
    } else {
        let before = run_stream(phase, events.drop_last());
        let step = stream_transition(before.0, events.last());
        (step.0, before.1.push(step.1))
    }
}

/// The values that `events` bring, in order.
pub open spec fn notified_values(events: Seq<StreamEvent>) -> Seq<Vec<u8>>
    decreases events.len(),
{
    if events.len() == 0 {
        Seq::empty()
    } else {
        let before = notified_values(events.drop_last());
        match events.last() {
            StreamEvent::Notification(value) => before.push(value),
            _ => before,
        }
    }
}

/// The values that `actions` hand to the consumer, in order.
pub open spec fn forwarded_values(actions: Seq<StreamAction>) -> Seq<Vec<u8>>
    decreases actions.len(),
{
    if actions.len() == 0 {
        Seq::empty()
    } else {
        let before = forwarded_values(actions.drop_last());
        match actions.last() {
            StreamAction::Forward(value) => before.push(value),
            _ => before,
        }
    }
}

/// A streaming session that receives only notifications keeps streaming and
/// hands every value to the consumer, unchanged and in the order received:
/// none is dropped, duplicated or reordered.
pub proof fn streaming_forwards_every_value(events: Seq<StreamEvent>)
    requires
        forall|i: int| 0 <= i < events.len() ==> (#[trigger] events[i]) is Notification,
    ensures
        run_stream(StreamPhase::Streaming, events).0 == StreamPhase::Streaming,
        forwarded_values(run_stream(StreamPhase::Streaming, events).1) == notified_values(events),
    decreases events.len(),
{
    if events.len() > 0 {
        let rest = events.drop_last();
        assert forall|i: int| 0 <= i < rest.len() implies (#[trigger] rest[i]) is Notification by {
            assert(rest[i] == events[i]);
        }
        streaming_forwards_every_value(rest);
        assert(events.last() is Notification);
        let before = run_stream(StreamPhase::Streaming, rest);
        assert(before.1.push(stream_transition(before.0, events.last()).1).drop_last() == before.1);
    }
}

/// The decisions of one streaming session on a linked peripheral: locate
/// the frame source, subscribe to it, then forward every notification, in
/// the order received and unchanged, until the source or the consumer goes
/// away or a shutdown is asked for.
pub struct StreamSession {
    pub phase: StreamPhase,
}

impl StreamSession {
    /// A session that starts with service discovery.
    pub fn new() -> (r: StreamSession)
        ensures
            r.phase == StreamPhase::Discovering,
    {
        StreamSession { phase: StreamPhase::Discovering }
    }

    /// Takes one event and gives the next step.
    pub fn handle(&mut self, event: StreamEvent) -> (r: StreamAction)
        ensures
            (final(self).phase, r) == stream_transition(old(self).phase, event),
    {
        match (self.phase, event) {
            (StreamPhase::Finished, _) => StreamAction::Wait,
            (_, StreamEvent::ShutdownRequested) => {
                self.phase = StreamPhase::Finished;
                StreamAction::Finish(Ok(()))
            },
            (StreamPhase::Discovering, StreamEvent::Discovered(chars)) => {
                match find_notify_characteristic(&chars) {
                    Ok(i) => {
                        proof {
                            let j = choose|j: int|
                                0 <= j < chars@.len() && is_frame_source(#[trigger] chars@[j])
                                    && forall|k: int|
                                    0 <= k < j ==> !is_frame_source(#[trigger] chars@[k]);
                            assert(j == i as int) by {
                                if j < i as int {
                                    assert(!is_frame_source(chars@[j]));
                                } else if j > i as int {
                                    assert(!is_frame_source(chars@[i as int]));
                                }
                            }
                        }
                        self.phase = StreamPhase::Subscribing;
                        StreamAction::Subscribe(i)
                    },
                    Err(e) => {
                        self.phase = StreamPhase::Finished;
                        StreamAction::Finish(Err(e))
                    },
                }
            },
            (StreamPhase::Discovering, StreamEvent::DiscoveryFailed) => {
                self.phase = StreamPhase::Finished;
                StreamAction::Finish(Err(SessionError::ServiceDiscoveryFailed))
            },
            (StreamPhase::Subscribing, StreamEvent::Subscribed) => {
                self.phase = StreamPhase::Streaming;
                StreamAction::Wait
            },
            (StreamPhase::Subscribing, StreamEvent::SubscribeFailed) => {
                self.phase = StreamPhase::Finished;
                StreamAction::Finish(Err(SessionError::SubscriptionFailed))
            },
            (StreamPhase::Streaming, StreamEvent::Notification(value)) => StreamAction::Forward(
                value,
            ),
            (StreamPhase::Streaming, StreamEvent::SourceClosed) => {
                self.phase = StreamPhase::Finished;
                StreamAction::Finish(Err(SessionError::NotificationsEnded))
            },
            (StreamPhase::Streaming, StreamEvent::SinkClosed) => {
                self.phase = StreamPhase::Finished;
                StreamAction::Finish(Err(SessionError::ConsumerGone))
            },
            (_, _) => StreamAction::Wait,
        }
    }
}

} // verus!
