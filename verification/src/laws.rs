//! Properties of the node that span its tasks and its message format.

use vstd::prelude::*;

use crate::flame::{flame_next, FlameAction, FlameEvent, FlameTask, SAMPLE_INTERVAL_MS};
use crate::packet::{message, messages, payloads, PubPacket, PublicationView};
use crate::sensor::{sensor_next, SensorAction, SensorEvent, SensorTask, READING_INTERVAL_MS};
use crate::text::{decimal, digits, fire_text, humidity_text, temperature_text};
use crate::uplink::{
    uplink_next, UplinkActionView, UplinkEvent, UplinkTask, BROKER_PORT, NETWORK_POLL_MS,
};
use crate::wifi::{credentials_fit, wifi_next, WifiAction, WifiEvent, WifiPhase, RECONNECT_DELAY_MS};

verus! {

/// Runs the temperature task through `events`: its final state and the actions it issued.
pub open spec fn sensor_run(task: SensorTask, events: Seq<SensorEvent>) -> (SensorTask, Seq<SensorAction>)
    decreases events.len(),
{
    if events.len() == 0 {
        (task, seq![])
    } else {
        let (next, action) = sensor_next(task, events[0]);
        let (last, rest) = sensor_run(next, events.drop_first());
        (last, seq![action] + rest)
    }
}

/// Runs the flame task through `events`: its final state and the actions it issued.
pub open spec fn flame_run(task: FlameTask, events: Seq<FlameEvent>) -> (FlameTask, Seq<FlameAction>)
    decreases events.len(),
{
    if events.len() == 0 {
        (task, seq![])
    } else {
        let (next, action) = flame_next(task, events[0]);
        let (last, rest) = flame_run(next, events.drop_first());
        (last, seq![action] + rest)
    }
}

/// Runs the uplink task through `events`: its final state and the actions it issued.
pub open spec fn uplink_run(task: UplinkTask, events: Seq<UplinkEvent>) -> (UplinkTask, Seq<UplinkActionView>)
    decreases events.len(),
{
    if events.len() == 0 {
        (task, seq![])
    } else {
        let (next, action) = uplink_next(task, events[0]);
        let (last, rest) = uplink_run(next, events.drop_first());
        (last, seq![action] + rest)
    }
}

proof fn lemma_digits_are_digits(n: nat)
    ensures
        digits(n).len() >= 1,
        forall|i: int| 0 <= i < digits(n).len() ==> 48 <= #[trigger] digits(n)[i] <= 57,
    decreases n,
{
    if n >= 10 {
        lemma_digits_are_digits(n / 10);
    }
}

proof fn lemma_digits_injective(a: nat, b: nat)
    requires
        digits(a) == digits(b),
    ensures
        a == b,
    decreases a,
{
    lemma_digits_are_digits(a);
    lemma_digits_are_digits(b);
    if a < 10 && b < 10 {
        assert(digits(a)[0] == digits(b)[0]);
    } else if a < 10 {
        assert(digits(b).len() == digits(b / 10).len() + 1);
        lemma_digits_are_digits(b / 10);
    } else if b < 10 {
        assert(digits(a).len() == digits(a / 10).len() + 1);
        lemma_digits_are_digits(a / 10);
    } else {
        let da = digits(a);
        let db = digits(b);
        assert(da.last() == db.last());
        assert(da.drop_last() =~= digits(a / 10));
        assert(db.drop_last() =~= digits(b / 10));
        lemma_digits_injective(a / 10, b / 10);
    }
}

/// Two numbers with the same decimal text are the same number.
pub proof fn law_decimal_injective(a: int, b: int)
    requires
        decimal(a) == decimal(b),
    ensures
        a == b,
{
    if a < 0 && b < 0 {
        assert(decimal(a).drop_first() =~= digits((-a) as nat));
        assert(decimal(b).drop_first() =~= digits((-b) as nat));
        lemma_digits_injective((-a) as nat, (-b) as nat);
    } else if a < 0 {
        lemma_digits_are_digits(b as nat);
        assert(decimal(a)[0] == 45);
        assert(decimal(b)[0] == digits(b as nat)[0]);
        assert(false);
    } else if b < 0 {
        lemma_digits_are_digits(a as nat);
        assert(decimal(b)[0] == 45);
        assert(decimal(a)[0] == digits(a as nat)[0]);
        assert(false);
    } else {
        lemma_digits_injective(a as nat, b as nat);
    }
}

/// Two readings that give the same messages are the same reading: a
/// subscriber can tell every reading from every other.
pub proof fn law_distinct_readings_distinct_messages(t1: i8, h1: u8, t2: i8, h2: u8)
    requires
        messages(PubPacket::Temp(t1, h1)) == messages(PubPacket::Temp(t2, h2)),
    ensures
        t1 == t2,
        h1 == h2,
{
    let m1 = messages(PubPacket::Temp(t1, h1));
    let m2 = messages(PubPacket::Temp(t2, h2));
    assert(m1[0].payload == m2[0].payload);
    assert(m1[1].payload == m2[1].payload);
    let x1 = temperature_text(t1 as int);
    let x2 = temperature_text(t2 as int);
    assert(x1.len() == x2.len());
    assert(x1.subrange(0, decimal(t1 as int).len() as int) =~= decimal(t1 as int));
    assert(x2.subrange(0, decimal(t2 as int).len() as int) =~= decimal(t2 as int));
    law_decimal_injective(t1 as int, t2 as int);
    let y1 = humidity_text(h1 as int);
    let y2 = humidity_text(h2 as int);
    assert(y1.len() == y2.len());
    assert(y1.subrange(0, decimal(h1 as int).len() as int) =~= decimal(h1 as int));
    assert(y2.subrange(0, decimal(h2 as int).len() as int) =~= decimal(h2 as int));
    law_decimal_injective(h1 as int, h2 as int);
}

/// A reading taken by the temperature task is queued as it is, and the uplink
/// turns it into exactly two messages: the temperature, then the humidity.
/// The task then rests ten seconds and reads again; a failed read is retried at once.
pub proof fn law_reading_reaches_broker(t: i8, h: u8)
    ensures
        sensor_run(
            SensorTask::Measuring,
            seq![SensorEvent::Measured(t, h), SensorEvent::Enqueued, SensorEvent::TimerElapsed],
        ) == (
            SensorTask::Measuring,
            seq![
                SensorAction::Enqueue(PubPacket::Temp(t, h)),
                SensorAction::Wait(READING_INTERVAL_MS as u64),
                SensorAction::Measure,
            ],
        ),
        sensor_next(SensorTask::Measuring, SensorEvent::MeasurementFailed) == (
            SensorTask::Measuring,
            SensorAction::Measure,
        ),
        messages(PubPacket::Temp(t, h)) == seq![
            message(temperature_text(t as int)),
            message(humidity_text(h as int)),
        ],
{
    reveal_with_fuel(sensor_run, 4);
    let evs = seq![SensorEvent::Measured(t, h), SensorEvent::Enqueued, SensorEvent::TimerElapsed];
    assert(evs.drop_first() =~= seq![SensorEvent::Enqueued, SensorEvent::TimerElapsed]);
    assert(evs.drop_first().drop_first() =~= seq![SensorEvent::TimerElapsed]);
    assert(evs.drop_first().drop_first().drop_first() =~= Seq::<SensorEvent>::empty());
    assert(messages(PubPacket::Temp(t, h)) =~= seq![
        message(temperature_text(t as int)),
        message(humidity_text(h as int)),
    ]);
}

/// The temperature task only ever queues `Temp` packets, each one a reading
/// that the sensor returned.
pub proof fn law_sensor_queues_only_readings(task: SensorTask, event: SensorEvent)
    ensures
        sensor_next(task, event).1 matches SensorAction::Enqueue(p) ==> p is Temp,
        (task == SensorTask::Measuring && sensor_next(task, event).1 is Enqueue) ==> (
        event matches SensorEvent::Measured(t, h) && sensor_next(task, event).1
            == SensorAction::Enqueue(PubPacket::Temp(t, h))),
{
}

/// A flame seen by the flame task becomes exactly one `FIRE` message at the
/// broker; no flame queues nothing. Either way the task rests 200 ms and samples again.
pub proof fn law_flame_reaches_broker(high: bool)
    ensures
        high ==> flame_run(
            FlameTask::Sampling,
            seq![FlameEvent::Level(true), FlameEvent::Enqueued, FlameEvent::TimerElapsed],
        ) == (
            FlameTask::Sampling,
            seq![
                FlameAction::Enqueue(PubPacket::Other(true)),
                FlameAction::Wait(SAMPLE_INTERVAL_MS as u64),
                FlameAction::Sample,
            ],
        ),
        !high ==> flame_run(
            FlameTask::Sampling,
            seq![FlameEvent::Level(false), FlameEvent::TimerElapsed],
        ) == (
            FlameTask::Sampling,
            seq![FlameAction::Wait(SAMPLE_INTERVAL_MS as u64), FlameAction::Sample],
        ),
        messages(PubPacket::Other(true)) == seq![message(fire_text())],
        messages(PubPacket::Other(false)) == Seq::<PublicationView>::empty(),
{
    reveal_with_fuel(flame_run, 4);
    let e1 = seq![FlameEvent::Level(true), FlameEvent::Enqueued, FlameEvent::TimerElapsed];
    assert(e1.drop_first() =~= seq![FlameEvent::Enqueued, FlameEvent::TimerElapsed]);
    assert(e1.drop_first().drop_first() =~= seq![FlameEvent::TimerElapsed]);
    assert(e1.drop_first().drop_first().drop_first() =~= Seq::<FlameEvent>::empty());
    let e2 = seq![FlameEvent::Level(false), FlameEvent::TimerElapsed];
    assert(e2.drop_first() =~= seq![FlameEvent::TimerElapsed]);
    assert(e2.drop_first().drop_first() =~= Seq::<FlameEvent>::empty());
    assert(messages(PubPacket::Other(true)) =~= seq![message(fire_text())]);
    assert(messages(PubPacket::Other(false)) =~= Seq::<PublicationView>::empty());
}

/// The flame task only ever queues the flame warning `Other(true)`, and only
/// right after the pin read high.
pub proof fn law_flame_queues_only_warnings(task: FlameTask, event: FlameEvent)
    ensures
        flame_next(task, event).1 matches FlameAction::Enqueue(p) ==> p == PubPacket::Other(true),
        (task == FlameTask::Sampling && flame_next(task, event).1 is Enqueue) ==> event
            == FlameEvent::Level(true),
{
}

/// Runs the Wi-Fi task, with credentials that fit (`fit`) or not, through
/// `events`: its final phase and the actions it issued.
pub open spec fn wifi_run(phase: WifiPhase, fit: bool, events: Seq<WifiEvent>) -> (WifiPhase, Seq<WifiAction>)
    decreases events.len(),
{
    if events.len() == 0 {
        (phase, seq![])
    } else {
        let (next, action) = wifi_next(phase, fit, events[0]);
        let (last, rest) = wifi_run(next, fit, events.drop_first());
        (last, seq![action] + rest)
    }
}

/// `n` acknowledged sends.
pub open spec fn acknowledgements(n: nat) -> Seq<UplinkEvent> {
    Seq::new(n, |i: int| UplinkEvent::Sent(true))
}

/// The publish actions for a packet's messages, in order.
pub open spec fn publishes(p: PubPacket) -> Seq<UplinkActionView> {
    messages(p).map_values(|m: PublicationView| UplinkActionView::Publish(m))
}

/// Every packet taken off the queue is published in full and in order, one
/// message per acknowledged send, and then the uplink rests (announcing the
/// sends when there were any) and takes the next packet.
pub proof fn law_packet_published_in_full(p: PubPacket)
    ensures
        payloads(p).len() > 0 ==> uplink_run(
            UplinkTask::AwaitingPacket,
            seq![UplinkEvent::Received(p)] + acknowledgements((payloads(p).len() - 1) as nat)
                + seq![UplinkEvent::Sent(true), UplinkEvent::TimerElapsed],
        ) == (
            UplinkTask::AwaitingPacket,
            publishes(p) + seq![UplinkActionView::Rest { announce: true }, UplinkActionView::Receive],
        ),
        payloads(p).len() == 0 ==> uplink_run(
            UplinkTask::AwaitingPacket,
            seq![UplinkEvent::Received(p), UplinkEvent::TimerElapsed],
        ) == (
            UplinkTask::AwaitingPacket,
            seq![UplinkActionView::Rest { announce: false }, UplinkActionView::Receive],
        ),
{
    reveal_with_fuel(uplink_run, 5);
    match p {
        PubPacket::Temp(t, h) => {
            let evs = seq![UplinkEvent::Received(p)] + acknowledgements(1) + seq![
                UplinkEvent::Sent(true),
                UplinkEvent::TimerElapsed,
            ];
            assert(evs =~= seq![
                UplinkEvent::Received(p),
                UplinkEvent::Sent(true),
                UplinkEvent::Sent(true),
                UplinkEvent::TimerElapsed,
            ]);
            assert(evs.drop_first() =~= seq![
                UplinkEvent::Sent(true),
                UplinkEvent::Sent(true),
                UplinkEvent::TimerElapsed,
            ]);
            assert(evs.drop_first().drop_first() =~= seq![
                UplinkEvent::Sent(true),
                UplinkEvent::TimerElapsed,
            ]);
            assert(evs.drop_first().drop_first().drop_first() =~= seq![UplinkEvent::TimerElapsed]);
            assert(evs.drop_first().drop_first().drop_first().drop_first() =~= Seq::<
                UplinkEvent,
            >::empty());
            assert(publishes(p) =~= seq![
                UplinkActionView::Publish(messages(p)[0]),
                UplinkActionView::Publish(messages(p)[1]),
            ]);
            let r = uplink_run(UplinkTask::AwaitingPacket, evs);
            assert(r.1 =~= publishes(p) + seq![
                UplinkActionView::Rest { announce: true },
                UplinkActionView::Receive,
            ]);
        },
        PubPacket::Other(flame) => {
            if flame {
                let evs = seq![UplinkEvent::Received(p)] + acknowledgements(0) + seq![
                    UplinkEvent::Sent(true),
                    UplinkEvent::TimerElapsed,
                ];
                assert(evs =~= seq![
                    UplinkEvent::Received(p),
                    UplinkEvent::Sent(true),
                    UplinkEvent::TimerElapsed,
                ]);
                assert(evs.drop_first() =~= seq![UplinkEvent::Sent(true), UplinkEvent::TimerElapsed]);
                assert(evs.drop_first().drop_first() =~= seq![UplinkEvent::TimerElapsed]);
                assert(evs.drop_first().drop_first().drop_first() =~= Seq::<UplinkEvent>::empty());
                assert(publishes(p) =~= seq![UplinkActionView::Publish(messages(p)[0])]);
                let r = uplink_run(UplinkTask::AwaitingPacket, evs);
                assert(r.1 =~= publishes(p) + seq![
                    UplinkActionView::Rest { announce: true },
                    UplinkActionView::Receive,
                ]);
            } else {
                let evs = seq![UplinkEvent::Received(p), UplinkEvent::TimerElapsed];
                assert(evs.drop_first() =~= seq![UplinkEvent::TimerElapsed]);
                assert(evs.drop_first().drop_first() =~= Seq::<UplinkEvent>::empty());
            }
        },
    }
}

/// A refused send stops the uplink for good.
pub proof fn law_failed_send_halts(p: PubPacket, k: usize, event: UplinkEvent)
    ensures
        uplink_next(UplinkTask::Publishing(p, k), UplinkEvent::Sent(false)) == (
            UplinkTask::Halted,
            UplinkActionView::Abort,
        ),
        uplink_next(UplinkTask::Halted, event) == (UplinkTask::Halted, UplinkActionView::Abort),
{
}

/// Start-up goes link, address, broker lookup, TCP connection, MQTT session,
/// sensor tasks, in that order; a failed TCP connection or MQTT session does
/// not stop it.
pub proof fn law_startup_order(address: [u8; 4], socket_ok: bool, broker_ok: bool)
    ensures
        uplink_run(
            UplinkTask::AwaitingLink,
            seq![
                UplinkEvent::LinkStatus(true),
                UplinkEvent::AddressStatus(true),
                UplinkEvent::BrokerLookup(Ok(address)),
                UplinkEvent::SocketConnected(socket_ok),
                UplinkEvent::BrokerConnected(broker_ok),
                UplinkEvent::SensorsStarted,
            ],
        ) == (
            UplinkTask::AwaitingPacket,
            seq![
                UplinkActionView::CheckAddress,
                UplinkActionView::LookupBroker,
                UplinkActionView::ConnectSocket { address, port: BROKER_PORT },
                UplinkActionView::ConnectBroker,
                UplinkActionView::StartSensors,
                UplinkActionView::Receive,
            ],
        ),
{
    reveal_with_fuel(uplink_run, 7);
    let evs = seq![
        UplinkEvent::LinkStatus(true),
        UplinkEvent::AddressStatus(true),
        UplinkEvent::BrokerLookup(Ok(address)),
        UplinkEvent::SocketConnected(socket_ok),
        UplinkEvent::BrokerConnected(broker_ok),
        UplinkEvent::SensorsStarted,
    ];
    assert(evs.drop_first() =~= evs.subrange(1, 6));
    assert(evs.subrange(1, 6).drop_first() =~= evs.subrange(2, 6));
    assert(evs.subrange(2, 6).drop_first() =~= evs.subrange(3, 6));
    assert(evs.subrange(3, 6).drop_first() =~= evs.subrange(4, 6));
    assert(evs.subrange(4, 6).drop_first() =~= evs.subrange(5, 6));
    assert(evs.subrange(5, 6).drop_first() =~= Seq::<UplinkEvent>::empty());
    let r = uplink_run(UplinkTask::AwaitingLink, evs);
    assert(r.1 =~= seq![
        UplinkActionView::CheckAddress,
        UplinkActionView::LookupBroker,
        UplinkActionView::ConnectSocket { address, port: BROKER_PORT },
        UplinkActionView::ConnectBroker,
        UplinkActionView::StartSensors,
        UplinkActionView::Receive,
    ]);
}

/// While the link is down, or no address is assigned, the uplink checks again
/// every half second; a failed broker lookup is retried at once.
pub proof fn law_network_polled()
    ensures
        uplink_next(UplinkTask::AwaitingLink, UplinkEvent::LinkStatus(false)) == (
            UplinkTask::AwaitingLink,
            UplinkActionView::Wait(NETWORK_POLL_MS as u64),
        ),
        uplink_next(UplinkTask::AwaitingLink, UplinkEvent::TimerElapsed) == (
            UplinkTask::AwaitingLink,
            UplinkActionView::CheckLink,
        ),
        uplink_next(UplinkTask::AwaitingAddress, UplinkEvent::AddressStatus(false)) == (
            UplinkTask::AwaitingAddress,
            UplinkActionView::Wait(NETWORK_POLL_MS as u64),
        ),
        uplink_next(UplinkTask::AwaitingAddress, UplinkEvent::TimerElapsed) == (
            UplinkTask::AwaitingAddress,
            UplinkActionView::CheckAddress,
        ),
        uplink_next(UplinkTask::ResolvingBroker, UplinkEvent::BrokerLookup(Err(()))) == (
            UplinkTask::ResolvingBroker,
            UplinkActionView::LookupBroker,
        ),
{
}

/// The Wi-Fi task connects only after the controller reported itself started
/// or was just started (or when it repeats a connection attempt it is still
/// waiting on).
pub proof fn law_wifi_connects_only_when_started(phase: WifiPhase, fit: bool, event: WifiEvent)
    ensures
        wifi_next(phase, fit, event).1 == WifiAction::Connect ==> {
            ||| phase == WifiPhase::CheckingStarted && event == WifiEvent::StartedStatus(true)
            ||| phase == WifiPhase::Starting && event == WifiEvent::StartFinished(true)
            ||| phase == WifiPhase::Connecting && !(event is ConnectFinished)
        },
{
}

/// The Wi-Fi task configures the controller only when the controller did not
/// report itself started and the credentials fit the client configuration (or
/// when it repeats a configuration it is still waiting on).
pub proof fn law_wifi_configures_only_unstarted(phase: WifiPhase, fit: bool, event: WifiEvent)
    ensures
        wifi_next(phase, fit, event).1 == WifiAction::Configure ==> {
            ||| phase == WifiPhase::CheckingStarted && fit && (event == WifiEvent::StartedStatus(
                false,
            ) || event == WifiEvent::StartedUnknown)
            ||| phase == WifiPhase::Configuring && !(event is Configured)
        },
{
}

/// After a drop, and after a failed connection attempt, the Wi-Fi task waits
/// five seconds before it does anything else.
pub proof fn law_wifi_pauses_before_retry(fit: bool, event: WifiEvent)
    ensures
        wifi_run(
            WifiPhase::AwaitingDisconnect,
            fit,
            seq![WifiEvent::Disconnected, WifiEvent::TimerElapsed],
        ) == (
            WifiPhase::CheckingStarted,
            seq![WifiAction::Wait(RECONNECT_DELAY_MS as u64), WifiAction::QueryStarted],
        ),
        wifi_run(
            WifiPhase::Connecting,
            fit,
            seq![WifiEvent::ConnectFinished(false), WifiEvent::TimerElapsed],
        ) == (
            WifiPhase::CheckingState,
            seq![WifiAction::Wait(RECONNECT_DELAY_MS as u64), WifiAction::QueryState],
        ),
        event != WifiEvent::TimerElapsed ==> wifi_next(WifiPhase::PausingAfterDrop, fit, event) == (
            WifiPhase::PausingAfterDrop,
            WifiAction::Wait(RECONNECT_DELAY_MS as u64),
        ),
        event != WifiEvent::TimerElapsed ==> wifi_next(WifiPhase::PausingAfterFailure, fit, event)
            == (WifiPhase::PausingAfterFailure, WifiAction::Wait(RECONNECT_DELAY_MS as u64)),
{
    reveal_with_fuel(wifi_run, 3);
    let e1 = seq![WifiEvent::Disconnected, WifiEvent::TimerElapsed];
    assert(e1.drop_first() =~= seq![WifiEvent::TimerElapsed]);
    assert(e1.drop_first().drop_first() =~= Seq::<WifiEvent>::empty());
    let e2 = seq![WifiEvent::ConnectFinished(false), WifiEvent::TimerElapsed];
    assert(e2.drop_first() =~= seq![WifiEvent::TimerElapsed]);
    assert(e2.drop_first().drop_first() =~= Seq::<WifiEvent>::empty());
    let r1 = wifi_run(WifiPhase::AwaitingDisconnect, fit, e1);
    assert(r1.1 =~= seq![WifiAction::Wait(RECONNECT_DELAY_MS as u64), WifiAction::QueryStarted]);
    let r2 = wifi_run(WifiPhase::Connecting, fit, e2);
    assert(r2.1 =~= seq![WifiAction::Wait(RECONNECT_DELAY_MS as u64), WifiAction::QueryState]);
}

/// From a disconnected station with a stopped controller, the Wi-Fi task
/// configures, starts and connects, then checks the state again; with
/// credentials that do not fit the configuration it halts instead, and a
/// halted task stays halted.
pub proof fn law_wifi_bring_up(fit: bool, event: WifiEvent)
    ensures
        fit ==> wifi_run(
            WifiPhase::CheckingState,
            fit,
            seq![
                WifiEvent::State(false),
                WifiEvent::StartedStatus(false),
                WifiEvent::Configured(true),
                WifiEvent::StartFinished(true),
                WifiEvent::ConnectFinished(true),
            ],
        ) == (
            WifiPhase::CheckingState,
            seq![
                WifiAction::QueryStarted,
                WifiAction::Configure,
                WifiAction::Start,
                WifiAction::Connect,
                WifiAction::QueryState,
            ],
        ),
        !fit ==> wifi_next(WifiPhase::CheckingStarted, fit, WifiEvent::StartedStatus(false)) == (
            WifiPhase::Halted,
            WifiAction::Abort,
        ),
        wifi_next(WifiPhase::Halted, fit, event) == (WifiPhase::Halted, WifiAction::Abort),
{
    reveal_with_fuel(wifi_run, 6);
    let evs = seq![
        WifiEvent::State(false),
        WifiEvent::StartedStatus(false),
        WifiEvent::Configured(true),
        WifiEvent::StartFinished(true),
        WifiEvent::ConnectFinished(true),
    ];
    assert(evs.drop_first() =~= evs.subrange(1, 5));
    assert(evs.subrange(1, 5).drop_first() =~= evs.subrange(2, 5));
    assert(evs.subrange(2, 5).drop_first() =~= evs.subrange(3, 5));
    assert(evs.subrange(3, 5).drop_first() =~= evs.subrange(4, 5));
    assert(evs.subrange(4, 5).drop_first() =~= Seq::<WifiEvent>::empty());
    if fit {
        let r = wifi_run(WifiPhase::CheckingState, fit, evs);
        assert(r.1 =~= seq![
            WifiAction::QueryStarted,
            WifiAction::Configure,
            WifiAction::Start,
            WifiAction::Connect,
            WifiAction::QueryState,
        ]);
    }
}

/// The packets put on the queue by a run of temperature-task actions, in order.
pub open spec fn sensor_enqueued(actions: Seq<SensorAction>) -> Seq<PubPacket>
    decreases actions.len(),
{
    if actions.len() == 0 {
        seq![]
    } else {
        (match actions[0] {
            SensorAction::Enqueue(p) => seq![p],
            _ => seq![],
        }) + sensor_enqueued(actions.drop_first())
    }
}

/// The events that answer one sensor read with result `r` (`None`: the read
/// failed): a reading is queued and the rest runs out; a failure is just reported.
pub open spec fn read_events(r: Option<(i8, u8)>) -> Seq<SensorEvent> {
    match r {
        Some((t, h)) => seq![
            SensorEvent::Measured(t, h),
            SensorEvent::Enqueued,
            SensorEvent::TimerElapsed,
        ],
        None => seq![SensorEvent::MeasurementFailed],
    }
}

/// The events that answer a series of sensor reads with results `rs`.
pub open spec fn sensor_events(rs: Seq<Option<(i8, u8)>>) -> Seq<SensorEvent>
    decreases rs.len(),
{
    if rs.len() == 0 {
        seq![]
    } else {
        read_events(rs[0]) + sensor_events(rs.drop_first())
    }
}

/// The `Temp` packets of the successful reads among `rs`, in order.
pub open spec fn readings(rs: Seq<Option<(i8, u8)>>) -> Seq<PubPacket>
    decreases rs.len(),
{
    if rs.len() == 0 {
        seq![]
    } else {
        (match rs[0] {
            Some((t, h)) => seq![PubPacket::Temp(t, h)],
            None => seq![],
        }) + readings(rs.drop_first())
    }
}

proof fn lemma_sensor_run_append(task: SensorTask, e1: Seq<SensorEvent>, e2: Seq<SensorEvent>)
    ensures
        sensor_run(task, e1 + e2) == (
            sensor_run(sensor_run(task, e1).0, e2).0,
            sensor_run(task, e1).1 + sensor_run(sensor_run(task, e1).0, e2).1,
        ),
    decreases e1.len(),
{
    if e1.len() == 0 {
        assert(e1 + e2 =~= e2);
        assert(sensor_run(task, e1).1 + sensor_run(task, e2).1 =~= sensor_run(task, e2).1);
    } else {
        let (next, a) = sensor_next(task, e1[0]);
        assert((e1 + e2)[0] == e1[0]);
        assert((e1 + e2).drop_first() =~= e1.drop_first() + e2);
        lemma_sensor_run_append(next, e1.drop_first(), e2);
        let mid = sensor_run(next, e1.drop_first());
        let tail = sensor_run(mid.0, e2);
        assert(seq![a] + (mid.1 + tail.1) =~= (seq![a] + mid.1) + tail.1);
    }
}

proof fn lemma_sensor_enqueued_append(a1: Seq<SensorAction>, a2: Seq<SensorAction>)
    ensures
        sensor_enqueued(a1 + a2) == sensor_enqueued(a1) + sensor_enqueued(a2),
    decreases a1.len(),
{
    if a1.len() == 0 {
        assert(a1 + a2 =~= a2);
        assert(sensor_enqueued(a1) + sensor_enqueued(a2) =~= sensor_enqueued(a2));
    } else {
        assert((a1 + a2)[0] == a1[0]);
        assert((a1 + a2).drop_first() =~= a1.drop_first() + a2);
        lemma_sensor_enqueued_append(a1.drop_first(), a2);
        let head = match a1[0] {
            SensorAction::Enqueue(p) => seq![p],
            _ => Seq::<PubPacket>::empty(),
        };
        assert(head + (sensor_enqueued(a1.drop_first()) + sensor_enqueued(a2)) =~= (head
            + sensor_enqueued(a1.drop_first())) + sensor_enqueued(a2));
    }
}

proof fn lemma_one_read(r: Option<(i8, u8)>)
    ensures
        sensor_run(SensorTask::Measuring, read_events(r)).0 == SensorTask::Measuring,
        sensor_enqueued(sensor_run(SensorTask::Measuring, read_events(r)).1) == (match r {
            Some((t, h)) => seq![PubPacket::Temp(t, h)],
            None => Seq::<PubPacket>::empty(),
        }),
{
    reveal_with_fuel(sensor_run, 4);
    reveal_with_fuel(sensor_enqueued, 4);
    let evs = read_events(r);
    match r {
        Some((t, h)) => {
            assert(evs.drop_first() =~= seq![SensorEvent::Enqueued, SensorEvent::TimerElapsed]);
            assert(evs.drop_first().drop_first() =~= seq![SensorEvent::TimerElapsed]);
            assert(evs.drop_first().drop_first().drop_first() =~= Seq::<SensorEvent>::empty());
            let acts = sensor_run(SensorTask::Measuring, evs).1;
            assert(acts =~= seq![
                SensorAction::Enqueue(PubPacket::Temp(t, h)),
                SensorAction::Wait(READING_INTERVAL_MS as u64),
                SensorAction::Measure,
            ]);
            assert(acts.drop_first() =~= seq![
                SensorAction::Wait(READING_INTERVAL_MS as u64),
                SensorAction::Measure,
            ]);
            assert(acts.drop_first().drop_first() =~= seq![SensorAction::Measure]);
            assert(acts.drop_first().drop_first().drop_first() =~= Seq::<SensorAction>::empty());
            assert(sensor_enqueued(acts) =~= seq![PubPacket::Temp(t, h)]);
        },
        None => {
            assert(evs.drop_first() =~= Seq::<SensorEvent>::empty());
            let acts = sensor_run(SensorTask::Measuring, evs).1;
            assert(acts =~= seq![SensorAction::Measure]);
            assert(acts.drop_first() =~= Seq::<SensorAction>::empty());
            assert(sensor_enqueued(acts) =~= Seq::<PubPacket>::empty());
        },
    }
}

/// Over any series of sensor reads, each answered as it comes, the temperature
/// task queues exactly the successful readings, each once, unchanged and in
/// the order they were taken; a failed read queues nothing. After the series
/// the task is about to read again.
pub proof fn law_sensor_queues_every_reading(rs: Seq<Option<(i8, u8)>>)
    ensures
        sensor_run(SensorTask::Measuring, sensor_events(rs)).0 == SensorTask::Measuring,
        sensor_enqueued(sensor_run(SensorTask::Measuring, sensor_events(rs)).1) == readings(rs),
    decreases rs.len(),
{
    if rs.len() == 0 {
        reveal_with_fuel(sensor_run, 1);
        reveal_with_fuel(sensor_enqueued, 1);
        assert(sensor_events(rs) =~= Seq::<SensorEvent>::empty());
    } else {
        let block = read_events(rs[0]);
        let rest = sensor_events(rs.drop_first());
        assert(sensor_events(rs) == block + rest);
        lemma_sensor_run_append(SensorTask::Measuring, block, rest);
        lemma_one_read(rs[0]);
        law_sensor_queues_every_reading(rs.drop_first());
        lemma_sensor_enqueued_append(
            sensor_run(SensorTask::Measuring, block).1,
            sensor_run(SensorTask::Measuring, rest).1,
        );
    }
}

proof fn lemma_readings_skip_failure(rs: Seq<Option<(i8, u8)>>, i: int)
    requires
        0 <= i <= rs.len(),
    ensures
        readings(rs.insert(i, None)) == readings(rs),
    decreases rs.len(),
{
    let rs2 = rs.insert(i, None);
    if i == 0 {
        assert(rs2.drop_first() =~= rs);
        assert(readings(rs2) =~= readings(rs));
    } else {
        assert(rs2[0] == rs[0]);
        assert(rs2.drop_first() =~= rs.drop_first().insert(i - 1, None));
        lemma_readings_skip_failure(rs.drop_first(), i - 1);
    }
}

/// A failed read, wherever it happens in a series, changes nothing in what the
/// temperature task queues: it only adds a report and a retry.
pub proof fn law_failed_read_changes_nothing(rs: Seq<Option<(i8, u8)>>, i: int)
    requires
        0 <= i <= rs.len(),
    ensures
        sensor_enqueued(sensor_run(SensorTask::Measuring, sensor_events(rs.insert(i, None))).1)
            == sensor_enqueued(sensor_run(SensorTask::Measuring, sensor_events(rs)).1),
{
    law_sensor_queues_every_reading(rs);
    law_sensor_queues_every_reading(rs.insert(i, None));
    lemma_readings_skip_failure(rs, i);
}

/// The packets put on the queue by a run of flame-task actions, in order.
pub open spec fn flame_enqueued(actions: Seq<FlameAction>) -> Seq<PubPacket>
    decreases actions.len(),
{
    if actions.len() == 0 {
        seq![]
    } else {
        (match actions[0] {
            FlameAction::Enqueue(p) => seq![p],
            _ => seq![],
        }) + flame_enqueued(actions.drop_first())
    }
}

/// The events that answer one poll of the flame pin that reads `high`.
pub open spec fn poll_events(high: bool) -> Seq<FlameEvent> {
    if high {
        seq![FlameEvent::Level(true), FlameEvent::Enqueued, FlameEvent::TimerElapsed]
    } else {
        seq![FlameEvent::Level(false), FlameEvent::TimerElapsed]
    }
}

/// The events that answer a series of polls of the flame pin reading `hs`.
pub open spec fn flame_events(hs: Seq<bool>) -> Seq<FlameEvent>
    decreases hs.len(),
{
    if hs.len() == 0 {
        seq![]
    } else {
        poll_events(hs[0]) + flame_events(hs.drop_first())
    }
}

/// How many of the polls `hs` read high.
pub open spec fn high_count(hs: Seq<bool>) -> nat
    decreases hs.len(),
{
    if hs.len() == 0 {
        0
    } else {
        (if hs[0] {
            1nat
        } else {
            0nat
        }) + high_count(hs.drop_first())
    }
}

/// `n` flame warnings.
pub open spec fn warnings(n: nat) -> Seq<PubPacket> {
    Seq::new(n, |i: int| PubPacket::Other(true))
}

proof fn lemma_flame_run_append(task: FlameTask, e1: Seq<FlameEvent>, e2: Seq<FlameEvent>)
    ensures
        flame_run(task, e1 + e2) == (
            flame_run(flame_run(task, e1).0, e2).0,
            flame_run(task, e1).1 + flame_run(flame_run(task, e1).0, e2).1,
        ),
    decreases e1.len(),
{
    if e1.len() == 0 {
        assert(e1 + e2 =~= e2);
        assert(flame_run(task, e1).1 + flame_run(task, e2).1 =~= flame_run(task, e2).1);
    } else {
        let (next, a) = flame_next(task, e1[0]);
        assert((e1 + e2)[0] == e1[0]);
        assert((e1 + e2).drop_first() =~= e1.drop_first() + e2);
        lemma_flame_run_append(next, e1.drop_first(), e2);
        let mid = flame_run(next, e1.drop_first());
        let tail = flame_run(mid.0, e2);
        assert(seq![a] + (mid.1 + tail.1) =~= (seq![a] + mid.1) + tail.1);
    }
}

proof fn lemma_flame_enqueued_append(a1: Seq<FlameAction>, a2: Seq<FlameAction>)
    ensures
        flame_enqueued(a1 + a2) == flame_enqueued(a1) + flame_enqueued(a2),
    decreases a1.len(),
{
    if a1.len() == 0 {
        assert(a1 + a2 =~= a2);
        assert(flame_enqueued(a1) + flame_enqueued(a2) =~= flame_enqueued(a2));
    } else {
        assert((a1 + a2)[0] == a1[0]);
        assert((a1 + a2).drop_first() =~= a1.drop_first() + a2);
        lemma_flame_enqueued_append(a1.drop_first(), a2);
        let head = match a1[0] {
            FlameAction::Enqueue(p) => seq![p],
            _ => Seq::<PubPacket>::empty(),
        };
        assert(head + (flame_enqueued(a1.drop_first()) + flame_enqueued(a2)) =~= (head
            + flame_enqueued(a1.drop_first())) + flame_enqueued(a2));
    }
}

proof fn lemma_one_poll(high: bool)
    ensures
        flame_run(FlameTask::Sampling, poll_events(high)).0 == FlameTask::Sampling,
        flame_enqueued(flame_run(FlameTask::Sampling, poll_events(high)).1) == warnings(
            if high {
                1nat
            } else {
                0nat
            },
        ),
{
    reveal_with_fuel(flame_run, 4);
    reveal_with_fuel(flame_enqueued, 4);
    let evs = poll_events(high);
    if high {
        assert(evs.drop_first() =~= seq![FlameEvent::Enqueued, FlameEvent::TimerElapsed]);
        assert(evs.drop_first().drop_first() =~= seq![FlameEvent::TimerElapsed]);
        assert(evs.drop_first().drop_first().drop_first() =~= Seq::<FlameEvent>::empty());
        let acts = flame_run(FlameTask::Sampling, evs).1;
        assert(acts =~= seq![
            FlameAction::Enqueue(PubPacket::Other(true)),
            FlameAction::Wait(SAMPLE_INTERVAL_MS as u64),
            FlameAction::Sample,
        ]);
        assert(acts.drop_first() =~= seq![
            FlameAction::Wait(SAMPLE_INTERVAL_MS as u64),
            FlameAction::Sample,
        ]);
        assert(acts.drop_first().drop_first() =~= seq![FlameAction::Sample]);
        assert(acts.drop_first().drop_first().drop_first() =~= Seq::<FlameAction>::empty());
        assert(flame_enqueued(acts) =~= warnings(1));
    } else {
        assert(evs.drop_first() =~= seq![FlameEvent::TimerElapsed]);
        assert(evs.drop_first().drop_first() =~= Seq::<FlameEvent>::empty());
        let acts = flame_run(FlameTask::Sampling, evs).1;
        assert(acts =~= seq![FlameAction::Wait(SAMPLE_INTERVAL_MS as u64), FlameAction::Sample]);
        assert(acts.drop_first() =~= seq![FlameAction::Sample]);
        assert(acts.drop_first().drop_first() =~= Seq::<FlameAction>::empty());
        assert(flame_enqueued(acts) =~= warnings(0));
    }
}

/// Over any series of polls of the flame pin, each answered as it comes, the
/// flame task queues exactly one `Other(true)` per poll that read high and
/// nothing for a poll that read low. After the series it is about to poll again.
pub proof fn law_flame_warns_once_per_high_poll(hs: Seq<bool>)
    ensures
        flame_run(FlameTask::Sampling, flame_events(hs)).0 == FlameTask::Sampling,
        flame_enqueued(flame_run(FlameTask::Sampling, flame_events(hs)).1) == warnings(
            high_count(hs),
        ),
    decreases hs.len(),
{
    if hs.len() == 0 {
        reveal_with_fuel(flame_run, 1);
        reveal_with_fuel(flame_enqueued, 1);
        assert(flame_events(hs) =~= Seq::<FlameEvent>::empty());
        assert(warnings(0) =~= Seq::<PubPacket>::empty());
    } else {
        let block = poll_events(hs[0]);
        let rest = flame_events(hs.drop_first());
        assert(flame_events(hs) == block + rest);
        lemma_flame_run_append(FlameTask::Sampling, block, rest);
        lemma_one_poll(hs[0]);
        law_flame_warns_once_per_high_poll(hs.drop_first());
        lemma_flame_enqueued_append(
            flame_run(FlameTask::Sampling, block).1,
            flame_run(FlameTask::Sampling, rest).1,
        );
        let c = if hs[0] {
            1nat
        } else {
            0nat
        };
        assert(warnings(c) + warnings(high_count(hs.drop_first())) =~= warnings(high_count(hs)));
    }
}

proof fn lemma_high_count_update(hs: Seq<bool>, i: int)
    requires
        0 <= i < hs.len(),
        !hs[i],
    ensures
        high_count(hs.update(i, true)) == high_count(hs) + 1,
    decreases hs.len(),
{
    let hs2 = hs.update(i, true);
    if i == 0 {
        assert(hs2.drop_first() =~= hs.drop_first());
    } else {
        assert(hs2[0] == hs[0]);
        assert(hs2.drop_first() =~= hs.drop_first().update(i - 1, true));
        lemma_high_count_update(hs.drop_first(), i - 1);
    }
}

/// Turning one low poll into a high one makes the flame task queue exactly one
/// more warning, and changes nothing else in what it queues.
pub proof fn law_one_more_flame_one_more_warning(hs: Seq<bool>, i: int)
    requires
        0 <= i < hs.len(),
        !hs[i],
    ensures
        flame_enqueued(flame_run(FlameTask::Sampling, flame_events(hs.update(i, true))).1)
            == flame_enqueued(flame_run(FlameTask::Sampling, flame_events(hs)).1).push(
            PubPacket::Other(true),
        ),
{
    law_flame_warns_once_per_high_poll(hs);
    law_flame_warns_once_per_high_poll(hs.update(i, true));
    lemma_high_count_update(hs, i);
    assert(warnings(high_count(hs) + 1) =~= warnings(high_count(hs)).push(PubPacket::Other(true)));
}

/// Whether `event` answers the action that a Wi-Fi task in `phase` is waiting
/// on, with the configuration accepted and the controller starting whenever
/// they are asked for. Nothing answers a halted task.
pub open spec fn answers(phase: WifiPhase, event: WifiEvent) -> bool {
    match phase {
        WifiPhase::CheckingState => event is State,
        WifiPhase::AwaitingDisconnect => event == WifiEvent::Disconnected,
        WifiPhase::PausingAfterDrop => event == WifiEvent::TimerElapsed,
        WifiPhase::CheckingStarted => event is StartedStatus || event == WifiEvent::StartedUnknown,
        WifiPhase::Configuring => event == WifiEvent::Configured(true),
        WifiPhase::Starting => event == WifiEvent::StartFinished(true),
        WifiPhase::Connecting => event is ConnectFinished,
        WifiPhase::PausingAfterFailure => event == WifiEvent::TimerElapsed,
        WifiPhase::Halted => false,
    }
}

/// Whether every event of `events` answers the action that the Wi-Fi task,
/// run from `phase`, is waiting on when the event comes.
pub open spec fn cooperative(phase: WifiPhase, fit: bool, events: Seq<WifiEvent>) -> bool
    decreases events.len(),
{
    events.len() == 0 || (answers(phase, events[0]) && cooperative(
        wifi_next(phase, fit, events[0]).0,
        fit,
        events.drop_first(),
    ))
}

/// The most answered events a Wi-Fi task in `phase` goes through before it
/// asks for a connection.
pub open spec fn connect_bound(phase: WifiPhase) -> nat {
    match phase {
        WifiPhase::Starting => 1,
        WifiPhase::Configuring => 2,
        WifiPhase::CheckingStarted => 3,
        WifiPhase::PausingAfterDrop => 4,
        WifiPhase::AwaitingDisconnect => 5,
        WifiPhase::CheckingState => 6,
        WifiPhase::PausingAfterFailure => 7,
        WifiPhase::Connecting => 8,
        WifiPhase::Halted => 0,
    }
}

proof fn lemma_wifi_run_len(phase: WifiPhase, fit: bool, events: Seq<WifiEvent>)
    ensures
        wifi_run(phase, fit, events).1.len() == events.len(),
    decreases events.len(),
{
    if events.len() > 0 {
        lemma_wifi_run_len(wifi_next(phase, fit, events[0]).0, fit, events.drop_first());
    }
}

proof fn lemma_wifi_run_append(phase: WifiPhase, fit: bool, e1: Seq<WifiEvent>, e2: Seq<WifiEvent>)
    ensures
        wifi_run(phase, fit, e1 + e2) == (
            wifi_run(wifi_run(phase, fit, e1).0, fit, e2).0,
            wifi_run(phase, fit, e1).1 + wifi_run(wifi_run(phase, fit, e1).0, fit, e2).1,
        ),
        cooperative(phase, fit, e1 + e2) ==> cooperative(phase, fit, e1) && cooperative(
            wifi_run(phase, fit, e1).0,
            fit,
            e2,
        ),
    decreases e1.len(),
{
    if e1.len() == 0 {
        assert(e1 + e2 =~= e2);
        assert(wifi_run(phase, fit, e1).1 + wifi_run(phase, fit, e2).1 =~= wifi_run(
            phase,
            fit,
            e2,
        ).1);
    } else {
        let (next, a) = wifi_next(phase, fit, e1[0]);
        assert((e1 + e2)[0] == e1[0]);
        assert((e1 + e2).drop_first() =~= e1.drop_first() + e2);
        lemma_wifi_run_append(next, fit, e1.drop_first(), e2);
        let mid = wifi_run(next, fit, e1.drop_first());
        let tail = wifi_run(mid.0, fit, e2);
        assert(seq![a] + (mid.1 + tail.1) =~= (seq![a] + mid.1) + tail.1);
    }
}

proof fn lemma_wifi_never_halts(phase: WifiPhase, fit: bool, events: Seq<WifiEvent>)
    requires
        fit,
        phase != WifiPhase::Halted,
        cooperative(phase, fit, events),
    ensures
        wifi_run(phase, fit, events).0 != WifiPhase::Halted,
    decreases events.len(),
{
    if events.len() > 0 {
        lemma_wifi_never_halts(wifi_next(phase, fit, events[0]).0, fit, events.drop_first());
    }
}

proof fn lemma_reaches_connect(phase: WifiPhase, fit: bool, events: Seq<WifiEvent>)
    requires
        fit,
        phase != WifiPhase::Halted,
        cooperative(phase, fit, events),
        events.len() >= connect_bound(phase),
    ensures
        wifi_run(phase, fit, events).1.take(connect_bound(phase) as int).contains(
            WifiAction::Connect,
        ),
    decreases connect_bound(phase),
{
    let (next, a) = wifi_next(phase, fit, events[0]);
    let acts = wifi_run(phase, fit, events).1;
    let b = connect_bound(phase) as int;
    lemma_wifi_run_len(phase, fit, events);
    lemma_wifi_run_len(next, fit, events.drop_first());
    assert(acts == seq![a] + wifi_run(next, fit, events.drop_first()).1);
    if a == WifiAction::Connect {
        assert(acts.take(b)[0] == WifiAction::Connect);
    } else {
        assert(next != WifiPhase::Halted);
        assert(connect_bound(next) < connect_bound(phase));
        lemma_reaches_connect(next, fit, events.drop_first());
        let sub = wifi_run(next, fit, events.drop_first()).1;
        let j = choose|j: int|
            0 <= j < sub.take(connect_bound(next) as int).len() && sub.take(
                connect_bound(next) as int,
            )[j] == WifiAction::Connect;
        assert(acts.take(b)[j + 1] == WifiAction::Connect);
    }
}

/// The Wi-Fi task keeps reconnecting: when every action completes, the
/// configuration is accepted and the controller starts whenever asked, and the
/// credentials fit, every eight consecutive answered events include a
/// connection attempt, so the station is connected again after every drop.
pub proof fn law_wifi_keeps_reconnecting(
    phase: WifiPhase,
    fit: bool,
    events: Seq<WifiEvent>,
    i: int,
)
    requires
        fit,
        phase != WifiPhase::Halted,
        cooperative(phase, fit, events),
        0 <= i,
        i + 8 <= events.len(),
    ensures
        wifi_run(phase, fit, events).1.subrange(i, i + 8).contains(WifiAction::Connect),
{
    let e1 = events.take(i);
    let e2 = events.skip(i);
    assert(events =~= e1 + e2);
    lemma_wifi_run_append(phase, fit, e1, e2);
    let mid = wifi_run(phase, fit, e1).0;
    lemma_wifi_never_halts(phase, fit, e1);
    lemma_wifi_run_len(phase, fit, e1);
    lemma_wifi_run_len(mid, fit, e2);
    lemma_wifi_run_len(phase, fit, events);
    lemma_reaches_connect(mid, fit, e2);
    let acts = wifi_run(phase, fit, events).1;
    let sub = wifi_run(mid, fit, e2).1;
    let b = connect_bound(mid) as int;
    let j = choose|j: int| 0 <= j < sub.take(b).len() && sub.take(b)[j] == WifiAction::Connect;
    assert(acts == wifi_run(phase, fit, e1).1 + sub);
    assert(acts.subrange(i, i + 8)[j] == sub[j]);
    assert(acts.subrange(i, i + 8)[j] == WifiAction::Connect);
}

/// After a drop the Wi-Fi task waits five seconds and then, when every action
/// completes and the configuration and the start succeed, asks for a
/// connection within the same pass.
pub proof fn law_wifi_reconnects_after_drop(fit: bool, events: Seq<WifiEvent>)
    requires
        fit,
        cooperative(WifiPhase::AwaitingDisconnect, fit, events),
        events.len() >= 5,
    ensures
        wifi_run(WifiPhase::AwaitingDisconnect, fit, events).1[0] == WifiAction::Wait(
            RECONNECT_DELAY_MS as u64,
        ),
        wifi_run(WifiPhase::AwaitingDisconnect, fit, events).1.take(5).contains(
            WifiAction::Connect,
        ),
{
    lemma_reaches_connect(WifiPhase::AwaitingDisconnect, fit, events);
}

/// A refused send halts the uplink, whichever message of the packet it was:
/// for every packet with messages and every `k` below their number, receiving
/// the packet, having `k` sends acknowledged and then one refused publishes the
/// first `k + 1` messages and then stops for good.
pub proof fn law_refused_send_halts_packet(p: PubPacket, k: nat)
    requires
        k < payloads(p).len(),
    ensures
        uplink_run(
            UplinkTask::AwaitingPacket,
            seq![UplinkEvent::Received(p)] + acknowledgements(k) + seq![UplinkEvent::Sent(false)],
        ) == (
            UplinkTask::Halted,
            publishes(p).take((k + 1) as int) + seq![UplinkActionView::Abort],
        ),
{
    reveal_with_fuel(uplink_run, 4);
    let evs = seq![UplinkEvent::Received(p)] + acknowledgements(k) + seq![UplinkEvent::Sent(false)];
    if k == 0 {
        assert(evs =~= seq![UplinkEvent::Received(p), UplinkEvent::Sent(false)]);
        assert(evs.drop_first() =~= seq![UplinkEvent::Sent(false)]);
        assert(evs.drop_first().drop_first() =~= Seq::<UplinkEvent>::empty());
        let r = uplink_run(UplinkTask::AwaitingPacket, evs);
        assert(r.1 =~= publishes(p).take(1) + seq![UplinkActionView::Abort]);
    } else {
        assert(k == 1);
        assert(evs =~= seq![
            UplinkEvent::Received(p),
            UplinkEvent::Sent(true),
            UplinkEvent::Sent(false),
        ]);
        assert(evs.drop_first() =~= seq![UplinkEvent::Sent(true), UplinkEvent::Sent(false)]);
        assert(evs.drop_first().drop_first() =~= seq![UplinkEvent::Sent(false)]);
        assert(evs.drop_first().drop_first().drop_first() =~= Seq::<UplinkEvent>::empty());
        let r = uplink_run(UplinkTask::AwaitingPacket, evs);
        assert(r.1 =~= publishes(p).take(2) + seq![UplinkActionView::Abort]);
    }
}

/// Whatever state the uplink is in and whatever event it takes, when it asks
/// for a message to be sent, a refusal of that send halts it with `Abort`;
/// a send is never followed by a rest that would report a lost message as sent.
pub proof fn law_every_publish_is_checked(task: UplinkTask, event: UplinkEvent)
    ensures
        uplink_next(task, event).1 is Publish ==> uplink_next(
            uplink_next(task, event).0,
            UplinkEvent::Sent(false),
        ) == (UplinkTask::Halted, UplinkActionView::Abort),
{
}

/// Whatever state the Wi-Fi task is in and whatever event it takes, when it
/// asks for a connection: a failed attempt is followed by a pause of
/// [`RECONNECT_DELAY_MS`] before anything else, and a successful one by a
/// fresh look at the station's state (so a connected station goes back to
/// waiting for a drop).
pub proof fn law_connect_outcome(phase: WifiPhase, fit: bool, event: WifiEvent)
    ensures
        wifi_next(phase, fit, event).1 == WifiAction::Connect ==> {
            &&& wifi_next(wifi_next(phase, fit, event).0, fit, WifiEvent::ConnectFinished(false))
                == (WifiPhase::PausingAfterFailure, WifiAction::Wait(5000))
            &&& wifi_next(wifi_next(phase, fit, event).0, fit, WifiEvent::ConnectFinished(true))
                == (WifiPhase::CheckingState, WifiAction::QueryState)
        },
{
}

/// The SSID and the password fit the client configuration exactly when the
/// SSID has at most 32 bytes and the password at most 64 (empty ones
/// included), and with credentials that fit an unstarted controller is
/// configured; with credentials that do not, the task halts.
pub proof fn law_credentials_limits(ssid: Seq<u8>, password: Seq<u8>)
    ensures
        credentials_fit(ssid, password) <==> (ssid.len() <= 32 && password.len() <= 64),
        (ssid.len() <= 32 && password.len() <= 64) ==> wifi_next(
            WifiPhase::CheckingStarted,
            credentials_fit(ssid, password),
            WifiEvent::StartedStatus(false),
        ) == (WifiPhase::Configuring, WifiAction::Configure),
        !(ssid.len() <= 32 && password.len() <= 64) ==> wifi_next(
            WifiPhase::CheckingStarted,
            credentials_fit(ssid, password),
            WifiEvent::StartedStatus(false),
        ) == (WifiPhase::Halted, WifiAction::Abort),
{
}

} // verus!
