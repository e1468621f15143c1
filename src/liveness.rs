//! Liveness decisions: a device whose last reading is older than the window
//! is offline. Each monitor tick compares that verdict with the stored flag
//! and announces every change to the registry.
use vstd::prelude::*;
use crate::hub::{deliver_active, Registry, SessionView};
use crate::models::ESPActiveEvent;

verus! {

/// A device is online while its last reading is younger than this, in
/// milliseconds.
pub const LIVENESS_WINDOW_MS: i64 = 10_000;

/// Whether a device last heard from at `last_ms` counts as online at `now_ms`.
pub open spec fn is_live(now_ms: int, last_ms: int) -> bool {
    now_ms - last_ms < LIVENESS_WINDOW_MS
}

/// The new flag to store, or `None` when the stored flag is already right.
pub open spec fn change_of(now_ms: int, last_ms: int, stored: bool) -> Option<bool> {
    if is_live(now_ms, last_ms) == stored {
        None
    } else {
        Some(is_live(now_ms, last_ms))
    }
}

/// Whether the device counts as online.
pub fn compute_active(now_ms: i64, last_update_ms: i64) -> (r: bool)
    ensures
        r == is_live(now_ms as int, last_update_ms as int),
{
    (now_ms as i128) - (last_update_ms as i128) < (LIVENESS_WINDOW_MS as i128)
}

/// The status change that a tick makes for one device.
pub fn status_change(now_ms: i64, last_update_ms: i64, stored: bool) -> (r: Option<bool>)
    ensures
        r == change_of(now_ms as int, last_update_ms as int, stored),
{
    let active = compute_active(now_ms, last_update_ms);
    if active == stored {
        None
    } else {
        Some(active)
    }
}

/// What the monitor knows of one device at a tick: when its last reading
/// arrived, and its stored flag (`None` when the flag could not be read).
#[derive(Debug)]
pub struct DeviceStatus {
    pub id: String,
    pub last_update_ms: i64,
    pub stored_active: Option<bool>,
}

impl View for DeviceStatus {
    type V = (Seq<char>, i64, Option<bool>);

    open spec fn view(&self) -> (Seq<char>, i64, Option<bool>) {
        (self.id@, self.last_update_ms, self.stored_active)
    }
}

/// The view of each device's status, in order.
pub open spec fn statuses_of(v: Seq<DeviceStatus>) -> Seq<(Seq<char>, i64, Option<bool>)> {
    v.map_values(|d: DeviceStatus| d@)
}

/// The status events of one tick at `now_ms`, in device order: one for each
/// device whose stored flag was read and differs from its computed status.
pub open spec fn tick_changes(now_ms: int, devs: Seq<(Seq<char>, i64, Option<bool>)>) -> Seq<(Seq<char>, bool)>
    decreases devs.len(),
{
    if devs.len() == 0 {
        Seq::empty()
    } else {
        let init = tick_changes(now_ms, devs.drop_last());
        let d = devs.last();
        match d.2 {
            Some(stored) => match change_of(now_ms, d.1 as int, stored) {
                Some(active) => init.push((d.0, active)),
                None => init,
            },
            None => init,
        }
    }
}

/// The registry after each event of `evs` was published in turn.
pub open spec fn publish_all(m: Map<u64, SessionView>, evs: Seq<(Seq<char>, bool)>) -> Map<u64, SessionView>
    decreases evs.len(),
{
    if evs.len() == 0 {
        m
    } else {
        publish_all(m, evs.drop_last()).map_values(|s: SessionView| deliver_active(s, evs.last()))
    }
}

/// One monitor tick at `now_ms`: computes each device's status, and for each
/// device whose stored flag differs publishes an [`ESPActiveEvent`] through
/// the registry. Returns those events, in device order, for the caller to
/// persist.
pub fn monitor_tick(registry: &mut Registry, now_ms: i64, devices: &Vec<DeviceStatus>) -> (r: Vec<ESPActiveEvent>)
    requires
        old(registry).wf(),
    ensures
        final(registry).wf(),
        r@.map_values(|e: ESPActiveEvent| e@) == tick_changes(now_ms as int, statuses_of(devices@)),
        final(registry)@ == publish_all(old(registry)@, tick_changes(now_ms as int, statuses_of(devices@))),
{
    let ghost devs = statuses_of(devices@);
    let mut out: Vec<ESPActiveEvent> = Vec::new();
    let mut i: usize = 0;
    while i < devices.len()
        invariant
            registry.wf(),
            i <= devices@.len(),
            devs == statuses_of(devices@),
            out@.map_values(|e: ESPActiveEvent| e@) == tick_changes(now_ms as int, devs.take(i as int)),
            registry@ == publish_all(old(registry)@, tick_changes(now_ms as int, devs.take(i as int))),
        decreases devices@.len() - i,
    {
        let d = &devices[i];
        let ghost prefix = devs.take(i as int);
        assert(devs.take(i as int + 1).drop_last() =~= prefix);
        assert(devs.take(i as int + 1).last() == d@);
        if let Some(stored) = d.stored_active {
            if let Some(active) = status_change(now_ms, d.last_update_ms, stored) {
                let ev = ESPActiveEvent { id: d.id.clone(), active };
                registry.publish_active(&ev);
                let ghost evs = tick_changes(now_ms as int, prefix);
                assert(evs.push(ev@).drop_last() =~= evs);
                out.push(ev);
                assert(out@.map_values(|e: ESPActiveEvent| e@) =~= evs.push((d.id@, active)));
            }
        }
        i = i + 1;
    }
    assert(devs.take(devices@.len() as int) =~= devs);
    out
}

/// Relies on `chrono::Local::now` and `DateTime::timestamp_millis`: the
/// current time in milliseconds since the Unix epoch. Nothing is promised of
/// its value.
#[verifier::external_body]
fn now_millis() -> (r: i64) {
    chrono::Local::now().timestamp_millis()
}

/// One monitor tick at the current time: the result is that of
/// [`monitor_tick`] at whatever instant the clock gave.
pub fn monitor_tick_now(registry: &mut Registry, devices: &Vec<DeviceStatus>) -> (r: Vec<ESPActiveEvent>)
    requires
        old(registry).wf(),
    ensures
        final(registry).wf(),
        exists|now_ms: i64|
            #![trigger tick_changes(now_ms as int, statuses_of(devices@))] {
                &&& r@.map_values(|e: ESPActiveEvent| e@) == tick_changes(now_ms as int, statuses_of(devices@))
                &&& final(registry)@ == publish_all(old(registry)@, tick_changes(now_ms as int, statuses_of(devices@)))
            },
{
    let now_ms = now_millis();
    monitor_tick(registry, now_ms, devices)
}

/// A device that has been silent for the whole window while stored as
/// online is switched offline by the next tick, with exactly one event; once
/// stored as offline, later ticks with no new reading announce nothing.
pub proof fn lemma_silent_device_goes_offline_once(id: Seq<char>, last_ms: i64, now_ms: int, later_ms: int)
    requires
        now_ms - last_ms >= LIVENESS_WINDOW_MS,
        now_ms <= later_ms,
    ensures
        tick_changes(now_ms, seq![(id, last_ms, Some(true))]) == seq![(id, false)],
        tick_changes(later_ms, seq![(id, last_ms, Some(false))]) == Seq::<(Seq<char>, bool)>::empty(),
{
    let none = Seq::<(Seq<char>, i64, Option<bool>)>::empty();
    assert(tick_changes(now_ms, none) == Seq::<(Seq<char>, bool)>::empty());
    assert(tick_changes(later_ms, none) == Seq::<(Seq<char>, bool)>::empty());
    let one = seq![(id, last_ms, Some(true))];
    assert(one.drop_last() =~= none);
    assert(one.last() == (id, last_ms, Some(true)));
    assert(change_of(now_ms, last_ms as int, true) == Some(false));
    assert(tick_changes(now_ms, one) =~= seq![(id, false)]);
    let two = seq![(id, last_ms, Some(false))];
    assert(two.drop_last() =~= none);
    assert(two.last() == (id, last_ms, Some(false)));
    assert(change_of(later_ms, last_ms as int, false) == None::<bool>);
}

} // verus!
