//! The per-probe state reconciler and the probe arena.
//!
//! One [`ProbeState`] is the authoritative snapshot of one physical
//! probe. Two independent sources feed it: broadcast advertisements and
//! session-status notifications, which may interleave. The merge policy
//! makes their order harmless: sensor data is overwritten
//! unconditionally, the display number and colour respect a grace period
//! after a local explicit set, and optional session sections are
//! additive, never clearing what an earlier payload established.
//! Timestamps are plain milliseconds from any monotonic clock.

use crate::advertising::{
    AdvertisingData, BatteryStatus, Overheating, ProbeColor, ProbeId, ProbeMode, ProductType,
};
use crate::alarms::AlarmConfig;
use crate::food_safety::{
    FoodSafeConfig, FoodSafeData, FoodSafeProduct, FoodSafeServingState, FoodSafeState,
    FoodSafeStatus,
};
use crate::log::TemperatureLog;
use crate::prediction::PredictionInfo;
use crate::preferences::{PowerMode, ThermometerPreferences};
use crate::session::SessionInfo;
use crate::status::ProbeStatus;
use crate::temperature::{ProbeTemperatures, VirtualTemperatures};
use vstd::prelude::*;

verus! {

/// How long a locally set display number or colour resists
/// externally-sourced updates, in milliseconds.
pub const ID_COLOR_GRACE_PERIOD_MS: u64 = 5000;

/// The default staleness bound, in milliseconds.
pub const DEFAULT_STALE_TIMEOUT_MS: u64 = 15000;

/// The most probes one arena manages at a time.
pub const MAX_PROBES: usize = 8;

/// A probe discovered or updated, as reported to subscribers.
#[derive(Debug, Clone, PartialEq, Eq)]
pub struct ProbeEvent {
    /// The identity of the probe concerned.
    pub identifier: String,
}

/// The reconciled snapshot of one probe.
#[derive(Debug, Clone, PartialEq, Eq)]
pub struct ProbeState {
    /// The probe's unique serial number, its stable identity.
    pub serial_number: u32,
    /// Display number 1 through 8.
    pub probe_id: ProbeId,
    /// Ring colour.
    pub color: ProbeColor,
    /// When the display number was last set locally, if ever.
    pub probe_id_set_at: Option<u64>,
    /// When the colour was last set locally, if ever.
    pub color_set_at: Option<u64>,
    /// Latest sensor samples.
    pub temperatures: ProbeTemperatures,
    /// Latest derived readings.
    pub virtual_temperatures: VirtualTemperatures,
    /// Latest prediction block, once one arrived.
    pub prediction: Option<PredictionInfo>,
    /// Battery condition.
    pub battery_status: BatteryStatus,
    /// Operating mode.
    pub mode: ProbeMode,
    /// Overheat bitmask.
    pub overheating: Overheating,
    /// Lowest log sequence number on the probe.
    pub min_sequence: u32,
    /// Highest log sequence number on the probe.
    pub max_sequence: u32,
    /// Samples downloaded so far.
    pub temperature_log: TemperatureLog,
    /// Food-safety aggregate, once configured or reported.
    pub food_safe_data: Option<FoodSafeData>,
    /// Session metadata, once read.
    pub session_info: Option<SessionInfo>,
    /// Signal strength of the last observation, if known.
    pub rssi: Option<i16>,
    /// When the last accepted update arrived.
    pub last_update: u64,
    /// Thermometer preferences, once reported or set.
    pub thermometer_preferences: Option<ThermometerPreferences>,
    /// Alarm table, once reported or set.
    pub alarm_config: Option<AlarmConfig>,
}

/// Whether a locally set field still resists external updates at `now`:
/// a set instant exists and lies less than the grace period in the past.
pub open spec fn spec_in_grace(set_at: Option<u64>, now: u64) -> bool {
    match set_at {
        Some(t) => now < t || now - t < ID_COLOR_GRACE_PERIOD_MS,
        None => false,
    }
}

/// The state an advertising update leaves behind: sensor data, battery,
/// mode, overheat and freshness are overwritten unconditionally; the
/// display number and colour only outside their grace periods.
pub open spec fn spec_apply_advertising(
    s: ProbeState,
    adv: AdvertisingData,
    rssi: Option<i16>,
    now: u64,
) -> ProbeState {
    ProbeState {
        temperatures: adv.temperatures,
        virtual_temperatures: adv.virtual_temperatures,
        probe_id: if spec_in_grace(s.probe_id_set_at, now) {
            s.probe_id
        } else {
            adv.probe_id
        },
        color: if spec_in_grace(s.color_set_at, now) {
            s.color
        } else {
            adv.color
        },
        battery_status: adv.battery_status,
        mode: adv.mode,
        overheating: Overheating { overheating_sensors: adv.overheating_sensors },
        rssi,
        last_update: now,
        ..s
    }
}

/// How a session payload's food-safety sections fold into what is known:
/// present sections overwrite or create, absent ones change nothing.
pub open spec fn spec_fold_food_safe(
    old_data: Option<FoodSafeData>,
    cfg: Option<FoodSafeConfig>,
    sts: Option<FoodSafeStatus>,
) -> Option<FoodSafeData> {
    match (cfg, sts) {
        (Some(c), Some(s2)) => Some(
            match old_data {
                Some(d) => FoodSafeData {
                    serving_state: spec_serving_of(s2.state),
                    log_reduction_deci: s2.log_reduction_deci,
                    seconds_above_threshold: s2.seconds_above_threshold,
                    config: Some(c),
                    status: Some(s2),
                    ..d
                },
                None => FoodSafeData {
                    product: FoodSafeProduct::BeefSteak,
                    serving_state: spec_serving_of(s2.state),
                    log_reduction_deci: s2.log_reduction_deci,
                    seconds_above_threshold: s2.seconds_above_threshold,
                    config: Some(c),
                    status: Some(s2),
                },
            },
        ),
        (Some(c), None) => Some(
            match old_data {
                Some(d) => FoodSafeData { config: Some(c), ..d },
                None => FoodSafeData {
                    product: FoodSafeProduct::BeefSteak,
                    serving_state: FoodSafeServingState::NotSafe,
                    log_reduction_deci: 0,
                    seconds_above_threshold: 0,
                    config: Some(c),
                    status: None,
                },
            },
        ),
        (None, Some(s2)) => match old_data {
            Some(d) => Some(
                FoodSafeData {
                    serving_state: spec_serving_of(s2.state),
                    log_reduction_deci: s2.log_reduction_deci,
                    seconds_above_threshold: s2.seconds_above_threshold,
                    status: Some(s2),
                    ..d
                },
            ),
            None => None,
        },
        (None, None) => old_data,
    }
}

/// The coarse serving verdict a program state implies.
pub open spec fn spec_serving_of(state: FoodSafeState) -> FoodSafeServingState {
    if state == FoodSafeState::Safe {
        FoodSafeServingState::SafeToServe
    } else {
        FoodSafeServingState::NotSafe
    }
}

/// The state a session-status update leaves behind: the same grace policy
/// for display number and colour, unconditional refresh of sensor data,
/// sequence bounds and prediction, and additive optional sections.
pub open spec fn spec_apply_status(s: ProbeState, st: ProbeStatus, now: u64) -> ProbeState {
    ProbeState {
        temperatures: st.temperatures,
        virtual_temperatures: st.virtual_temperatures,
        probe_id: if spec_in_grace(s.probe_id_set_at, now) {
            s.probe_id
        } else {
            st.probe_id
        },
        color: if spec_in_grace(s.color_set_at, now) {
            s.color
        } else {
            st.color
        },
        battery_status: st.battery_status,
        mode: st.mode,
        overheating: st.overheating,
        min_sequence: st.min_sequence_number,
        max_sequence: st.max_sequence_number,
        prediction: st.prediction,
        food_safe_data: spec_fold_food_safe(s.food_safe_data, st.food_safe_config,
            st.food_safe_status),
        thermometer_preferences: if st.thermometer_preferences is Some {
            st.thermometer_preferences
        } else {
            s.thermometer_preferences
        },
        alarm_config: if st.alarm_config is Some {
            st.alarm_config
        } else {
            s.alarm_config
        },
        last_update: now,
        ..s
    }
}

/// The state a local explicit set of the display number leaves behind:
/// the field changes at once and the grace anchor moves to now.
pub open spec fn spec_set_id(s: ProbeState, id: ProbeId, now: u64) -> ProbeState {
    ProbeState { probe_id: id, probe_id_set_at: Some(now), ..s }
}

/// The state a local explicit set of the colour leaves behind.
pub open spec fn spec_set_color(s: ProbeState, color: ProbeColor, now: u64) -> ProbeState {
    ProbeState { color, color_set_at: Some(now), ..s }
}

/// Grace-period precedence: after an explicit local set of the display
/// number at time `t`, an external update carrying a different number is
/// ignored while the grace period lasts, and applied once it has passed.
pub proof fn lemma_grace_period_precedence(
    s: ProbeState,
    adv: AdvertisingData,
    rssi: Option<i16>,
    id: ProbeId,
    t: u64,
    early: u64,
    late: u64,
)
    requires
        t <= early,
        early - t < ID_COLOR_GRACE_PERIOD_MS,
        t <= late,
        late - t >= ID_COLOR_GRACE_PERIOD_MS,
    ensures
        spec_apply_advertising(spec_set_id(s, id, t), adv, rssi, early).probe_id == id,
        spec_apply_advertising(spec_set_id(s, id, t), adv, rssi, late).probe_id == adv.probe_id,
        spec_apply_status(spec_set_id(s, id, t), arbitrary_status(adv), early).probe_id == id,
{
}

/// A placeholder session status carrying an advertising payload's
/// identity fields, used to state the grace law for both sources at once.
pub open spec fn arbitrary_status(adv: AdvertisingData) -> ProbeStatus {
    ProbeStatus {
        min_sequence_number: 0,
        max_sequence_number: 0,
        temperatures: adv.temperatures,
        mode: adv.mode,
        probe_id: adv.probe_id,
        color: adv.color,
        battery_status: adv.battery_status,
        virtual_temperatures: adv.virtual_temperatures,
        prediction: None,
        food_safe_config: None,
        food_safe_status: None,
        overheating: Overheating { overheating_sensors: adv.overheating_sensors },
        thermometer_preferences: None,
        alarm_config: None,
    }
}

/// Optional sections are additive: a session payload that lacks a
/// section leaves the previously known value of that section untouched.
pub proof fn lemma_additive_optional_sections(s: ProbeState, st: ProbeStatus, now: u64)
    ensures
        st.food_safe_config is None && st.food_safe_status is None ==> spec_apply_status(
            s,
            st,
            now,
        ).food_safe_data == s.food_safe_data,
        st.thermometer_preferences is None ==> spec_apply_status(s, st, now).thermometer_preferences
            == s.thermometer_preferences,
        st.alarm_config is None ==> spec_apply_status(s, st, now).alarm_config == s.alarm_config,
{
}

impl ProbeState {
    /// A fresh snapshot for a probe first observed now: defaults
    /// everywhere, no local set anchors, an empty log.
    pub fn new(serial_number: u32) -> (r: Self)
        ensures
            r.serial_number == serial_number,
            r.probe_id.0 == 1,
            r.color == ProbeColor::Yellow,
            r.probe_id_set_at is None && r.color_set_at is None,
            forall|i: int| 0 <= i < 8 ==> r.temperatures.values[i].0 == 0x1FFF,
            r.virtual_temperatures.core is None && r.virtual_temperatures.surface is None
                && r.virtual_temperatures.ambient is None,
            r.prediction is None,
            r.battery_status == BatteryStatus::Okay,
            r.mode == ProbeMode::Normal,
            r.overheating.overheating_sensors == 0,
            r.min_sequence == 0 && r.max_sequence == 0,
            r.temperature_log.data_points@.len() == 0,
            r.temperature_log.session_id == 0,
            r.temperature_log.sample_period_ms == 1000,
            r.temperature_log.wf(),
            r.food_safe_data is None && r.session_info is None && r.rssi is None,
            r.last_update == 0,
            r.thermometer_preferences is None && r.alarm_config is None,
    {
        ProbeState {
            serial_number,
            probe_id: ProbeId(1),
            color: ProbeColor::Yellow,
            probe_id_set_at: None,
            color_set_at: None,
            temperatures: ProbeTemperatures::new(),
            virtual_temperatures: VirtualTemperatures::new(None, None, None),
            prediction: None,
            battery_status: BatteryStatus::Okay,
            mode: ProbeMode::Normal,
            overheating: Overheating::new(0),
            min_sequence: 0,
            max_sequence: 0,
            temperature_log: TemperatureLog::new(0, 1000),
            food_safe_data: None,
            session_info: None,
            rssi: None,
            last_update: 0,
            thermometer_preferences: None,
            alarm_config: None,
        }
    }

    /// Whether a locally set anchor still grants precedence at `now`.
    fn in_grace(set_at: &Option<u64>, now_ms: u64) -> (r: bool)
        ensures
            r == spec_in_grace(*set_at, now_ms),
    {
        match set_at {
            Some(t) => now_ms < *t || now_ms - *t < ID_COLOR_GRACE_PERIOD_MS,
            None => false,
        }
    }

    /// Fold one advertising observation in.
    pub fn update_from_advertising(
        &mut self,
        adv: &AdvertisingData,
        rssi: Option<i16>,
        now_ms: u64,
    )
        ensures
            *final(self) == spec_apply_advertising(*old(self), *adv, rssi, now_ms),
    {
        self.temperatures = adv.temperatures;
        self.virtual_temperatures = adv.virtual_temperatures;
        if !Self::in_grace(&self.probe_id_set_at, now_ms) {
            self.probe_id = adv.probe_id;
        }
        if !Self::in_grace(&self.color_set_at, now_ms) {
            self.color = adv.color;
        }
        self.battery_status = adv.battery_status;
        self.mode = adv.mode;
        self.overheating = Overheating::new(adv.overheating_sensors);
        self.rssi = rssi;
        self.last_update = now_ms;
    }

    /// Fold one session-status observation in. Sequence bounds, the
    /// prediction block and present optional sections refresh; absent
    /// optional sections change nothing.
    pub fn update_from_status(&mut self, status: &ProbeStatus, now_ms: u64)
        ensures
            *final(self) == spec_apply_status(*old(self), *status, now_ms),
    {
        self.temperatures = status.temperatures;
        self.virtual_temperatures = status.virtual_temperatures;
        if !Self::in_grace(&self.probe_id_set_at, now_ms) {
            self.probe_id = status.probe_id;
        }
        if !Self::in_grace(&self.color_set_at, now_ms) {
            self.color = status.color;
        }
        self.battery_status = status.battery_status;
        self.mode = status.mode;
        self.overheating = status.overheating;
        self.min_sequence = status.min_sequence_number;
        self.max_sequence = status.max_sequence_number;
        self.prediction = status.prediction;
        match (status.food_safe_config, status.food_safe_status) {
            (Some(c), Some(s2)) => {
                match &mut self.food_safe_data {
                    Some(d) => {
                        d.update_from_status(s2);
                        d.update_config(c);
                    },
                    None => {
                        self.food_safe_data = Some(FoodSafeData::from_config_and_status(c, s2));
                    },
                }
            },
            (Some(c), None) => {
                match &mut self.food_safe_data {
                    Some(d) => {
                        d.update_config(c);
                    },
                    None => {
                        self.food_safe_data = Some(FoodSafeData::with_config(c));
                    },
                }
            },
            (None, Some(s2)) => {
                match &mut self.food_safe_data {
                    Some(d) => {
                        d.update_from_status(s2);
                    },
                    None => {},
                }
            },
            (None, None) => {},
        }
        if status.thermometer_preferences.is_some() {
            self.thermometer_preferences = status.thermometer_preferences;
        }
        if status.alarm_config.is_some() {
            self.alarm_config = status.alarm_config;
        }
        self.last_update = now_ms;
    }

    /// Set the display number locally: the field changes at once and its
    /// grace anchor moves to now.
    pub fn set_id(&mut self, id: ProbeId, now_ms: u64)
        ensures
            *final(self) == spec_set_id(*old(self), id, now_ms),
    {
        self.probe_id = id;
        self.probe_id_set_at = Some(now_ms);
    }

    /// Set the ring colour locally: the field changes at once and its
    /// grace anchor moves to now.
    pub fn set_color(&mut self, color: ProbeColor, now_ms: u64)
        ensures
            *final(self) == spec_set_color(*old(self), color, now_ms),
    {
        self.color = color;
        self.color_set_at = Some(now_ms);
    }

    /// Record the optimistic local effect of an acknowledged power-mode
    /// command; the next session payload is authoritative.
    pub fn apply_set_power_mode(&mut self, mode: PowerMode)
        ensures
            *final(self) == (ProbeState {
                thermometer_preferences: Some(
                    ThermometerPreferences { power_mode: mode, reserved: 0 },
                ),
                ..*old(self)
            }),
    {
        self.thermometer_preferences = Some(ThermometerPreferences::with_power_mode(mode));
    }

    /// Record the optimistic local effect of an acknowledged alarm-table
    /// write; the next session payload is authoritative.
    pub fn apply_set_alarms(&mut self, config: &AlarmConfig)
        ensures
            *final(self) == (ProbeState { alarm_config: Some(*config), ..*old(self) }),
    {
        self.alarm_config = Some(*config);
    }

    /// Record the optimistic local effect of an acknowledged food-safety
    /// configuration write.
    pub fn apply_configure_food_safe(&mut self, config: FoodSafeConfig)
        ensures
            (*final(self)).food_safe_data matches Some(d) && d.config == Some(config)
                && d.status is None && d.log_reduction_deci == 0,
            *final(self) == (ProbeState {
                food_safe_data: (*final(self)).food_safe_data,
                ..*old(self)
            }),
    {
        self.food_safe_data = Some(FoodSafeData::with_config(config));
    }

    /// Record the optimistic local effect of an acknowledged food-safety
    /// reset: nothing is monitored any more.
    pub fn apply_reset_food_safe(&mut self)
        ensures
            *final(self) == (ProbeState { food_safe_data: None, ..*old(self) }),
    {
        self.food_safe_data = None;
    }

    /// Record session metadata read from the probe.
    pub fn apply_session_info(&mut self, info: SessionInfo)
        ensures
            *final(self) == (ProbeState { session_info: Some(info), ..*old(self) }),
    {
        self.session_info = Some(info);
    }

    /// Whether the snapshot is stale: more than the timeout has passed
    /// since the last accepted update. Read-only.
    pub fn is_stale(&self, now_ms: u64, stale_timeout_ms: u64) -> (r: bool)
        ensures
            r == (now_ms > self.last_update && now_ms - self.last_update > stale_timeout_ms),
    {
        now_ms > self.last_update && now_ms - self.last_update > stale_timeout_ms
    }
}

/// What became of one advertising observation handed to the arena.
#[derive(Debug, Clone, Copy, PartialEq, Eq, Structural)]
pub enum DiscoveryOutcome {
    /// The broadcast did not come from a probe this stack manages.
    Ignored,
    /// An already-known probe was updated.
    Updated,
    /// A new probe was added.
    Added,
    /// The arena is full; the new probe was not added.
    Full,
}

/// The arena of managed probes, keyed by serial number.
#[derive(Debug, Clone, PartialEq, Eq)]
pub struct ProbeRegistry {
    /// The managed probes; serial numbers are unique.
    pub probes: Vec<ProbeState>,
}

/// Whether the arena holds a probe with the given serial number.
pub open spec fn spec_has_serial(reg: ProbeRegistry, serial: u32) -> bool {
    exists|i: int| 0 <= i < reg.probes@.len() && (#[trigger] reg.probes@[i]).serial_number == serial
}

impl ProbeRegistry {
    /// The arena's invariant: one entry per serial number.
    pub open spec fn wf(self) -> bool {
        forall|i: int, j: int|
            0 <= i < j < self.probes@.len() ==> (#[trigger] self.probes@[i]).serial_number != (
            #[trigger] self.probes@[j]).serial_number
    }

    /// An empty arena.
    pub fn new() -> (r: Self)
        ensures
            r.probes@.len() == 0,
            r.wf(),
    {
        ProbeRegistry { probes: Vec::new() }
    }

    /// How many probes are managed.
    pub fn probe_count(&self) -> (r: usize)
        ensures
            r == self.probes@.len(),
    {
        self.probes.len()
    }

    /// The index of the probe with the given serial, if any.
    fn position(&self, serial: u32) -> (r: Option<usize>)
        ensures
            r matches Some(i) ==> i < self.probes@.len() && self.probes@[i as int].serial_number
                == serial,
            r is None ==> !spec_has_serial(*self, serial),
    {
        let mut i: usize = 0;
        while i < self.probes.len()
            invariant
                i <= self.probes@.len(),
                forall|k: int|
                    0 <= k < i ==> (#[trigger] self.probes@[k]).serial_number != serial,
            decreases self.probes@.len() - i,
        {
            if self.probes[i].serial_number == serial {
                return Some(i);
            }
            i += 1;
        }
        None
    }

    /// The snapshot of the probe with the given serial, if managed.
    pub fn get_probe(&self, serial: u32) -> (r: Option<&ProbeState>)
        ensures
            r matches Some(p) ==> p.serial_number == serial && spec_has_serial(*self, serial),
            r is None ==> !spec_has_serial(*self, serial),
    {
        match self.position(serial) {
            Some(i) => Some(&self.probes[i]),
            None => None,
        }
    }

    /// Feed one advertising observation into the arena. Broadcasts from
    /// other device kinds are ignored; a known probe is updated under the
    /// reconciliation policy; an unknown one is added while room remains,
    /// and reported as overflow once the arena is full.
    pub fn on_advertising(
        &mut self,
        adv: &AdvertisingData,
        rssi: Option<i16>,
        now_ms: u64,
    ) -> (r: DiscoveryOutcome)
        requires
            old(self).wf(),
        ensures
            final(self).wf(),
            adv.product_type != ProductType::PredictiveProbe ==> r == DiscoveryOutcome::Ignored
                && final(self).probes@ == old(self).probes@,
            adv.product_type == ProductType::PredictiveProbe && spec_has_serial(
                *old(self),
                adv.serial_number,
            ) ==> r == DiscoveryOutcome::Updated && exists|i: int|
                0 <= i < old(self).probes@.len() && (#[trigger] old(self).probes@[i]).serial_number == adv.serial_number && final(self).probes@ == old(self).probes@.update(i, spec_apply_advertising(old(self).probes@[i], *adv, rssi, now_ms)),
            adv.product_type == ProductType::PredictiveProbe && !spec_has_serial(
                *old(self),
                adv.serial_number,
            ) && old(self).probes@.len() >= MAX_PROBES ==> r == DiscoveryOutcome::Full && final(self).probes@ == old(self).probes@,
            adv.product_type == ProductType::PredictiveProbe && !spec_has_serial(
                *old(self),
                adv.serial_number,
            ) && old(self).probes@.len() < MAX_PROBES ==> r == DiscoveryOutcome::Added && final(self).probes@.len() == old(self).probes@.len() + 1 && final(self).probes@.subrange(
                0,
                old(self).probes@.len() as int,
            ) == old(self).probes@ && spec_fresh_from_advertising(
                final(self).probes@[old(self).probes@.len() as int],
                adv.serial_number,
                *adv,
                rssi,
                now_ms,
            ),
    {
        if !adv.product_type.is_predictive_probe() {
            return DiscoveryOutcome::Ignored;
        }
        match self.position(adv.serial_number) {
            Some(i) => {
                let ghost before = self.probes@;
                let entry = &mut self.probes[i];
                entry.update_from_advertising(adv, rssi, now_ms);
                proof {
                    assert(self.probes@ =~= before.update(
                        i as int,
                        spec_apply_advertising(before[i as int], *adv, rssi, now_ms),
                    ));
                }
                DiscoveryOutcome::Updated
            },
            None => {
                if self.probes.len() >= MAX_PROBES {
                    return DiscoveryOutcome::Full;
                }
                let mut fresh = ProbeState::new(adv.serial_number);
                fresh.update_from_advertising(adv, rssi, now_ms);
                let ghost before = self.probes@;
                self.probes.push(fresh);
                proof {
                    assert(self.probes@.subrange(0, before.len() as int) =~= before);
                }
                DiscoveryOutcome::Added
            },
        }
    }

    /// Feed one session-status observation into the probe with the given
    /// serial. Returns whether that probe is managed; an unknown serial
    /// changes nothing.
    pub fn on_status(&mut self, serial: u32, status: &ProbeStatus, now_ms: u64) -> (r: bool)
        requires
            old(self).wf(),
        ensures
            final(self).wf(),
            r == spec_has_serial(*old(self), serial),
            r ==> exists|i: int|
                0 <= i < old(self).probes@.len() && (#[trigger] old(self).probes@[i]).serial_number == serial && final(self).probes@ == old(self).probes@.update(i, spec_apply_status(old(self).probes@[i], *status, now_ms)),
            !r ==> final(self).probes@ == old(self).probes@,
    {
        match self.position(serial) {
            Some(i) => {
                let ghost before = self.probes@;
                let entry = &mut self.probes[i];
                entry.update_from_status(status, now_ms);
                proof {
                    assert(self.probes@ =~= before.update(
                        i as int,
                        spec_apply_status(before[i as int], *status, now_ms),
                    ));
                }
                true
            },
            None => false,
        }
    }
}

/// What a probe first observed through this advertising payload looks
/// like: the payload's fields, no local set anchors, an empty log, and
/// nothing session-only known yet.
pub open spec fn spec_fresh_from_advertising(
    p: ProbeState,
    serial: u32,
    adv: AdvertisingData,
    rssi: Option<i16>,
    now: u64,
) -> bool {
    &&& p.serial_number == serial
    &&& p.probe_id == adv.probe_id
    &&& p.color == adv.color
    &&& p.probe_id_set_at is None && p.color_set_at is None
    &&& p.temperatures == adv.temperatures
    &&& p.virtual_temperatures == adv.virtual_temperatures
    &&& p.prediction is None
    &&& p.battery_status == adv.battery_status
    &&& p.mode == adv.mode
    &&& p.overheating.overheating_sensors == adv.overheating_sensors
    &&& p.min_sequence == 0 && p.max_sequence == 0
    &&& p.temperature_log.data_points@.len() == 0
    &&& p.temperature_log.session_id == 0
    &&& p.temperature_log.sample_period_ms == 1000
    &&& p.food_safe_data is None && p.session_info is None
    &&& p.rssi == rssi
    &&& p.last_update == now
    &&& p.thermometer_preferences is None && p.alarm_config is None
}

} // verus!
