//! Prediction-engine state and derived progress.
//!
//! The probe's prediction engine estimates when the food will reach its
//! target. Its packed block arrives inside the session-status payload;
//! this module holds the decoded form and the pure progress calculation.
//! Temperatures here are exact integers in tenths of a degree Celsius
//! ("deci"), the unit the 10-bit and 11-bit wire fields use.

use vstd::prelude::*;

verus! {

/// What the prediction engine is currently doing. The wire field has four
/// bits; the three values past the named ones map to `Unknown`, never to
/// an error.
#[derive(Debug, Clone, Copy, PartialEq, Eq, Hash, Structural)]
pub enum PredictionState {
    /// Probe is not inserted into food.
    ProbeNotInserted,
    /// Probe is inserted but not yet predicting.
    ProbeInserted,
    /// Warming up, gathering initial data.
    Warming,
    /// Actively predicting time to target.
    Predicting,
    /// Prediction complete: remove from heat.
    RemovalPredictionDone,
    /// Reserved wire value five.
    ReservedState5,
    /// Reserved wire value six.
    ReservedState6,
    /// Any other wire value.
    Unknown,
}

/// The state a raw wire value denotes.
pub open spec fn spec_prediction_state_from_raw(value: u8) -> PredictionState {
    if value == 0 {
        PredictionState::ProbeNotInserted
    } else if value == 1 {
        PredictionState::ProbeInserted
    } else if value == 2 {
        PredictionState::Warming
    } else if value == 3 {
        PredictionState::Predicting
    } else if value == 4 {
        PredictionState::RemovalPredictionDone
    } else if value == 5 {
        PredictionState::ReservedState5
    } else if value == 6 {
        PredictionState::ReservedState6
    } else {
        PredictionState::Unknown
    }
}

impl PredictionState {
    /// Decode a raw wire value; everything past the named values becomes
    /// `Unknown`.
    pub fn from_raw(value: u8) -> (r: Self)
        ensures
            r == spec_prediction_state_from_raw(value),
    {
        match value {
            0 => PredictionState::ProbeNotInserted,
            1 => PredictionState::ProbeInserted,
            2 => PredictionState::Warming,
            3 => PredictionState::Predicting,
            4 => PredictionState::RemovalPredictionDone,
            5 => PredictionState::ReservedState5,
            6 => PredictionState::ReservedState6,
            _ => PredictionState::Unknown,
        }
    }

    /// The wire value of this state.
    pub fn to_raw(&self) -> (r: u8)
        ensures
            spec_prediction_state_from_raw(r) == *self,
            r <= 7,
    {
        match self {
            PredictionState::ProbeNotInserted => 0,
            PredictionState::ProbeInserted => 1,
            PredictionState::Warming => 2,
            PredictionState::Predicting => 3,
            PredictionState::RemovalPredictionDone => 4,
            PredictionState::ReservedState5 => 5,
            PredictionState::ReservedState6 => 6,
            PredictionState::Unknown => 7,
        }
    }

    /// Whether the engine is actively predicting.
    pub fn is_predicting(&self) -> (r: bool)
        ensures
            r == (*self == PredictionState::Predicting),
    {
        matches!(self, PredictionState::Predicting)
    }

    /// Whether the target temperature has been reached.
    pub fn is_done(&self) -> (r: bool)
        ensures
            r == (*self == PredictionState::RemovalPredictionDone),
    {
        matches!(self, PredictionState::RemovalPredictionDone)
    }
}

impl Default for PredictionState {
    /// Before any payload arrives the probe counts as not inserted.
    fn default() -> (r: Self)
        ensures
            r == PredictionState::ProbeNotInserted,
    {
        PredictionState::ProbeNotInserted
    }
}

/// Which prediction service the user asked for.
#[derive(Debug, Clone, Copy, PartialEq, Eq, Hash, Structural)]
pub enum PredictionMode {
    /// No prediction active.
    Inactive,
    /// Predict time until removal from heat.
    TimeToRemoval,
    /// Predict removal and account for resting.
    RemovalAndResting,
    /// Reserved wire value.
    Reserved,
}

/// The mode a raw wire value denotes.
pub open spec fn spec_prediction_mode_from_raw(value: u8) -> PredictionMode {
    if value == 0 {
        PredictionMode::Inactive
    } else if value == 1 {
        PredictionMode::TimeToRemoval
    } else if value == 2 {
        PredictionMode::RemovalAndResting
    } else {
        PredictionMode::Reserved
    }
}

impl PredictionMode {
    /// Decode a raw wire value.
    pub fn from_raw(value: u8) -> (r: Self)
        ensures
            r == spec_prediction_mode_from_raw(value),
    {
        match value {
            0 => PredictionMode::Inactive,
            1 => PredictionMode::TimeToRemoval,
            2 => PredictionMode::RemovalAndResting,
            _ => PredictionMode::Reserved,
        }
    }

    /// The wire value of this mode.
    pub fn to_raw(&self) -> (r: u8)
        ensures
            spec_prediction_mode_from_raw(r) == *self,
            r <= 3,
    {
        match self {
            PredictionMode::Inactive => 0,
            PredictionMode::TimeToRemoval => 1,
            PredictionMode::RemovalAndResting => 2,
            PredictionMode::Reserved => 3,
        }
    }
}

impl Default for PredictionMode {
    /// No prediction is active until one is requested.
    fn default() -> (r: Self)
        ensures
            r == PredictionMode::Inactive,
    {
        PredictionMode::Inactive
    }
}

/// Which phase the active prediction concerns.
#[derive(Debug, Clone, Copy, PartialEq, Eq, Hash, Structural)]
pub enum PredictionType {
    /// No prediction type.
    Inactive,
    /// Predicting when to remove from heat.
    Removal,
    /// Predicting resting time after removal.
    Resting,
    /// Reserved wire value.
    Reserved,
}

/// The type a raw wire value denotes.
pub open spec fn spec_prediction_type_from_raw(value: u8) -> PredictionType {
    if value == 0 {
        PredictionType::Inactive
    } else if value == 1 {
        PredictionType::Removal
    } else if value == 2 {
        PredictionType::Resting
    } else {
        PredictionType::Reserved
    }
}

impl PredictionType {
    /// Decode a raw wire value.
    pub fn from_raw(value: u8) -> (r: Self)
        ensures
            r == spec_prediction_type_from_raw(value),
    {
        match value {
            0 => PredictionType::Inactive,
            1 => PredictionType::Removal,
            2 => PredictionType::Resting,
            _ => PredictionType::Reserved,
        }
    }

    /// The wire value of this type.
    pub fn to_raw(&self) -> (r: u8)
        ensures
            spec_prediction_type_from_raw(r) == *self,
            r <= 3,
    {
        match self {
            PredictionType::Inactive => 0,
            PredictionType::Removal => 1,
            PredictionType::Resting => 2,
            PredictionType::Reserved => 3,
        }
    }
}

impl Default for PredictionType {
    /// No prediction type until one is requested.
    fn default() -> (r: Self)
        ensures
            r == PredictionType::Inactive,
    {
        PredictionType::Inactive
    }
}

/// One decoded prediction block.
#[derive(Debug, Clone, Copy, PartialEq, Eq, Structural)]
pub struct PredictionInfo {
    /// What the engine is doing.
    pub state: PredictionState,
    /// Which service was requested.
    pub mode: PredictionMode,
    /// Which phase the prediction concerns.
    pub prediction_type: PredictionType,
    /// Target temperature, in tenths of a degree Celsius.
    pub set_point_deci: u16,
    /// Temperature when the prediction started, in tenths of a degree.
    pub heat_start_deci: u16,
    /// Predicted seconds remaining.
    pub prediction_value_seconds: u32,
    /// Estimated core temperature, in tenths of a degree Celsius.
    pub estimated_core_deci: i32,
    /// Seconds since the prediction started.
    pub seconds_since_prediction_start: u32,
    /// Which sensor the engine treats as the core sensor.
    pub core_sensor_index: u8,
}

/// Progress towards the target as a whole percentage, clamped to 0
/// through 100: `(estimated - start) / (target - start)`, truncated.
/// Undefined when the target equals the start temperature.
pub open spec fn spec_temperature_progress(info: PredictionInfo) -> Option<u8> {
    if info.set_point_deci == info.heat_start_deci {
        None
    } else {
        Some(
            spec_ratio_percent(
                info.estimated_core_deci - info.heat_start_deci,
                info.set_point_deci - info.heat_start_deci,
            ),
        )
    }
}

/// `num / den` as a whole percentage clamped to 0 through 100, with the
/// signs normalised so a negative span behaves like its mirror image.
pub open spec fn spec_ratio_percent(num: int, den: int) -> u8 {
    let n = if den < 0 {
        -num
    } else {
        num
    };
    let d = if den < 0 {
        -den
    } else {
        den
    };
    if n <= 0 {
        0u8
    } else if n >= d {
        100u8
    } else {
        ((n * 100) / d) as u8
    }
}

/// A truncated ratio of a part to a larger whole stays under one hundred
/// percent.
pub proof fn lemma_ratio_percent_range(n: int, d: int)
    by (nonlinear_arith)
    requires
        0 < n < d,
    ensures
        0 <= (n * 100) / d < 100,
{
}

impl PredictionInfo {
    /// A blank prediction block: nothing requested, all values zero.
    pub fn new() -> (r: Self)
        ensures
            r.state == PredictionState::ProbeNotInserted,
            r.mode == PredictionMode::Inactive,
            r.prediction_type == PredictionType::Inactive,
            r.set_point_deci == 0 && r.heat_start_deci == 0,
            r.prediction_value_seconds == 0 && r.estimated_core_deci == 0,
            r.seconds_since_prediction_start == 0 && r.core_sensor_index == 0,
    {
        PredictionInfo {
            state: PredictionState::ProbeNotInserted,
            mode: PredictionMode::Inactive,
            prediction_type: PredictionType::Inactive,
            set_point_deci: 0,
            heat_start_deci: 0,
            prediction_value_seconds: 0,
            estimated_core_deci: 0,
            seconds_since_prediction_start: 0,
            core_sensor_index: 0,
        }
    }

    /// The predicted remaining time split into whole minutes and leftover
    /// seconds.
    pub fn prediction_time_formatted(&self) -> (r: (u32, u32))
        ensures
            r.0 == self.prediction_value_seconds / 60,
            r.1 == self.prediction_value_seconds % 60,
    {
        (self.prediction_value_seconds / 60, self.prediction_value_seconds % 60)
    }

    /// Whether the prediction has completed.
    pub fn is_complete(&self) -> (r: bool)
        ensures
            r == (self.state == PredictionState::RemovalPredictionDone),
    {
        self.state.is_done()
    }

    /// Whether the prediction is actively running.
    pub fn is_active(&self) -> (r: bool)
        ensures
            r == (self.state == PredictionState::Predicting),
    {
        self.state.is_predicting()
    }

    /// Progress towards the target as a whole percentage, clamped to 0
    /// through 100; `None` when target and start coincide.
    pub fn temperature_progress(&self) -> (r: Option<u8>)
        ensures
            r == spec_temperature_progress(*self),
    {
        if self.set_point_deci == self.heat_start_deci {
            return None;
        }
        let num: i64 = self.estimated_core_deci as i64 - self.heat_start_deci as i64;
        let den: i64 = self.set_point_deci as i64 - self.heat_start_deci as i64;
        let (n, d) = if den < 0 {
            (-num, -den)
        } else {
            (num, den)
        };
        if n <= 0 {
            Some(0)
        } else if n >= d {
            Some(100)
        } else {
            proof {
                lemma_ratio_percent_range(n as int, d as int);
            }
            Some(((n * 100) / d) as u8)
        }
    }
}

impl Default for PredictionInfo {
    /// Same as [`PredictionInfo::new`].
    fn default() -> (r: Self)
        ensures
            r == PredictionInfo::new_spec(),
    {
        PredictionInfo::new()
    }
}

impl PredictionInfo {
    /// The blank prediction block [`PredictionInfo::new`] returns.
    pub open spec fn new_spec() -> PredictionInfo {
        PredictionInfo {
            state: PredictionState::ProbeNotInserted,
            mode: PredictionMode::Inactive,
            prediction_type: PredictionType::Inactive,
            set_point_deci: 0,
            heat_start_deci: 0,
            prediction_value_seconds: 0,
            estimated_core_deci: 0,
            seconds_since_prediction_start: 0,
            core_sensor_index: 0,
        }
    }
}

} // verus!
