//! The downloaded temperature log of one session.
//!
//! Log entries arrive out of order and with gaps; the log keeps them
//! sorted by sequence number, drops duplicates, and can say which
//! sequence numbers are still missing from a range. Timestamps are plain
//! milliseconds since the Unix epoch, attached by whoever records the
//! entry.

use crate::temperature::ProbeTemperatures;
use vstd::prelude::*;

verus! {

/// Prediction data captured alongside one sample.
#[derive(Debug, Clone, Copy, PartialEq, Eq, Structural)]
pub struct PredictionLog {
    /// Virtual core reading, in hundredths of a degree Celsius.
    pub virtual_core_centi: i32,
    /// Virtual surface reading, in hundredths of a degree Celsius.
    pub virtual_surface_centi: i32,
    /// Virtual ambient reading, in hundredths of a degree Celsius.
    pub virtual_ambient_centi: i32,
    /// Raw prediction state at this sample.
    pub prediction_state: u8,
    /// Set point at this sample, in tenths of a degree Celsius.
    pub prediction_set_point_deci: u16,
    /// Raw prediction type at this sample.
    pub prediction_type: u8,
    /// Predicted seconds remaining at this sample.
    pub prediction_value_seconds: u32,
}

/// One logged sample.
#[derive(Debug, Clone, Copy, PartialEq, Eq)]
pub struct LoggedDataPoint {
    /// The sample's sequence number.
    pub sequence_number: u32,
    /// All eight sensor samples.
    pub temperatures: ProbeTemperatures,
    /// Prediction data captured with the sample, if any.
    pub prediction_log: Option<PredictionLog>,
    /// When the sample was recorded, in milliseconds since the Unix
    /// epoch, if known.
    pub timestamp_ms: Option<i64>,
}

impl LoggedDataPoint {
    /// A sample with temperatures only.
    pub fn new(sequence_number: u32, temperatures: ProbeTemperatures) -> (r: Self)
        ensures
            r.sequence_number == sequence_number,
            r.temperatures == temperatures,
            r.prediction_log is None,
            r.timestamp_ms is None,
    {
        LoggedDataPoint { sequence_number, temperatures, prediction_log: None, timestamp_ms: None }
    }

    /// A sample with prediction data attached.
    pub fn with_prediction(
        sequence_number: u32,
        temperatures: ProbeTemperatures,
        prediction: PredictionLog,
    ) -> (r: Self)
        ensures
            r.sequence_number == sequence_number,
            r.temperatures == temperatures,
            r.prediction_log == Some(prediction),
            r.timestamp_ms is None,
    {
        LoggedDataPoint {
            sequence_number,
            temperatures,
            prediction_log: Some(prediction),
            timestamp_ms: None,
        }
    }
}

/// The temperature log of one session, sorted by sequence number.
#[derive(Debug, Clone, PartialEq, Eq)]
pub struct TemperatureLog {
    /// The session these samples belong to.
    pub session_id: u32,
    /// Milliseconds between samples.
    pub sample_period_ms: u32,
    /// The samples, in strictly ascending sequence order.
    pub data_points: Vec<LoggedDataPoint>,
}

/// Whether a log holds any sample with the given sequence number.
pub open spec fn spec_has_seq(log: TemperatureLog, s: u32) -> bool {
    exists|i: int|
        0 <= i < log.data_points@.len() && (#[trigger] log.data_points@[i]).sequence_number == s
}

impl TemperatureLog {
    /// The log's invariant: samples strictly ascend by sequence number,
    /// so no sequence number appears twice.
    pub open spec fn wf(self) -> bool {
        forall|i: int, j: int|
            0 <= i < j < self.data_points@.len() ==> (
            #[trigger] self.data_points@[i]).sequence_number < (
            #[trigger] self.data_points@[j]).sequence_number
    }

    /// A fresh, empty log.
    pub fn new(session_id: u32, sample_period_ms: u32) -> (r: Self)
        ensures
            r.session_id == session_id,
            r.sample_period_ms == sample_period_ms,
            r.data_points@.len() == 0,
            r.wf(),
    {
        TemperatureLog { session_id, sample_period_ms, data_points: Vec::new() }
    }

    /// Insert one sample at its sorted position. A sample whose sequence
    /// number the log already holds is dropped, so the log never holds a
    /// sequence number twice.
    pub fn add_data_point(&mut self, point: LoggedDataPoint)
        requires
            old(self).wf(),
        ensures
            final(self).wf(),
            final(self).session_id == old(self).session_id,
            final(self).sample_period_ms == old(self).sample_period_ms,
            spec_has_seq(*old(self), point.sequence_number) ==> final(self).data_points@ == old(
                self,
            ).data_points@,
            !spec_has_seq(*old(self), point.sequence_number) ==> exists|p: int|
                0 <= p <= old(self).data_points@.len() && final(self).data_points@ == #[trigger] old(
                    self,
                ).data_points@.insert(p, point),
            spec_has_seq(*final(self), point.sequence_number),
    {
        let ghost olds = self.data_points@;
        let mut pos: usize = 0;
        while pos < self.data_points.len() && self.data_points[pos].sequence_number
            < point.sequence_number
            invariant
                pos <= self.data_points@.len(),
                self.data_points@ == olds,
                forall|i: int|
                    0 <= i < pos ==> (#[trigger] self.data_points@[i]).sequence_number
                        < point.sequence_number,
            decreases self.data_points@.len() - pos,
        {
            pos += 1;
        }
        if pos < self.data_points.len() && self.data_points[pos].sequence_number
            == point.sequence_number {
            proof {
                assert(spec_has_seq(*self, point.sequence_number));
            }
            return ;
        }
        proof {
            assert forall|i: int|
                0 <= i < olds.len() implies (#[trigger] olds[i]).sequence_number
                != point.sequence_number by {
                if i < pos {
                } else {
                    assert(olds[pos as int].sequence_number < olds[i].sequence_number || i
                        == pos);
                }
            }
        }
        self.data_points.insert(pos, point);
        proof {
            let news = self.data_points@;
            assert(news == olds.insert(pos as int, point));
            assert forall|i: int, j: int|
                0 <= i < j < news.len() implies (#[trigger] news[i]).sequence_number < (
            #[trigger] news[j]).sequence_number by {
                if i < pos && j < pos {
                } else if i < pos && j == pos {
                } else if i == pos {
                    assert(news[j] == olds[j - 1]);
                    assert(olds[pos as int].sequence_number >= point.sequence_number || pos
                        == olds.len());
                    if pos < olds.len() {
                        assert(olds[pos as int].sequence_number > point.sequence_number);
                        if j - 1 > pos {
                            assert(olds[pos as int].sequence_number < olds[j - 1].sequence_number);
                        }
                    }
                } else if i > pos {
                    assert(news[i] == olds[i - 1] && news[j] == olds[j - 1]);
                } else {
                    assert(news[j] == olds[j - 1]);
                    if pos < olds.len() {
                        assert(olds[pos as int].sequence_number > point.sequence_number);
                    }
                    assert(news[i].sequence_number < point.sequence_number || news[i].sequence_number
                        < news[j].sequence_number);
                }
            }
            assert(news[pos as int].sequence_number == point.sequence_number);
            assert(spec_has_seq(*self, point.sequence_number));
        }
    }

    /// How much of the probe's range the log already holds, as a whole
    /// percentage capped at 100. An empty or inverted range counts as
    /// fully synced.
    pub fn percent_synced(&self, min_seq: u32, max_seq: u32) -> (r: u32)
        ensures
            max_seq <= min_seq ==> r == 100,
            max_seq > min_seq ==> r == ({
                let total = max_seq - min_seq + 1;
                let pct = (self.data_points@.len() * 100) as int / total;
                if pct > 100 {
                    100int
                } else {
                    pct
                }
            }),
    {
        if max_seq <= min_seq {
            return 100;
        }
        let total: u128 = (max_seq - min_seq) as u128 + 1;
        let received: u128 = self.data_points.len() as u128;
        let pct: u128 = (received * 100) / total;
        if pct > 100 {
            100
        } else {
            pct as u32
        }
    }

    /// The number of samples held.
    pub fn len(&self) -> (r: usize)
        ensures
            r == self.data_points@.len(),
    {
        self.data_points.len()
    }

    /// Whether the log holds no samples.
    pub fn is_empty(&self) -> (r: bool)
        ensures
            r == (self.data_points@.len() == 0),
    {
        self.data_points.len() == 0
    }

    /// The smallest sequence number held, or `None` when empty.
    pub fn min_sequence(&self) -> (r: Option<u32>)
        ensures
            self.data_points@.len() == 0 ==> r is None,
            self.data_points@.len() > 0 ==> r == Some(self.data_points@[0].sequence_number),
    {
        if self.data_points.len() == 0 {
            None
        } else {
            Some(self.data_points[0].sequence_number)
        }
    }

    /// The largest sequence number held, or `None` when empty.
    pub fn max_sequence(&self) -> (r: Option<u32>)
        ensures
            self.data_points@.len() == 0 ==> r is None,
            self.data_points@.len() > 0 ==> r == Some(
                self.data_points@[self.data_points@.len() - 1].sequence_number,
            ),
    {
        if self.data_points.len() == 0 {
            None
        } else {
            Some(self.data_points[self.data_points.len() - 1].sequence_number)
        }
    }

    /// Whether the log holds a sample with the given sequence number.
    pub fn contains_sequence(&self, s: u32) -> (r: bool)
        ensures
            r == spec_has_seq(*self, s),
    {
        let mut i: usize = 0;
        while i < self.data_points.len()
            invariant
                i <= self.data_points@.len(),
                forall|k: int|
                    0 <= k < i ==> (#[trigger] self.data_points@[k]).sequence_number != s,
            decreases self.data_points@.len() - i,
        {
            if self.data_points[i].sequence_number == s {
                return true;
            }
            i += 1;
        }
        false
    }

    /// The ascending list of sequence numbers in the inclusive range that
    /// the log does not hold.
    pub fn missing_sequences(&self, min_seq: u32, max_seq: u32) -> (r: Vec<u32>)
        ensures
            forall|a: int, b: int| 0 <= a < b < r@.len() ==> r@[a] < r@[b],
            forall|k: int|
                0 <= k < r@.len() ==> min_seq <= #[trigger] r@[k] <= max_seq && !spec_has_seq(
                    *self,
                    r@[k],
                ),
            forall|s: u32|
                min_seq <= s <= max_seq && !spec_has_seq(*self, s) ==> r@.contains(s),
    {
        let mut out: Vec<u32> = Vec::new();
        if min_seq > max_seq {
            proof {
                assert forall|s: u32|
                    min_seq <= s <= max_seq && !spec_has_seq(*self, s) implies out@.contains(s) by {}
            }
            return out;
        }
        let mut s64: u64 = min_seq as u64;
        while s64 <= max_seq as u64
            invariant
                min_seq <= s64 <= max_seq as u64 + 1,
                forall|a: int, b: int| 0 <= a < b < out@.len() ==> out@[a] < out@[b],
                forall|k: int|
                    0 <= k < out@.len() ==> min_seq <= #[trigger] out@[k] <= max_seq
                        && out@[k] < s64 && !spec_has_seq(*self, out@[k]),
                forall|x: u32|
                    min_seq <= x <= max_seq && x < s64 && !spec_has_seq(*self, x)
                        ==> out@.contains(x),
            decreases max_seq as u64 + 1 - s64,
        {
            let s: u32 = s64 as u32;
            if !self.contains_sequence(s) {
                let ghost before = out@;
                out.push(s);
                proof {
                    assert forall|x: u32|
                        min_seq <= x <= max_seq && x < s64 + 1 && !spec_has_seq(*self, x)
                        implies out@.contains(x) by {
                        if x < s64 {
                            assert(before.contains(x));
                            let w = choose|w: int| 0 <= w < before.len() && before[w] == x;
                            assert(out@[w] == x);
                        } else {
                            assert(out@[out@.len() - 1] == x);
                        }
                    }
                }
            }
            s64 += 1;
        }
        out
    }

    /// The time the held range spans, in milliseconds: the sequence span
    /// times the sample period. Zero when the log is empty.
    pub fn duration_ms(&self) -> (r: u64)
        requires
            self.wf(),
        ensures
            self.data_points@.len() == 0 ==> r == 0,
            self.data_points@.len() > 0 ==> r == (
            self.data_points@[self.data_points@.len() - 1].sequence_number
                - self.data_points@[0].sequence_number) * self.sample_period_ms,
    {
        if self.data_points.len() == 0 {
            return 0;
        }
        let first = self.data_points[0].sequence_number;
        let last = self.data_points[self.data_points.len() - 1].sequence_number;
        proof {
            if self.data_points@.len() > 1 {
                assert(first < last);
            }
            vstd::arithmetic::mul::lemma_mul_upper_bound(
                (last - first) as int,
                0xFFFF_FFFF,
                self.sample_period_ms as int,
                0xFFFF_FFFF,
            );
        }
        ((last - first) as u64) * (self.sample_period_ms as u64)
    }
}

impl Default for TemperatureLog {
    /// An empty log with the typical one-second sample period.
    fn default() -> (r: Self)
        ensures
            r.session_id == 0,
            r.sample_period_ms == 1000,
            r.data_points@.len() == 0,
            r.wf(),
    {
        TemperatureLog::new(0, 1000)
    }
}

} // verus!
