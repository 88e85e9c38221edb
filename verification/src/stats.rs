//! Frame statistics: counting frames and deciding when a periodic report
//! is due. The clock stays with the platform, which hands in millisecond
//! timestamps; presentation of the report (formatting, logging) is the
//! caller's concern.

use vstd::prelude::*;

verus! {

/// A report is due at most once per this interval.
pub const STATS_DUMP_INTERVAL_MS: u64 = 5000;

/// Counters and timestamps of the running frame loop.
#[derive(Clone, Copy, Debug, PartialEq, Eq, Structural)]
pub struct EngineStats {
    pub frame_count: u64,
    pub start_time_ms: u64,
    pub last_frame_start_ms: u64,
    pub last_fps_dump_ms: u64,
}

/// One periodic report: enough plain values for the caller to derive the
/// frame time and the average frame rate.
#[derive(Clone, Copy, Debug, PartialEq, Eq, Structural)]
pub struct FrameStatsReport {
    pub frame_count: u64,
    pub frame_time_ms: u64,
    pub elapsed_ms: u64,
}

impl EngineStats {
    /// Fresh statistics, anchored at the current time.
    pub fn new(now_ms: u64) -> (s: EngineStats)
        ensures
            s.frame_count == 0,
            s.start_time_ms == now_ms,
            s.last_frame_start_ms == now_ms,
            s.last_fps_dump_ms == now_ms,
    {
        EngineStats {
            frame_count: 0,
            start_time_ms: now_ms,
            last_frame_start_ms: now_ms,
            last_fps_dump_ms: now_ms,
        }
    }

    /// How long the frame in flight has been running.
    pub fn frame_time(&self, now_ms: u64) -> (ms: u64)
        requires
            now_ms >= self.last_frame_start_ms,
        ensures
            ms == now_ms - self.last_frame_start_ms,
    {
        now_ms - self.last_frame_start_ms
    }

    /// Marks the start of a new frame.
    pub fn record_frame_start(&mut self, now_ms: u64)
        ensures
            final(self).last_frame_start_ms == now_ms,
            final(self).frame_count == old(self).frame_count,
            final(self).start_time_ms == old(self).start_time_ms,
            final(self).last_fps_dump_ms == old(self).last_fps_dump_ms,
    {
        self.last_frame_start_ms = now_ms;
    }

    /// Counts a completed frame.
    pub fn count_frame(&mut self)
        requires
            old(self).frame_count < u64::MAX,
        ensures
            final(self).frame_count == old(self).frame_count + 1,
            final(self).start_time_ms == old(self).start_time_ms,
            final(self).last_frame_start_ms == old(self).last_frame_start_ms,
            final(self).last_fps_dump_ms == old(self).last_fps_dump_ms,
    {
        self.frame_count = self.frame_count + 1;
    }

    /// Yields a report exactly when the last one is at least
    /// `STATS_DUMP_INTERVAL_MS` old, and remembers having reported;
    /// otherwise changes nothing and stays silent.
    pub fn log_frame_stats(&mut self, now_ms: u64) -> (r: Option<FrameStatsReport>)
        requires
            now_ms >= old(self).start_time_ms,
            now_ms >= old(self).last_frame_start_ms,
            now_ms >= old(self).last_fps_dump_ms,
        ensures
            r is Some <==> now_ms - old(self).last_fps_dump_ms >= STATS_DUMP_INTERVAL_MS,
            r matches Some(rep) ==> {
                &&& rep.frame_count == old(self).frame_count
                &&& rep.frame_time_ms == now_ms - old(self).last_frame_start_ms
                &&& rep.elapsed_ms == now_ms - old(self).start_time_ms
                &&& final(self).last_fps_dump_ms == now_ms
                &&& final(self).frame_count == old(self).frame_count
                &&& final(self).start_time_ms == old(self).start_time_ms
                &&& final(self).last_frame_start_ms == old(self).last_frame_start_ms
            },
            r is None ==> *final(self) == *old(self),
    {
        if now_ms - self.last_fps_dump_ms < STATS_DUMP_INTERVAL_MS {
            return None;
        }
        let report = FrameStatsReport {
            frame_count: self.frame_count,
            frame_time_ms: now_ms - self.last_frame_start_ms,
            elapsed_ms: now_ms - self.start_time_ms,
        };
        self.last_fps_dump_ms = now_ms;
        Some(report)
    }
}

} // verus!
