//! The attempt-rate threat detector: classifies an externally sampled
//! signature-attempt rate against fixed thresholds standing for the gap
//! between classical and quantum attempt speeds.

use vstd::prelude::*;

verus! {

/// How severe the sampled attempt rate is.
#[derive(Clone, Copy, Debug, PartialEq, Eq, Structural)]
pub enum ThreatLevel {
    /// Within classical bounds.
    Normal,
    /// Above 10,000 attempts per time unit.
    Elevated,
    /// Above 100,000 attempts per time unit.
    High,
    /// Above 1,000,000 attempts per time unit: assumed quantum-assisted.
    Critical,
}

/// The classification of `attempts` over `time_window`: the rate
/// `attempts / time_window` against the fixed thresholds. A zero window
/// with any attempts counts as an unbounded rate; a negative window rates
/// nothing.
pub open spec fn spec_threat_level(attempts: u32, time_window: i64) -> ThreatLevel {
    if time_window > 0 {
        if attempts > 1_000_000 * (time_window as int) {
            ThreatLevel::Critical
        } else if attempts > 100_000 * (time_window as int) {
            ThreatLevel::High
        } else if attempts > 10_000 * (time_window as int) {
            ThreatLevel::Elevated
        } else {
            ThreatLevel::Normal
        }
    } else if time_window == 0 {
        if attempts > 0 {
            ThreatLevel::Critical
        } else {
            ThreatLevel::Normal
        }
    } else {
        ThreatLevel::Normal
    }
}

/// The detector's counters and latest classification.
#[derive(Clone, Copy, Debug)]
pub struct QuantumThreatDetector {
    /// How many non-normal classifications have been recorded.
    pub suspicious_pattern_count: u32,
    /// When the last non-normal classification happened.
    pub last_detection_time: i64,
    /// The latest classification.
    pub threat_level: ThreatLevel,
}

impl QuantumThreatDetector {
    /// Classifies one rate sample and stores the level. A non-normal result
    /// increments the suspicious-pattern counter and stamps `now`; a normal
    /// one leaves both untouched.
    pub fn analyze_pattern(&mut self, signature_attempts: u32, time_window: i64, now: i64) -> (r: ThreatLevel)
        requires
            spec_threat_level(signature_attempts, time_window) != ThreatLevel::Normal
                ==> old(self).suspicious_pattern_count < u32::MAX,
        ensures
            r == spec_threat_level(signature_attempts, time_window),
            final(self).threat_level == r,
            r != ThreatLevel::Normal ==> ({
                &&& final(self).suspicious_pattern_count
                    == old(self).suspicious_pattern_count + 1
                &&& final(self).last_detection_time == now
            }),
            r == ThreatLevel::Normal ==> ({
                &&& final(self).suspicious_pattern_count == old(self).suspicious_pattern_count
                &&& final(self).last_detection_time == old(self).last_detection_time
            }),
    {
        let level = if time_window > 0 {
            let attempts_wide = signature_attempts as u128;
            let window_wide = time_window as u128;
            if attempts_wide > 1_000_000u128 * window_wide {
                ThreatLevel::Critical
            } else if attempts_wide > 100_000u128 * window_wide {
                ThreatLevel::High
            } else if attempts_wide > 10_000u128 * window_wide {
                ThreatLevel::Elevated
            } else {
                ThreatLevel::Normal
            }
        } else if time_window == 0 {
            if signature_attempts > 0 {
                ThreatLevel::Critical
            } else {
                ThreatLevel::Normal
            }
        } else {
            ThreatLevel::Normal
        };

        self.threat_level = level;
        if level != ThreatLevel::Normal {
            self.suspicious_pattern_count = self.suspicious_pattern_count + 1;
            self.last_detection_time = now;
        }
        level
    }

    /// True exactly when the latest classification is `Critical`: the
    /// trigger for emergency quantum-resistant posture.
    pub fn activate_quantum_defense(&self) -> (r: bool)
        ensures
            r == (self.threat_level == ThreatLevel::Critical),
    {
        self.threat_level == ThreatLevel::Critical
    }
}

} // verus!
