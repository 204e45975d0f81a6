use vstd::prelude::*;

verus! {

/// What one stylus sequence number says about the stream, given the one
/// before it.
#[derive(Clone, Copy, Debug, PartialEq, Eq, Structural)]
pub enum SequenceStep {
    /// No earlier number to compare with.
    First,
    /// Exactly one past the previous number (with wrap-around).
    InOrder,
    /// Ahead by more than one: this many numbers were skipped.
    Gap(u32),
    /// Repeated, or behind the previous number.
    Reorder,
}

/// Distance from `previous` forward to `sequence`, counted modulo 2^32.
pub open spec fn sequence_delta(previous: u32, sequence: u32) -> int {
    (sequence as int - previous as int) % 0x1_0000_0000
}

pub open spec fn spec_sequence_step(previous: Option<u32>, sequence: u32) -> SequenceStep {
    match previous {
        None => SequenceStep::First,
        Some(p) => {
            let delta = sequence_delta(p, sequence);
            if delta == 1 {
                SequenceStep::InOrder
            } else if 1 < delta < 0x8000_0000 {
                SequenceStep::Gap((delta - 1) as u32)
            } else {
                SequenceStep::Reorder
            }
        },
    }
}

/// Classifies `sequence` against the number seen before it.
pub fn classify_sequence(previous: Option<u32>, sequence: u32) -> (step: SequenceStep)
    ensures
        step == spec_sequence_step(previous, sequence),
{
    match previous {
        None => SequenceStep::First,
        Some(p) => {
            let delta = sequence.wrapping_sub(p);
            assert(delta as int == sequence_delta(p, sequence)) by {
                if sequence >= p {
                    assert((sequence as int - p as int) % 0x1_0000_0000 == sequence - p);
                } else {
                    assert((sequence as int - p as int) % 0x1_0000_0000 == sequence - p
                        + 0x1_0000_0000);
                }
            }
            if delta == 1 {
                SequenceStep::InOrder
            } else if delta > 1 && delta < 0x8000_0000 {
                SequenceStep::Gap(delta - 1)
            } else {
                SequenceStep::Reorder
            }
        },
    }
}

/// Mean of `count` samples whose sum is `total`, rounded down; zero samples
/// count as one.
pub fn average_micros(total: u64, count: u64) -> (avg: u64)
    ensures
        avg == total / (if count == 0 { 1 } else { count }),
{
    let divisor: u64 = if count == 0 { 1 } else { count };
    total / divisor
}

/// Counters that describe how the stylus input pipeline is doing. When the
/// metrics are switched off, only the timing records that were actually
/// measured change anything.
#[derive(Clone, Copy, Debug, PartialEq, Eq)]
pub struct InputPipelineMetrics {
    pub enabled: bool,
    pub accepted_samples: u64,
    pub sequence_gaps: u64,
    pub sequence_reorders: u64,
    pub last_sequence: Option<u32>,
    pub injected_samples: u64,
    pub injection_errors: u64,
    pub max_queue_depth: usize,
    pub queue_wait_samples: u64,
    pub queue_wait_total_us: u64,
    pub queue_wait_max_us: u64,
    pub injection_attempts: u64,
    pub injection_total_us: u64,
    pub injection_max_us: u64,
}

pub open spec fn add_wrapping(x: u64, y: u64) -> u64 {
    vstd::wrapping::u64_specs::wrapping_add(x, y)
}

pub open spec fn max_u64(x: u64, y: u64) -> u64 {
    if y > x { y } else { x }
}

impl InputPipelineMetrics {
    /// Empty counters, switched on or off.
    pub fn new(enabled: bool) -> (m: Self)
        ensures
            m.enabled == enabled,
            m.accepted_samples == 0,
            m.sequence_gaps == 0,
            m.sequence_reorders == 0,
            m.last_sequence is None,
            m.injected_samples == 0,
            m.injection_errors == 0,
            m.max_queue_depth == 0,
            m.queue_wait_samples == 0,
            m.queue_wait_total_us == 0,
            m.queue_wait_max_us == 0,
            m.injection_attempts == 0,
            m.injection_total_us == 0,
            m.injection_max_us == 0,
    {
        InputPipelineMetrics {
            enabled,
            accepted_samples: 0,
            sequence_gaps: 0,
            sequence_reorders: 0,
            last_sequence: None,
            injected_samples: 0,
            injection_errors: 0,
            max_queue_depth: 0,
            queue_wait_samples: 0,
            queue_wait_total_us: 0,
            queue_wait_max_us: 0,
            injection_attempts: 0,
            injection_total_us: 0,
            injection_max_us: 0,
        }
    }

    /// Counts one accepted sample.
    pub fn record_accepted(&mut self)
        ensures
            *final(self) == (if old(self).enabled {
                InputPipelineMetrics {
                    accepted_samples: add_wrapping(old(self).accepted_samples, 1),
                    ..*old(self)
                }
            } else {
                *old(self)
            }),
    {
        if self.enabled {
            self.accepted_samples = self.accepted_samples.wrapping_add(1);
        }
    }

    /// Remembers `sequence` and counts the numbers skipped before it, or one
    /// reordering when it is not ahead of the previous one.
    pub fn record_sequence(&mut self, sequence: u32)
        ensures
            !old(self).enabled ==> *final(self) == *old(self),
            old(self).enabled ==> {
                let step = spec_sequence_step(old(self).last_sequence, sequence);
                &&& final(self).last_sequence == Some(sequence)
                &&& final(self).sequence_gaps == (match step {
                    SequenceStep::Gap(missing) => add_wrapping(
                        old(self).sequence_gaps,
                        missing as u64,
                    ),
                    _ => old(self).sequence_gaps,
                })
                &&& final(self).sequence_reorders == (match step {
                    SequenceStep::Reorder => add_wrapping(old(self).sequence_reorders, 1),
                    _ => old(self).sequence_reorders,
                })
                &&& *final(self) == InputPipelineMetrics {
                    last_sequence: final(self).last_sequence,
                    sequence_gaps: final(self).sequence_gaps,
                    sequence_reorders: final(self).sequence_reorders,
                    ..*old(self)
                }
            },
    {
        if !self.enabled {
            return;
        }
        let step = classify_sequence(self.last_sequence, sequence);
        self.last_sequence = Some(sequence);
        match step {
            SequenceStep::Gap(missing) => {
                self.sequence_gaps = self.sequence_gaps.wrapping_add(missing as u64);
            },
            SequenceStep::Reorder => {
                self.sequence_reorders = self.sequence_reorders.wrapping_add(1);
            },
            _ => {},
        }
    }

    /// Forgets the previous sequence number, so the next one starts afresh.
    pub fn reset_sequence(&mut self)
        ensures
            *final(self) == (if old(self).enabled {
                InputPipelineMetrics { last_sequence: None, ..*old(self) }
            } else {
                *old(self)
            }),
    {
        if self.enabled {
            self.last_sequence = None;
        }
    }

    /// Keeps the largest queue depth seen.
    pub fn record_queue_depth(&mut self, depth: usize)
        ensures
            *final(self) == (if old(self).enabled && depth > old(self).max_queue_depth {
                InputPipelineMetrics { max_queue_depth: depth, ..*old(self) }
            } else {
                *old(self)
            }),
    {
        if self.enabled && depth > self.max_queue_depth {
            self.max_queue_depth = depth;
        }
    }

    /// Adds one measured queue wait, in microseconds; nothing when none was
    /// measured.
    pub fn record_queue_wait(&mut self, elapsed_us: Option<u64>)
        ensures
            *final(self) == (match elapsed_us {
                None => *old(self),
                Some(us) => InputPipelineMetrics {
                    queue_wait_samples: add_wrapping(old(self).queue_wait_samples, 1),
                    queue_wait_total_us: add_wrapping(old(self).queue_wait_total_us, us),
                    queue_wait_max_us: max_u64(old(self).queue_wait_max_us, us),
                    ..*old(self)
                },
            }),
    {
        if let Some(us) = elapsed_us {
            self.queue_wait_samples = self.queue_wait_samples.wrapping_add(1);
            self.queue_wait_total_us = self.queue_wait_total_us.wrapping_add(us);
            if us > self.queue_wait_max_us {
                self.queue_wait_max_us = us;
            }
        }
    }

    /// Adds one measured injection, in microseconds, and counts it as
    /// injected or failed; nothing when none was measured.
    pub fn record_injection(&mut self, elapsed_us: Option<u64>, succeeded: bool)
        ensures
            *final(self) == (match elapsed_us {
                None => *old(self),
                Some(us) => InputPipelineMetrics {
                    injection_attempts: add_wrapping(old(self).injection_attempts, 1),
                    injection_total_us: add_wrapping(old(self).injection_total_us, us),
                    injection_max_us: max_u64(old(self).injection_max_us, us),
                    injected_samples: if succeeded {
                        add_wrapping(old(self).injected_samples, 1)
                    } else {
                        old(self).injected_samples
                    },
                    injection_errors: if succeeded {
                        old(self).injection_errors
                    } else {
                        add_wrapping(old(self).injection_errors, 1)
                    },
                    ..*old(self)
                },
            }),
    {
        if let Some(us) = elapsed_us {
            self.injection_attempts = self.injection_attempts.wrapping_add(1);
            self.injection_total_us = self.injection_total_us.wrapping_add(us);
            if us > self.injection_max_us {
                self.injection_max_us = us;
            }
            if succeeded {
                self.injected_samples = self.injected_samples.wrapping_add(1);
            } else {
                self.injection_errors = self.injection_errors.wrapping_add(1);
            }
        }
    }

    /// Mean queue wait in microseconds.
    pub fn queue_wait_avg_us(&self) -> (avg: u64)
        ensures
            avg == self.queue_wait_total_us / (if self.queue_wait_samples == 0 {
                1
            } else {
                self.queue_wait_samples
            }),
    {
        average_micros(self.queue_wait_total_us, self.queue_wait_samples)
    }

    /// Mean injection time in microseconds.
    pub fn injection_avg_us(&self) -> (avg: u64)
        ensures
            avg == self.injection_total_us / (if self.injection_attempts == 0 {
                1
            } else {
                self.injection_attempts
            }),
    {
        average_micros(self.injection_total_us, self.injection_attempts)
    }
}

/// In an unbroken run of consecutive numbers no gap or reordering is counted.
pub proof fn law_consecutive_sequence_is_in_order(previous: u32)
    ensures
        spec_sequence_step(Some(previous), vstd::wrapping::u32_specs::wrapping_add(previous, 1))
            == SequenceStep::InOrder,
{
}

/// After the previous number is forgotten, the next one starts a new stream:
/// it counts as neither a gap nor a reordering.
pub proof fn law_forgotten_sequence_starts_afresh(sequence: u32)
    ensures
        spec_sequence_step(None, sequence) == SequenceStep::First,
{
}

} // verus!
