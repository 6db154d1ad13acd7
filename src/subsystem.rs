//! The actor loop's decisions: what each input does to the subsystem's state
//! and what the loop does next.
use vstd::prelude::*;
use crate::candidate::{CollationGenerationConfig, DistributeCollation};
use crate::primitives::H256;

verus! {

/// `x + d`, or the largest `u64` where that does not fit.
pub open spec fn saturating(x: u64, d: u64) -> u64 {
    if x + d > u64::MAX {
        u64::MAX
    } else {
        (x + d) as u64
    }
}

/// The statistics after one more duration.
pub open spec fn stats_after(s: DurationStats, micros: u64) -> DurationStats {
    DurationStats {
        count: saturating(s.count, 1),
        total_micros: saturating(s.total_micros, micros),
    }
}

/// The counters after recording a duration of `phase`.
pub open spec fn observed(m: Metrics, phase: Phase, micros: u64) -> Metrics {
    match phase {
        Phase::Activations => Metrics {
            new_activations: stats_after(m.new_activations, micros),
            ..m
        },
        Phase::RelayParent => Metrics {
            per_relay_parent: stats_after(m.per_relay_parent, micros),
            ..m
        },
        Phase::AvailabilityCore => Metrics {
            per_availability_core: stats_after(m.per_availability_core, micros),
            ..m
        },
    }
}

/// How many durations were observed, and their total in microseconds.
#[derive(Clone, Copy, Debug, PartialEq, Eq)]
pub struct DurationStats {
    pub count: u64,
    pub total_micros: u64,
}

impl DurationStats {
    /// No observation yet.
    pub fn new() -> (r: Self)
        ensures
            r.count == 0,
            r.total_micros == 0,
    {
        DurationStats { count: 0, total_micros: 0 }
    }

    /// Records one duration; both sums stop at their largest value.
    pub fn observe(&mut self, micros: u64)
        ensures
            *final(self) == stats_after(*old(self), micros),
    {
        self.count = self.count.saturating_add(1);
        self.total_micros = self.total_micros.saturating_add(micros);
    }
}

/// The stretches of work whose durations are recorded.
#[derive(Clone, Copy, Debug, PartialEq, Eq)]
pub enum Phase {
    /// A whole batch of activated relay parents.
    Activations,
    /// One relay parent of a batch.
    RelayParent,
    /// One availability core of a relay parent.
    AvailabilityCore,
}

/// Counters of the subsystem. They are observed from outside and never steer
/// what the subsystem does.
#[derive(Clone, Copy, Debug, PartialEq, Eq)]
pub struct Metrics {
    pub collations_generated: u64,
    pub new_activations: DurationStats,
    pub per_relay_parent: DurationStats,
    pub per_availability_core: DurationStats,
}

impl Metrics {
    /// Counters that start at zero.
    pub fn new() -> (r: Self)
        ensures
            r.collations_generated == 0,
            r.new_activations == (DurationStats { count: 0, total_micros: 0 }),
            r.per_relay_parent == (DurationStats { count: 0, total_micros: 0 }),
            r.per_availability_core == (DurationStats { count: 0, total_micros: 0 }),
    {
        Metrics {
            collations_generated: 0,
            new_activations: DurationStats::new(),
            per_relay_parent: DurationStats::new(),
            per_availability_core: DurationStats::new(),
        }
    }

    /// Counts one more generated collation; the counter stops at its largest
    /// value.
    pub fn on_collation_generated(&mut self)
        ensures
            final(self).collations_generated == saturating(old(self).collations_generated, 1),
            final(self).new_activations == old(self).new_activations,
            final(self).per_relay_parent == old(self).per_relay_parent,
            final(self).per_availability_core == old(self).per_availability_core,
    {
        self.collations_generated = self.collations_generated.saturating_add(1);
    }

    /// Records how long a stretch of work took.
    pub fn observe(&mut self, phase: Phase, micros: u64)
        ensures
            *final(self) == observed(*old(self), phase, micros),
    {
        match phase {
            Phase::Activations => self.new_activations.observe(micros),
            Phase::RelayParent => self.per_relay_parent.observe(micros),
            Phase::AvailabilityCore => self.per_availability_core.observe(micros),
        }
    }
}

/// An input that the overseer delivers to the subsystem.
pub enum FromOverseer {
    /// Sets the configuration; only the first one counts.
    Initialize(CollationGenerationConfig),
    /// New relay-chain heads to build on.
    ActiveLeaves(Vec<H256>),
    /// A block was finalized; nothing to do.
    BlockFinalized(H256),
    /// The subsystem is to stop.
    Conclude,
}

/// The overseer's channel failed.
#[derive(Clone, Copy, Debug, PartialEq, Eq)]
pub struct OverseerError;

/// What the loop does after an input.
#[derive(Debug, PartialEq, Eq)]
pub enum Directive {
    /// Wait for the next input.
    Continue,
    /// A second configuration arrived and was dropped: report it, go on.
    DoubleInitialization,
    /// Handle these relay parents, one after another, with the configuration.
    HandleActivations(Vec<H256>),
    /// Stop the loop.
    Exit,
}

/// The state of one collation generation subsystem.
pub struct CollationGenerationSubsystem {
    config: Option<CollationGenerationConfig>,
    metrics: Metrics,
}

impl CollationGenerationSubsystem {
    /// A subsystem with no configuration yet.
    pub fn new(metrics: Metrics) -> (r: Self)
        ensures
            r.config_spec() is None,
            r.metrics_spec() == metrics,
    {
        CollationGenerationSubsystem { config: None, metrics }
    }

    /// The configuration, once one was set.
    pub closed spec fn config_spec(&self) -> Option<CollationGenerationConfig> {
        self.config
    }

    /// The subsystem's counters.
    pub closed spec fn metrics_spec(&self) -> Metrics {
        self.metrics
    }

    /// The subsystem's counters.
    pub fn metrics(&self) -> (r: Metrics)
        ensures
            r == self.metrics_spec(),
    {
        self.metrics
    }

    /// Records how long a stretch of work took.
    pub fn observe(&mut self, phase: Phase, micros: u64)
        ensures
            final(self).config_spec() == old(self).config_spec(),
            final(self).metrics_spec() == observed(old(self).metrics_spec(), phase, micros),
    {
        self.metrics.observe(phase, micros);
    }

    /// The configuration, once one was set.
    pub fn config(&self) -> (r: Option<&CollationGenerationConfig>)
        ensures
            match self.config_spec() {
                None => r is None,
                Some(c) => r is Some && *r->Some_0 == c,
            },
    {
        match &self.config {
            None => None,
            Some(c) => Some(c),
        }
    }

    /// Takes one input of the loop, or the failure to receive one.
    pub fn handle_incoming(&mut self, incoming: Result<FromOverseer, OverseerError>) -> (r:
        Directive)
        ensures
            final(self).metrics_spec() == old(self).metrics_spec(),
            match incoming {
                Err(_) => r == Directive::Exit && final(self).config_spec()
                    == old(self).config_spec(),
                Ok(FromOverseer::Conclude) => r == Directive::Exit && final(self).config_spec()
                    == old(self).config_spec(),
                Ok(FromOverseer::BlockFinalized(_)) => r == Directive::Continue
                    && final(self).config_spec() == old(self).config_spec(),
                Ok(FromOverseer::ActiveLeaves(heads)) => final(self).config_spec()
                    == old(self).config_spec() && if old(self).config_spec() is Some {
                    r == Directive::HandleActivations(heads)
                } else {
                    r == Directive::Continue
                },
                Ok(FromOverseer::Initialize(c)) => if old(self).config_spec() is None {
                    r == Directive::Continue && final(self).config_spec() == Some(c)
                } else {
                    r == Directive::DoubleInitialization && final(self).config_spec()
                        == old(self).config_spec()
                },
            },
    {
        match incoming {
            Err(_) => Directive::Exit,
            Ok(FromOverseer::Conclude) => Directive::Exit,
            Ok(FromOverseer::BlockFinalized(_)) => Directive::Continue,
            Ok(FromOverseer::ActiveLeaves(heads)) => {
                if self.config.is_some() {
                    Directive::HandleActivations(heads)
                } else {
                    Directive::Continue
                }
            },
            Ok(FromOverseer::Initialize(c)) => {
                if self.config.is_some() {
                    Directive::DoubleInitialization
                } else {
                    self.config = Some(c);
                    Directive::Continue
                }
            },
        }
    }

    /// Takes a finished candidate off the completion channel: counts it and
    /// hands it on unchanged.
    pub fn forward(&mut self, msg: DistributeCollation) -> (r: DistributeCollation)
        ensures
            r == msg,
            final(self).config_spec() == old(self).config_spec(),
            final(self).metrics_spec().collations_generated == saturating(
                old(self).metrics_spec().collations_generated,
                1,
            ),
            final(self).metrics_spec().new_activations == old(self).metrics_spec().new_activations,
            final(self).metrics_spec().per_relay_parent == old(self).metrics_spec().per_relay_parent,
            final(self).metrics_spec().per_availability_core == old(
                self,
            ).metrics_spec().per_availability_core,
    {
        self.metrics.on_collation_generated();
        msg
    }
}

} // verus!
