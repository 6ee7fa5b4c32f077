//! Energy monitoring.

use vstd::prelude::*;
use crate::error::CrabScoreError;
use crate::metrics::{
    AlgorithmEfficiency, CarbonEfficiency, EnergyMetrics, HardwareLifecycle, PowerConsumption,
};

verus! {

/// A source of energy measurements for the current host.
pub trait EnergyMonitor {
    /// Samples power and energy, and returns every figure of
    /// [`EnergyMetrics`].
    fn collect(&self) -> Result<EnergyMetrics, CrabScoreError>;
}

/// A monitor for hosts without a sensor: every figure it gives is zero.
#[derive(Clone, Copy, Debug, PartialEq, Eq, Structural)]
pub struct NullMonitor;

impl NullMonitor {
    /// Energy metrics with every figure at zero, whatever the host.
    pub fn sample(&self) -> (m: EnergyMetrics)
        ensures
            m.is_default(),
    {
        EnergyMetrics {
            direct_consumption: PowerConsumption::default(),
            carbon_efficiency: CarbonEfficiency::default(),
            hardware_lifecycle: HardwareLifecycle::default(),
            algorithmic_efficiency: AlgorithmEfficiency::default(),
        }
    }
}

impl EnergyMonitor for NullMonitor {
    fn collect(&self) -> (r: Result<EnergyMetrics, CrabScoreError>)
        ensures
            r is Ok,
            r.unwrap().is_default(),
    {
        Ok(self.sample())
    }
}

} // verus!
