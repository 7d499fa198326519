//! Processor telemetry records. Pure data: the program fills and serialises them.

use vstd::prelude::*;

verus! {

/// Static facts about the processor.
#[derive(Clone, Debug, Default)]
pub struct CpuInfo {
    pub core_num: usize,
    pub brand: String,
    pub frequency: String,
    pub vendor_id: String,
}

/// Load of one logical core.
#[derive(Clone, Debug, Default)]
pub struct CpuUsage {
    pub name: String,
    pub cpu_usage: String,
}

/// [`CpuInfo`] as it is shown to clients.
#[derive(Clone, Debug, Default)]
pub struct CpuInfoVo {
    pub core_num: usize,
    pub brand: String,
    pub frequency: String,
    pub vendor_id: String,
}

/// [`CpuUsage`] as it is shown to clients.
#[derive(Clone, Debug, Default)]
pub struct CpuUsageVo {
    pub name: String,
    pub cpu_usage: String,
}

} // verus!
