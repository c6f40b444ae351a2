//! System metrics: memory figures and processor description, read through
//! sysinfo. The figures depend on the machine and the moment, so the
//! contracts say only what holds of every reading.

use sysinfo::Cpu as SysCpu;
use sysinfo::System as SysHandle;
use vstd::prelude::*;

verus! {

/// Declares sysinfo's system handle.
#[verifier::external_type_specification]
#[verifier::external_body]
pub struct ExSysinfoSystem(SysHandle);

/// Declares sysinfo's description of one logical processor.
#[verifier::external_type_specification]
#[verifier::external_body]
pub struct ExSysinfoCpu(SysCpu);

/// Relies on sysinfo's `System::new_all`: a handle with every kind of
/// information loaded.
pub assume_specification[ SysHandle::new_all ]() -> SysHandle;

/// Relies on sysinfo's `System::refresh_memory`: reloads the memory figures.
pub assume_specification[ SysHandle::refresh_memory ](s: &mut SysHandle);

/// Relies on sysinfo's `System::total_memory`: total RAM in bytes.
pub assume_specification[ SysHandle::total_memory ](s: &SysHandle) -> u64;

/// Relies on sysinfo's `System::used_memory`: used RAM in bytes.
pub assume_specification[ SysHandle::used_memory ](s: &SysHandle) -> u64;

/// Relies on sysinfo's `System::available_memory`: RAM available for new
/// allocations, in bytes.
pub assume_specification[ SysHandle::available_memory ](s: &SysHandle) -> u64;

/// Relies on sysinfo's `System::cpus`: the logical processors.
pub assume_specification[ SysHandle::cpus ](s: &SysHandle) -> &[SysCpu];

/// Relies on sysinfo's `Cpu::frequency`: current frequency in MHz.
pub assume_specification[ SysCpu::frequency ](c: &SysCpu) -> u64;

/// Relies on sysinfo's `Cpu::brand`: the processor's model name.
pub assume_specification[ SysCpu::brand ](c: &SysCpu) -> &str;

/// Processor description: number of logical cores, frequency of the first
/// one in MHz, and model name.
#[derive(Debug, Clone)]
pub struct CpuInfo {
    pub len: usize,
    pub frequency: u64,
    pub brand: String,
}

impl Default for CpuInfo {
    /// No cores, zero frequency, empty name.
    fn default() -> (r: CpuInfo)
        ensures
            r.len == 0,
            r.frequency == 0,
            r.brand@.len() == 0,
    {
        CpuInfo { len: 0, frequency: 0, brand: String::new() }
    }
}

/// Memory figures in bytes.
#[derive(Debug, Clone, Copy, PartialEq, Eq, Structural)]
pub struct MemoryUsage {
    pub total: u64,
    pub used: u64,
    pub available: u64,
}

/// Text of the error when no processor is reported.
pub open spec fn no_cpu_text() -> Seq<char> {
    "Cpu information not found"@
}

/// Collector of system metrics.
#[derive(Debug)]
pub struct System {
    system: SysHandle,
}

impl System {
    /// A collector with all information loaded and memory figures fresh.
    pub fn new() -> (r: System) {
        let mut system = SysHandle::new_all();
        system.refresh_memory();
        System { system }
    }

    /// Reloads and returns the memory figures.
    pub fn memory_usage(&mut self) -> (r: MemoryUsage) {
        self.system.refresh_memory();
        MemoryUsage {
            total: self.system.total_memory(),
            used: self.system.used_memory(),
            available: self.system.available_memory(),
        }
    }

    /// The processor description, from the first reported core; an error
    /// when no core is reported.
    pub fn get_cpu_data(&self) -> (r: Result<CpuInfo, String>)
        ensures
            r matches Ok(c) ==> c.len > 0,
            r matches Err(e) ==> e@ == no_cpu_text(),
    {
        let cpus = self.system.cpus();
        if cpus.len() > 0 {
            let cpu = &cpus[0];
            cpu_info_from(cpus.len(), Some((cpu.frequency(), String::from_str(cpu.brand()))))
        } else {
            cpu_info_from(0, None)
        }
    }
}

/// The processor description from the number of cores and the frequency
/// and name of the first one; an error when there is no first core.
pub fn cpu_info_from(count: usize, first: Option<(u64, String)>) -> (r: Result<CpuInfo, String>)
    ensures
        first is None ==> (r matches Err(e) && e@ == no_cpu_text()),
        first matches Some(f) ==> (r matches Ok(c) && c.len == count && c.frequency == f.0
            && c.brand@ == f.1@),
{
    match first {
        Some((frequency, brand)) => Ok(CpuInfo { len: count, frequency, brand }),
        None => Err(String::from_str("Cpu information not found")),
    }
}

impl Default for System {
    fn default() -> (r: System) {
        System::new()
    }
}

} // verus!
