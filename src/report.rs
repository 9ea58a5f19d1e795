use crate::text::{decimal_of, push_decimal};
use vstd::prelude::*;
use vstd::string::*;

verus! {

/// A snapshot of the machine a benchmark ran on, taken once and passed to
/// whatever builds a report.
#[derive(Debug, Clone)]
pub struct SysInfo {
    pub os_name: String,
    pub kernel_version: String,
    pub arch: String,
    pub cpu_count: usize,
    pub cpu_frequency: u64,
    pub cpu_brand: String,
    pub memory: u64,
}

/// Bytes in a gigabyte (2^30).
pub const GIGABYTE: u64 = 1073741824;

/// The text of a system-information snapshot, one "label: value" per line.
pub open spec fn sysinfo_text(info: SysInfo) -> Seq<char> {
    "CPU Count: "@ + decimal_of(info.cpu_count as nat) + "\nCPU Model: "@ + info.cpu_brand@
        + "\nCPU Speed (MHz): "@ + decimal_of(info.cpu_frequency as nat) + "\nTotal Memory: "@
        + decimal_of((info.memory / GIGABYTE) as nat) + " GB\nPlatform: "@ + info.os_name@
        + "\nRelease: "@ + info.kernel_version@ + "\nArchitecture: "@ + info.arch@
}

/// Renders a system-information snapshot for a report.
pub fn sysinfo_string(info: &SysInfo) -> (r: String)
    ensures
        r@ == sysinfo_text(*info),
{
    let mut s = String::new();
    s.append("CPU Count: ");
    push_decimal(&mut s, info.cpu_count as u64);
    s.append("\nCPU Model: ");
    s.append(info.cpu_brand.as_str());
    s.append("\nCPU Speed (MHz): ");
    push_decimal(&mut s, info.cpu_frequency);
    s.append("\nTotal Memory: ");
    push_decimal(&mut s, info.memory / GIGABYTE);
    s.append(" GB\nPlatform: ");
    s.append(info.os_name.as_str());
    s.append("\nRelease: ");
    s.append(info.kernel_version.as_str());
    s.append("\nArchitecture: ");
    s.append(info.arch.as_str());
    assert(s@ =~= sysinfo_text(*info));
    s
}

} // verus!
