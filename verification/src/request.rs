//! What a request means where it leaves a field out, and the health report.

use vstd::prelude::*;

verus! {

/// The evaluation mode of a request that names none.
pub fn default_mode() -> (mode: String)
    ensures
        mode@ == "compiled"@,
{
    String::from_str("compiled")
}

/// The resolution of a mesh request that names none.
pub fn d128() -> (resolution: usize)
    ensures
        resolution == 128,
{
    128
}

/// The format of a mesh request that names none.
pub fn d_obj() -> (format: String)
    ensures
        format@ == "obj"@,
{
    String::from_str("obj")
}

/// The target of a shader request that names none.
pub fn d_wgsl() -> (target: String)
    ensures
        target@ == "wgsl"@,
{
    String::from_str("wgsl")
}

/// The health report of the engine.
pub struct Health {
    pub status: String,
    pub version: String,
    pub uptime_secs: u64,
    pub engine: String,
}

/// The health report of an engine of the given version that has been up for
/// `uptime_secs` seconds.
pub fn health(version: &str, uptime_secs: u64) -> (h: Health)
    ensures
        h.status@ == "ok"@,
        h.version@ == version@,
        h.uptime_secs == uptime_secs,
        h.engine@ == "ALICE-SDF stub"@,
{
    Health {
        status: String::from_str("ok"),
        version: String::from_str(version),
        uptime_secs,
        engine: String::from_str("ALICE-SDF stub"),
    }
}

} // verus!
