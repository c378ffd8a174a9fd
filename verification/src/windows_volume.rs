//! The master volume of the system.

use vstd::prelude::*;

verus! {

/// Whether a volume can be set: it should be between 0 and 100. A number that is no
/// volume at all is missing here.
pub fn check_volume(value: Option<u32>) -> (r: Result<u32, String>)
    ensures
        match r {
            Ok(v) => v <= 100 && value == Some(v),
            Err(message) => (value is None || value->0 > 100) && message@
                == "Volume must be between 0 and 100"@,
        },
{
    match value {
        Some(v) => if v > 100 {
            Err("Volume must be between 0 and 100".to_owned())
        } else {
            Ok(v)
        },
        None => Err("Volume must be between 0 and 100".to_owned()),
    }
}

/// Sets the master system volume, on systems that have none to set.
pub fn set_volume(_value: u32) -> (r: Result<(), String>)
    ensures
        r matches Err(message) && message@ == "set_volume is only supported on Windows"@,
{
    Err("set_volume is only supported on Windows".to_owned())
}

/// Returns the current master system volume, on systems that have none to tell.
pub fn get_volume() -> (r: Result<u32, String>)
    ensures
        r matches Err(message) && message@ == "get_volume is only supported on Windows"@,
{
    Err("get_volume is only supported on Windows".to_owned())
}

} // verus!
