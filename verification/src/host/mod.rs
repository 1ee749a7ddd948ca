use vstd::prelude::*;

use crate::device::DeviceResult;

verus! {

/// Translates data between the host machine and the devices.
pub trait HostTranslator {
    /// Initializes the host translator.
    fn initialize(&mut self) -> DeviceResult<()>;

    /// Processes data coming from the host.
    fn process_host_data(&mut self, data: &[u8]) -> DeviceResult<Vec<u8>>;

    /// Processes data going to the host.
    fn process_device_data(&mut self, data: &[u8]) -> DeviceResult<Vec<u8>>;
}

/// A copy of `data`.
fn copy_bytes(data: &[u8]) -> (r: Vec<u8>)
    ensures
        r@ == data@,
{
    let mut out: Vec<u8> = Vec::new();
    let mut i: usize = 0;
    while i < data.len()
        invariant
            i <= data@.len(),
            out@ == data@.take(i as int),
        decreases data@.len() - i,
    {
        out.push(data[i]);
        i += 1;
        assert(out@ =~= data@.take(i as int));
    }
    assert(data@.take(data@.len() as int) =~= data@);
    out
}

/// Host translator for x86 hosts, where host and device data need no change.
pub struct X86HostTranslator;

impl X86HostTranslator {
    /// A pass-through translator.
    pub fn new() -> Self {
        X86HostTranslator
    }
}

impl HostTranslator for X86HostTranslator {
    fn initialize(&mut self) -> (r: DeviceResult<()>)
        ensures
            r is Ok,
    {
        Ok(())
    }

    /// Host data passes through unchanged.
    fn process_host_data(&mut self, data: &[u8]) -> (r: DeviceResult<Vec<u8>>)
        ensures
            r matches Ok(v) && v@ == data@,
    {
        Ok(copy_bytes(data))
    }

    /// Device data passes through unchanged.
    fn process_device_data(&mut self, data: &[u8]) -> (r: DeviceResult<Vec<u8>>)
        ensures
            r matches Ok(v) && v@ == data@,
    {
        Ok(copy_bytes(data))
    }
}

} // verus!
