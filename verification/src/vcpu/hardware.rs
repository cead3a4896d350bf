//! The hardware bus: the ordered registry of attached devices.

use crate::vcpu::machine::Device;
use vstd::prelude::*;

verus! {

/// The devices attached to a processor, in the order of their hardware
/// numbers. At most 65,535 devices fit, so that their count is a word.
pub struct HardwareRegistry {
    devices: Vec<Device>,
}

impl View for HardwareRegistry {
    type V = Seq<Device>;

    closed spec fn view(&self) -> Seq<Device> {
        self.devices@
    }
}

impl HardwareRegistry {
    /// The registry never holds more than 65,535 devices.
    #[verifier::type_invariant]
    pub closed spec fn bounded(self) -> bool {
        self.devices@.len() <= 65535
    }

    /// What the invariant of the type says of the view.
    pub proof fn lemma_bounded(self)
        requires
            self.bounded(),
        ensures
            self@.len() <= 65535,
    {
    }

    /// A bus with nothing attached.
    pub fn new() -> (registry: HardwareRegistry)
        ensures
            registry@ == Seq::<Device>::empty(),
    {
        HardwareRegistry { devices: Vec::new() }
    }

    /// The number of attached devices.
    pub fn count(&self) -> (n: u16)
        ensures
            n == self@.len(),
    {
        proof {
            use_type_invariant(self);
        }
        self.devices.len() as u16
    }

    /// The device with hardware number `index`, if there is one.
    pub fn get(&self, index: u16) -> (device: Option<Device>)
        ensures
            index < self@.len() ==> device == Some(self@[index as int]),
            index >= self@.len() ==> device.is_none(),
    {
        if (index as usize) < self.devices.len() {
            Some(self.devices[index as usize])
        } else {
            None
        }
    }

    /// Attaches a device behind those already there and returns its hardware
    /// number. A full bus takes no more: it stays as it was.
    pub fn attach(&mut self, device: Device) -> (index: Option<u16>)
        ensures
            old(self)@.len() < 65535 ==> index == Some(old(self)@.len() as u16) && final(self)@
                == old(self)@.push(device),
            old(self)@.len() >= 65535 ==> index.is_none() && final(self)@ == old(self)@,
    {
        proof {
            use_type_invariant(&*self);
        }
        let n: usize = self.devices.len();
        if n >= 65535 {
            None
        } else {
            let mut devices: Vec<Device> = Vec::new();
            std::mem::swap(&mut devices, &mut self.devices);
            devices.push(device);
            self.devices = devices;
            Some(n as u16)
        }
    }

    /// Detaches the device with hardware number `index` and returns it; the
    /// devices behind it move down by one. Without such a device nothing
    /// changes.
    pub fn detach(&mut self, index: u16) -> (device: Option<Device>)
        ensures
            index < old(self)@.len() ==> device == Some(old(self)@[index as int]) && final(self)@
                == old(self)@.remove(index as int),
            index >= old(self)@.len() ==> device.is_none() && final(self)@ == old(self)@,
    {
        proof {
            use_type_invariant(&*self);
        }
        if (index as usize) < self.devices.len() {
            let mut devices: Vec<Device> = Vec::new();
            std::mem::swap(&mut devices, &mut self.devices);
            let device: Device = devices.remove(index as usize);
            self.devices = devices;
            Some(device)
        } else {
            None
        }
    }
}

} // verus!
