//! Device context: selection of a physical device and of a queue family
//! that supports graphics work and can present to the surface.
//!
//! The platform layer enumerates the installed devices and reports, per
//! queue family, the two capabilities this choice depends on; the selection
//! itself is decided and proved here.

use vstd::prelude::*;

verus! {

/// What the platform reports about one queue family of a device.
#[derive(Clone, Copy, Debug)]
pub struct QueueFamilyDesc {
    /// The family accepts graphics command buffers.
    pub supports_graphics: bool,
    /// The family can present to the window's surface.
    pub supports_present: bool,
}

/// What the platform reports about one physical device.
pub struct PhysicalDeviceDesc {
    pub queue_families: Vec<QueueFamilyDesc>,
}

/// The selection the renderer runs on: indices into the platform's
/// enumeration of devices and of the chosen device's queue families.
#[derive(Clone, Copy, Debug, PartialEq, Eq, Structural)]
pub struct DeviceContext {
    pub device_index: usize,
    pub queue_family_index: usize,
}

/// Startup failures; both abort initialization.
#[derive(Clone, Copy, Debug, PartialEq, Eq, Structural)]
pub enum SetupError {
    /// The platform enumerated no device at all.
    NoDeviceAvailable,
    /// No enumerated device has a queue family that both supports graphics
    /// and can present to the surface.
    NoGraphicsQueueAvailable,
}

/// A queue family fit for the renderer: graphics work plus presentation.
pub open spec fn family_suitable(f: QueueFamilyDesc) -> bool {
    f.supports_graphics && f.supports_present
}

/// A device is usable when one of its queue families is suitable.
pub open spec fn device_suitable(d: PhysicalDeviceDesc) -> bool {
    exists|i: int| 0 <= i < d.queue_families.len() && family_suitable(d.queue_families[i])
}

/// Index of the first suitable queue family of a device.
pub open spec fn first_suitable_family(d: PhysicalDeviceDesc, i: int) -> bool {
    &&& 0 <= i < d.queue_families.len()
    &&& family_suitable(d.queue_families[i])
    &&& forall|j: int| 0 <= j < i ==> !family_suitable(d.queue_families[j])
}

/// Picks the first suitable queue family of a device, if any.
fn find_suitable_family(d: &PhysicalDeviceDesc) -> (r: Option<usize>)
    ensures
        match r {
            Some(i) => first_suitable_family(*d, i as int),
            None => !device_suitable(*d),
        },
{
    let mut i: usize = 0;
    while i < d.queue_families.len()
        invariant
            0 <= i <= d.queue_families.len(),
            forall|j: int| 0 <= j < i ==> !family_suitable(d.queue_families[j]),
        decreases d.queue_families.len() - i,
    {
        let f = d.queue_families[i];
        if f.supports_graphics && f.supports_present {
            return Some(i);
        }
        i = i + 1;
    }
    None
}

/// Selects the first enumerated device that exposes a queue family
/// supporting graphics operations and presentation to the surface, and the
/// first such family on it. With no device enumerated the setup fails with
/// `NoDeviceAvailable`; with devices but no suitable queue family anywhere,
/// with `NoGraphicsQueueAvailable`.
pub fn initialize(devices: &Vec<PhysicalDeviceDesc>) -> (r: Result<DeviceContext, SetupError>)
    ensures
        devices@.len() == 0 ==> r == Err::<DeviceContext, SetupError>(SetupError::NoDeviceAvailable),
        devices@.len() > 0 && (forall|d: int|
            0 <= d < devices@.len() ==> !device_suitable(devices@[d])) ==> r == Err::<
            DeviceContext,
            SetupError,
        >(SetupError::NoGraphicsQueueAvailable),
        (exists|d: int| 0 <= d < devices@.len() && device_suitable(devices@[d])) ==> {
            &&& r matches Ok(ctx)
            &&& 0 <= ctx.device_index < devices@.len()
            &&& device_suitable(devices@[ctx.device_index as int])
            &&& forall|d: int| 0 <= d < ctx.device_index ==> !device_suitable(devices@[d])
            &&& first_suitable_family(
                devices@[ctx.device_index as int],
                ctx.queue_family_index as int,
            )
        },
{
    if devices.len() == 0 {
        return Err(SetupError::NoDeviceAvailable);
    }
    let mut d: usize = 0;
    while d < devices.len()
        invariant
            0 <= d <= devices@.len(),
            forall|k: int| 0 <= k < d ==> !device_suitable(devices@[k]),
        decreases devices@.len() - d,
    {
        match find_suitable_family(&devices[d]) {
            Some(q) => {
                return Ok(DeviceContext { device_index: d, queue_family_index: q });
            },
            None => {
                d = d + 1;
            },
        }
    }
    Err(SetupError::NoGraphicsQueueAvailable)
}

} // verus!
