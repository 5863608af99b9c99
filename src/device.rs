//! Snapshots of the audio endpoints that can be captured in loopback.

use crate::errors::CaptureError;
use vstd::prelude::*;

verus! {

/// One render endpoint as the audio subsystem listed it.
#[derive(Debug, PartialEq, Eq)]
pub struct AudioDevice {
    /// Display name.
    pub name: String,
    /// Opaque identifier, stable for the lifetime of one snapshot.
    pub id: String,
}

impl Clone for AudioDevice {
    fn clone(&self) -> (r: Self)
        ensures
            r == *self,
    {
        AudioDevice { name: self.name.clone(), id: self.id.clone() }
    }
}

/// The endpoints of one enumeration, in the order the platform gave them.
/// The order is not stable between enumerations: look devices up by id.
pub struct DeviceCatalog {
    devices: Vec<AudioDevice>,
}

/// Position `i` is the first one in `devices` that carries `id`.
pub open spec fn is_first_index(devices: Seq<AudioDevice>, id: Seq<char>, i: int) -> bool {
    &&& 0 <= i < devices.len()
    &&& devices[i].id@ == id
    &&& forall|j: int| 0 <= j < i ==> #[trigger] devices[j].id@ != id
}

/// No device of `devices` carries `id`.
pub open spec fn absent(devices: Seq<AudioDevice>, id: Seq<char>) -> bool {
    forall|j: int| 0 <= j < devices.len() ==> #[trigger] devices[j].id@ != id
}

impl DeviceCatalog {
    /// The devices of the snapshot, in enumeration order.
    pub closed spec fn view(&self) -> Seq<AudioDevice> {
        self.devices@
    }

    /// A snapshot holding `devices` as enumerated.
    pub fn new(devices: Vec<AudioDevice>) -> (r: DeviceCatalog)
        ensures
            r.view() == devices@,
    {
        DeviceCatalog { devices }
    }

    /// The snapshot that an enumeration produced, or `EnumerationError` with
    /// the platform's message when the subsystem could not be queried.
    pub fn from_enumeration(listing: Result<Vec<AudioDevice>, String>) -> (r: Result<
        DeviceCatalog,
        CaptureError,
    >)
        ensures
            listing matches Ok(d) ==> r matches Ok(c) && c.view() == d@,
            listing matches Err(m) ==> r == Err::<DeviceCatalog, CaptureError>(
                CaptureError::EnumerationError(m),
            ),
    {
        match listing {
            Ok(d) => Ok(DeviceCatalog::new(d)),
            Err(m) => Err(CaptureError::EnumerationError(m)),
        }
    }

    /// The devices of the snapshot, in enumeration order.
    pub fn list_devices(&self) -> (r: &Vec<AudioDevice>)
        ensures
            r@ == self.view(),
    {
        &self.devices
    }

    /// Number of devices in the snapshot.
    pub fn len(&self) -> (r: usize)
        ensures
            r == self.view().len(),
    {
        self.devices.len()
    }

    /// Position of the first device whose identifier is `id`;
    /// `DeviceNotFound(id)` when the snapshot has none.
    pub fn resolve_index(&self, id: &str) -> (r: Result<usize, CaptureError>)
        ensures
            r matches Ok(i) ==> is_first_index(self.view(), id@, i as int),
            r matches Err(e) ==> (absent(self.view(), id@) && (e matches CaptureError::DeviceNotFound(m)
                && m@ == id@)),
            absent(self.view(), id@) <==> r is Err,
    {
        let key = String::from_str(id);
        let mut i: usize = 0;
        while i < self.devices.len()
            invariant
                key@ == id@,
                i <= self.devices@.len(),
                forall|j: int| 0 <= j < i ==> #[trigger] self.devices@[j].id@ != id@,
            decreases self.devices@.len() - i,
        {
            if self.devices[i].id == key {
                return Ok(i);
            }
            i = i + 1;
        }
        Err(CaptureError::DeviceNotFound(key))
    }

    /// The first device whose identifier is `id`; `DeviceNotFound(id)` when
    /// the snapshot has none.
    pub fn resolve(&self, id: &str) -> (r: Result<AudioDevice, CaptureError>)
        ensures
            r matches Ok(d) ==> exists|i: int|
                is_first_index(self.view(), id@, i) && d == self.view()[i],
            r matches Ok(d) ==> d.id@ == id@,
            r matches Err(e) ==> (absent(self.view(), id@) && (e matches CaptureError::DeviceNotFound(m)
                && m@ == id@)),
            absent(self.view(), id@) <==> r is Err,
    {
        match self.resolve_index(id) {
            Ok(i) => Ok(self.devices[i].clone()),
            Err(e) => Err(e),
        }
    }
}

} // verus!
