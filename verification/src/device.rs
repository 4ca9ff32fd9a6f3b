use vstd::prelude::*;

verus! {

/// How a backend names a device: by number or by a string of its own.
#[derive(Debug, PartialEq, Eq)]
pub enum DeviceIndex {
    Index(u32),
    Name(String),
}

/// A device as the discovery backend describes it.
#[derive(Debug, PartialEq, Eq)]
pub struct DeviceInfo {
    pub index: DeviceIndex,
    pub name: String,
    pub description: String,
    pub misc: String,
}

/// The row that a device gives in the listing, if it is named by number.
pub open spec fn row_of(device: DeviceInfo) -> Option<(u32, String, String, String)> {
    match device.index {
        DeviceIndex::Index(index) => Some((index, device.name, device.description, device.misc)),
        DeviceIndex::Name(_) => None,
    }
}

/// The listing of a sequence of devices: the rows of those that are named by
/// number, in the order of the sequence.
pub open spec fn listing(devices: Seq<DeviceInfo>) -> Seq<(u32, String, String, String)>
    decreases devices.len(),
{
    if devices.len() == 0 {
        Seq::empty()
    } else {
        let earlier = listing(devices.drop_last());
        match row_of(devices.last()) {
            Some(row) => earlier.push(row),
            None => earlier,
        }
    }
}

/// The answer of `query` to what discovery found: the listing, or the
/// backend's message where discovery failed.
pub open spec fn query_answer(found: Result<Vec<DeviceInfo>, String>) -> Result<
    Seq<(u32, String, String, String)>,
    String,
> {
    match found {
        Ok(devices) => Ok(listing(devices@)),
        Err(why) => Err(why),
    }
}

/// Lists the devices that can be opened by number as
/// `(index, name, description, metadata)`, in the order in which the
/// backend found them. Devices that the backend names otherwise are left
/// out. Where discovery failed the answer is the backend's message, and no
/// part of a list.
pub fn query(found: Result<Vec<DeviceInfo>, String>) -> (rows: Result<
    Vec<(u32, String, String, String)>,
    String,
>)
    ensures
        match rows {
            Ok(listed) => query_answer(found) == Ok::<Seq<(u32, String, String, String)>, String>(
                listed@,
            ),
            Err(why) => query_answer(found) == Err::<Seq<(u32, String, String, String)>, String>(
                why,
            ),
        },
{
    match found {
        Err(why) => Err(why),
        Ok(devices) => {
            let mut rows: Vec<(u32, String, String, String)> = Vec::new();
            let mut i: usize = 0;
            while i < devices.len()
                invariant
                    i <= devices.len(),
                    rows@ == listing(devices@.take(i as int)),
                decreases devices.len() - i,
            {
                assert(devices@.take(i + 1).drop_last() =~= devices@.take(i as int));
                let device = &devices[i];
                match &device.index {
                    DeviceIndex::Index(index) => {
                        rows.push(
                            (
                                *index,
                                device.name.clone(),
                                device.description.clone(),
                                device.misc.clone(),
                            ),
                        );
                    },
                    DeviceIndex::Name(_) => {},
                }
                i = i + 1;
            }
            assert(devices@.take(i as int) =~= devices@);
            Ok(rows)
        },
    }
}

/// Whether a device can be used, given the outcome of connecting to it with
/// no format asked for: success, or the driver's message. The probe starts
/// no stream.
pub fn check_can_use(probe: &Result<(), String>) -> (usable: bool)
    ensures
        usable == (probe is Ok),
{
    probe.is_ok()
}

} // verus!
