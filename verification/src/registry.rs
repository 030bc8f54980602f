//! The device registry: the five configured ADC device paths and the
//! fail-fast startup rule. Opening is all-or-nothing — if any one of the
//! five paths could not be opened, the system never reaches a steady
//! polling state, and no partial device set operates. The handles
//! themselves, and the serialized bus transactions on them, live in the
//! unverified shell; the registry fixes which paths there are and when
//! startup may proceed.

use vstd::prelude::*;
use crate::{NUM_DEVICES, CHANNELS_PER_DEVICE};
use crate::errors::DeviceOpenError;

verus! {

/// The registry of configured devices. Its view is the sequence of device
/// paths, in device-index order.
pub struct DeviceRegistry {
    paths: Vec<String>,
}

impl View for DeviceRegistry {
    type V = Seq<Seq<char>>;

    closed spec fn view(&self) -> Seq<Seq<char>> {
        Seq::new(self.paths@.len(), |i: int| self.paths@[i]@)
    }
}

impl DeviceRegistry {
    /// Exactly the five configured devices, each under its own path.
    pub open spec fn wf(&self) -> bool {
        &&& self@.len() == NUM_DEVICES
        &&& forall|i: int, j: int|
            #![trigger self@[i], self@[j]]
            0 <= i < self@.len() && 0 <= j < self@.len() && i != j ==> self@[i] != self@[j]
    }

    /// Admit the opened devices, all five or none: given which of the five
    /// distinct paths could be opened, either every one was and the
    /// registry stands, or the first failure is fatal and nothing operates.
    pub fn open(paths: Vec<String>, opened: &Vec<bool>) -> (r: Result<
        DeviceRegistry,
        DeviceOpenError,
    >)
        requires
            paths@.len() == NUM_DEVICES,
            opened@.len() == NUM_DEVICES,
            forall|i: int, j: int|
                #![trigger paths@[i], paths@[j]]
                0 <= i < paths@.len() && 0 <= j < paths@.len() && i != j ==> paths@[i]@
                    != paths@[j]@,
        ensures
            r is Ok <==> (forall|i: int| 0 <= i < NUM_DEVICES ==> opened@[i]),
            r matches Ok(reg) ==> reg.wf() && (forall|i: int|
                0 <= i < NUM_DEVICES ==> #[trigger] reg@[i] == paths@[i]@),
            r matches Err(e) ==> e.device < NUM_DEVICES && !opened@[e.device as int] && (forall|
                j: int,
            |
                0 <= j < e.device ==> opened@[j]),
    {
        let mut i: usize = 0;
        while i < NUM_DEVICES
            invariant
                i <= NUM_DEVICES,
                opened@.len() == NUM_DEVICES,
                forall|j: int| 0 <= j < i ==> opened@[j],
            decreases NUM_DEVICES - i,
        {
            if !opened[i] {
                return Err(DeviceOpenError { device: i });
            }
            i = i + 1;
        }
        let reg = DeviceRegistry { paths };
        proof {
            assert forall|i: int, j: int|
                #![trigger reg@[i], reg@[j]]
                0 <= i < reg@.len() && 0 <= j < reg@.len() && i != j implies reg@[i]
                != reg@[j] by {
                assert(reg@[i] == paths@[i]@);
                assert(reg@[j] == paths@[j]@);
            }
        }
        Ok(reg)
    }

    /// Number of configured devices.
    pub fn device_count(&self) -> (n: usize)
        ensures
            n == self@.len(),
    {
        self.paths.len()
    }

    /// Whether a read transaction may be issued at all: the device index
    /// names one of the five devices and the channel one of its eight
    /// inputs. The shell checks this before every bus transaction.
    pub fn valid_read(&self, device: usize, channel: u8) -> (ok: bool)
        ensures
            ok <==> (device < NUM_DEVICES && channel < CHANNELS_PER_DEVICE),
    {
        device < NUM_DEVICES && channel < CHANNELS_PER_DEVICE
    }
}

} // verus!
