//! The keyboards to listen to: which input devices are keyboards, and the
//! listener that reads their events.
use vstd::prelude::*;

verus! {

/// The most events that one read from a device takes.
pub const MAX_EVENTS_PER_READ: usize = 16;

/// An input device file, such as `/dev/input/event3`.
#[derive(Debug)]
pub struct DeviceFile {
    path: String,
}

impl DeviceFile {
    pub fn new(path: String) -> (d: DeviceFile)
        ensures
            d.spec_path() == path@,
    {
        DeviceFile { path }
    }

    pub closed spec fn spec_path(&self) -> Seq<char> {
        self.path@
    }

    /// The path of the device file.
    pub fn path(&self) -> (p: &str)
        ensures
            p@ == self.spec_path(),
    {
        self.path.as_str()
    }
}

/// Something that listens to keyboards and passes their events on.
pub trait KbdEventListener {
    fn listen(&mut self);
}

/// The properties of a device that tell whether it is a keyboard: udev's
/// `ID_INPUT_KEYBOARD` and `DEVNAME`.
pub struct DeviceProperties {
    pub id_input_keyboard: Option<String>,
    pub devname: Option<String>,
}

/// The device file of a device, if it is a keyboard: a device whose
/// `ID_INPUT_KEYBOARD` is `1` and that has a `DEVNAME`.
pub open spec fn spec_keyboard_file(p: DeviceProperties) -> Option<Seq<char>> {
    match (p.id_input_keyboard, p.devname) {
        (Some(id), Some(name)) => if id@ == "1"@ {
            Some(name@)
        } else {
            None
        },
        _ => None,
    }
}

/// The device files of the keyboards among the devices, in order.
pub open spec fn spec_keyboard_files(devices: Seq<DeviceProperties>) -> Seq<Seq<char>>
    decreases devices.len(),
{
    if devices.len() == 0 {
        Seq::empty()
    } else {
        let rest = spec_keyboard_files(devices.drop_last());
        match spec_keyboard_file(devices.last()) {
            Some(f) => rest.push(f),
            None => rest,
        }
    }
}

/// Picks the keyboards among the devices that udev lists.
pub fn select_keyboard_devices(devices: &Vec<DeviceProperties>) -> (files: Vec<DeviceFile>)
    ensures
        files@.map_values(|d: DeviceFile| d.spec_path()) == spec_keyboard_files(devices@),
{
    let mut files: Vec<DeviceFile> = Vec::new();
    let mut i: usize = 0;
    while i < devices.len()
        invariant
            i <= devices@.len(),
            files@.map_values(|d: DeviceFile| d.spec_path()) == spec_keyboard_files(
                devices@.subrange(0, i as int),
            ),
        decreases devices@.len() - i,
    {
        let ghost before = files@;
        proof {
            assert(devices@.subrange(0, i + 1).drop_last() =~= devices@.subrange(0, i as int));
        }
        let dev = &devices[i];
        match (&dev.id_input_keyboard, &dev.devname) {
            (Some(id), Some(name)) => {
                if crate::text::str_eq(id.as_str(), "1") {
                    files.push(DeviceFile::new(name.clone()));
                    proof {
                        assert(files@.map_values(|d: DeviceFile| d.spec_path()) =~= before.map_values(
                            |d: DeviceFile| d.spec_path(),
                        ).push(name@));
                    }
                }
            },
            _ => {},
        }
        i = i + 1;
    }
    assert(devices@.subrange(0, i as int) =~= devices@);
    files
}

} // verus!
