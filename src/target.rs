use vstd::prelude::*;
use vstd::string::*;

verus! {

/// What the engine renders with: a GPU named by its device node, or a
/// software device.
pub enum RenderTarget {
    Hardware(String),
    Software,
}

/// The major device number of the proprietary NVIDIA driver's nodes.
pub const NVIDIA_MAJOR: u64 = 195;

/// A directory entry of `/dev`.
pub struct DevEntry {
    pub path: String,
    pub is_char_device: bool,
    pub major: u64,
}

fn str_eq(a: &str, b: &str) -> (r: bool)
    ensures
        r == (a@ == b@),
{
    let n = a.unicode_len();
    if n != b.unicode_len() {
        return false;
    }
    let mut i: usize = 0;
    while i < n
        invariant
            n == a@.len(),
            n == b@.len(),
            i <= n,
            forall|j: int| 0 <= j < i ==> a@[j] == b@[j],
        decreases n - i,
    {
        if a.get_char(i) != b.get_char(i) {
            return false;
        }
        i = i + 1;
    }
    assert(a@ =~= b@);
    true
}

pub open spec fn nvidia_nodes(entries: Seq<DevEntry>) -> Seq<Seq<char>>
    decreases entries.len(),
{
    if entries.len() == 0 {
        Seq::empty()
    } else {
        let rest = nvidia_nodes(entries.drop_last());
        let e = entries.last();
        if e.is_char_device && e.major == NVIDIA_MAJOR {
            rest.push(e.path@)
        } else {
            rest
        }
    }
}

pub open spec fn opt_path(p: Option<String>) -> Seq<Seq<char>> {
    match p {
        Some(s) => seq![s@],
        None => Seq::empty(),
    }
}

impl RenderTarget {
    /// `software` names the software device; anything else is a device path.
    pub fn from_str(s: &str) -> (r: RenderTarget)
        ensures
            s@ == "software"@ ==> r is Software,
            s@ != "software"@ ==> (r matches RenderTarget::Hardware(p) && p@ == s@),
    {
        proof {
            reveal_strlit("software");
        }
        if str_eq(s, "software") {
            RenderTarget::Software
        } else {
            RenderTarget::Hardware(String::from_str(s))
        }
    }

    /// The render target used where none is named: the first render node.
    pub fn default_target() -> (r: RenderTarget)
        ensures
            r matches RenderTarget::Hardware(p) && p@ == "/dev/dri/renderD128"@,
    {
        RenderTarget::Hardware(String::from_str("/dev/dri/renderD128"))
    }

    /// The device nodes clients need to reach the target: its primary and
    /// render nodes where they exist, and, where the GPU runs the NVIDIA driver,
    /// every character device of that driver. A software target needs none.
    pub fn as_devices(
        &self,
        primary: Option<String>,
        render: Option<String>,
        driver_is_nvidia: bool,
        dev_entries: &Vec<DevEntry>,
    ) -> (r: Vec<String>)
        ensures
            self is Software ==> r@.len() == 0,
            self is Hardware ==> r@.map_values(|s: String| s@) == opt_path(primary) + opt_path(
                render,
            ) + (if driver_is_nvidia {
                nvidia_nodes(dev_entries@)
            } else {
                Seq::empty()
            }),
    {
        let mut devices: Vec<String> = Vec::new();
        if let RenderTarget::Software = self {
            return devices;
        }
        let ghost head = opt_path(primary) + opt_path(render);
        if let Some(p) = primary {
            devices.push(p);
        }
        if let Some(p) = render {
            devices.push(p);
        }
        assert(devices@.map_values(|s: String| s@) =~= head);
        if driver_is_nvidia {
            let mut i: usize = 0;
            while i < dev_entries.len()
                invariant
                    i <= dev_entries@.len(),
                    devices@.map_values(|s: String| s@) == head + nvidia_nodes(
                        dev_entries@.take(i as int),
                    ),
                decreases dev_entries@.len() - i,
            {
                let e = &dev_entries[i];
                assert(dev_entries@.take(i + 1).drop_last() =~= dev_entries@.take(i as int));
                if e.is_char_device && e.major == NVIDIA_MAJOR {
                    let p = e.path.clone();
                    let ghost before = devices@;
                    devices.push(p);
                    assert(devices@.map_values(|s: String| s@) =~= before.map_values(
                        |s: String| s@,
                    ).push(p@));
                }
                i = i + 1;
            }
            assert(dev_entries@.take(i as int) =~= dev_entries@);
        } else {
            assert(head + Seq::<Seq<char>>::empty() =~= head);
        }
        devices
    }
}

} // verus!
