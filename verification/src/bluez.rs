//! Typed client surface for the Bluetooth daemon.
//!
//! Objects are discovered through the daemon's managed-object listing;
//! each surface here names the object path it is bound to.  Joining a
//! device with its optional battery interface is a decision over the
//! probe outcomes, taken verified here while the transport performs the
//! probes.

use vstd::prelude::*;

use crate::discovery::{first_with_interface, implementing_paths, object_implements,
    paths_with_interface};
use crate::fault::BusFault;
use crate::text::starts_with;

verus! {

broadcast use vstd::std_specs::vec::group_vec_axioms, vstd::seq::group_seq_axioms;

/// The input and output capability an agent registers with.
#[derive(Debug, Clone, Copy, PartialEq, Eq, Structural)]
pub enum Capability {
    DisplayOnly,
    DisplayYesNo,
    KeyboardOnly,
    NoInputNoOutput,
    KeyboardDisplay,
}

/// The wire text of a capability.
pub open spec fn capability_text(c: Capability) -> Seq<char> {
    match c {
        Capability::DisplayOnly => "DisplayOnly"@,
        Capability::DisplayYesNo => "DisplayYesNo"@,
        Capability::KeyboardOnly => "KeyboardOnly"@,
        Capability::NoInputNoOutput => "NoInputNoOutput"@,
        Capability::KeyboardDisplay => "KeyboardDisplay"@,
    }
}

impl Capability {
    /// The wire text of the capability.
    pub fn as_str(&self) -> (r: &'static str)
        ensures
            r@ == capability_text(*self),
    {
        match self {
            Capability::DisplayOnly => "DisplayOnly",
            Capability::DisplayYesNo => "DisplayYesNo",
            Capability::KeyboardOnly => "KeyboardOnly",
            Capability::NoInputNoOutput => "NoInputNoOutput",
            Capability::KeyboardDisplay => "KeyboardDisplay",
        }
    }
}

/// A bound adapter surface: the object path of one adapter.
pub struct Adapter {
    path: String,
}

impl View for Adapter {
    type V = Seq<char>;

    closed spec fn view(&self) -> Seq<char> {
        self.path@
    }
}

impl Adapter {
    /// Binds the adapter at the given object path.
    pub fn new(path: String) -> (r: Adapter)
        ensures
            r@ == path@,
    {
        Adapter { path }
    }

    /// The object path this surface is bound to.
    pub fn path(&self) -> (r: &str)
        ensures
            r@ == self@,
    {
        self.path.as_str()
    }

    /// Binds every adapter in a managed-object listing, in listing
    /// order.
    pub fn list_all_adapters(objects: &Vec<(String, Vec<String>)>) -> (r: Vec<Adapter>)
        ensures
            r.deep_view() == implementing_paths(objects.deep_view(), "org.bluez.Adapter1"@),
    {
        let paths = paths_with_interface(objects, "org.bluez.Adapter1");
        let mut out: Vec<Adapter> = Vec::new();
        let n = paths.len();
        let mut i: usize = 0;
        while i < n
            invariant
                0 <= i <= n,
                n == paths@.len(),
                paths.deep_view().len() == n,
                forall|j: int| 0 <= j < n ==> #[trigger] paths.deep_view()[j] == paths@[j]@,
                out@.len() == i,
                forall|j: int| 0 <= j < i ==> (#[trigger] out@[j])@ == paths@[j]@,
            decreases n - i,
        {
            out.push(Adapter { path: paths[i].clone() });
            i = i + 1;
        }
        proof {
            assert(out.deep_view() =~= paths.deep_view());
        }
        out
    }

    /// Binds the first adapter in a managed-object listing, if one is
    /// present.
    pub fn auto(objects: &Vec<(String, Vec<String>)>) -> (r: Option<Adapter>)
        ensures
            match r {
                Some(a) => exists|i: int|
                    0 <= i < objects.deep_view().len() && object_implements(
                        #[trigger] objects.deep_view()[i],
                        "org.bluez.Adapter1"@,
                    ) && a@ == objects.deep_view()[i].0,
                None => forall|i: int|
                    0 <= i < objects.deep_view().len() ==> !object_implements(
                        #[trigger] objects.deep_view()[i],
                        "org.bluez.Adapter1"@,
                    ),
            },
    {
        match first_with_interface(objects, "org.bluez.Adapter1") {
            Some(path) => Some(Adapter { path }),
            None => None,
        }
    }
}

impl DeepView for Adapter {
    type V = Seq<char>;

    open spec fn deep_view(&self) -> Seq<char> {
        self@
    }
}

/// A bound device surface: the object path of one remote device.
pub struct Device {
    path: String,
}

impl View for Device {
    type V = Seq<char>;

    closed spec fn view(&self) -> Seq<char> {
        self.path@
    }
}

impl DeepView for Device {
    type V = Seq<char>;

    open spec fn deep_view(&self) -> Seq<char> {
        self@
    }
}

impl Device {
    /// Binds the device at the given object path.
    pub fn new(path: String) -> (r: Device)
        ensures
            r@ == path@,
    {
        Device { path }
    }

    /// The object path this surface is bound to.
    pub fn path(&self) -> (r: &str)
        ensures
            r@ == self@,
    {
        self.path.as_str()
    }

    /// Binds every remote device in a managed-object listing, in listing
    /// order.
    pub fn list_all_devices(objects: &Vec<(String, Vec<String>)>) -> (r: Vec<Device>)
        ensures
            r.deep_view() == implementing_paths(objects.deep_view(), "org.bluez.Device1"@),
    {
        let paths = paths_with_interface(objects, "org.bluez.Device1");
        let mut out: Vec<Device> = Vec::new();
        let n = paths.len();
        let mut i: usize = 0;
        while i < n
            invariant
                0 <= i <= n,
                n == paths@.len(),
                paths.deep_view().len() == n,
                forall|j: int| 0 <= j < n ==> #[trigger] paths.deep_view()[j] == paths@[j]@,
                out@.len() == i,
                forall|j: int| 0 <= j < i ==> (#[trigger] out@[j])@ == paths@[j]@,
            decreases n - i,
        {
            out.push(Device { path: paths[i].clone() });
            i = i + 1;
        }
        proof {
            assert(out.deep_view() =~= paths.deep_view());
        }
        out
    }
}

/// Whether `path` lies under the adapter at `adapter`, that is, begins
/// with the adapter path followed by a separator.
pub open spec fn under_adapter(path: Seq<char>, adapter: Option<Seq<char>>) -> bool {
    match adapter {
        Some(a) => (a + seq!['/']).is_prefix_of(path),
        None => true,
    }
}

/// The device paths of a managed-object listing, kept to one adapter's
/// subtree when an adapter path is given.
pub open spec fn device_paths_under(
    objs: Seq<(Seq<char>, Seq<Seq<char>>)>,
    adapter: Option<Seq<char>>,
) -> Seq<Seq<char>>
    decreases objs.len(),
{
    if objs.len() == 0 {
        Seq::empty()
    } else {
        let rest = device_paths_under(objs.drop_last(), adapter);
        if object_implements(objs.last(), "org.bluez.Device1"@) && under_adapter(
            objs.last().0,
            adapter,
        ) {
            rest.push(objs.last().0)
        } else {
            rest
        }
    }
}

/// The paths of the remote devices in a managed-object listing, kept to
/// one adapter's subtree when an adapter path is given.
pub fn device_paths(objects: &Vec<(String, Vec<String>)>, adapter: Option<&str>) -> (r: Vec<
    String,
>)
    ensures
        r.deep_view() == device_paths_under(
            objects.deep_view(),
            match adapter {
                Some(a) => Some(a@),
                None => None,
            },
        ),
{
    let ghost dv = objects.deep_view();
    let ghost ad = match adapter {
        Some(a) => Some(a@),
        None => None,
    };
    let mut out: Vec<String> = Vec::new();
    let n = objects.len();
    let mut i: usize = 0;
    proof {
        assert(dv.take(0) =~= Seq::<(Seq<char>, Seq<Seq<char>>)>::empty());
    }
    while i < n
        invariant
            0 <= i <= n,
            n == objects@.len(),
            dv == objects.deep_view(),
            dv.len() == n,
            ad == match adapter {
                Some(a) => Some(a@),
                None => None,
            },
            forall|j: int| 0 <= j < n ==> #[trigger] dv[j] == (objects@[j].0@,
                objects@[j].1.deep_view()),
            out.deep_view() =~= device_paths_under(dv.take(i as int), ad),
        decreases n - i,
    {
        let ghost pre = dv.take(i as int);
        let ghost post = dv.take(i as int + 1);
        proof {
            assert(post =~= pre.push(dv[i as int]));
            assert(post.drop_last() =~= pre);
            assert(post.last() == dv[i as int]);
            assert(dv[i as int] == (objects@[i as int].0@, objects@[i as int].1.deep_view()));
        }
        let implements = crate::discovery::interfaces_contain(&objects[i].1, "org.bluez.Device1");
        let under = match adapter {
            Some(a) => {
                let path = objects[i].0.as_str();
                let ghost pv = objects@[i as int].0@;
                let al = a.unicode_len();
                let keep = starts_with(path, a) && path.unicode_len() > al && path.get_char(al)
                    == '/';
                proof {
                    let sep = a@ + seq!['/'];
                    if keep {
                        assert(sep.is_prefix_of(pv)) by {
                            assert(pv.subrange(0, a@.len() as int) =~= a@);
                            assert(sep =~= pv.subrange(0, a@.len() as int + 1));
                        }
                    } else {
                        assert(!sep.is_prefix_of(pv)) by {
                            if sep.is_prefix_of(pv) {
                                assert(pv.subrange(0, a@.len() as int) =~= a@);
                                assert(pv[a@.len() as int] == sep[a@.len() as int]);
                            }
                        }
                    }
                }
                keep
            }
            None => true,
        };
        proof {
            assert(under == under_adapter(dv[i as int].0, ad));
            assert(implements == object_implements(dv[i as int], "org.bluez.Device1"@));
        }
        if implements && under {
            let ghost before = out.deep_view();
            out.push(objects[i].0.clone());
            proof {
                assert(out.deep_view() =~= before.push(objects@[i as int].0@));
            }
        }
        i = i + 1;
    }
    proof {
        assert(dv.take(n as int) =~= dv);
    }
    out
}

/// The outcome of probing a device's battery interface.
pub enum BatteryProbe {
    /// The interface was bound and answered a charge reading.
    Answering,
    /// The interface was bound but did not answer a charge reading.
    Unresponsive,
    /// The remote object does not carry the battery interface.
    Missing,
    /// Binding the interface failed with a connection fault.
    Failed(BusFault),
}

/// A remote device joined with its optional battery interface.
pub struct BluetoothDevice {
    path: String,
    has_battery: bool,
}

impl View for BluetoothDevice {
    type V = (Seq<char>, bool);

    closed spec fn view(&self) -> (Seq<char>, bool) {
        (self.path@, self.has_battery)
    }
}

/// What joining a device with its battery probe yields: a device bind
/// fault is fatal; a missing or unresponsive battery interface leaves the
/// device without one; any other battery fault is fatal.
pub open spec fn joined_device(
    path: Seq<char>,
    device: Result<(), BusFault>,
    battery: BatteryProbe,
) -> Result<(Seq<char>, bool), BusFault> {
    match device {
        Err(w) => Err(w),
        Ok(_) => match battery {
            BatteryProbe::Answering => Ok((path, true)),
            BatteryProbe::Unresponsive => Ok((path, false)),
            BatteryProbe::Missing => Ok((path, false)),
            BatteryProbe::Failed(w) => Err(w),
        },
    }
}

impl BluetoothDevice {
    /// Joins a device bind outcome with its battery probe.
    pub fn new(path: String, device: Result<(), BusFault>, battery: BatteryProbe) -> (r: Result<
        BluetoothDevice,
        BusFault,
    >)
        ensures
            match r {
                Ok(d) => joined_device(path@, device, battery) == Ok::<(Seq<char>, bool),
                    BusFault>(d@),
                Err(e) => joined_device(path@, device, battery) == Err::<(Seq<char>, bool),
                    BusFault>(e),
            },
    {
        match device {
            Err(w) => Err(w),
            Ok(_) => match battery {
                BatteryProbe::Answering => Ok(BluetoothDevice { path, has_battery: true }),
                BatteryProbe::Unresponsive => Ok(BluetoothDevice { path, has_battery: false }),
                BatteryProbe::Missing => Ok(BluetoothDevice { path, has_battery: false }),
                BatteryProbe::Failed(w) => Err(w),
            },
        }
    }

    /// The object path of the device.
    pub fn path(&self) -> (r: &str)
        ensures
            r@ == self@.0,
    {
        self.path.as_str()
    }

    /// Whether the device carries an answering battery interface.
    pub fn has_battery(&self) -> (r: bool)
        ensures
            r == self@.1,
    {
        self.has_battery
    }

    /// The device's icon name from a property reading, with a fixed
    /// fallback when the reading failed.
    pub fn icon(&self, fetched: Result<String, BusFault>) -> (r: String)
        ensures
            match fetched {
                Ok(s) => r@ == s@,
                Err(_) => r@ == "unknown"@,
            },
    {
        match fetched {
            Ok(s) => s,
            Err(_) => "unknown".to_owned(),
        }
    }
}

/// The agent-manager surface of the daemon, at its fixed object path.
pub struct AgentManager {}

impl AgentManager {
    /// Binds the daemon's agent-manager surface.
    pub fn new() -> (r: AgentManager) {
        AgentManager {}
    }
}

/// The media surface of an adapter.
pub struct Media {}

impl Media {
    /// Binds the media surface.
    pub fn new() -> (r: Media) {
        Media {}
    }
}

/// The network-server surface of an adapter.
pub struct NetworkServer {}

impl NetworkServer {
    /// Binds the network-server surface.
    pub fn new() -> (r: NetworkServer) {
        NetworkServer {}
    }
}

/// The profile-manager surface of the daemon, at its fixed object path.
pub struct ProfileManager {}

impl ProfileManager {
    /// Binds the daemon's profile-manager surface.
    pub fn new() -> (r: ProfileManager) {
        ProfileManager {}
    }
}

} // verus!
