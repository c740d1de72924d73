//! Changes to the devices of a snapshot before it is restored.

use super::error::SnapshotStateFromFileError;
use super::state::{DevicesState, FsDeviceState, MmioState, NetDeviceState, PciState, VsockDeviceState};
use crate::vmm_config::{FsOverride, LoadSnapshotParams, NetworkOverride, VsockOverride};
use vstd::prelude::*;

verus! {

/// Interface and host device of each network device.
pub open spec fn net_view(devices: Seq<NetDeviceState>) -> Seq<(Seq<char>, Seq<char>)> {
    devices.map_values(|d: NetDeviceState| (d.id@, d.tap_if_name@))
}

/// Interface and host device of each network device of a microVM: those on the MMIO bus come first.
pub open spec fn all_net(devices: DevicesState) -> Seq<(Seq<char>, Seq<char>)> {
    net_view(devices.mmio_state.net_devices@) + net_view(devices.pci_state.net_devices@)
}

/// Whether some network device is the given interface.
pub open spec fn knows_iface(nets: Seq<(Seq<char>, Seq<char>)>, iface: Seq<char>) -> bool {
    exists|i: int| 0 <= i < nets.len() && (#[trigger] nets[i]).0 == iface
}

/// Whether a network device is the first that is the given interface.
pub open spec fn is_iface(
    nets: Seq<(Seq<char>, Seq<char>)>,
    iface: Seq<char>,
    at: int,
) -> bool {
    &&& 0 <= at < nets.len()
    &&& nets[at].0 == iface
    &&& forall|j: int| 0 <= j < at ==> (#[trigger] nets[j]).0 != iface
}

/// The network devices with a new host device for the first that is the given interface.
pub open spec fn rewired(
    nets: Seq<(Seq<char>, Seq<char>)>,
    iface: Seq<char>,
    host_dev: Seq<char>,
) -> Seq<(Seq<char>, Seq<char>)> {
    Seq::new(
        nets.len(),
        |i: int|
            if is_iface(nets, iface, i) {
                (iface, host_dev)
            } else {
                nets[i]
            },
    )
}

/// The network devices after a list of overrides, one after the other.
pub open spec fn rewired_by(
    nets: Seq<(Seq<char>, Seq<char>)>,
    overrides: Seq<NetworkOverride>,
) -> Seq<(Seq<char>, Seq<char>)>
    decreases overrides.len(),
{
    if overrides.len() == 0 {
        nets
    } else {
        rewired(
            rewired_by(nets, overrides.drop_last()),
            overrides.last().iface_id@,
            overrides.last().host_dev_name@,
        )
    }
}

/// Whether every override names a network device of the microVM.
pub open spec fn all_ifaces_known(
    nets: Seq<(Seq<char>, Seq<char>)>,
    overrides: Seq<NetworkOverride>,
) -> bool {
    forall|k: int|
        0 <= k < overrides.len() ==> knows_iface(nets, (#[trigger] overrides[k]).iface_id@)
}

/// Whether two states of the devices differ in their network devices alone, and have as many of
/// them on each bus.
pub open spec fn same_but_net(a: DevicesState, b: DevicesState) -> bool {
    &&& a.mmio_state.vsock_device == b.mmio_state.vsock_device
    &&& a.mmio_state.fs_device == b.mmio_state.fs_device
    &&& a.pci_state.vsock_device == b.pci_state.vsock_device
    &&& a.bytes == b.bytes
    &&& a.mmio_state.net_devices@.len() == b.mmio_state.net_devices@.len()
    &&& a.pci_state.net_devices@.len() == b.pci_state.net_devices@.len()
}

/// Overrides change neither which network devices there are nor which interfaces they are.
pub proof fn law_overrides_keep_interfaces(
    nets: Seq<(Seq<char>, Seq<char>)>,
    overrides: Seq<NetworkOverride>,
)
    ensures
        rewired_by(nets, overrides).len() == nets.len(),
        forall|i: int|
            0 <= i < nets.len() ==> (#[trigger] rewired_by(nets, overrides)[i]).0 == nets[i].0,
    decreases overrides.len(),
{
    if overrides.len() > 0 {
        law_overrides_keep_interfaces(nets, overrides.drop_last());
    }
}

proof fn lemma_rewiring_keeps_known(
    nets: Seq<(Seq<char>, Seq<char>)>,
    overrides: Seq<NetworkOverride>,
    iface: Seq<char>,
)
    ensures
        knows_iface(rewired_by(nets, overrides), iface) <==> knows_iface(nets, iface),
        forall|i: int|
            is_iface(rewired_by(nets, overrides), iface, i) <==> is_iface(nets, iface, i),
{
    let after = rewired_by(nets, overrides);
    law_overrides_keep_interfaces(nets, overrides);
    if knows_iface(after, iface) {
        let i = choose|i: int| 0 <= i < after.len() && (#[trigger] after[i]).0 == iface;
        assert(nets[i].0 == iface);
    }
    if knows_iface(nets, iface) {
        let i = choose|i: int| 0 <= i < nets.len() && (#[trigger] nets[i]).0 == iface;
        assert(after[i].0 == iface);
    }
    assert forall|i: int| is_iface(after, iface, i) <==> is_iface(nets, iface, i) by {
        if is_iface(after, iface, i) {
            assert(after[i].0 == nets[i].0);
            assert forall|j: int| 0 <= j < i implies (#[trigger] nets[j]).0 != iface by {
                assert(after[j].0 == nets[j].0);
            }
        }
        if is_iface(nets, iface, i) {
            assert(after[i].0 == nets[i].0);
            assert forall|j: int| 0 <= j < i implies (#[trigger] after[j]).0 != iface by {
                assert(after[j].0 == nets[j].0);
            }
        }
    }
}

/// Looks for the first network device that is the given interface.
fn find_iface(devices: &Vec<NetDeviceState>, iface: &String) -> (found: Option<usize>)
    ensures
        match found {
            Some(at) => is_iface(net_view(devices@), iface@, at as int),
            None => !knows_iface(net_view(devices@), iface@),
        },
{
    let mut at: usize = 0;
    while at < devices.len()
        invariant
            at <= devices@.len(),
            forall|j: int| 0 <= j < at ==> (#[trigger] net_view(devices@)[j]).0 != iface@,
        decreases devices@.len() - at,
    {
        assert(net_view(devices@)[at as int].0 == devices@[at as int].id@);
        if devices[at].id == *iface {
            return Some(at);
        }
        at = at + 1;
    }
    None
}

/// Gives a network device a new host device.
fn set_host_dev(devices: &mut Vec<NetDeviceState>, at: usize, host_dev: &String)
    requires
        at < old(devices)@.len(),
    ensures
        net_view(final(devices)@) == net_view(old(devices)@).update(
            at as int,
            (net_view(old(devices)@)[at as int].0, host_dev@),
        ),
{
    let ghost before = devices@;
    devices[at].tap_if_name = host_dev.clone();
    assert(net_view(devices@) =~= net_view(before).update(
        at as int,
        (net_view(before)[at as int].0, host_dev@),
    ));
}

/// Applies one network override, if it names a network device of the microVM.
fn rewire(devices: &mut DevicesState, entry: &NetworkOverride) -> (found: bool)
    ensures
        found == knows_iface(all_net(*old(devices)), entry.iface_id@),
        same_but_net(*old(devices), *final(devices)),
        found ==> all_net(*final(devices)) == rewired(
            all_net(*old(devices)),
            entry.iface_id@,
            entry.host_dev_name@,
        ),
{
    let ghost mmio = net_view(devices.mmio_state.net_devices@);
    let ghost pci = net_view(devices.pci_state.net_devices@);
    let ghost nets = all_net(*devices);
    let ghost iface = entry.iface_id@;
    let ghost after = rewired(nets, iface, entry.host_dev_name@);
    if let Some(at) = find_iface(&devices.mmio_state.net_devices, &entry.iface_id) {
        set_host_dev(&mut devices.mmio_state.net_devices, at, &entry.host_dev_name);
        proof {
            assert(nets[at as int] == mmio[at as int]);
            assert forall|j: int| 0 <= j < at implies (#[trigger] nets[j]).0 != iface by {
                assert(nets[j] == mmio[j]);
            }
            assert(is_iface(nets, iface, at as int));
            assert(all_net(*devices) =~= after);
        }
        return true;
    }
    if let Some(at) = find_iface(&devices.pci_state.net_devices, &entry.iface_id) {
        set_host_dev(&mut devices.pci_state.net_devices, at, &entry.host_dev_name);
        proof {
            let shift = mmio.len() as int;
            assert(nets[shift + at] == pci[at as int]);
            assert forall|j: int| 0 <= j < shift + at implies (#[trigger] nets[j]).0 != iface by {
                if j < shift {
                    assert(nets[j] == mmio[j]);
                } else {
                    assert(nets[j] == pci[j - shift]);
                }
            }
            assert(is_iface(nets, iface, shift + at));
            assert(all_net(*devices) =~= after);
        }
        return true;
    }
    proof {
        if knows_iface(nets, iface) {
            let i = choose|i: int| 0 <= i < nets.len() && (#[trigger] nets[i]).0 == iface;
            if i < mmio.len() {
                assert(mmio[i].0 == iface);
            } else {
                assert(pci[i - mmio.len()].0 == iface);
            }
        }
    }
    false
}

/// Gives network interfaces new host devices, one override after the other.
///
/// Fails when an override names no network device.
pub fn apply_network_overrides(devices: DevicesState, overrides: &Vec<NetworkOverride>) -> (r: Result<
    DevicesState,
    SnapshotStateFromFileError,
>)
    ensures
        r is Ok <==> all_ifaces_known(all_net(devices), overrides@),
        r matches Ok(after) ==> same_but_net(devices, after) && all_net(after) == rewired_by(
            all_net(devices),
            overrides@,
        ),
        r matches Err(e) ==> e == SnapshotStateFromFileError::UnknownNetworkDevice,
        r matches Ok(after) ==> {
            &&& network_overridden(devices, overrides@, after)
            &&& after.mmio_state.vsock_device == devices.mmio_state.vsock_device
            &&& after.mmio_state.fs_device == devices.mmio_state.fs_device
            &&& after.pci_state.vsock_device == devices.pci_state.vsock_device
            &&& after.bytes == devices.bytes
        },
        r is Ok <==> forall|k: int|
            0 <= k < overrides@.len() ==> {
                ||| is_on_mmio(devices, (#[trigger] overrides@[k]).iface_id@)
                ||| is_on_pci(devices, overrides@[k].iface_id@)
            },
{
    proof {
        law_network_overrides_name_devices(devices, overrides@);
    }
    let mut after = devices;
    let mut at: usize = 0;
    assert(overrides@.take(0) =~= Seq::empty());
    while at < overrides.len()
        invariant
            at <= overrides@.len(),
            same_but_net(devices, after),
            all_net(after) == rewired_by(all_net(devices), overrides@.take(at as int)),
            forall|k: int|
                0 <= k < at ==> knows_iface(all_net(devices), (#[trigger] overrides@[k]).iface_id@),
        decreases overrides@.len() - at,
    {
        let entry = &overrides[at];
        proof {
            lemma_rewiring_keeps_known(
                all_net(devices),
                overrides@.take(at as int),
                entry.iface_id@,
            );
            assert(overrides@.take(at + 1).drop_last() =~= overrides@.take(at as int));
            assert(overrides@.take(at + 1).last() == *entry);
        }
        let found = rewire(&mut after, entry);
        if !found {
            proof {
                lemma_known_on_a_bus(devices, overrides@[at as int].iface_id@);
                assert(!knows_iface(all_net(devices), overrides@[at as int].iface_id@));
            }
            return Err(SnapshotStateFromFileError::UnknownNetworkDevice);
        }
        at = at + 1;
    }
    assert(overrides@.take(at as int) =~= overrides@);
    proof {
        law_network_devices_after_overrides(devices, overrides@, after);
    }
    Ok(after)
}

/// Whether a microVM has a vsock device.
pub open spec fn has_vsock(devices: DevicesState) -> bool {
    devices.mmio_state.vsock_device is Some || devices.pci_state.vsock_device is Some
}

/// The devices with a new path for the vsock device: the one on the MMIO bus, or else the one on
/// the PCI bus.
pub open spec fn with_vsock_path(devices: DevicesState, uds_path: String) -> DevicesState {
    if devices.mmio_state.vsock_device is Some {
        DevicesState {
            mmio_state: MmioState {
                vsock_device: Some(VsockDeviceState { uds_path }),
                ..devices.mmio_state
            },
            ..devices
        }
    } else {
        DevicesState {
            pci_state: PciState {
                vsock_device: Some(VsockDeviceState { uds_path }),
                ..devices.pci_state
            },
            ..devices
        }
    }
}

/// Gives the vsock device a new path.
///
/// Fails when there is no vsock device.
pub fn apply_vsock_override(devices: DevicesState, vsock_override: &VsockOverride) -> (r: Result<
    DevicesState,
    SnapshotStateFromFileError,
>)
    ensures
        r is Ok <==> has_vsock(devices),
        r matches Ok(after) ==> after == with_vsock_path(devices, vsock_override.uds_path),
        r is Ok <==> devices.mmio_state.vsock_device is Some || devices.pci_state.vsock_device is Some,
        r matches Ok(after) ==> {
            &&& after.mmio_state.vsock_device is Some <==> devices.mmio_state.vsock_device is Some
            &&& after.pci_state.vsock_device is Some <==> devices.pci_state.vsock_device is Some
            &&& devices.mmio_state.vsock_device is Some ==> after.mmio_state.vsock_device->0.uds_path
                == vsock_override.uds_path && after.pci_state.vsock_device
                == devices.pci_state.vsock_device
            &&& devices.mmio_state.vsock_device is None ==> after.pci_state.vsock_device->0.uds_path
                == vsock_override.uds_path
        },
        r matches Err(e) ==> e == SnapshotStateFromFileError::UnknownVsockDevice,
{
    let mut after = devices;
    if after.mmio_state.vsock_device.is_some() {
        after.mmio_state.vsock_device =
        Some(VsockDeviceState { uds_path: vsock_override.uds_path.clone() });
        Ok(after)
    } else if after.pci_state.vsock_device.is_some() {
        after.pci_state.vsock_device =
        Some(VsockDeviceState { uds_path: vsock_override.uds_path.clone() });
        Ok(after)
    } else {
        Err(SnapshotStateFromFileError::UnknownVsockDevice)
    }
}

/// What is wrong with the virtio-fs override, if anything: a virtio-fs device has to be overridden,
/// by its name, and nothing else can be.
pub open spec fn fs_fault(
    device: Option<FsDeviceState>,
    fs_override: Option<FsOverride>,
) -> Option<SnapshotStateFromFileError> {
    match (device, fs_override) {
        (Some(device), Some(entry)) => if device.device_id@ == entry.fs_id@ {
            None
        } else {
            Some(SnapshotStateFromFileError::UnknownFsDevice)
        },
        (None, Some(_)) => Some(SnapshotStateFromFileError::UnknownFsDevice),
        (Some(_), None) => Some(SnapshotStateFromFileError::MissingFsOverride),
        (None, None) => None,
    }
}

/// The devices with a new backend for the virtio-fs device, if there is one.
pub open spec fn with_fs_backend(devices: DevicesState, fs_override: Option<FsOverride>) -> DevicesState {
    match (devices.mmio_state.fs_device, fs_override) {
        (Some(device), Some(entry)) => DevicesState {
            mmio_state: MmioState {
                fs_device: Some(
                    FsDeviceState {
                        socket_path: entry.socket_path,
                        backend_state_path: Some(entry.state_path),
                        ..device
                    },
                ),
                ..devices.mmio_state
            },
            ..devices
        },
        _ => devices,
    }
}

/// Gives the virtio-fs device a new backend.
///
/// Fails when the override does not name the virtio-fs device, or is missing although there is one.
pub fn apply_fs_override(devices: DevicesState, fs_override: &Option<FsOverride>) -> (r: Result<
    DevicesState,
    SnapshotStateFromFileError,
>)
    ensures
        match fs_fault(devices.mmio_state.fs_device, *fs_override) {
            None => r == Ok::<DevicesState, SnapshotStateFromFileError>(
                with_fs_backend(devices, *fs_override),
            ),
            Some(e) => r == Err::<DevicesState, SnapshotStateFromFileError>(e),
        },
{
    let mut after = devices;
    let device = after.mmio_state.fs_device.take();
    match (device, fs_override) {
        (Some(device), Some(entry)) => {
            if device.device_id != entry.fs_id {
                return Err(SnapshotStateFromFileError::UnknownFsDevice);
            }
            after.mmio_state.fs_device =
            Some(
                FsDeviceState {
                    device_id: device.device_id,
                    socket_path: entry.socket_path.clone(),
                    backend_state_path: Some(entry.state_path.clone()),
                },
            );
            Ok(after)
        },
        (None, Some(_)) => Err(SnapshotStateFromFileError::UnknownFsDevice),
        (Some(_), None) => Err(SnapshotStateFromFileError::MissingFsOverride),
        (None, None) => Ok(after),
    }
}

/// What is wrong with the overrides of a request, if anything. Network devices are looked at first,
/// the vsock device next and the virtio-fs device last.
pub open spec fn override_fault(devices: DevicesState, params: LoadSnapshotParams) -> Option<
    SnapshotStateFromFileError,
> {
    if !all_ifaces_known(all_net(devices), params.network_overrides@) {
        Some(SnapshotStateFromFileError::UnknownNetworkDevice)
    } else if params.vsock_override is Some && !has_vsock(devices) {
        Some(SnapshotStateFromFileError::UnknownVsockDevice)
    } else {
        fs_fault(devices.mmio_state.fs_device, params.fs_override)
    }
}

/// Whether `after` is what the overrides of a request make of the devices.
pub open spec fn overridden(
    before: DevicesState,
    params: LoadSnapshotParams,
    after: DevicesState,
) -> bool {
    &&& all_net(after) == rewired_by(all_net(before), params.network_overrides@)
    &&& after.mmio_state.net_devices@.len() == before.mmio_state.net_devices@.len()
    &&& after.pci_state.net_devices@.len() == before.pci_state.net_devices@.len()
    &&& after.bytes == before.bytes
    &&& after.mmio_state.fs_device == with_fs_backend(before, params.fs_override).mmio_state.fs_device
    &&& match params.vsock_override {
        Some(entry) => {
            &&& after.mmio_state.vsock_device == with_vsock_path(
                before,
                entry.uds_path,
            ).mmio_state.vsock_device
            &&& after.pci_state.vsock_device == with_vsock_path(
                before,
                entry.uds_path,
            ).pci_state.vsock_device
        },
        None => {
            &&& after.mmio_state.vsock_device == before.mmio_state.vsock_device
            &&& after.pci_state.vsock_device == before.pci_state.vsock_device
        },
    }
}

/// Applies the overrides of a request to the devices of a snapshot.
pub fn apply_overrides(devices: DevicesState, params: &LoadSnapshotParams) -> (r: Result<
    DevicesState,
    SnapshotStateFromFileError,
>)
    ensures
        match override_fault(devices, *params) {
            None => r matches Ok(after) && overridden(devices, *params, after),
            Some(e) => r == Err::<DevicesState, SnapshotStateFromFileError>(e),
        },
{
    let with_net = match apply_network_overrides(devices, &params.network_overrides) {
        Ok(with_net) => with_net,
        Err(e) => {
            return Err(e);
        },
    };
    let with_vsock = match &params.vsock_override {
        Some(entry) => match apply_vsock_override(with_net, entry) {
            Ok(with_vsock) => with_vsock,
            Err(e) => {
                return Err(e);
            },
        },
        None => with_net,
    };
    apply_fs_override(with_vsock, &params.fs_override)
}

/// Whether an override is the last that names the given interface.
pub open spec fn is_last_override(
    overrides: Seq<NetworkOverride>,
    iface: Seq<char>,
    k: int,
) -> bool {
    &&& 0 <= k < overrides.len()
    &&& overrides[k].iface_id@ == iface
    &&& forall|l: int| k < l < overrides.len() ==> (#[trigger] overrides[l]).iface_id@ != iface
}

/// The last override wins: a network device that an override can reach, being the first that is its
/// interface, ends with the host device of the last override that names its interface.
pub proof fn law_last_override_wins(
    nets: Seq<(Seq<char>, Seq<char>)>,
    overrides: Seq<NetworkOverride>,
    at: int,
    k: int,
)
    requires
        is_iface(nets, nets[at].0, at),
        is_last_override(overrides, nets[at].0, k),
    ensures
        rewired_by(nets, overrides)[at] == (nets[at].0, overrides[k].host_dev_name@),
    decreases overrides.len(),
{
    let fewer = overrides.drop_last();
    lemma_rewiring_keeps_known(nets, fewer, nets[at].0);
    lemma_rewiring_keeps_known(nets, fewer, overrides.last().iface_id@);
    law_overrides_keep_interfaces(nets, fewer);
    if k < overrides.len() - 1 {
        assert(overrides[overrides.len() - 1].iface_id@ != nets[at].0);
        assert(fewer[k] == overrides[k]);
        assert forall|l: int| k < l < fewer.len() implies (#[trigger] fewer[l]).iface_id@
            != nets[at].0 by {
            assert(fewer[l] == overrides[l]);
        }
        law_last_override_wins(nets, fewer, at, k);
    }
}

/// What no override reaches stays as it is: a network device keeps its host device when no override
/// names its interface, or when another device before it is the same interface.
pub proof fn law_other_devices_keep_their_host_device(
    nets: Seq<(Seq<char>, Seq<char>)>,
    overrides: Seq<NetworkOverride>,
    at: int,
)
    requires
        0 <= at < nets.len(),
        !is_iface(nets, nets[at].0, at) || forall|k: int|
            0 <= k < overrides.len() ==> (#[trigger] overrides[k]).iface_id@ != nets[at].0,
    ensures
        rewired_by(nets, overrides)[at] == nets[at],
    decreases overrides.len(),
{
    if overrides.len() > 0 {
        let fewer = overrides.drop_last();
        assert forall|k: int| 0 <= k < fewer.len() implies fewer[k] == #[trigger] overrides[k] by {}
        assert(forall|k: int|
            0 <= k < fewer.len() ==> (#[trigger] fewer[k]).iface_id@ == overrides[k].iface_id@);
        law_other_devices_keep_their_host_device(nets, fewer, at);
        lemma_rewiring_keeps_known(nets, fewer, nets[at].0);
        lemma_rewiring_keeps_known(nets, fewer, overrides.last().iface_id@);
        law_overrides_keep_interfaces(nets, fewer);
        assert(overrides[overrides.len() - 1] == overrides.last());
    }
}

/// A vsock override changes the path of the vsock device and nothing else: of the one on the MMIO bus
/// where there is one, and the one on the PCI bus is as before then; otherwise of the one on the PCI bus.
/// On each bus there is a vsock device afterwards exactly when there was one before.
pub proof fn law_vsock_override_changes_one_path(before: DevicesState, uds_path: String)
    requires
        has_vsock(before),
    ensures
        ({
            let after = with_vsock_path(before, uds_path);
            &&& after.mmio_state.vsock_device is Some <==> before.mmio_state.vsock_device is Some
            &&& after.pci_state.vsock_device is Some <==> before.pci_state.vsock_device is Some
            &&& before.mmio_state.vsock_device is Some ==> after.mmio_state.vsock_device->0.uds_path
                == uds_path && after.pci_state.vsock_device == before.pci_state.vsock_device
            &&& before.mmio_state.vsock_device is None ==> after.pci_state.vsock_device->0.uds_path
                == uds_path
            &&& after.mmio_state.net_devices == before.mmio_state.net_devices
            &&& after.mmio_state.fs_device == before.mmio_state.fs_device
            &&& after.pci_state.net_devices == before.pci_state.net_devices
            &&& after.bytes == before.bytes
        }),
        before.mmio_state.vsock_device is Some || before.pci_state.vsock_device is Some,
{
}

/// A microVM has a vsock device to override exactly when there is one on either bus.
pub proof fn law_vsock_is_looked_for_on_both_buses(devices: DevicesState)
    ensures
        has_vsock(devices) <==> !(devices.mmio_state.vsock_device is None
            && devices.pci_state.vsock_device is None),
{
}

/// A virtio-fs device and an override of it have to go together, by name. One without the other, or an
/// override of another name, is refused. Where they do, the device has the socket and the state of the
/// override afterwards and is the same device; nothing else changes.
pub proof fn law_fs_override_goes_with_its_device(devices: DevicesState, fs_override: Option<FsOverride>)
    ensures
        fs_fault(devices.mmio_state.fs_device, fs_override) is None <==> {
            ||| devices.mmio_state.fs_device is None && fs_override is None
            ||| devices.mmio_state.fs_device is Some && fs_override is Some
                && devices.mmio_state.fs_device->0.device_id@ == fs_override->0.fs_id@
        },
        fs_fault(devices.mmio_state.fs_device, fs_override)
            == Some(SnapshotStateFromFileError::MissingFsOverride) <==> fs_override is None
            && devices.mmio_state.fs_device is Some,
        fs_fault(devices.mmio_state.fs_device, fs_override)
            == Some(SnapshotStateFromFileError::UnknownFsDevice) <==> fs_override is Some && (
        devices.mmio_state.fs_device is None || devices.mmio_state.fs_device->0.device_id@
            != fs_override->0.fs_id@),
        fs_fault(devices.mmio_state.fs_device, fs_override) is None ==> ({
            let after = with_fs_backend(devices, fs_override);
            &&& after.mmio_state.fs_device is Some <==> devices.mmio_state.fs_device is Some
            &&& devices.mmio_state.fs_device is Some ==> {
                let device = after.mmio_state.fs_device->0;
                &&& device.device_id == devices.mmio_state.fs_device->0.device_id
                &&& device.socket_path == fs_override->0.socket_path
                &&& device.backend_state_path == Some(fs_override->0.state_path)
            }
            &&& after.mmio_state.net_devices == devices.mmio_state.net_devices
            &&& after.mmio_state.vsock_device == devices.mmio_state.vsock_device
            &&& after.pci_state == devices.pci_state
            &&& after.bytes == devices.bytes
        }),
{
}

/// Network overrides are accepted exactly when each names a network device on one of the buses.
pub proof fn law_network_overrides_name_devices(
    devices: DevicesState,
    overrides: Seq<NetworkOverride>,
)
    ensures
        all_ifaces_known(all_net(devices), overrides) <==> forall|k: int|
            0 <= k < overrides.len() ==> {
                ||| is_on_mmio(devices, (#[trigger] overrides[k]).iface_id@)
                ||| is_on_pci(devices, overrides[k].iface_id@)
            },
{
    assert forall|iface: Seq<char>| #[trigger]
        knows_iface(all_net(devices), iface) <==> is_on_mmio(devices, iface) || is_on_pci(
            devices,
            iface,
        ) by {
        lemma_known_on_a_bus(devices, iface);
    }
}

/// Whether a network device on the MMIO bus is the given interface.
pub open spec fn is_on_mmio(devices: DevicesState, iface: Seq<char>) -> bool {
    exists|i: int|
        0 <= i < devices.mmio_state.net_devices@.len() && (
        #[trigger] devices.mmio_state.net_devices@[i]).id@ == iface
}

/// Whether a network device on the PCI bus is the given interface.
pub open spec fn is_on_pci(devices: DevicesState, iface: Seq<char>) -> bool {
    exists|i: int|
        0 <= i < devices.pci_state.net_devices@.len() && (
        #[trigger] devices.pci_state.net_devices@[i]).id@ == iface
}

proof fn lemma_known_on_a_bus(devices: DevicesState, iface: Seq<char>)
    ensures
        knows_iface(all_net(devices), iface) <==> is_on_mmio(devices, iface) || is_on_pci(
            devices,
            iface,
        ),
{
    let nets = all_net(devices);
    let mmio = devices.mmio_state.net_devices@;
    let pci = devices.pci_state.net_devices@;
    if knows_iface(nets, iface) {
        let i = choose|i: int| 0 <= i < nets.len() && (#[trigger] nets[i]).0 == iface;
        if i < mmio.len() {
            assert(mmio[i].id@ == iface);
        } else {
            assert(pci[i - mmio.len()].id@ == iface);
        }
    }
    if is_on_mmio(devices, iface) {
        let i = choose|i: int| 0 <= i < mmio.len() && (#[trigger] mmio[i]).id@ == iface;
        assert(nets[i].0 == iface);
    }
    if is_on_pci(devices, iface) {
        let i = choose|i: int| 0 <= i < pci.len() && (#[trigger] pci[i]).id@ == iface;
        assert(nets[mmio.len() + i].0 == iface);
    }
}

/// Whether some override names an interface.
pub open spec fn is_overridden(overrides: Seq<NetworkOverride>, iface: Seq<char>) -> bool {
    exists|k: int| 0 <= k < overrides.len() && (#[trigger] overrides[k]).iface_id@ == iface
}

/// Whether an interface ends with a host device by the overrides: that of the last one that names it.
pub open spec fn ends_with_host_dev(
    overrides: Seq<NetworkOverride>,
    iface: Seq<char>,
    host_dev: Seq<char>,
) -> bool {
    exists|k: int|
        {
            &&& 0 <= k < overrides.len()
            &&& (#[trigger] overrides[k]).iface_id@ == iface
            &&& overrides[k].host_dev_name@ == host_dev
            &&& forall|l: int| k < l < overrides.len() ==> (#[trigger] overrides[l]).iface_id@ != iface
        }
}

proof fn lemma_device_after_overrides(
    nets: Seq<(Seq<char>, Seq<char>)>,
    overrides: Seq<NetworkOverride>,
    at: int,
)
    requires
        0 <= at < nets.len(),
    ensures
        rewired_by(nets, overrides).len() == nets.len(),
        rewired_by(nets, overrides)[at].0 == nets[at].0,
        is_iface(nets, nets[at].0, at) && is_overridden(overrides, nets[at].0) ==> ends_with_host_dev(
            overrides,
            nets[at].0,
            rewired_by(nets, overrides)[at].1,
        ),
        !is_iface(nets, nets[at].0, at) || !is_overridden(overrides, nets[at].0) ==> rewired_by(
            nets,
            overrides,
        )[at].1 == nets[at].1,
{
    let iface = nets[at].0;
    law_overrides_keep_interfaces(nets, overrides);
    if is_iface(nets, iface, at) && is_overridden(overrides, iface) {
        let k = lemma_last_override(overrides, iface);
        law_last_override_wins(nets, overrides, at, k);
        assert(overrides[k].iface_id@ == iface);
    } else {
        law_other_devices_keep_their_host_device(nets, overrides, at);
    }
}

proof fn lemma_last_override(overrides: Seq<NetworkOverride>, iface: Seq<char>) -> (k: int)
    requires
        is_overridden(overrides, iface),
    ensures
        is_last_override(overrides, iface, k),
    decreases overrides.len(),
{
    let last = overrides.len() - 1;
    if overrides[last].iface_id@ == iface {
        last
    } else {
        let fewer = overrides.drop_last();
        let j = choose|j: int| 0 <= j < overrides.len() && (#[trigger] overrides[j]).iface_id@ == iface;
        assert(fewer[j].iface_id@ == iface);
        let k = lemma_last_override(fewer, iface);
        assert(fewer[k] == overrides[k]);
        assert forall|l: int| k < l < overrides.len() implies (#[trigger] overrides[l]).iface_id@
            != iface by {
            if l < last {
                assert(fewer[l] == overrides[l]);
            }
        }
        k
    }
}

/// What network overrides make of the network devices on the MMIO bus: each stays the interface that it
/// was. The first that is an interface which an override names ends with the host device of the last
/// such override; every other keeps its host device.
pub proof fn law_network_overrides_on_the_mmio_bus(
    before: DevicesState,
    overrides: Seq<NetworkOverride>,
    after: DevicesState,
    i: int,
)
    requires
        after.mmio_state.net_devices@.len() == before.mmio_state.net_devices@.len(),
        after.pci_state.net_devices@.len() == before.pci_state.net_devices@.len(),
        all_net(after) == rewired_by(all_net(before), overrides),
        0 <= i < before.mmio_state.net_devices@.len(),
    ensures
        ({
            let was = before.mmio_state.net_devices@[i];
            let is = after.mmio_state.net_devices@[i];
            let first = forall|j: int|
                0 <= j < i ==> (#[trigger] before.mmio_state.net_devices@[j]).id@ != was.id@;
            &&& is.id@ == was.id@
            &&& first && is_overridden(overrides, was.id@) ==> ends_with_host_dev(
                overrides,
                was.id@,
                is.tap_if_name@,
            )
            &&& !first || !is_overridden(overrides, was.id@) ==> is.tap_if_name@ == was.tap_if_name@
        }),
{
    let nets = all_net(before);
    let mmio = before.mmio_state.net_devices@;
    let was = mmio[i];
    lemma_device_after_overrides(nets, overrides, i);
    assert(nets[i] == (was.id@, was.tap_if_name@));
    assert(all_net(after)[i] == (
        after.mmio_state.net_devices@[i].id@,
        after.mmio_state.net_devices@[i].tap_if_name@,
    ));
    assert(forall|j: int| 0 <= j < mmio.len() ==> (#[trigger] nets[j]).0 == mmio[j].id@);
    if forall|j: int| 0 <= j < i ==> (#[trigger] mmio[j]).id@ != was.id@ {
        assert(is_iface(nets, was.id@, i));
    } else {
        let j = choose|j: int| 0 <= j < i && (#[trigger] mmio[j]).id@ == was.id@;
        assert(nets[j].0 == was.id@);
    }
}

/// What network overrides make of the network devices on the PCI bus: the same, but that a network
/// device of that interface on the MMIO bus comes first.
pub proof fn law_network_overrides_on_the_pci_bus(
    before: DevicesState,
    overrides: Seq<NetworkOverride>,
    after: DevicesState,
    i: int,
)
    requires
        after.mmio_state.net_devices@.len() == before.mmio_state.net_devices@.len(),
        after.pci_state.net_devices@.len() == before.pci_state.net_devices@.len(),
        all_net(after) == rewired_by(all_net(before), overrides),
        0 <= i < before.pci_state.net_devices@.len(),
    ensures
        ({
            let was = before.pci_state.net_devices@[i];
            let is = after.pci_state.net_devices@[i];
            let first = !is_on_mmio(before, was.id@) && forall|j: int|
                0 <= j < i ==> (#[trigger] before.pci_state.net_devices@[j]).id@ != was.id@;
            &&& is.id@ == was.id@
            &&& first && is_overridden(overrides, was.id@) ==> ends_with_host_dev(
                overrides,
                was.id@,
                is.tap_if_name@,
            )
            &&& !first || !is_overridden(overrides, was.id@) ==> is.tap_if_name@ == was.tap_if_name@
        }),
{
    let nets = all_net(before);
    let mmio = before.mmio_state.net_devices@;
    let pci = before.pci_state.net_devices@;
    let shift = mmio.len() as int;
    let was = pci[i];
    lemma_device_after_overrides(nets, overrides, shift + i);
    assert(nets[shift + i] == (was.id@, was.tap_if_name@));
    assert(all_net(after)[shift + i] == (
        after.pci_state.net_devices@[i].id@,
        after.pci_state.net_devices@[i].tap_if_name@,
    ));
    assert(forall|j: int| 0 <= j < shift ==> (#[trigger] nets[j]).0 == mmio[j].id@);
    assert(forall|j: int| shift <= j < nets.len() ==> (#[trigger] nets[j]).0 == pci[j - shift].id@);
    if !is_on_mmio(before, was.id@) && forall|j: int|
        0 <= j < i ==> (#[trigger] pci[j]).id@ != was.id@ {
        assert forall|j: int| 0 <= j < shift + i implies (#[trigger] nets[j]).0 != was.id@ by {
            if j < shift {
                assert(mmio[j].id@ != was.id@);
            } else {
                assert(pci[j - shift].id@ != was.id@);
            }
        }
        assert(is_iface(nets, was.id@, shift + i));
    } else if is_on_mmio(before, was.id@) {
        let j = choose|j: int| 0 <= j < mmio.len() && (#[trigger] mmio[j]).id@ == was.id@;
        assert(nets[j].0 == was.id@);
    } else {
        let j = choose|j: int| 0 <= j < i && (#[trigger] pci[j]).id@ == was.id@;
        assert(nets[shift + j].0 == was.id@);
    }
}

/// Whether a network device is what overrides make of it: the interface that it was; and, where they
/// reach it and one of them names it, with the host device of the last that does, or else with the one
/// that it had.
pub open spec fn device_overridden(
    reached: bool,
    overrides: Seq<NetworkOverride>,
    was: NetDeviceState,
    is: NetDeviceState,
) -> bool {
    &&& is.id@ == was.id@
    &&& reached && is_overridden(overrides, was.id@) ==> ends_with_host_dev(
        overrides,
        was.id@,
        is.tap_if_name@,
    )
    &&& !reached || !is_overridden(overrides, was.id@) ==> is.tap_if_name@ == was.tap_if_name@
}

/// Whether overrides reach a network device on the MMIO bus: it is the first there that is its
/// interface.
pub open spec fn reached_on_mmio(devices: DevicesState, i: int) -> bool {
    forall|j: int|
        0 <= j < i ==> (#[trigger] devices.mmio_state.net_devices@[j]).id@
            != devices.mmio_state.net_devices@[i].id@
}

/// Whether overrides reach a network device on the PCI bus: it is the first there that is its interface,
/// and none on the MMIO bus is.
pub open spec fn reached_on_pci(devices: DevicesState, i: int) -> bool {
    &&& !is_on_mmio(devices, devices.pci_state.net_devices@[i].id@)
    &&& forall|j: int|
        0 <= j < i ==> (#[trigger] devices.pci_state.net_devices@[j]).id@
            != devices.pci_state.net_devices@[i].id@
}

/// Whether the network devices on both buses are what overrides make of them.
pub open spec fn network_overridden(
    before: DevicesState,
    overrides: Seq<NetworkOverride>,
    after: DevicesState,
) -> bool {
    &&& after.mmio_state.net_devices@.len() == before.mmio_state.net_devices@.len()
    &&& after.pci_state.net_devices@.len() == before.pci_state.net_devices@.len()
    &&& forall|i: int|
        0 <= i < before.mmio_state.net_devices@.len() ==> device_overridden(
            reached_on_mmio(before, i),
            overrides,
            #[trigger] before.mmio_state.net_devices@[i],
            after.mmio_state.net_devices@[i],
        )
    &&& forall|i: int|
        0 <= i < before.pci_state.net_devices@.len() ==> device_overridden(
            reached_on_pci(before, i),
            overrides,
            #[trigger] before.pci_state.net_devices@[i],
            after.pci_state.net_devices@[i],
        )
}

/// What network overrides make of all network devices, on both buses.
pub proof fn law_network_devices_after_overrides(
    before: DevicesState,
    overrides: Seq<NetworkOverride>,
    after: DevicesState,
)
    requires
        after.mmio_state.net_devices@.len() == before.mmio_state.net_devices@.len(),
        after.pci_state.net_devices@.len() == before.pci_state.net_devices@.len(),
        all_net(after) == rewired_by(all_net(before), overrides),
    ensures
        network_overridden(before, overrides, after),
{
    assert forall|i: int| 0 <= i < before.mmio_state.net_devices@.len() implies device_overridden(
        reached_on_mmio(before, i),
        overrides,
        #[trigger] before.mmio_state.net_devices@[i],
        after.mmio_state.net_devices@[i],
    ) by {
        law_network_overrides_on_the_mmio_bus(before, overrides, after, i);
    }
    assert forall|i: int| 0 <= i < before.pci_state.net_devices@.len() implies device_overridden(
        reached_on_pci(before, i),
        overrides,
        #[trigger] before.pci_state.net_devices@[i],
        after.pci_state.net_devices@[i],
    ) by {
        law_network_overrides_on_the_pci_bus(before, overrides, after, i);
    }
}

/// Overrides of a request are accepted exactly when each network override names a network device, there
/// is a vsock device if that is overridden, and the virtio-fs device and its override go together.
/// Otherwise the first of these that does not hold is what is reported.
pub proof fn law_overrides_are_accepted_for_devices_that_exist(
    devices: DevicesState,
    params: LoadSnapshotParams,
)
    ensures
        ({
            let net = forall|k: int|
                0 <= k < params.network_overrides@.len() ==> {
                    ||| is_on_mmio(devices, (#[trigger] params.network_overrides@[k]).iface_id@)
                    ||| is_on_pci(devices, params.network_overrides@[k].iface_id@)
                };
            let vsock = params.vsock_override is None || devices.mmio_state.vsock_device is Some
                || devices.pci_state.vsock_device is Some;
            let named = devices.mmio_state.fs_device is Some && params.fs_override is Some
                && devices.mmio_state.fs_device->0.device_id@ == params.fs_override->0.fs_id@;
            match override_fault(devices, params) {
                None => net && vsock && (named || devices.mmio_state.fs_device is None
                    && params.fs_override is None),
                Some(SnapshotStateFromFileError::UnknownNetworkDevice) => !net,
                Some(SnapshotStateFromFileError::UnknownVsockDevice) => net && !vsock,
                Some(SnapshotStateFromFileError::UnknownFsDevice) => net && vsock
                    && params.fs_override is Some && !named,
                Some(SnapshotStateFromFileError::MissingFsOverride) => net && vsock
                    && params.fs_override is None && devices.mmio_state.fs_device is Some,
                Some(_) => false,
            }
        }),
{
    law_network_overrides_name_devices(devices, params.network_overrides@);
}

/// What all overrides of a request make of the devices: the network devices are what the network
/// overrides make of them; the vsock device has the path of its override, if there is one, on the bus where it was found;
/// the virtio-fs device has the socket and the state of its override; and the rest is as before.
pub proof fn law_overrides_change_what_they_name(
    before: DevicesState,
    params: LoadSnapshotParams,
    after: DevicesState,
)
    requires
        override_fault(before, params) is None,
        overridden(before, params, after),
    ensures
        network_overridden(before, params.network_overrides@, after),
        after.mmio_state.vsock_device is Some <==> before.mmio_state.vsock_device is Some,
        after.pci_state.vsock_device is Some <==> before.pci_state.vsock_device is Some,
        params.vsock_override is None ==> after.mmio_state.vsock_device
            == before.mmio_state.vsock_device && after.pci_state.vsock_device
            == before.pci_state.vsock_device,
        params.vsock_override matches Some(entry) ==> {
            &&& before.mmio_state.vsock_device is Some ==> after.mmio_state.vsock_device->0.uds_path
                == entry.uds_path && after.pci_state.vsock_device == before.pci_state.vsock_device
            &&& before.mmio_state.vsock_device is None ==> after.pci_state.vsock_device->0.uds_path
                == entry.uds_path
        },
        after.mmio_state.fs_device is Some <==> before.mmio_state.fs_device is Some,
        params.fs_override matches Some(entry) ==> {
            let device = after.mmio_state.fs_device->0;
            &&& device.device_id == before.mmio_state.fs_device->0.device_id
            &&& device.socket_path == entry.socket_path
            &&& device.backend_state_path == Some(entry.state_path)
        },
        after.bytes == before.bytes,
{
    law_overrides_are_accepted_for_devices_that_exist(before, params);
    law_network_devices_after_overrides(before, params.network_overrides@, after);
}

} // verus!
