//! The devices that can be attached to a virtual machine.

use vstd::prelude::*;

verus! {

/// What the driver reads of a block device's settings.
#[derive(Debug, PartialEq, Eq)]
pub struct BlockConfig {
    /// The image or block device on the host.
    pub path_on_host: String,
    /// The index that the caller assigned to the device.
    pub index: u64,
}

/// A disk.
#[derive(Debug, PartialEq, Eq)]
pub struct BlockDevice {
    pub config: BlockConfig,
}

/// What the driver reads of a vsock device's settings.
#[derive(Debug, PartialEq, Eq)]
pub struct VsockConfig {
    /// The context identifier of the guest, `u32::MAX` where none is assigned.
    pub guest_cid: u32,
}

/// A vsock device.
#[derive(Debug, PartialEq, Eq)]
pub struct VsockDevice {
    pub config: VsockConfig,
}

/// A device.
#[derive(Debug, PartialEq, Eq)]
pub enum DeviceType {
    Block(BlockDevice),
    Vsock(VsockDevice),
    /// Any other device, by its description.
    Other(String),
}

/// The host paths of the disks among some devices, in order.
pub open spec fn block_paths(devices: Seq<DeviceType>) -> Seq<Seq<char>>
    decreases devices.len(),
{
    if devices.len() == 0 {
        Seq::empty()
    } else {
        let rest = block_paths(devices.drop_last());
        match devices.last() {
            DeviceType::Block(blk) => rest.push(blk.config.path_on_host@),
            _ => rest,
        }
    }
}

/// The context identifier after one device was queued: a vsock device with an
/// assigned identifier sets it.
pub open spec fn cid_after(cid: u32, device: DeviceType) -> u32 {
    match device {
        DeviceType::Vsock(vsock) => if vsock.config.guest_cid != u32::MAX {
            vsock.config.guest_cid
        } else {
            cid
        },
        _ => cid,
    }
}

/// Collects the host paths of the disks among some devices, in order.
pub fn collect_block_paths(devices: &Vec<DeviceType>) -> (paths: Vec<String>)
    ensures
        paths.deep_view() == block_paths(devices@),
{
    let mut paths: Vec<String> = Vec::new();
    let mut i: usize = 0;
    assert(paths.deep_view() =~= block_paths(devices@.take(0)));
    while i < devices.len()
        invariant
            i <= devices@.len(),
            paths.deep_view() == block_paths(devices@.take(i as int)),
        decreases devices@.len() - i,
    {
        let ghost before = paths.deep_view();
        assert(devices@.take(i + 1).drop_last() =~= devices@.take(i as int));
        match &devices[i] {
            DeviceType::Block(blk) => {
                paths.push(blk.config.path_on_host.clone());
                assert(paths.deep_view() =~= before.push(blk.config.path_on_host@));
            },
            _ => {},
        }
        i = i + 1;
    }
    assert(devices@.take(i as int) =~= devices@);
    paths
}

} // verus!
