//! What holds of the driver as a whole.

use vstd::prelude::*;

use crate::command;
use crate::config;
use crate::config::{
    Checked, ConfigErrorView, ConfigView, HypervisorConfig, PathProbe, ValidationView,
};
use crate::device::{BlockDevice, DeviceType};
use crate::driver;
use crate::driver::{Shyper, ShyperView};
use crate::error::ShyperError;
use crate::inner;
use crate::inner::{HypervisorState, ShyperInner, ShyperInnerView};
use crate::json;
use crate::json::Json;
use crate::kata;
use crate::kata::SettingsView;
use crate::pool;
use crate::start;
use crate::start::{
    DaemonPoll, ReadOutcome, RunOutcome, StartActionView, StartEvent, StartStateView,
    StartStepView, WriteOutcome,
};
use crate::text;

verus! {

// ---- The disk pool ----

/// The mediated disk list holds the root disk and one disk for each slot of the
/// pool, and the configuration entry of a slot is the slot's place in it.
pub proof fn law_config_id_is_place_in_mediated_list(blocks: Seq<Seq<char>>, slot: int)
    requires
        0 <= slot < pool::DISK_POOL_SIZE,
    ensures
        pool::disk_plan(blocks).mediated().len() == pool::DISK_POOL_SIZE + 1,
        pool::disk_plan(blocks).mediated()[0] == pool::disk_plan(blocks).root_image(),
        pool::disk_plan(blocks).mediated()[pool::config_id(slot)] == pool::pool_images(
            blocks,
        )[slot],
{
}

/// The queued disks take the places of the mediated disk list in order, the
/// first as the root disk, until the list is full.
pub proof fn law_queued_disks_in_order(blocks: Seq<Seq<char>>, i: int)
    requires
        0 <= i < blocks.len(),
        i <= pool::DISK_POOL_SIZE,
    ensures
        pool::disk_plan(blocks).mediated()[i] == blocks[i],
{
}

/// What no queued disk takes is the default root image or a placeholder, and
/// the placeholders are those that are to be made.
pub proof fn law_rest_is_default(blocks: Seq<Seq<char>>, i: int)
    requires
        blocks.len() <= i <= pool::DISK_POOL_SIZE,
    ensures
        i == 0 ==> pool::disk_plan(blocks).mediated()[i] == pool::DEFAULT_ROOTFS@,
        i > 0 ==> pool::disk_plan(blocks).mediated()[i] == pool::dummy_path((i - 1) as nat),
        i > 0 ==> pool::disk_plan(blocks).dummies.contains(pool::dummy_path((i - 1) as nat)),
{
    if i > 0 {
        let plan = pool::disk_plan(blocks);
        let k = i - 1 - pool::filled(blocks);
        assert(plan.dummies[k] == plan.pool[i - 1]);
    }
}

/// On a machine whose pool was free before its start, a slot is free after it
/// exactly where a placeholder stands behind it, and a slot that is taken holds
/// the image that stands in its place of the mediated disk list.
pub proof fn law_free_slots_are_placeholders(vm: ShyperInnerView, slot: int)
    requires
        vm.wf(),
        forall|i: int| 0 <= i < pool::DISK_POOL_SIZE ==> (#[trigger] vm.device_slots[i]) is None,
        0 <= slot < pool::DISK_POOL_SIZE,
    ensures
        ({
            let blocks = vm.pending_disks();
            let image = pool::disk_plan(blocks).mediated()[pool::config_id(slot)];
            match vm.starting().device_slots[slot] {
                Some(path) => slot < pool::filled(blocks) && path == image,
                None => slot >= pool::filled(blocks) && image == pool::dummy_path(slot as nat),
            }
        }),
{
}

/// What a slot holds stays in it: queuing a device, beginning a start, any step
/// of a start and adding a disk to the running machine leave it there.
pub proof fn law_taken_slot_stays(
    vm: ShyperInnerView,
    slot: int,
    device: DeviceType,
    action: StartActionView,
    free: int,
    path: Seq<char>,
)
    requires
        vm.wf(),
        0 <= slot < pool::DISK_POOL_SIZE,
        vm.device_slots[slot] is Some,
    ensures
        vm.queued(device).device_slots[slot] == vm.device_slots[slot],
        vm.starting().device_slots[slot] == vm.device_slots[slot],
        vm.after_step(action).device_slots[slot] == vm.device_slots[slot],
        pool::is_first_free(vm.device_slots, free) ==> vm.plugged(free, path).device_slots[slot]
            == vm.device_slots[slot] && vm.plugged(free, path).wf(),
        vm.queued(device).wf(),
        vm.starting().wf(),
        vm.after_step(action).wf(),
{
}

/// A disk that is added to a machine after its start replaces a placeholder,
/// never a queued disk: behind the configuration entry of a slot that is free
/// stands the slot's placeholder, which the start made.
pub proof fn law_hotplug_replaces_placeholder(vm: ShyperInnerView, slot: int)
    requires
        vm.wf(),
        0 <= slot < pool::DISK_POOL_SIZE,
        vm.starting().device_slots[slot] is None,
    ensures
        ({
            let plan = pool::disk_plan(vm.pending_disks());
            &&& plan.mediated()[pool::config_id(slot)] == pool::dummy_path(slot as nat)
            &&& plan.dummies.contains(pool::dummy_path(slot as nat))
        }),
{
    law_rest_is_default(vm.pending_disks(), slot + 1);
}

/// How many slots are free.
pub open spec fn free_slots(slots: Seq<Option<Seq<char>>>) -> nat
    decreases slots.len(),
{
    if slots.len() == 0 {
        0
    } else {
        free_slots(slots.drop_last()) + if slots.last() is None {
            1nat
        } else {
            0nat
        }
    }
}

/// Taking a free slot leaves one free slot less.
pub proof fn law_hotplug_takes_one_slot(
    slots: Seq<Option<Seq<char>>>,
    slot: int,
    path: Seq<char>,
)
    requires
        0 <= slot < slots.len(),
        slots[slot] is None,
    ensures
        free_slots(slots.update(slot, Some(path))) + 1 == free_slots(slots),
    decreases slots.len(),
{
    let after = slots.update(slot, Some(path));
    if slot == slots.len() - 1 {
        assert(after.drop_last() =~= slots.drop_last());
    } else {
        assert(after.drop_last() =~= slots.drop_last().update(slot, Some(path)));
        law_hotplug_takes_one_slot(slots.drop_last(), slot, path);
    }
}

/// The pool is full exactly where no slot is free, and there is a first free
/// slot exactly where it is not full; there is one at most.
pub proof fn law_full_or_first_free(slots: Seq<Option<Seq<char>>>)
    ensures
        pool::pool_full(slots) <==> free_slots(slots) == 0,
        pool::pool_full(slots) <==> !(exists|i: int| pool::is_first_free(slots, i)),
        forall|i: int, j: int|
            pool::is_first_free(slots, i) && pool::is_first_free(slots, j) ==> i == j,
    decreases slots.len(),
{
    if slots.len() > 0 {
        let front = slots.drop_last();
        law_full_or_first_free(front);
        assert forall|i: int| 0 <= i < front.len() implies front[i] == slots[i] by {}
        if pool::pool_full(front) {
            assert forall|j: int| 0 <= j < front.len() implies (#[trigger] slots[j]) is Some by {
                assert(front[j] is Some);
            }
            if slots.last() is None {
                assert(pool::is_first_free(slots, slots.len() - 1));
            } else {
                assert forall|j: int| 0 <= j < slots.len() implies (#[trigger] slots[j]) is Some by {
                    if j < front.len() {
                        assert(front[j] is Some);
                    }
                }
            }
        } else {
            let i = choose|i: int| pool::is_first_free(front, i);
            assert(pool::is_first_free(front, i));
            assert(slots[i] is None);
            assert forall|j: int| 0 <= j < i implies (#[trigger] slots[j]) is Some by {
                assert(front[j] is Some);
            }
            assert(pool::is_first_free(slots, i));
        }
    }
}

/// The slots after some images were put into them, each into the first free one.
pub open spec fn plugged_all(slots: Seq<Option<Seq<char>>>, paths: Seq<Seq<char>>) -> Seq<
    Option<Seq<char>>,
>
    decreases paths.len(),
{
    if paths.len() == 0 {
        slots
    } else {
        let before = plugged_all(slots, paths.drop_last());
        before.update(
            choose|i: int| pool::is_first_free(before, i),
            Some(paths.last()),
        )
    }
}

/// As many disks as there are free slots can be added to a running machine, and
/// no more: the pool is full after them.
pub proof fn law_hotplugs_until_full(slots: Seq<Option<Seq<char>>>, paths: Seq<Seq<char>>)
    requires
        paths.len() <= free_slots(slots),
    ensures
        free_slots(plugged_all(slots, paths)) == free_slots(slots) - paths.len(),
        pool::pool_full(plugged_all(slots, paths)) <==> paths.len() == free_slots(slots),
    decreases paths.len(),
{
    if paths.len() > 0 {
        law_hotplugs_until_full(slots, paths.drop_last());
        let before = plugged_all(slots, paths.drop_last());
        law_full_or_first_free(before);
        let i = choose|i: int| pool::is_first_free(before, i);
        assert(pool::is_first_free(before, i));
        law_hotplug_takes_one_slot(before, i, paths.last());
    }
    law_full_or_first_free(plugged_all(slots, paths));
}

// ---- Queued devices and the agent ----

/// A machine after some devices were queued.
pub open spec fn queued_all(vm: ShyperInnerView, devices: Seq<DeviceType>) -> ShyperInnerView
    decreases devices.len(),
{
    if devices.len() == 0 {
        vm
    } else {
        queued_all(vm, devices.drop_last()).queued(devices.last())
    }
}

/// Whether a device assigns the context identifier.
pub open spec fn assigns_cid(device: DeviceType) -> bool {
    device matches DeviceType::Vsock(vsock) && vsock.config.guest_cid != u32::MAX
}

/// Queued devices wait in order, and none of them touches the rest of the
/// machine.
pub proof fn law_devices_wait_in_order(vm: ShyperInnerView, devices: Seq<DeviceType>)
    ensures
        queued_all(vm, devices).pending_devices == vm.pending_devices + devices,
        queued_all(vm, devices).device_slots == vm.device_slots,
        queued_all(vm, devices).vm_process == vm.vm_process,
        queued_all(vm, devices).config == vm.config,
        queued_all(vm, devices).id == vm.id,
    decreases devices.len(),
{
    if devices.len() > 0 {
        law_devices_wait_in_order(vm, devices.drop_last());
    }
    assert(queued_all(vm, devices).pending_devices =~= vm.pending_devices + devices);
}

/// Queued devices that assign no context identifier leave it as it is.
pub proof fn law_cid_stays_unassigned(vm: ShyperInnerView, devices: Seq<DeviceType>)
    requires
        forall|i: int| 0 <= i < devices.len() ==> !assigns_cid(#[trigger] devices[i]),
    ensures
        queued_all(vm, devices).vsock_cid == vm.vsock_cid,
    decreases devices.len(),
{
    if devices.len() > 0 {
        law_cid_stays_unassigned(vm, devices.drop_last());
        assert(!assigns_cid(devices[devices.len() - 1]));
    }
}

/// The last queued device that assigns a context identifier decides it.
pub proof fn law_last_assigned_cid_decides(vm: ShyperInnerView, devices: Seq<DeviceType>, k: int)
    requires
        0 <= k < devices.len(),
        assigns_cid(devices[k]),
        forall|i: int| k < i < devices.len() ==> !assigns_cid(#[trigger] devices[i]),
    ensures
        devices[k] matches DeviceType::Vsock(vsock) && queued_all(vm, devices).vsock_cid
            == vsock.config.guest_cid,
    decreases devices.len(),
{
    if k < devices.len() - 1 {
        assert(!assigns_cid(devices[devices.len() - 1]));
        law_last_assigned_cid_decides(vm, devices.drop_last(), k);
    }
}

/// The machine always has an address of its own, so the driver hands that out
/// whatever the environment sets.
pub proof fn law_own_address_wins(vsock_cid: u32, environment: Option<Seq<char>>)
    ensures
        driver::chosen_socket(Some(inner::agent_socket(vsock_cid)), environment)
            == inner::agent_socket(vsock_cid),
{
    reveal_strlit("vsock://");
}

/// The default address is that of a machine to which no context identifier was
/// assigned.
pub proof fn law_default_address()
    ensures
        inner::agent_socket(inner::DEFAULT_VSOCK_CID) == driver::DEFAULT_AGENT_SOCKET@,
{
    reveal_strlit("vsock://");
    reveal_strlit(":1024");
    reveal_strlit("vsock://3:1024");
    assert(text::decimal_of(3) =~= seq!['3']);
    assert(inner::agent_socket(3) =~= driver::DEFAULT_AGENT_SOCKET@);
}

/// Texts that share their beginning and their end are equal only where their
/// middles are.
proof fn lemma_same_middle(a: Seq<char>, x: Seq<char>, y: Seq<char>, z: Seq<char>)
    requires
        a + x + z == a + y + z,
    ensures
        x == y,
{
    let l = a + x + z;
    let r = a + y + z;
    assert(l.len() == r.len());
    assert(x =~= l.subrange(a.len() as int, (a.len() + x.len()) as int));
    assert(y =~= r.subrange(a.len() as int, (a.len() + y.len()) as int));
}

/// Machines with different context identifiers have different addresses.
pub proof fn law_addresses_differ(a: u32, b: u32)
    requires
        a != b,
    ensures
        inner::agent_socket(a) != inner::agent_socket(b),
{
    if inner::agent_socket(a) == inner::agent_socket(b) {
        lemma_same_middle(
            "vsock://"@,
            text::decimal_of(a as nat),
            text::decimal_of(b as nat),
            ":1024"@,
        );
        text::law_digits_injective(a as nat, b as nat, 10);
    }
}

/// Machines with different names write different files.
pub proof fn law_files_differ(a: Seq<char>, b: Seq<char>)
    requires
        a != b,
    ensures
        start::mediate_filename(a) != start::mediate_filename(b),
        start::kata_filename(a) != start::kata_filename(b),
        start::stdout_log(a) != start::stdout_log(b),
        start::stderr_log(a) != start::stderr_log(b),
{
    if start::mediate_filename(a) == start::mediate_filename(b) {
        lemma_same_middle("mediate_gen_"@, a, b, ".json"@);
    }
    if start::kata_filename(a) == start::kata_filename(b) {
        lemma_same_middle("kata_gen_"@, a, b, ".json"@);
    }
    if start::stdout_log(a) == start::stdout_log(b) {
        lemma_same_middle("/tmp/shyper_vm_"@, a, b, ".stdout"@);
    }
    if start::stderr_log(a) == start::stderr_log(b) {
        lemma_same_middle("/tmp/shyper_vm_"@, a, b, ".stderr"@);
    }
}

// ---- Every state of a machine ----

/// What can be done to a machine that changes it.
pub enum Operation {
    /// Its settings are set.
    SetConfig(HypervisorConfig),
    /// It is named.
    Prepare(Seq<char>),
    /// A device is added.
    AddDevice(DeviceType),
    /// Its start begins.
    Start,
    /// Its start goes on to an action.
    Advance(StartActionView),
}

/// The machine after an operation.
pub open spec fn after_operation(vm: ShyperInnerView, operation: Operation) -> ShyperInnerView {
    match operation {
        Operation::SetConfig(config) => ShyperInnerView { config, ..vm },
        Operation::Prepare(id) => ShyperInnerView { id, ..vm },
        Operation::AddDevice(device) => if vm.vm_process is None {
            vm.queued(device)
        } else {
            match device {
                DeviceType::Block(blk) if !pool::pool_full(vm.device_slots) => vm.plugged(
                    choose|slot: int| pool::is_first_free(vm.device_slots, slot),
                    blk.config.path_on_host@,
                ),
                _ => vm,
            }
        },
        Operation::Start => vm.starting(),
        Operation::Advance(action) => vm.after_step(action),
    }
}

/// A disk that is added to a machine that was started goes where the one first
/// free slot is.
pub proof fn law_added_disk_takes_first_free_slot(
    vm: ShyperInnerView,
    disk: BlockDevice,
    slot: int,
)
    requires
        vm.vm_process is Some,
        pool::is_first_free(vm.device_slots, slot),
    ensures
        after_operation(vm, Operation::AddDevice(DeviceType::Block(disk))) == vm.plugged(
            slot,
            disk.config.path_on_host@,
        ),
{
    law_full_or_first_free(vm.device_slots);
}

/// The machine after some operations.
pub open spec fn after_operations(
    vm: ShyperInnerView,
    operations: Seq<Operation>,
) -> ShyperInnerView
    decreases operations.len(),
{
    if operations.len() == 0 {
        vm
    } else {
        after_operation(after_operations(vm, operations.drop_last()), operations.last())
    }
}

/// Whether the slots that are taken stand before those that are free.
pub open spec fn filled_from_front(slots: Seq<Option<Seq<char>>>) -> bool {
    forall|i: int, j: int|
        #![trigger slots[i], slots[j]]
        0 <= i < j < slots.len() && slots[j] is Some ==> slots[i] is Some
}

/// Whatever was done to a machine, its pool has kept its size and is filled from
/// the front.
pub proof fn law_slots_fill_from_front(config: HypervisorConfig, operations: Seq<Operation>)
    ensures
        after_operations(inner::fresh(config), operations).wf(),
        filled_from_front(after_operations(inner::fresh(config), operations).device_slots),
    decreases operations.len(),
{
    if operations.len() > 0 {
        law_slots_fill_from_front(config, operations.drop_last());
        let vm = after_operations(inner::fresh(config), operations.drop_last());
        law_full_or_first_free(vm.device_slots);
    }
}

/// Whatever was done to a machine, its context identifier is never the one that
/// stands for an identifier that is not assigned.
pub proof fn law_cid_is_always_assigned(config: HypervisorConfig, operations: Seq<Operation>)
    ensures
        after_operations(inner::fresh(config), operations).vsock_cid != u32::MAX,
    decreases operations.len(),
{
    if operations.len() > 0 {
        law_cid_is_always_assigned(config, operations.drop_last());
    }
}

/// Whatever is done to a machine but setting its settings leaves them as they
/// are.
pub proof fn law_settings_stay(vm: ShyperInnerView, operations: Seq<Operation>)
    requires
        forall|i: int| 0 <= i < operations.len() ==> !(#[trigger] operations[i] is SetConfig),
    ensures
        after_operations(vm, operations).config == vm.config,
    decreases operations.len(),
{
    if operations.len() > 0 {
        law_settings_stay(vm, operations.drop_last());
        assert(!(operations[operations.len() - 1] is SetConfig));
    }
}

// ---- Saving and restoring ----

/// What saving a machine returns, restoring makes a machine of that has the same
/// settings, and nothing else of it. The driver around it does the same.
pub proof fn law_restore_gives_back_settings(
    vm: ShyperInner,
    saved: Result<HypervisorState, ShyperError>,
    restored: Result<ShyperInner, ShyperError>,
    shyper: Shyper,
    saved_shyper: Result<HypervisorState, ShyperError>,
    restored_shyper: Result<Shyper, ShyperError>,
)
    requires
        call_ensures(ShyperInner::save, (&vm,), saved),
        call_ensures(ShyperInner::restore, (saved->Ok_0,), restored),
        call_ensures(Shyper::save, (&shyper,), saved_shyper),
        call_ensures(Shyper::restore, (saved_shyper->Ok_0,), restored_shyper),
    ensures
        saved is Ok,
        restored matches Ok(other) && other@ == inner::fresh(vm@.config),
        saved_shyper is Ok,
        restored_shyper matches Ok(other) && other@ == (ShyperView {
            inner: inner::fresh(shyper@.inner.config),
            exit_code: 0,
        }),
{
}

// ---- The settings ----

/// Filling in the defaults twice is filling them in once.
pub proof fn law_adjust_twice(conf: Map<Seq<char>, ConfigView>)
    ensures
        config::adjusted(config::adjusted(conf)) == config::adjusted(conf),
{
    if conf.contains_key(config::HYPERVISOR_NAME_SHYPER@) {
        assert(config::adjusted(config::adjusted(conf)) =~= config::adjusted(conf));
    }
}

/// Filling in the defaults leaves the settings of the other hypervisors and
/// what is set of Shyper as they are.
pub proof fn law_adjust_keeps_what_is_set(conf: Map<Seq<char>, ConfigView>, name: Seq<char>)
    ensures
        config::adjusted(conf).dom() == conf.dom(),
        name != config::HYPERVISOR_NAME_SHYPER@ && conf.contains_key(name) ==> config::adjusted(
            conf,
        )[name] == conf[name],
        conf.contains_key(config::HYPERVISOR_NAME_SHYPER@) ==> {
            let before = conf[config::HYPERVISOR_NAME_SHYPER@];
            let after = config::adjusted(conf)[config::HYPERVISOR_NAME_SHYPER@];
            &&& before.path.len() > 0 ==> after.path == before.path
            &&& before.kernel.len() > 0 ==> after.kernel == before.kernel
            &&& after.rest == before.rest
        },
{
    assert(config::adjusted(conf).dom() =~= conf.dom());
}

/// Settings with the defaults filled in are never refused for being empty.
pub proof fn law_adjusted_settings_are_set(settings: ConfigView, checked: Checked)
    ensures
        config::validation(config::with_defaults(settings), checked) != ValidationView::Invalid(
            ConfigErrorView::EmptyPath,
        ),
        config::validation(config::with_defaults(settings), checked) != ValidationView::Invalid(
            ConfigErrorView::EmptyKernel,
        ),
{
    reveal_strlit("/usr/bin/shyper-cli");
    reveal_strlit("/usr/share/kata-containers/vmlinuz-shyper");
}

/// What a check of some settings comes to, given what resolving the executable
/// and the guest kernel finds.
pub open spec fn verdict(settings: ConfigView, path: PathProbe, kernel: PathProbe) -> ValidationView {
    match config::validation(settings, Checked::Nothing) {
        ValidationView::ProbePath(_) => match config::validation(settings, Checked::Path(path)) {
            ValidationView::ProbeKernel(_) => config::validation(settings, Checked::Kernel(kernel)),
            v => v,
        },
        v => v,
    }
}

/// A check of some settings is over after two probes at most, and the settings
/// are in order exactly where the executable and the guest kernel are set and
/// resolve. The first fault in that order is the one that is told.
pub proof fn law_settings_in_order(settings: ConfigView, path: PathProbe, kernel: PathProbe)
    ensures
        verdict(settings, path, kernel) is Valid || verdict(settings, path, kernel) is Invalid,
        verdict(settings, path, kernel) is Valid <==> settings.path.len() > 0
            && settings.kernel.len() > 0 && path is Resolved && kernel is Resolved,
        settings.path.len() == 0 ==> verdict(settings, path, kernel) == ValidationView::Invalid(
            ConfigErrorView::EmptyPath,
        ),
        settings.path.len() > 0 ==> (path matches PathProbe::Unresolved(reason) ==> verdict(
            settings,
            path,
            kernel,
        ) == ValidationView::Invalid(
            ConfigErrorView::InvalidPath { path: settings.path, reason: reason@ },
        )),
        settings.path.len() > 0 && path is Resolved && settings.kernel.len() == 0 ==> verdict(
            settings,
            path,
            kernel,
        ) == ValidationView::Invalid(ConfigErrorView::EmptyKernel),
        settings.path.len() > 0 && path is Resolved && settings.kernel.len() > 0 ==> (
        kernel matches PathProbe::Unresolved(reason) ==> verdict(settings, path, kernel)
            == ValidationView::Invalid(
            ConfigErrorView::InvalidKernel { path: settings.kernel, reason: reason@ },
        )),
{
}

// ---- The machine configuration ----

/// Of a template, the machine configuration changes the kernel command line and
/// the list of emulated devices, and nothing else.
pub proof fn law_template_is_kept(template: Json, settings: SettingsView, key: Seq<char>)
    ensures
        key != "cmdline"@ && key != "emulated_device"@ ==> kata::kata_config(template, settings).member(key)
            == template.member(key),
        key != "emulated_device_list"@ ==> kata::kata_config(template, settings).nested(
            "emulated_device"@,
            key,
        ) == template.nested("emulated_device"@, key),
        kata::kata_config(template, settings).member("cmdline"@) == if settings.partitioned {
            kata::with_root_partition(template).member("cmdline"@)
        } else {
            template.member("cmdline"@)
        },
{
    reveal_strlit("cmdline");
    reveal_strlit("emulated_device");
    assert("cmdline"@.len() != "emulated_device"@.len());
}

/// The change of the kernel command line leaves the list of emulated devices as
/// it is.
proof fn lemma_root_partition_keeps_device_list(template: Json)
    ensures
        kata::device_list(kata::with_root_partition(template)) == kata::device_list(template),
{
    reveal_strlit("cmdline");
    reveal_strlit("emulated_device");
    assert("cmdline"@.len() != "emulated_device"@.len());
}

/// A template with a list of emulated devices keeps it, entry by entry, and gets
/// one more entry for each pool disk. An entry that is neither a vsock nor a
/// root disk entry stays as it is, and no entry changes its type.
pub proof fn law_device_list_grows_by_pool(
    template: Json,
    settings: SettingsView,
    list: Seq<Json>,
    i: int,
)
    requires
        kata::device_list(template) == Some(list),
        settings.pool_sizes.len() == pool::DISK_POOL_SIZE,
    ensures
        kata::device_list(kata::kata_config(template, settings)) is Some,
        kata::device_list(kata::kata_config(template, settings))->0.len() == list.len()
            + pool::DISK_POOL_SIZE,
        0 <= i < list.len() && !kata::has_type(list[i], kata::VSOCK_TYPE@) && kata::root_extent(
            list[i],
        ) is None ==> kata::device_list(kata::kata_config(template, settings))->0[i] == list[i],
        0 <= i < list.len() ==> kata::device_list(
            kata::kata_config(template, settings),
        )->0[i].member("type"@) == list[i].member("type"@),
{
    lemma_root_partition_keeps_device_list(template);
    reveal_strlit("type");
    reveal_strlit("cfg_list");
    assert("type"@.len() != "cfg_list"@.len());
}

/// What a template with a list of emulated devices comes to: a vsock entry holds
/// the context identifier that the address of the agent names, a root disk entry
/// the number of sectors of the root image where its size is known, and behind
/// the entries of the template stand those of the pool disks.
pub proof fn law_device_list_entries(
    template: Json,
    settings: SettingsView,
    list: Seq<Json>,
    i: int,
    k: int,
)
    requires
        kata::device_list(template) == Some(list),
        settings.pool_sizes.len() == pool::DISK_POOL_SIZE,
    ensures
        ({
            let made = kata::device_list(kata::kata_config(template, settings))->0;
            &&& 0 <= i < list.len() && kata::has_type(list[i], kata::VSOCK_TYPE@)
                ==> made[i].member("cfg_list"@) == Some(
                Json::Array(seq![json::json_int(settings.vsock_cid as int)]),
            )
            &&& 0 <= i < list.len() && settings.rootfs_size > 0 ==> (kata::root_extent(list[i]) matches Some(extent)
                ==> made[i].member("cfg_list"@) == Some(
                Json::Array(
                    extent.update(
                        1,
                        json::json_int((settings.rootfs_size / kata::SECTOR_SIZE) as int),
                    ),
                ),
            ))
            &&& 0 <= k < pool::DISK_POOL_SIZE ==> made[list.len() + k] == kata::pool_entry(
                k,
                settings.pool_sizes[k],
            )
        }),
{
    lemma_root_partition_keeps_device_list(template);
}

/// A template without a list of emulated devices gets none.
pub proof fn law_no_device_list_stays_so(template: Json, settings: SettingsView)
    requires
        kata::device_list(template) is None,
    ensures
        kata::device_list(kata::kata_config(template, settings)) is None,
{
    lemma_root_partition_keeps_device_list(template);
}

/// The pool disks have different names and interrupts, and their registers do
/// not overlap.
pub proof fn law_pool_disks_are_apart(i: int, j: int)
    requires
        0 <= i < j < pool::DISK_POOL_SIZE,
    ensures
        kata::pool_name(i) != kata::pool_name(j),
        kata::pool_irq(i) != kata::pool_irq(j),
        kata::pool_ipa(i) + kata::POOL_IPA_STEP <= kata::pool_ipa(j),
{
    let a = text::decimal_of(i as nat);
    let b = text::decimal_of(j as nat);
    assert(a =~= seq![text::digit_char(i as nat)]);
    assert(b =~= seq![text::digit_char(j as nat)]);
    let at = "virtio_blk_pool_"@.len() as int;
    assert(kata::pool_name(i)[at] == a[0]);
    assert(kata::pool_name(j)[at] == b[0]);
}

/// A kernel command line that does not name the root device stays as it is.
pub proof fn law_other_root_stays(template: Json, line: Seq<char>)
    requires
        template.member("cmdline"@) == Some(Json::Text(line)),
        !text::contains_text(line, kata::ROOT_DEVICE@),
    ensures
        kata::with_root_partition(template) == template,
{
    text::law_replace_absent(line, kata::ROOT_DEVICE@, kata::ROOT_PARTITION@);
    json::lemma_same_member(template, "cmdline"@);
}

// ---- The start ----

/// Where a start stands after some events.
pub open spec fn run(
    id: Seq<char>,
    vsock_cid: u32,
    first: StartStepView,
    events: Seq<StartEvent>,
) -> StartStepView
    decreases events.len(),
{
    if events.len() == 0 {
        first
    } else {
        start::next_step(
            id,
            vsock_cid,
            run(id, vsock_cid, first, events.drop_last()).0,
            events.last(),
        )
    }
}

/// Whether each event answers what was asked for.
pub open spec fn all_answer(
    id: Seq<char>,
    vsock_cid: u32,
    first: StartStepView,
    events: Seq<StartEvent>,
) -> bool
    decreases events.len(),
{
    events.len() > 0 ==> {
        &&& all_answer(id, vsock_cid, first, events.drop_last())
        &&& start::answers(run(id, vsock_cid, first, events.drop_last()).0, events.last())
    }
}

/// Whether a command was run and succeeded.
pub open spec fn succeeded(event: StartEvent) -> bool {
    event matches StartEvent::Ran(RunOutcome::Ended { success, .. }) && success
}

/// Whether a look at the daemon did not find it gone.
pub open spec fn not_gone(event: StartEvent) -> bool {
    event matches StartEvent::Polled(poll) && !(poll is Exited)
}

/// Where each event answers what was asked for, it answers the step that the
/// events before it led to, and leads to the step after it.
proof fn lemma_run_step(
    id: Seq<char>,
    vsock_cid: u32,
    first: StartStepView,
    events: Seq<StartEvent>,
    k: int,
)
    requires
        all_answer(id, vsock_cid, first, events),
        0 <= k < events.len(),
    ensures
        start::answers(run(id, vsock_cid, first, events.take(k)).0, events[k]),
        run(id, vsock_cid, first, events.take(k + 1)) == start::next_step(
            id,
            vsock_cid,
            run(id, vsock_cid, first, events.take(k)).0,
            events[k],
        ),
    decreases events.len(),
{
    if k == events.len() - 1 {
        assert(events.take(k) =~= events.drop_last());
        assert(events.take(k + 1) =~= events);
    } else {
        lemma_run_step(id, vsock_cid, first, events.drop_last(), k);
        assert(events.drop_last().take(k) =~= events.take(k));
        assert(events.drop_last().take(k + 1) =~= events.take(k + 1));
    }
}

/// Whether everything worked in a start, in this order and with nothing in
/// between: the mediated disk list of the machine's disks was written, the
/// template was read and is a document, a root image that was queued was
/// inspected, the images were measured, the machine configuration was written,
/// the daemon was spawned as the machine's process and was not found gone, and
/// the configuration and the boot succeeded.
pub open spec fn worked(
    id: Seq<char>,
    vsock_cid: u32,
    plan: pool::DiskPlanView,
    steps: Seq<StartStepView>,
    events: Seq<StartEvent>,
    pid: u32,
) -> bool {
    let n = events.len() as int;
    &&& n == if plan.rootfs is Some {
        10int
    } else {
        9int
    }
    &&& events[0] is DisksPrepared
    &&& steps[1].1 == (StartActionView::WriteFile {
        path: start::in_work_dir(start::mediate_filename(id)),
        content: json::json_text(kata::mediate_config(plan.mediated())),
    })
    &&& events[1] == StartEvent::Wrote(WriteOutcome::Written)
    &&& events[2] matches StartEvent::Read(ReadOutcome::Content(text))
    &&& json::json_parsed(text@) matches Ok(template)
    &&& plan.rootfs is Some ==> events[3] is Inspected
    &&& events[n - 6] matches StartEvent::Measured { rootfs, fallback, pool }
    &&& kata::template_has_place(template, kata::root_size(rootfs, fallback))
    &&& steps[n - 5].1 == (StartActionView::WriteFile {
        path: start::in_work_dir(start::kata_filename(id)),
        content: json::json_text(
            kata::kata_config(
                template,
                SettingsView {
                    partitioned: match events[3] {
                        StartEvent::Inspected(output) => kata::is_partitioned(
                            output.deep_view(),
                        ),
                        _ => false,
                    },
                    vsock_cid,
                    rootfs_size: kata::root_size(rootfs, fallback),
                    pool_sizes: kata::pool_sizes(pool@),
                },
            ),
        ),
    })
    &&& events[n - 5] == StartEvent::Wrote(WriteOutcome::Written)
    &&& events[n - 4] == StartEvent::Spawned(Some(pid))
    &&& not_gone(events[n - 3])
    &&& succeeded(events[n - 2])
    &&& succeeded(events[n - 1])
}

/// The steps of a start, from the first to where it stands after the last event.
pub open spec fn steps_of(
    id: Seq<char>,
    vsock_cid: u32,
    first: StartStepView,
    events: Seq<StartEvent>,
) -> Seq<StartStepView> {
    Seq::new(events.len() + 1, |k: int| run(id, vsock_cid, first, events.take(k)))
}

/// Whether some steps are those through which events take a start.
spec fn are_steps(
    id: Seq<char>,
    vsock_cid: u32,
    steps: Seq<StartStepView>,
    events: Seq<StartEvent>,
) -> bool {
    &&& steps.len() == events.len() + 1
    &&& forall|k: int|
        0 <= k < events.len() ==> start::answers(steps[k].0, #[trigger] events[k]) && steps[k + 1]
            == start::next_step(id, vsock_cid, steps[k].0, events[k])
}

/// The steps that lead to a machine that counts as started, told from the last
/// one back to the first.
proof fn lemma_steps_to_started(
    id: Seq<char>,
    vsock_cid: u32,
    plan: pool::DiskPlanView,
    steps: Seq<StartStepView>,
    events: Seq<StartEvent>,
    pid: u32,
)
    requires
        are_steps(id, vsock_cid, steps, events),
        steps[0] == start::first_step(plan),
        steps.last().1 == (StartActionView::Started { pid }),
    ensures
        worked(id, vsock_cid, plan, steps, events, pid),
{
    let n = events.len() as int;
    assert(n > 0);
    assert(start::answers(steps[n - 1].0, events[n - 1]));
    assert(steps[n - 1].0 == (StartStateView::Booting { pid }));
    assert(start::answers(steps[n - 2].0, events[n - 2]));
    assert(steps[n - 2].0 == (StartStateView::Configuring { pid }));
    assert(start::answers(steps[n - 3].0, events[n - 3]));
    assert(steps[n - 3].0 == (StartStateView::Settling { pid }));
    assert(start::answers(steps[n - 4].0, events[n - 4]));
    assert(steps[n - 4].0 is Spawning);
    assert(start::answers(steps[n - 5].0, events[n - 5]));
    assert(steps[n - 5].0 is WritingKata);
    assert(start::answers(steps[n - 6].0, events[n - 6]));
    assert(steps[n - 6].0 is Measuring);
    assert(start::answers(steps[n - 7].0, events[n - 7]));
    let m = if steps[n - 7].0 is Inspecting {
        n - 7
    } else {
        n - 6
    };
    assert(start::answers(steps[m - 1].0, events[m - 1]));
    assert(steps[m - 1].0 is ReadingTemplate);
    assert(start::answers(steps[m - 2].0, events[m - 2]));
    assert(steps[m - 2].0 is WritingMediate);
    assert(start::answers(steps[m - 3].0, events[m - 3]));
    assert(steps[m - 3].0 is Preparing);
    if m > 3 {
        assert(start::answers(steps[m - 4].0, events[m - 4]));
    }
    assert(m == 3);
}

/// A machine counts as started only where everything before worked.
pub proof fn law_started_only_after_all(
    id: Seq<char>,
    vsock_cid: u32,
    plan: pool::DiskPlanView,
    events: Seq<StartEvent>,
    pid: u32,
)
    requires
        all_answer(id, vsock_cid, start::first_step(plan), events),
        run(id, vsock_cid, start::first_step(plan), events).1 == (StartActionView::Started { pid }),
    ensures
        worked(
            id,
            vsock_cid,
            plan,
            steps_of(id, vsock_cid, start::first_step(plan), events),
            events,
            pid,
        ),
{
    let first = start::first_step(plan);
    let steps = steps_of(id, vsock_cid, first, events);
    assert(events.take(events.len() as int) =~= events);
    assert forall|k: int| 0 <= k < events.len() implies start::answers(
        steps[k].0,
        #[trigger] events[k],
    ) && steps[k + 1] == start::next_step(id, vsock_cid, steps[k].0, events[k]) by {
        lemma_run_step(id, vsock_cid, first, events, k);
    }
    lemma_steps_to_started(id, vsock_cid, plan, steps, events, pid);
}

/// Only the last step of a start that succeeds changes the machine, and a start
/// is over exactly where it failed or succeeded.
pub proof fn law_only_success_changes_machine(
    vm: ShyperInnerView,
    state: StartStateView,
    event: StartEvent,
)
    requires
        start::answers(state, event),
    ensures
        ({
            let step = start::next_step(vm.id, vm.vsock_cid, state, event);
            &&& vm.after_step(step.1) != vm ==> step.1 is Started
            &&& step.1 is Started ==> state is Booting && succeeded(event) && step.0 is Ended
            &&& step.1 is Fail ==> step.0 is Ended && vm.after_step(step.1) == vm
            &&& step.0 is Ended ==> step.1 is Fail || step.1 is Started
        }),
{
}

/// A machine after its start began and some events came in.
pub open spec fn machine_after(
    vm: ShyperInnerView,
    first: StartStepView,
    events: Seq<StartEvent>,
) -> ShyperInnerView
    decreases events.len(),
{
    if events.len() == 0 {
        vm.starting()
    } else {
        machine_after(vm, first, events.drop_last()).after_step(
            run(vm.id, vm.vsock_cid, first, events).1,
        )
    }
}

/// A start that has not succeeded, be it under way or failed, leaves the machine
/// as it was when the start began; one that succeeded has made the daemon its
/// process and changed nothing else.
pub proof fn law_failed_start_leaves_machine(vm: ShyperInnerView, events: Seq<StartEvent>)
    requires
        all_answer(
            vm.id,
            vm.vsock_cid,
            start::first_step(pool::disk_plan(vm.pending_disks())),
            events,
        ),
    ensures
        ({
            let first = start::first_step(pool::disk_plan(vm.pending_disks()));
            match run(vm.id, vm.vsock_cid, first, events).1 {
                StartActionView::Started { pid } => machine_after(vm, first, events) == (
                ShyperInnerView { vm_process: Some(pid), ..vm.starting() }),
                _ => machine_after(vm, first, events) == vm.starting(),
            }
        }),
    decreases events.len(),
{
    if events.len() > 0 {
        let first = start::first_step(pool::disk_plan(vm.pending_disks()));
        let before = events.drop_last();
        law_failed_start_leaves_machine(vm, before);
        assert(all_answer(vm.id, vm.vsock_cid, first, before));
        assert(start::answers(run(vm.id, vm.vsock_cid, first, before).0, events.last()));
        if before.len() > 0 {
            assert(!(run(vm.id, vm.vsock_cid, first, before).1 is Started)) by {
                assert(start::answers(
                    run(vm.id, vm.vsock_cid, first, before.drop_last()).0,
                    before.last(),
                ));
                law_only_success_changes_machine(
                    vm,
                    run(vm.id, vm.vsock_cid, first, before.drop_last()).0,
                    before.last(),
                );
            }
        }
    }
}

/// The daemon is killed exactly where the configuration or the boot of the
/// machine was run and failed.
pub proof fn law_daemon_killed_after_failed_command(
    id: Seq<char>,
    vsock_cid: u32,
    state: StartStateView,
    event: StartEvent,
)
    requires
        start::answers(state, event),
    ensures
        (start::next_step(id, vsock_cid, state, event).1 matches StartActionView::Fail {
            kill_daemon,
            ..
        } && kill_daemon) <==> (state is Configuring || state is Booting) && (
        event matches StartEvent::Ran(RunOutcome::Ended { success, .. }) && !success),
{
}

/// How far a start is from its end: every step brings it nearer.
pub open spec fn steps_left(state: StartStateView) -> nat {
    match state {
        StartStateView::Preparing { .. } => 10,
        StartStateView::WritingMediate { .. } => 9,
        StartStateView::ReadingTemplate { .. } => 8,
        StartStateView::Inspecting { .. } => 7,
        StartStateView::Measuring { .. } => 6,
        StartStateView::WritingKata => 5,
        StartStateView::Spawning => 4,
        StartStateView::Settling { .. } => 3,
        StartStateView::Configuring { .. } => 2,
        StartStateView::Booting { .. } => 1,
        StartStateView::Ended => 0,
    }
}

/// A start comes to its end: each step leaves fewer of them.
pub proof fn law_start_ends(
    id: Seq<char>,
    vsock_cid: u32,
    state: StartStateView,
    event: StartEvent,
)
    requires
        start::answers(state, event),
    ensures
        steps_left(start::next_step(id, vsock_cid, state, event).0) < steps_left(state),
{
}

/// Ten events at most bring a start to its end.
pub proof fn law_start_takes_few_events(
    id: Seq<char>,
    vsock_cid: u32,
    plan: pool::DiskPlanView,
    events: Seq<StartEvent>,
)
    requires
        all_answer(id, vsock_cid, start::first_step(plan), events),
    ensures
        events.len() <= 10,
        events.len() + steps_left(run(id, vsock_cid, start::first_step(plan), events).0) <= 10,
    decreases events.len(),
{
    if events.len() > 0 {
        let first = start::first_step(plan);
        law_start_takes_few_events(id, vsock_cid, plan, events.drop_last());
        law_start_ends(
            id,
            vsock_cid,
            run(id, vsock_cid, first, events.drop_last()).0,
            events.last(),
        );
    }
}

/// A start in which everything works: the mediated disk list of the queued disks
/// is written, the template is read, the machine configuration that it makes for
/// this machine is written, the daemon is spawned and looked after, the machine
/// is configured and booted, and the daemon becomes its process. A root image
/// that was queued is inspected on the way.
pub proof fn law_start_that_works(
    vm: ShyperInnerView,
    template_text: Vec<u8>,
    inspected: Option<Vec<u8>>,
    rootfs: Option<u64>,
    fallback: Option<u64>,
    pool_found: [Option<u64>; pool::DISK_POOL_SIZE],
    pid: u32,
    poll: DaemonPoll,
    config_err: Vec<u8>,
    boot_err: Vec<u8>,
)
    requires
        ({
            let size = kata::root_size(rootfs, fallback);
            let template = json::json_parsed(template_text@);
            &&& template matches Ok(document)
            &&& kata::template_has_place(document, size)
            &&& !(poll is Exited)
        }),
    ensures
        ({
            let plan = pool::disk_plan(vm.pending_disks());
            let settings = SettingsView {
                partitioned: plan.rootfs is Some && kata::is_partitioned(inspected.deep_view()),
                vsock_cid: vm.vsock_cid,
                rootfs_size: kata::root_size(rootfs, fallback),
                pool_sizes: kata::pool_sizes(pool_found@),
            };
            let id = vm.id;
            let cid = vm.vsock_cid;
            let s0 = start::first_step(plan);
            let s1 = start::next_step(id, cid, s0.0, StartEvent::DisksPrepared);
            let s2 = start::next_step(id, cid, s1.0, StartEvent::Wrote(WriteOutcome::Written));
            let s3 = start::next_step(
                id,
                cid,
                s2.0,
                StartEvent::Read(ReadOutcome::Content(template_text)),
            );
            let s4 = if plan.rootfs is Some {
                start::next_step(id, cid, s3.0, StartEvent::Inspected(inspected))
            } else {
                s3
            };
            let s5 = start::next_step(
                id,
                cid,
                s4.0,
                StartEvent::Measured { rootfs, fallback, pool: pool_found },
            );
            let s6 = start::next_step(id, cid, s5.0, StartEvent::Wrote(WriteOutcome::Written));
            let s7 = start::next_step(id, cid, s6.0, StartEvent::Spawned(Some(pid)));
            let s8 = start::next_step(id, cid, s7.0, StartEvent::Polled(poll));
            let s9 = start::next_step(
                id,
                cid,
                s8.0,
                StartEvent::Ran(RunOutcome::Ended { success: true, stderr: config_err }),
            );
            let s10 = start::next_step(
                id,
                cid,
                s9.0,
                StartEvent::Ran(RunOutcome::Ended { success: true, stderr: boot_err }),
            );
            &&& s0.1 == StartActionView::PrepareDisks(pool::placeholders(plan.dummies))
            &&& s1.1 == (StartActionView::WriteFile {
                path: start::in_work_dir(start::mediate_filename(id)),
                content: json::json_text(kata::mediate_config(plan.mediated())),
            })
            &&& s2.1 == (StartActionView::ReadFile { path: start::in_work_dir("kata.json"@) })
            &&& plan.rootfs matches Some(path) ==> s3.1 == StartActionView::Inspect(
                command::inspect_command(path),
            )
            &&& s4.1 == (StartActionView::Measure {
                rootfs: plan.root_image(),
                fallback: start::in_work_dir(plan.root_image()),
                pool: plan.pool,
            })
            &&& s5.1 == (StartActionView::WriteFile {
                path: start::in_work_dir(start::kata_filename(id)),
                content: json::json_text(
                    kata::kata_config(json::json_parsed(template_text@)->Ok_0, settings),
                ),
            })
            &&& s6.1 == (StartActionView::Spawn {
                daemon: command::daemon_command(start::mediate_filename(id)),
                stdout: start::stdout_log(id),
                stderr: start::stderr_log(id),
            })
            &&& s7.1 == (StartActionView::Poll { delay_ms: start::DAEMON_SETTLE_MS })
            &&& s8.1 == StartActionView::Run(command::config_command(start::kata_filename(id)))
            &&& s9.1 == StartActionView::Run(command::boot_command())
            &&& s10.1 == (StartActionView::Started { pid })
            &&& vm.starting().after_step(s10.1).vm_process == Some(pid)
        }),
{
}

} // verus!
