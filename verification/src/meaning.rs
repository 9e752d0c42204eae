//! What the operations of the driver come to, told by their inputs and results
//! alone: by the very texts and numbers that the hypervisor, its tool and the
//! agent see.

use vstd::prelude::*;

use crate::command;
use crate::command::{CommandLine, CommandView};
use crate::device;
use crate::device::{BlockDevice, DeviceType, VsockDevice};
use crate::error::ShyperError;
use crate::inner;
use crate::inner::{ShyperInner, ShyperInnerView};
use crate::json::{Json, JsonNumber};
use crate::kata;
use crate::kata::SettingsView;
use crate::pool;
use crate::text;

verus! {

// ---- Numbers as text ----

/// The number that one digit stands for.
pub open spec fn digit_value(c: char) -> int {
    if '0' <= c <= '9' {
        c as int - '0' as int
    } else {
        c as int - 'a' as int + 10
    }
}

/// The number that some digits stand for in a base.
pub open spec fn read_number(digits: Seq<char>, base: int) -> int
    decreases digits.len(),
{
    if digits.len() == 0 {
        0
    } else {
        read_number(digits.drop_last(), base) * base + digit_value(digits.last())
    }
}

/// Whether a text is how a number is written in decimal: decimal digits only, at
/// least one, none too many in front, and they read back as the number.
pub open spec fn is_decimal(digits: Seq<char>, n: int) -> bool {
    &&& digits.len() > 0
    &&& forall|i: int| 0 <= i < digits.len() ==> '0' <= #[trigger] digits[i] <= '9'
    &&& digits.len() > 1 ==> digits[0] != '0'
    &&& read_number(digits, 10) == n
}

/// Whether a text is how a number is written in hexadecimal, in lower case.
pub open spec fn is_hex(digits: Seq<char>, n: int) -> bool {
    &&& digits.len() > 0
    &&& forall|i: int|
        0 <= i < digits.len() ==> '0' <= #[trigger] digits[i] <= '9' || 'a' <= digits[i] <= 'f'
    &&& digits.len() > 1 ==> digits[0] != '0'
    &&& read_number(digits, 16) == n
}

proof fn lemma_digit(d: nat)
    requires
        d < 16,
    ensures
        digit_value(text::digit_char(d)) == d,
        d < 10 ==> '0' <= text::digit_char(d) <= '9',
        '0' <= text::digit_char(d) <= '9' || 'a' <= text::digit_char(d) <= 'f',
        d > 0 ==> text::digit_char(d) != '0',
{
}

proof fn lemma_digits_read_back(n: nat, base: nat)
    requires
        2 <= base <= 16,
    ensures
        text::digits(n, base).len() > 0,
        read_number(text::digits(n, base), base as int) == n,
        n > 0 ==> text::digits(n, base)[0] != '0',
        n < base ==> text::digits(n, base).len() == 1,
        forall|i: int|
            0 <= i < text::digits(n, base).len() ==> {
                &&& base <= 10 ==> '0' <= #[trigger] text::digits(n, base)[i] <= '9'
                &&& '0' <= text::digits(n, base)[i] <= '9' || 'a' <= text::digits(n, base)[i] <= 'f'
            },
    decreases n,
{
    let all = text::digits(n, base);
    if n < base {
        lemma_digit(n);
        assert(all == seq![text::digit_char(n)]);
        assert(all.drop_last() =~= Seq::<char>::empty());
        assert(read_number(all.drop_last(), base as int) == 0);
        assert(read_number(all, base as int) == 0 * base + digit_value(all.last()));
    } else {
        vstd::arithmetic::div_mod::lemma_div_decreases(n as int, base as int);
        vstd::arithmetic::div_mod::lemma_mod_bound(n as int, base as int);
        vstd::arithmetic::div_mod::lemma_fundamental_div_mod(n as int, base as int);
        vstd::arithmetic::div_mod::lemma_div_non_zero(n as int, base as int);
        lemma_digits_read_back(n / base, base);
        lemma_digit(n % base);
        let front = text::digits(n / base, base);
        assert(all == front.push(text::digit_char(n % base)));
        assert(all.drop_last() =~= front);
        assert(all.last() == text::digit_char(n % base));
        assert((n / base) * base == base * (n / base)) by (nonlinear_arith);
        assert forall|i: int| 0 <= i < all.len() implies {
            &&& base <= 10 ==> '0' <= #[trigger] all[i] <= '9'
            &&& '0' <= all[i] <= '9' || 'a' <= all[i] <= 'f'
        } by {
            if i < front.len() {
                assert(all[i] == front[i]);
            }
        }
        assert(all[0] == front[0]);
    }
}

/// A number written in decimal reads back as the number, and so does one written
/// in hexadecimal.
pub proof fn law_numbers_read_back(n: nat)
    ensures
        is_decimal(text::decimal_of(n), n as int),
        is_hex(text::hex_of(n), n as int),
{
    lemma_digits_read_back(n, 10);
    lemma_digits_read_back(n, 16);
}

/// The address of the agent names the context identifier in decimal.
pub proof fn law_address_names_cid(vsock_cid: u32)
    ensures
        exists|digits: Seq<char>| #[trigger]
            is_decimal(digits, vsock_cid as int) && inner::agent_socket(vsock_cid) == "vsock://"@
                + digits + ":1024"@,
{
    law_numbers_read_back(vsock_cid as nat);
    assert(is_decimal(text::decimal_of(vsock_cid as nat), vsock_cid as int));
}

/// A vsock device that assigns a context identifier puts it into the address of
/// the agent, in decimal; a machine to which none was assigned has the third.
pub proof fn law_vsock_device_sets_address(vm: ShyperInnerView, vsock: VsockDevice)
    ensures
        vsock.config.guest_cid != u32::MAX ==> exists|digits: Seq<char>| #[trigger]
            is_decimal(digits, vsock.config.guest_cid as int) && inner::agent_socket(
                vm.queued(DeviceType::Vsock(vsock)).vsock_cid,
            ) == "vsock://"@ + digits + ":1024"@,
        vsock.config.guest_cid == u32::MAX ==> vm.queued(DeviceType::Vsock(vsock)).vsock_cid
            == vm.vsock_cid,
        inner::fresh(vm.config).vsock_cid == 3,
{
    law_address_names_cid(vsock.config.guest_cid);
}

/// The address that a machine gives for its agent, as it is given.
pub proof fn law_given_address(vm: ShyperInner, address: Result<String, ShyperError>)
    requires
        call_ensures(ShyperInner::get_agent_socket, (&vm,), address),
    ensures
        address is Ok,
        exists|digits: Seq<char>| #[trigger]
            is_decimal(digits, vm@.vsock_cid as int) && address->Ok_0@ == "vsock://"@ + digits
                + ":1024"@,
{
    law_address_names_cid(vm@.vsock_cid);
}

/// The path to the namespaces of a process names it twice, in decimal.
pub proof fn law_namespaces_name_process(pid: u32)
    ensures
        exists|digits: Seq<char>| #[trigger]
            is_decimal(digits, pid as int) && inner::ns_path(pid) == "/proc/"@ + digits + "/task/"@
                + digits + "/ns"@,
{
    law_numbers_read_back(pid as nat);
    assert(is_decimal(text::decimal_of(pid as nat), pid as int));
}

// ---- Search and replacement ----

/// A text occurs in another exactly where the other is made of something before
/// it, the text itself, and something after it.
pub proof fn law_occurrence_has_two_sides(s: Seq<char>, pattern: Seq<char>)
    ensures
        text::contains_text(s, pattern) <==> exists|before: Seq<char>, after: Seq<char>|
            s == #[trigger] (before + pattern + after),
{
    if text::contains_text(s, pattern) {
        let at = choose|at: int| text::occurs_at(s, pattern, at);
        let before = s.take(at);
        let after = s.skip(at + pattern.len());
        assert(s =~= before + pattern + after);
    }
    if exists|before: Seq<char>, after: Seq<char>| s == #[trigger] (before + pattern + after) {
        let (before, after) = choose|before: Seq<char>, after: Seq<char>|
            s == #[trigger] (before + pattern + after);
        let at = before.len() as int;
        assert(s.subrange(at, at + pattern.len()) =~= pattern);
        assert(text::occurs_at(s, pattern, at));
    }
}

/// The first occurrence of a text is replaced, what stands before it stays, and
/// the replacement goes on behind it.
pub proof fn law_replace_goes_on_behind(
    before: Seq<char>,
    from: Seq<char>,
    to: Seq<char>,
    after: Seq<char>,
)
    requires
        from.len() > 0,
        !text::contains_text((before + from).drop_last(), from),
    ensures
        text::replaced(before + from + after, from, to) == before + to + text::replaced(
            after,
            from,
            to,
        ),
    decreases before.len(),
{
    let s = before + from + after;
    if before.len() == 0 {
        assert(s.subrange(0, from.len() as int) =~= from);
        assert(text::occurs_at(s, from, 0));
        assert(s.skip(from.len() as int) =~= after);
        assert(before + to + text::replaced(after, from, to) =~= to + text::replaced(
            after,
            from,
            to,
        ));
    } else {
        let head = (before + from).drop_last();
        if text::occurs_at(s, from, 0) {
            assert(head.subrange(0, from.len() as int) =~= s.subrange(0, from.len() as int));
            assert(text::occurs_at(head, from, 0));
        }
        let rest = before.skip(1);
        let tail = (rest + from).drop_last();
        assert forall|at: int| !text::occurs_at(tail, from, at) by {
            if text::occurs_at(tail, from, at) {
                assert(head.subrange(at + 1, at + 1 + from.len()) =~= tail.subrange(
                    at,
                    at + from.len(),
                ));
                assert(text::occurs_at(head, from, at + 1));
            }
        }
        law_replace_goes_on_behind(rest, from, to, after);
        assert(s.skip(1) =~= rest + from + after);
        assert(seq![s[0]] + (rest + to + text::replaced(after, from, to)) =~= before + to
            + text::replaced(after, from, to));
    }
}

// ---- The queued disks ----

/// How many of the first devices are disks.
pub open spec fn disks_before(devices: Seq<DeviceType>, k: int) -> int
    decreases k,
{
    if k <= 0 {
        0
    } else {
        disks_before(devices, k - 1) + if devices[k - 1] is Block {
            1int
        } else {
            0int
        }
    }
}

proof fn lemma_disks_before(devices: Seq<DeviceType>, more: Seq<DeviceType>, k: int)
    requires
        0 <= k <= devices.len(),
        k <= more.len(),
        devices.take(k) == more.take(k),
    ensures
        disks_before(devices, k) == disks_before(more, k),
        0 <= disks_before(devices, k) <= k,
    decreases k,
{
    if k > 0 {
        assert(devices[k - 1] == devices.take(k)[k - 1]);
        assert(more[k - 1] == more.take(k)[k - 1]);
        assert(devices.take(k - 1) =~= devices.take(k).take(k - 1));
        assert(more.take(k - 1) =~= more.take(k).take(k - 1));
        lemma_disks_before(devices, more, k - 1);
    }
}

/// Each disk among some devices gives one path, its own, at the place that the
/// number of disks before it tells, whatever index the disk was assigned; no
/// other device gives any.
pub proof fn law_each_disk_gives_its_path(devices: Seq<DeviceType>)
    ensures
        device::block_paths(devices).len() == disks_before(devices, devices.len() as int),
        forall|k: int|
            0 <= k < devices.len() ==> (#[trigger] devices[k] matches DeviceType::Block(disk) ==> {
                &&& 0 <= disks_before(devices, k) < device::block_paths(devices).len()
                &&& device::block_paths(devices)[disks_before(devices, k)]
                    == disk.config.path_on_host@
            }),
    decreases devices.len(),
{
    let paths = device::block_paths(devices);
    if devices.len() > 0 {
        let front = devices.drop_last();
        let last = devices.len() - 1;
        law_each_disk_gives_its_path(front);
        assert(front.take(last) =~= devices.take(last));
        lemma_disks_before(front, devices, last);
        assert forall|k: int| 0 <= k < devices.len() implies (
        #[trigger] devices[k] matches DeviceType::Block(disk) ==> {
            &&& 0 <= disks_before(devices, k) < paths.len()
            &&& paths[disks_before(devices, k)] == disk.config.path_on_host@
        }) by {
            if k < last {
                assert(front[k] == devices[k]);
                assert(front.take(k) =~= devices.take(k));
                lemma_disks_before(front, devices, k);
            }
        }
    }
}

/// The paths that are collected from some devices, as they are collected.
pub proof fn law_collected_paths(devices: Vec<DeviceType>, paths: Vec<String>, k: int)
    requires
        call_ensures(device::collect_block_paths, (&devices,), paths),
        0 <= k < devices@.len(),
    ensures
        paths@.len() == disks_before(devices@, devices@.len() as int),
        devices@[k] matches DeviceType::Block(disk) ==> {
            &&& 0 <= disks_before(devices@, k) < paths@.len()
            &&& paths@[disks_before(devices@, k)]@ == disk.config.path_on_host@
        },
{
    law_each_disk_gives_its_path(devices@);
    assert(paths.deep_view().len() == paths@.len());
    assert(devices@[k] is Block ==> paths.deep_view()[disks_before(devices@, k)]
        == paths@[disks_before(devices@, k)]@);
}

/// Queuing a disk puts its path behind those of the disks that wait, whatever
/// its index; queuing another device leaves them, and a new machine has none.
pub proof fn law_queued_disk_comes_last(vm: ShyperInnerView, device: DeviceType)
    ensures
        vm.queued(device).pending_disks() == match device {
            DeviceType::Block(disk) => vm.pending_disks().push(disk.config.path_on_host@),
            _ => vm.pending_disks(),
        },
        inner::fresh(vm.config).pending_disks() == Seq::<Seq<char>>::empty(),
{
    let devices = vm.pending_devices.push(device);
    assert(devices.drop_last() =~= vm.pending_devices);
    assert(vm.queued(device).pending_devices == devices);
}

/// The disks that a machine is started with: the first disk of its queue is the
/// root disk, the two after it are the pool disks, and what is missing is made
/// up by the default root image and by the placeholders of the places.
pub proof fn law_disks_of_a_start(blocks: Seq<Seq<char>>)
    ensures
        ({
            let plan = pool::disk_plan(blocks);
            let list = plan.mediated();
            &&& list.len() == 3
            &&& list[0] == if blocks.len() > 0 {
                blocks[0]
            } else {
                "kata-containers-nopart.img"@
            }
            &&& list[1] == if blocks.len() > 1 {
                blocks[1]
            } else {
                "/root/taishan200-boot/gvm/dummy_disk_0.img"@
            }
            &&& list[2] == if blocks.len() > 2 {
                blocks[2]
            } else {
                "/root/taishan200-boot/gvm/dummy_disk_1.img"@
            }
            &&& plan.rootfs == if blocks.len() > 0 {
                Some(blocks[0])
            } else {
                None
            }
            &&& plan.root_image() == list[0]
            &&& plan.pool == list.skip(1)
            &&& plan.dummies == list.skip(
                if blocks.len() <= 1 {
                    1
                } else if blocks.len() == 2 {
                    2
                } else {
                    3
                },
            )
        }),
{
    reveal_strlit("/root/taishan200-boot/gvm");
    reveal_strlit("/dummy_disk_");
    reveal_strlit(".img");
    reveal_strlit("/root/taishan200-boot/gvm/dummy_disk_0.img");
    reveal_strlit("/root/taishan200-boot/gvm/dummy_disk_1.img");
    assert(text::decimal_of(0) =~= seq!['0']);
    assert(text::decimal_of(1) =~= seq!['1']);
    assert(pool::dummy_path(0) =~= "/root/taishan200-boot/gvm/dummy_disk_0.img"@);
    assert(pool::dummy_path(1) =~= "/root/taishan200-boot/gvm/dummy_disk_1.img"@);
    let plan = pool::disk_plan(blocks);
    assert(plan.pool =~= plan.mediated().skip(1));
    assert(plan.dummies =~= plan.mediated().skip(pool::filled(blocks) + 1));
}

/// The first disk that waits becomes the root disk, whatever its index and
/// whatever other devices wait with it.
pub proof fn law_first_disk_is_root(devices: Seq<DeviceType>, k: int, disk: BlockDevice)
    requires
        0 <= k < devices.len(),
        devices[k] == DeviceType::Block(disk),
        forall|i: int| 0 <= i < k ==> !(#[trigger] devices[i] is Block),
    ensures
        pool::disk_plan(device::block_paths(devices)).mediated()[0] == disk.config.path_on_host@,
{
    law_each_disk_gives_its_path(devices);
    lemma_no_disks_before(devices, k);
    law_disks_of_a_start(device::block_paths(devices));
}

proof fn lemma_no_disks_before(devices: Seq<DeviceType>, k: int)
    requires
        0 <= k <= devices.len(),
        forall|i: int| 0 <= i < k ==> !(#[trigger] devices[i] is Block),
    ensures
        disks_before(devices, k) == 0,
    decreases k,
{
    if k > 0 {
        lemma_no_disks_before(devices, k - 1);
        assert(!(devices[k - 1] is Block));
    }
}

/// Beginning a start puts each pool disk of the queue into its slot where that
/// is free, and changes nothing else of the machine.
pub proof fn law_start_fills_free_slots(vm: ShyperInnerView, slot: int)
    requires
        vm.wf(),
        0 <= slot < 2,
    ensures
        vm.starting().device_slots.len() == 2,
        vm.starting().device_slots[slot] == if vm.device_slots[slot] is Some {
            vm.device_slots[slot]
        } else if slot + 1 < vm.pending_disks().len() {
            Some(vm.pending_disks()[slot + 1])
        } else {
            None
        },
        vm.starting().vm_process == vm.vm_process,
        vm.starting().config == vm.config,
        vm.starting().pending_devices == vm.pending_devices,
        vm.starting().id == vm.id,
        vm.starting().vsock_cid == vm.vsock_cid,
{
}

/// The placeholder images of a start, each a file of ten gibibytes on which
/// `mkfs.ext4` makes a file system, are those of its plan, in order.
pub proof fn law_placeholders_are_formatted(paths: Seq<Seq<char>>, i: int)
    requires
        0 <= i < paths.len(),
    ensures
        pool::placeholders(paths).len() == paths.len(),
        pool::placeholders(paths)[i].path == paths[i],
        pool::placeholders(paths)[i].length == 10 * 1024 * 1024 * 1024,
        pool::placeholders(paths)[i].make_filesystem == (CommandView {
            program: "mkfs.ext4"@,
            args: seq!["-F"@, paths[i]],
            dir: None,
        }),
{
}

// ---- Hotplug ----

/// A first free slot is free and every slot before it is taken; a pool is full
/// where no slot is free. A slot that gets an image holds it, and the rest of
/// the machine stays as it is.
pub proof fn law_hotplug_takes_the_first_free_slot(
    vm: ShyperInnerView,
    slot: int,
    other: int,
    path: Seq<char>,
)
    requires
        0 <= other < vm.device_slots.len(),
    ensures
        pool::is_first_free(vm.device_slots, slot) ==> {
            &&& 0 <= slot < vm.device_slots.len()
            &&& vm.device_slots[slot] is None
            &&& other < slot ==> vm.device_slots[other] is Some
            &&& vm.plugged(slot, path).device_slots.len() == vm.device_slots.len()
            &&& vm.plugged(slot, path).device_slots[other] == if other == slot {
                Some(path)
            } else {
                vm.device_slots[other]
            }
            &&& vm.plugged(slot, path).vm_process == vm.vm_process
            &&& vm.plugged(slot, path).config == vm.config
            &&& vm.plugged(slot, path).pending_devices == vm.pending_devices
            &&& vm.plugged(slot, path).id == vm.id
            &&& vm.plugged(slot, path).vsock_cid == vm.vsock_cid
        },
        pool::pool_full(vm.device_slots) ==> vm.device_slots[other] is Some,
        !pool::pool_full(vm.device_slots) ==> exists|i: int|
            0 <= i < vm.device_slots.len() && (#[trigger] vm.device_slots[i]) is None,
{
}

/// The command that puts a disk into a slot tells the hypervisor's tool the
/// place that the slot has behind the root disk, in decimal, and the disk's own
/// path, whatever that is.
pub proof fn law_replacement_tells_slot_and_path(slot: int, path: Seq<char>)
    requires
        slot >= 0,
    ensures
        ({
            let made = command::replace_disk_command(pool::config_id(slot) as nat, path);
            &&& made.program == "./shyper"@
            &&& made.dir == Some("/root/taishan200-boot/gvm"@)
            &&& made.args.len() == 5
            &&& made.args[0] == "vm"@
            &&& made.args[1] == "replace-disk"@
            &&& made.args[2] == "1"@
            &&& is_decimal(made.args[3], slot + 1)
            &&& made.args[4] == path
        }),
{
    law_numbers_read_back((slot + 1) as nat);
}

/// The commands that put disks into different slots differ in the slot that they
/// tell, whatever the disks are, and commands that put different disks into
/// slots differ in the disk.
pub proof fn law_replacements_are_told_apart(
    slot: int,
    path: Seq<char>,
    other_slot: int,
    other_path: Seq<char>,
)
    requires
        slot >= 0,
        other_slot >= 0,
    ensures
        ({
            let a = command::replace_disk_command(pool::config_id(slot) as nat, path);
            let b = command::replace_disk_command(pool::config_id(other_slot) as nat, other_path);
            &&& slot != other_slot ==> a.args[3] != b.args[3]
            &&& slot == other_slot ==> a.args[3] == b.args[3]
            &&& path != other_path ==> a.args[4] != b.args[4]
        }),
{
    law_replacement_tells_slot_and_path(slot, path);
    law_replacement_tells_slot_and_path(other_slot, other_path);
}

/// Two disks that are added to a running machine one after the other go to two
/// slots, the second behind the first, and their commands tell these slots.
pub proof fn law_two_added_disks_go_to_two_slots(
    vm: ShyperInnerView,
    slot: int,
    path: Seq<char>,
    next_slot: int,
    next_path: Seq<char>,
)
    requires
        pool::is_first_free(vm.device_slots, slot),
        pool::is_first_free(vm.plugged(slot, path).device_slots, next_slot),
    ensures
        slot < next_slot,
        vm.plugged(slot, path).plugged(next_slot, next_path).device_slots[slot] == Some(path),
        vm.plugged(slot, path).plugged(next_slot, next_path).device_slots[next_slot] == Some(
            next_path,
        ),
        is_decimal(
            command::replace_disk_command(pool::config_id(slot) as nat, path).args[3],
            slot + 1,
        ),
        is_decimal(
            command::replace_disk_command(pool::config_id(next_slot) as nat, next_path).args[3],
            next_slot + 1,
        ),
{
    law_replacement_tells_slot_and_path(slot, path);
    law_replacement_tells_slot_and_path(next_slot, next_path);
    if next_slot < slot {
        assert(vm.device_slots[next_slot] is Some);
    }
}

/// What the command to replace a disk looks like, as it is made.
pub proof fn law_made_replacement(config_id: u64, path: String, made: CommandLine)
    requires
        call_ensures(command::replace_disk, (config_id, path), made),
    ensures
        made.program@ == "./shyper"@,
        made.dir matches Some(dir) && dir@ == "/root/taishan200-boot/gvm"@,
        made.args@.len() == 5,
        made.args@[0]@ == "vm"@,
        made.args@[1]@ == "replace-disk"@,
        made.args@[2]@ == "1"@,
        is_decimal(made.args@[3]@, config_id as int),
        made.args@[4]@ == path@,
{
    law_numbers_read_back(config_id as nat);
    assert(made.args.deep_view().len() == 5);
    assert forall|i: int| 0 <= i < 5 implies #[trigger] made.args@[i]@ == made.args.deep_view()[i]
        by {}
}

// ---- The mediated disk list ----

/// A member of an object, `None` where there is none.
pub open spec fn at(v: Json, key: Seq<char>) -> Option<Json> {
    match v {
        Json::Object(m) => if m.contains_key(key) {
            Some(m[key])
        } else {
            None
        },
        _ => None,
    }
}

/// An integer as a JSON value.
pub open spec fn int_value(n: int) -> Json {
    Json::Number(JsonNumber::Int(n))
}

/// The document of the mediated disk list is an object with the one member
/// `mediated`, an array of the disks' paths in order.
pub proof fn law_mediated_document(list: Seq<Seq<char>>, key: Seq<char>)
    ensures
        kata::mediate_config(list) is Object,
        at(kata::mediate_config(list), "mediated"@) matches Some(Json::Array(paths)) && {
            &&& paths.len() == list.len()
            &&& forall|i: int| 0 <= i < list.len() ==> #[trigger] paths[i] == Json::Text(list[i])
        },
        key != "mediated"@ ==> at(kata::mediate_config(list), key) is None,
{
}

// ---- The machine configuration ----

/// The list of emulated devices that a machine configuration holds.
pub open spec fn listed(config: Json) -> Option<Seq<Json>> {
    match at(config, "emulated_device"@) {
        Some(devices) => match at(devices, "emulated_device_list"@) {
            Some(Json::Array(list)) => Some(list),
            _ => None,
        },
        None => None,
    }
}

/// Whether an entry is a vsock entry.
pub open spec fn is_vsock(entry: Json) -> bool {
    at(entry, "type"@) == Some(Json::Text("EMU_DEVICE_T_VIRTIO_VSOCK"@))
}

/// Whether an entry is a root disk entry with some extent: a disk entry whose
/// extent begins at sector zero.
pub open spec fn is_root_disk(entry: Json, extent: Seq<Json>) -> bool {
    &&& at(entry, "type"@) == Some(Json::Text("EMU_DEVICE_T_VIRTIO_BLK_MEDIATED"@))
    &&& at(entry, "cfg_list"@) == Some(Json::Array(extent))
    &&& extent.len() > 0
    &&& extent[0] == int_value(0)
}

/// Whether a number of sectors of 512 bytes is what fits into a size.
pub open spec fn is_sectors(n: int, size: int) -> bool {
    n * 512 <= size < (n + 1) * 512
}

/// Which templates have room for the size of the root image: those in which
/// every root disk entry has a second number. Where the size is not known, all
/// have.
pub proof fn law_which_templates_have_place(template: Json, rootfs_size: u64)
    ensures
        kata::template_has_place(template, rootfs_size) <==> (rootfs_size > 0 ==> (listed(
            template,
        ) matches Some(list) ==> forall|i: int, extent: Seq<Json>|
            0 <= i < list.len() && #[trigger] is_root_disk(list[i], extent) ==> extent.len() > 1)),
{
    lemma_types_differ();
    if let Some(list) = listed(template) {
        assert(kata::device_list(template) == Some(list));
        assert forall|i: int| 0 <= i < list.len() implies (
        #[trigger] kata::root_extent(list[i]) matches Some(extent) ==> is_root_disk(
            list[i],
            extent,
        )) by {}
        assert forall|i: int, extent: Seq<Json>|
            0 <= i < list.len() && #[trigger] is_root_disk(
                list[i],
                extent,
            ) implies kata::root_extent(list[i]) == Some(extent) by {}
        if kata::template_has_place(template, rootfs_size) && rootfs_size > 0 {
            assert forall|i: int, extent: Seq<Json>|
                0 <= i < list.len() && #[trigger] is_root_disk(list[i], extent) implies extent.len()
                > 1 by {
                assert(kata::has_place(list[i], rootfs_size));
            }
        }
        if forall|i: int, extent: Seq<Json>|
            0 <= i < list.len() && #[trigger] is_root_disk(list[i], extent) ==> extent.len() > 1 {
            assert forall|i: int| 0 <= i < list.len() implies kata::has_place(
                #[trigger] list[i],
                rootfs_size,
            ) by {
                if let Some(extent) = kata::root_extent(list[i]) {
                    assert(is_root_disk(list[i], extent));
                }
            }
        }
    } else {
        assert(kata::device_list(template) is None);
    }
}

proof fn lemma_types_differ()
    ensures
        "EMU_DEVICE_T_VIRTIO_VSOCK"@ != "EMU_DEVICE_T_VIRTIO_BLK_MEDIATED"@,
        "cmdline"@ != "emulated_device"@,
        "type"@ != "cfg_list"@,
{
    reveal_strlit("EMU_DEVICE_T_VIRTIO_VSOCK");
    reveal_strlit("EMU_DEVICE_T_VIRTIO_BLK_MEDIATED");
    reveal_strlit("cmdline");
    reveal_strlit("emulated_device");
    reveal_strlit("type");
    reveal_strlit("cfg_list");
    assert("EMU_DEVICE_T_VIRTIO_VSOCK"@.len() != "EMU_DEVICE_T_VIRTIO_BLK_MEDIATED"@.len());
    assert("cmdline"@.len() != "emulated_device"@.len());
    assert("type"@.len() != "cfg_list"@.len());
}

/// The list that a configuration holds is the template's, entry by entry, and
/// the entries of the two pool disks behind it.
proof fn lemma_made_list(template: Json, settings: SettingsView, list: Seq<Json>)
    requires
        listed(template) == Some(list),
        settings.pool_sizes.len() == 2,
    ensures
        listed(kata::kata_config(template, settings)) == Some(
            kata::device_list_for(
                list,
                settings.vsock_cid,
                settings.rootfs_size,
                settings.pool_sizes,
            ),
        ),
{
    lemma_types_differ();
    assert(kata::device_list(template) == Some(list));
    let config = if settings.partitioned {
        kata::with_root_partition(template)
    } else {
        template
    };
    assert(kata::device_list(config) == Some(list));
}

/// What becomes of an entry of the template. A vsock entry gets the context
/// identifier as its one number. A root disk entry gets the sectors of the root
/// image as its second number, where the size of that is known. Nothing else of
/// either changes, and no other entry does.
pub proof fn law_entry_brought_up_to_date(
    template: Json,
    settings: SettingsView,
    list: Seq<Json>,
    i: int,
    key: Seq<char>,
    extent: Seq<Json>,
)
    requires
        listed(template) == Some(list),
        settings.pool_sizes.len() == 2,
        0 <= i < list.len(),
    ensures
        listed(kata::kata_config(template, settings)) matches Some(made) && {
            &&& made.len() == list.len() + 2
            &&& key != "cfg_list"@ ==> at(made[i], key) == at(list[i], key)
            &&& is_vsock(list[i]) ==> at(made[i], "cfg_list"@) == Some(
                Json::Array(seq![int_value(settings.vsock_cid as int)]),
            )
            &&& is_root_disk(list[i], extent) && extent.len() > 1 && settings.rootfs_size > 0 ==> {
                &&& at(made[i], "cfg_list"@) matches Some(Json::Array(now))
                &&& now.len() == extent.len()
                &&& now[0] == int_value(0)
                &&& now[1] matches Json::Number(JsonNumber::Int(n))
                &&& is_sectors(n, settings.rootfs_size as int)
                &&& forall|j: int| 2 <= j < extent.len() ==> #[trigger] now[j] == extent[j]
            }
            &&& settings.rootfs_size == 0 && !is_vsock(list[i]) ==> made[i] == list[i]
            &&& !is_vsock(list[i]) && (forall|e: Seq<Json>| !#[trigger] is_root_disk(list[i], e))
                ==> made[i] == list[i]
        },
{
    lemma_types_differ();
    lemma_made_list(template, settings, list);
    let made = kata::device_list_for(
        list,
        settings.vsock_cid,
        settings.rootfs_size,
        settings.pool_sizes,
    );
    assert(made[i] == kata::refreshed(list[i], settings.vsock_cid, settings.rootfs_size));
    if let Some(e) = kata::root_extent(list[i]) {
        assert(is_root_disk(list[i], e));
    }
    let size = settings.rootfs_size as int;
    vstd::arithmetic::div_mod::lemma_fundamental_div_mod(size, 512);
}

/// The entries of the pool disks, behind those of the template: each has the
/// seven members that follow and no other. Its extent goes from sector zero to
/// the number of sectors of its image, however large that is.
pub proof fn law_pool_disk_entries(
    template: Json,
    settings: SettingsView,
    list: Seq<Json>,
    k: int,
    key: Seq<char>,
)
    requires
        listed(template) == Some(list),
        settings.pool_sizes.len() == 2,
        0 <= k < 2,
    ensures
        listed(kata::kata_config(template, settings)) matches Some(made) && {
            let entry = made[list.len() + k];
            &&& made.len() == list.len() + 2
            &&& at(entry, "cfg_list"@) matches Some(Json::Array(extent))
            &&& extent.len() == 2
            &&& extent[0] == int_value(0)
            &&& extent[1] matches Json::Number(JsonNumber::Int(n))
            &&& is_sectors(n, settings.pool_sizes[k] as int)
            &&& at(entry, "name"@) == Some(
                Json::Text(
                    if k == 0 {
                        "virtio_blk_pool_0@60007000"@
                    } else {
                        "virtio_blk_pool_1@60008000"@
                    },
                ),
            )
            &&& at(entry, "base_ipa"@) == Some(
                Json::Text(
                    if k == 0 {
                        "0x60007000"@
                    } else {
                        "0x60008000"@
                    },
                ),
            )
            &&& at(entry, "length"@) == Some(Json::Text("0x1000"@))
            &&& at(entry, "irq_id"@) == Some(int_value(502 + k))
            &&& at(entry, "cfg_num"@) == Some(int_value(2))
            &&& at(entry, "type"@) == Some(Json::Text("EMU_DEVICE_T_VIRTIO_BLK_MEDIATED"@))
            &&& at(entry, key) is Some <==> key == "name"@ || key == "base_ipa"@ || key
                == "length"@ || key == "irq_id"@ || key == "cfg_num"@ || key == "cfg_list"@ || key
                == "type"@
        },
{
    lemma_made_list(template, settings, list);
    lemma_pool_texts();
    lemma_pool_keys();
    let size = settings.pool_sizes[k];
    let made = kata::device_list_for(
        list,
        settings.vsock_cid,
        settings.rootfs_size,
        settings.pool_sizes,
    );
    assert(made[list.len() + k] == kata::pool_entry(k, size));
    vstd::arithmetic::div_mod::lemma_fundamental_div_mod(size as int, 512);
}

proof fn lemma_pool_keys()
    ensures
        "name"@ != "type"@,
        "length"@ != "irq_id"@,
        "name"@.len() == 4,
        "type"@.len() == 4,
        "length"@.len() == 6,
        "irq_id"@.len() == 6,
        "cfg_num"@.len() == 7,
        "base_ipa"@.len() == 8,
        "cfg_list"@.len() == 8,
        "base_ipa"@ != "cfg_list"@,
{
    reveal_strlit("name");
    reveal_strlit("type");
    reveal_strlit("length");
    reveal_strlit("irq_id");
    reveal_strlit("cfg_num");
    reveal_strlit("base_ipa");
    reveal_strlit("cfg_list");
    assert("name"@[0] != "type"@[0]);
    assert("length"@[0] != "irq_id"@[0]);
    assert("base_ipa"@[0] != "cfg_list"@[0]);
}

#[verifier::rlimit(40)]
proof fn lemma_pool_texts()
    ensures
        kata::pool_name(0) == "virtio_blk_pool_0@60007000"@,
        kata::pool_name(1) == "virtio_blk_pool_1@60008000"@,
        "0x"@ + text::hex_of(kata::pool_ipa(0) as nat) == "0x60007000"@,
        "0x"@ + text::hex_of(kata::pool_ipa(1) as nat) == "0x60008000"@,
{
    reveal_strlit("virtio_blk_pool_");
    reveal_strlit("@");
    reveal_strlit("0x");
    reveal_strlit("virtio_blk_pool_0@60007000");
    reveal_strlit("virtio_blk_pool_1@60008000");
    reveal_strlit("0x60007000");
    reveal_strlit("0x60008000");
    reveal_with_fuel(text::digits, 8);
    assert(text::decimal_of(0) =~= seq!['0']);
    assert(text::decimal_of(1) =~= seq!['1']);
    assert(text::hex_of(0x60007000) =~= seq!['6', '0', '0', '0', '7', '0', '0', '0']);
    assert(text::hex_of(0x60008000) =~= seq!['6', '0', '0', '0', '8', '0', '0', '0']);
    assert(kata::pool_name(0) =~= "virtio_blk_pool_0@60007000"@);
    assert(kata::pool_name(1) =~= "virtio_blk_pool_1@60008000"@);
    assert("0x"@ + text::hex_of(0x60007000) =~= "0x60007000"@);
    assert("0x"@ + text::hex_of(0x60008000) =~= "0x60008000"@);
}

/// Beside the list of emulated devices and, for a root image with partitions, the
/// root device of the kernel command line, a configuration is its template.
pub proof fn law_rest_of_template_stays(template: Json, settings: SettingsView, key: Seq<char>)
    ensures
        ({
            let config = kata::kata_config(template, settings);
            &&& template is Object <==> config is Object
            &&& !(template is Object) ==> config == template
            &&& key != "cmdline"@ && key != "emulated_device"@ ==> at(config, key) == at(
                template,
                key,
            )
            &&& at(config, "cmdline"@) == match at(template, "cmdline"@) {
                Some(Json::Text(line)) if settings.partitioned => Some(
                    Json::Text(text::replaced(line, "root=/dev/vda"@, "root=/dev/vda1"@)),
                ),
                found => found,
            }
            &&& listed(template) is None ==> at(config, "emulated_device"@) == at(
                template,
                "emulated_device"@,
            )
            &&& at(template, "emulated_device"@) matches Some(before) ==> {
                &&& at(config, "emulated_device"@) matches Some(after)
                &&& before is Object <==> after is Object
                &&& key != "emulated_device_list"@ ==> at(after, key) == at(before, key)
            }
        }),
{
    lemma_types_differ();
}

// ---- The root image and the sizes ----

/// A report tells of partitions exactly where one of three phrases occurs in it.
pub proof fn law_what_tells_of_partitions(report: Seq<char>)
    ensures
        kata::tells_of_partitions(report) <==> text::contains_text(report, "partition"@)
            || text::contains_text(report, "boot sector"@) || text::contains_text(report, "mbr"@),
{
}

/// A report in which none of three phrases stands does not tell of partitions,
/// and one in which any stands does, whatever stands before it and after it.
pub proof fn law_phrases_that_tell_of_partitions(
    report: Seq<char>,
    before: Seq<char>,
    after: Seq<char>,
)
    ensures
        report == before + "partition"@ + after || report == before + "boot sector"@ + after
            || report == before + "mbr"@ + after ==> kata::tells_of_partitions(report),
        kata::tells_of_partitions(report) ==> exists|a: Seq<char>, phrase: Seq<char>, b: Seq<char>|
            report == #[trigger] (a + phrase + b) && (phrase == "partition"@ || phrase
                == "boot sector"@ || phrase == "mbr"@),
{
    law_occurrence_has_two_sides(report, "partition"@);
    law_occurrence_has_two_sides(report, "boot sector"@);
    law_occurrence_has_two_sides(report, "mbr"@);
    assert(report == before + "partition"@ + after ==> text::contains_text(report, "partition"@));
    assert(report == before + "boot sector"@ + after ==> text::contains_text(
        report,
        "boot sector"@,
    ));
    assert(report == before + "mbr"@ + after ==> text::contains_text(report, "mbr"@));
}

/// An image is taken to have partitions exactly where the inspection could be run
/// and what it printed, in lower case, tells of them.
pub proof fn law_which_images_are_partitioned(output: Option<Seq<u8>>)
    ensures
        kata::is_partitioned(output) <==> (output matches Some(bytes) && {
            let report = text::lowercase_text(text::lossy_text(bytes));
            ||| text::contains_text(report, "partition"@)
            ||| text::contains_text(report, "boot sector"@)
            ||| text::contains_text(report, "mbr"@)
        }),
{
}

/// What telling of partitions comes to, as it is told.
pub proof fn law_told_partitions(report: &str, told: bool)
    requires
        call_ensures(kata::report_tells_of_partitions, (report,), told),
    ensures
        told <==> text::contains_text(report@, "partition"@) || text::contains_text(
            report@,
            "boot sector"@,
        ) || text::contains_text(report@, "mbr"@),
{
}

/// The size of the root image is what measuring it found, unless that is nothing
/// or zero; then it is what measuring it below the working directory found, or
/// zero. A pool image that could not be measured counts ten gibibytes.
pub proof fn law_sizes_are_those_measured(
    measured: Option<u64>,
    fallback: Option<u64>,
    pool_found: Seq<Option<u64>>,
    k: int,
)
    requires
        0 <= k < pool_found.len(),
    ensures
        measured matches Some(n) ==> n > 0 ==> kata::root_size(measured, fallback) == n,
        (measured is None || measured == Some(0u64)) ==> (fallback matches Some(n)
            ==> kata::root_size(measured, fallback) == n),
        (measured is None || measured == Some(0u64)) && fallback is None ==> kata::root_size(
            measured,
            fallback,
        ) == 0,
        kata::pool_sizes(pool_found).len() == pool_found.len(),
        pool_found[k] matches Some(n) ==> kata::pool_sizes(pool_found)[k] == n,
        pool_found[k] is None ==> kata::pool_sizes(pool_found)[k] == 10 * 1024 * 1024 * 1024,
{
}

} // verus!
