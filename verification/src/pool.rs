//! The disk pool: which image stands behind each disk of a machine.
//!
//! A machine has its root disk and [`DISK_POOL_SIZE`] pool disks. What the
//! caller queued fills them in order; a pool disk that nothing fills is a
//! placeholder image, which a later hotplug replaces.

use vstd::prelude::*;
use vstd::string::StringExecFns;

use crate::command;
use crate::command::{CommandLine, CommandView};

verus! {

/// How many pool disks a machine has.
pub const DISK_POOL_SIZE: usize = 2;

/// The size of a placeholder image in bytes.
pub const DUMMY_FILE_SIZE: u64 = 10 * 1024 * 1024 * 1024;

/// The root disk image of a machine for which none was queued.
pub const DEFAULT_ROOTFS: &'static str = "kata-containers-nopart.img";

/// The slots of the disk pool: the image behind each, `None` for a slot that is
/// free.
pub type Slots = [Option<String>; DISK_POOL_SIZE];

/// The disks of a machine about to start.
#[derive(Debug, PartialEq, Eq)]
pub struct DiskPlan {
    /// The root disk image, `None` for [`DEFAULT_ROOTFS`].
    pub rootfs: Option<String>,
    /// The image behind each pool disk.
    pub pool: Vec<String>,
    /// The images of the pool that are placeholders.
    pub dummies: Vec<String>,
}

/// The mathematical value of a [`DiskPlan`].
pub struct DiskPlanView {
    pub rootfs: Option<Seq<char>>,
    pub pool: Seq<Seq<char>>,
    pub dummies: Seq<Seq<char>>,
}

impl View for DiskPlan {
    type V = DiskPlanView;

    open spec fn view(&self) -> DiskPlanView {
        DiskPlanView {
            rootfs: self.rootfs.deep_view(),
            pool: self.pool.deep_view(),
            dummies: self.dummies.deep_view(),
        }
    }
}

/// A placeholder image that is to be made: a file of this length, on which this
/// command makes a file system.
#[derive(Debug, PartialEq, Eq)]
pub struct Placeholder {
    pub path: String,
    pub length: u64,
    pub make_filesystem: CommandLine,
}

/// The mathematical value of a [`Placeholder`].
pub struct PlaceholderView {
    pub path: Seq<char>,
    pub length: u64,
    pub make_filesystem: CommandView,
}

impl View for Placeholder {
    type V = PlaceholderView;

    open spec fn view(&self) -> PlaceholderView {
        PlaceholderView {
            path: self.path@,
            length: self.length,
            make_filesystem: self.make_filesystem@,
        }
    }
}

/// The values of some placeholder images, in order.
pub open spec fn placeholder_views(list: Seq<Placeholder>) -> Seq<PlaceholderView> {
    list.map_values(|p: Placeholder| p@)
}

/// The placeholder image of a path.
pub open spec fn placeholder(path: Seq<char>) -> PlaceholderView {
    PlaceholderView {
        path,
        length: DUMMY_FILE_SIZE,
        make_filesystem: command::filesystem_command(path),
    }
}

/// The placeholder images of some paths, in order.
pub open spec fn placeholders(paths: Seq<Seq<char>>) -> Seq<PlaceholderView> {
    paths.map_values(|path: Seq<char>| placeholder(path))
}

/// The placeholder image of a pool disk.
pub open spec fn dummy_path(i: nat) -> Seq<char> {
    command::WORK_DIR@ + "/dummy_disk_"@ + crate::text::decimal_of(i) + ".img"@
}

/// How many pool disks the queued disks fill: the first queued disk is the root
/// disk, the ones after it fill the pool.
pub open spec fn filled(blocks: Seq<Seq<char>>) -> int {
    if blocks.len() == 0 {
        0
    } else if blocks.len() - 1 < DISK_POOL_SIZE {
        blocks.len() - 1
    } else {
        DISK_POOL_SIZE as int
    }
}

/// The image behind each pool disk.
pub open spec fn pool_images(blocks: Seq<Seq<char>>) -> Seq<Seq<char>> {
    Seq::new(
        DISK_POOL_SIZE as nat,
        |i: int| if i < filled(blocks) { blocks[i + 1] } else { dummy_path(i as nat) },
    )
}

/// The disks that some queued disks make.
pub open spec fn disk_plan(blocks: Seq<Seq<char>>) -> DiskPlanView {
    DiskPlanView {
        rootfs: if blocks.len() > 0 { Some(blocks[0]) } else { None },
        pool: pool_images(blocks),
        dummies: pool_images(blocks).skip(filled(blocks)),
    }
}

/// The slots after the queued disks were put into the pool: a free slot takes
/// its disk, a taken one keeps what it holds.
pub open spec fn slots_after(
    slots: Seq<Option<Seq<char>>>,
    blocks: Seq<Seq<char>>,
) -> Seq<Option<Seq<char>>> {
    Seq::new(
        slots.len(),
        |i: int|
            if slots[i] is None && i < filled(blocks) {
                Some(blocks[i + 1])
            } else {
                slots[i]
            },
    )
}

/// Whether a slot is the first free one.
pub open spec fn is_first_free(slots: Seq<Option<Seq<char>>>, i: int) -> bool {
    &&& 0 <= i < slots.len()
    &&& slots[i] is None
    &&& forall|j: int| 0 <= j < i ==> (#[trigger] slots[j]) is Some
}

/// Whether every slot is taken.
pub open spec fn pool_full(slots: Seq<Option<Seq<char>>>) -> bool {
    forall|j: int| 0 <= j < slots.len() ==> (#[trigger] slots[j]) is Some
}

/// The entry of the mediated disk list that stands for a slot, by which the
/// hypervisor's tool is told the slot.
pub open spec fn config_id(slot: int) -> int {
    slot + 1
}

impl DiskPlanView {
    /// The root disk image.
    pub open spec fn root_image(self) -> Seq<char> {
        match self.rootfs {
            Some(path) => path,
            None => DEFAULT_ROOTFS@,
        }
    }

    /// The mediated disk list: the root disk, then the pool.
    pub open spec fn mediated(self) -> Seq<Seq<char>> {
        seq![self.root_image()] + self.pool
    }
}

/// The placeholder image of a pool disk.
fn dummy_image(i: u64) -> (path: String)
    ensures
        path@ == dummy_path(i as nat),
{
    command::WORK_DIR.to_string().concat("/dummy_disk_").concat(
        crate::text::decimal(i).as_str(),
    ).concat(".img")
}

/// Plans the disks of a machine and puts the queued ones into the slots.
pub fn plan_disks(slots: &mut Slots, blocks: &Vec<String>) -> (plan: DiskPlan)
    ensures
        plan@ == disk_plan(blocks.deep_view()),
        final(slots).deep_view() == slots_after(old(slots).deep_view(), blocks.deep_view()),
{
    let ghost names = blocks.deep_view();
    let rootfs: Option<String> = if blocks.len() > 0 {
        Some(blocks[0].clone())
    } else {
        None
    };
    let mut pool: Vec<String> = Vec::new();
    let mut dummies: Vec<String> = Vec::new();
    let mut i: usize = 0;
    while i < DISK_POOL_SIZE
        invariant
            i <= DISK_POOL_SIZE,
            names == blocks.deep_view(),
            names.len() == blocks@.len(),
            pool.deep_view() == pool_images(names).take(i as int),
            dummies.deep_view() == if i <= filled(names) {
                Seq::<Seq<char>>::empty()
            } else {
                pool_images(names).subrange(filled(names), i as int)
            },
            slots@.len() == DISK_POOL_SIZE,
            forall|j: int|
                0 <= j < i ==> #[trigger] slots.deep_view()[j] == slots_after(
                    old(slots).deep_view(),
                    names,
                )[j],
            forall|j: int| i <= j < DISK_POOL_SIZE ==> #[trigger] slots@[j] == old(slots)@[j],
        decreases DISK_POOL_SIZE - i,
    {
        let ghost pool_before = pool.deep_view();
        let ghost dummies_before = dummies.deep_view();
        let ghost slots_before = *slots;
        if i + 1 < blocks.len() {
            let path: String = blocks[i + 1].clone();
            if slots[i].is_none() {
                slots[i] = Some(path.clone());
            }
            pool.push(path);
            assert(pool.deep_view() =~= pool_before.push(path@));
        } else {
            let path: String = dummy_image(i as u64);
            dummies.push(path.clone());
            pool.push(path);
            assert(pool.deep_view() =~= pool_before.push(path@));
            assert(dummies.deep_view() =~= dummies_before.push(path@));
            assert(dummies.deep_view() =~= pool_images(names).subrange(filled(names), i + 1));
        }
        assert(pool.deep_view() =~= pool_images(names).take(i + 1));
        assert forall|j: int| 0 <= j < i + 1 implies #[trigger] slots.deep_view()[j] == slots_after(
            old(slots).deep_view(),
            names,
        )[j] by {
            if j < i {
                assert(slots@[j] == slots_before@[j]);
                assert(slots.deep_view()[j] == slots_before.deep_view()[j]);
            } else {
                assert(slots_before@[j] == old(slots)@[j]);
            }
        }
        i = i + 1;
    }
    assert(pool.deep_view() =~= pool_images(names));
    assert(dummies.deep_view() =~= pool_images(names).skip(filled(names)));
    assert(slots.deep_view() =~= slots_after(old(slots).deep_view(), names));
    DiskPlan { rootfs, pool, dummies }
}

/// Puts an image into the first free slot. Returns that slot, `None` where the
/// pool is full.
pub fn take_free_slot(slots: &mut Slots, path: String) -> (slot: Option<usize>)
    ensures
        match slot {
            Some(i) => is_first_free(old(slots).deep_view(), i as int)
                && final(slots).deep_view() == old(slots).deep_view().update(
                i as int,
                Some(path@),
            ),
            None => pool_full(old(slots).deep_view()) && final(slots).deep_view() == old(
                slots,
            ).deep_view(),
        },
{
    let mut i: usize = 0;
    while i < DISK_POOL_SIZE
        invariant
            i <= DISK_POOL_SIZE,
            slots@.len() == DISK_POOL_SIZE,
            *slots == *old(slots),
            forall|j: int| 0 <= j < i ==> (#[trigger] slots.deep_view()[j]) is Some,
        decreases DISK_POOL_SIZE - i,
    {
        if slots[i].is_none() {
            slots[i] = Some(path);
            assert(slots.deep_view() =~= old(slots).deep_view().update(i as int, Some(path@)));
            return Some(i);
        }
        i = i + 1;
    }
    None
}

impl DiskPlan {
    /// The root disk image.
    pub fn root_image(&self) -> (path: String)
        ensures
            path@ == self@.root_image(),
    {
        match &self.rootfs {
            Some(path) => path.clone(),
            None => DEFAULT_ROOTFS.to_string(),
        }
    }

    /// The placeholder images that are to be made.
    pub fn placeholders(&self) -> (list: Vec<Placeholder>)
        ensures
            placeholder_views(list@) == placeholders(self@.dummies),
    {
        let ghost paths = self@.dummies;
        let mut list: Vec<Placeholder> = Vec::new();
        let mut i: usize = 0;
        while i < self.dummies.len()
            invariant
                i <= self.dummies@.len(),
                paths == self.dummies.deep_view(),
                list@.len() == i,
                forall|j: int| 0 <= j < i ==> (#[trigger] list@[j])@ == placeholder(paths[j]),
            decreases self.dummies@.len() - i,
        {
            list.push(
                Placeholder {
                    path: self.dummies[i].clone(),
                    length: DUMMY_FILE_SIZE,
                    make_filesystem: command::make_filesystem(self.dummies[i].clone()),
                },
            );
            i = i + 1;
        }
        assert(placeholder_views(list@) =~= placeholders(paths));
        list
    }

    /// The mediated disk list: the root disk, then the pool.
    pub fn mediated(&self) -> (list: Vec<String>)
        ensures
            list.deep_view() == self@.mediated(),
    {
        let mut list: Vec<String> = vec![self.root_image()];
        let mut i: usize = 0;
        assert(list.deep_view() =~= seq![self@.root_image()] + self@.pool.take(0));
        while i < self.pool.len()
            invariant
                i <= self.pool@.len(),
                list.deep_view() == seq![self@.root_image()] + self@.pool.take(i as int),
            decreases self.pool@.len() - i,
        {
            let ghost before = list.deep_view();
            list.push(self.pool[i].clone());
            assert(list.deep_view() =~= before.push(self.pool@[i as int]@));
            assert(list.deep_view() =~= seq![self@.root_image()] + self@.pool.take(i + 1));
            i = i + 1;
        }
        assert(self@.pool.take(i as int) =~= self@.pool);
        list
    }
}

} // verus!
