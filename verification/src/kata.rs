//! The documents that the hypervisor reads: the mediated disk list and the
//! machine configuration, which is made from a template.

use serde_json::Value;
use vstd::pervasive::unreached;
use vstd::prelude::*;
use vstd::string::StringExecFns;

use crate::error::{ErrorView, ShyperError};
use crate::json;
use crate::json::Json;
use crate::pool::{DISK_POOL_SIZE, DUMMY_FILE_SIZE};

verus! {

/// The type of a vsock entry in the machine configuration.
pub const VSOCK_TYPE: &'static str = "EMU_DEVICE_T_VIRTIO_VSOCK";

/// The type of a disk entry in the machine configuration.
pub const DISK_TYPE: &'static str = "EMU_DEVICE_T_VIRTIO_BLK_MEDIATED";

/// The kernel's root device where the root image is a bare file system.
pub const ROOT_DEVICE: &'static str = "root=/dev/vda";

/// The kernel's root device where the root image has a partition table.
pub const ROOT_PARTITION: &'static str = "root=/dev/vda1";

/// The bytes of one sector.
pub const SECTOR_SIZE: u64 = 512;

/// Where the registers of the first pool disk lie.
pub const POOL_BASE_IPA: u64 = 0x60007000;

/// How many bytes the registers of one disk take.
pub const POOL_IPA_STEP: u64 = 0x1000;

/// The interrupt of the first pool disk.
pub const POOL_BASE_IRQ: u64 = 502;

/// What the machine configuration takes from the machine.
#[derive(Debug, PartialEq, Eq)]
pub struct KataSettings {
    /// Whether the root image has a partition table.
    pub partitioned: bool,
    /// The context identifier of the guest.
    pub vsock_cid: u32,
    /// The size of the root image in bytes, zero where it is not known.
    pub rootfs_size: u64,
    /// The size of each pool image in bytes.
    pub pool_sizes: [u64; DISK_POOL_SIZE],
}

/// The mathematical value of a [`KataSettings`].
pub struct SettingsView {
    pub partitioned: bool,
    pub vsock_cid: u32,
    pub rootfs_size: u64,
    pub pool_sizes: Seq<u64>,
}

impl View for KataSettings {
    type V = SettingsView;

    open spec fn view(&self) -> SettingsView {
        SettingsView {
            partitioned: self.partitioned,
            vsock_cid: self.vsock_cid,
            rootfs_size: self.rootfs_size,
            pool_sizes: self.pool_sizes@,
        }
    }
}

/// Whether an entry is of a type.
pub open spec fn has_type(dev: Json, name: Seq<char>) -> bool {
    dev.member("type"@) == Some(Json::Text(name))
}

/// The extent of a root disk entry: the list of a disk entry that starts at
/// sector zero. `None` of any other entry.
pub open spec fn root_extent(dev: Json) -> Option<Seq<Json>> {
    if !has_type(dev, VSOCK_TYPE@) && has_type(dev, DISK_TYPE@) {
        match dev.member("cfg_list"@) {
            Some(Json::Array(list)) => if list.len() > 0 && list[0] == json::json_int(0) {
                Some(list)
            } else {
                None
            },
            _ => None,
        }
    } else {
        None
    }
}

/// Whether the size of the root image can be put into an entry.
pub open spec fn has_place(dev: Json, rootfs_size: u64) -> bool {
    rootfs_size > 0 ==> (root_extent(dev) matches Some(list) ==> list.len() > 1)
}

/// An entry of the template brought up to date: a vsock entry gets the context
/// identifier, a root disk entry the number of sectors of the root image, where
/// that is known. Any other entry stays as it is.
pub open spec fn refreshed(dev: Json, vsock_cid: u32, rootfs_size: u64) -> Json {
    if has_type(dev, VSOCK_TYPE@) {
        dev.with_member("cfg_list"@, Json::Array(seq![json::json_int(vsock_cid as int)]))
    } else {
        match root_extent(dev) {
            Some(list) => if rootfs_size > 0 {
                dev.with_member(
                    "cfg_list"@,
                    Json::Array(
                        list.update(1, json::json_int((rootfs_size / SECTOR_SIZE) as int)),
                    ),
                )
            } else {
                dev
            },
            None => dev,
        }
    }
}

/// Where the registers of a pool disk lie.
pub open spec fn pool_ipa(i: int) -> int {
    POOL_BASE_IPA + POOL_IPA_STEP * i
}

/// The interrupt of a pool disk.
pub open spec fn pool_irq(i: int) -> int {
    POOL_BASE_IRQ + i
}

/// The name of a pool disk.
pub open spec fn pool_name(i: int) -> Seq<char> {
    "virtio_blk_pool_"@ + crate::text::decimal_of(i as nat) + "@"@ + crate::text::hex_of(
        pool_ipa(i) as nat,
    )
}

/// The entry of a pool disk whose image has a size.
pub open spec fn pool_entry(i: int, size: u64) -> Json {
    Json::Object(
        Map::<Seq<char>, Json>::empty().insert("name"@, Json::Text(pool_name(i))).insert(
            "base_ipa"@,
            Json::Text("0x"@ + crate::text::hex_of(pool_ipa(i) as nat)),
        ).insert("length"@, Json::Text("0x1000"@)).insert(
            "irq_id"@,
            json::json_int(pool_irq(i)),
        ).insert("cfg_num"@, json::json_int(2)).insert(
            "cfg_list"@,
            Json::Array(
                seq![json::json_int(0), json::json_int((size / SECTOR_SIZE) as int)],
            ),
        ).insert("type"@, Json::Text(DISK_TYPE@)),
    )
}

/// The entries of the pool disks.
pub open spec fn pool_entries(sizes: Seq<u64>) -> Seq<Json> {
    sizes.map(|i: int, size: u64| pool_entry(i, size))
}

/// The list of emulated devices in a machine configuration.
pub open spec fn device_list(config: Json) -> Option<Seq<Json>> {
    match config.nested("emulated_device"@, "emulated_device_list"@) {
        Some(Json::Array(list)) => Some(list),
        _ => None,
    }
}

/// The machine configuration with another list of emulated devices.
pub open spec fn with_device_list(config: Json, list: Seq<Json>) -> Json {
    config.with_nested("emulated_device"@, "emulated_device_list"@, Json::Array(list))
}

/// The machine configuration whose kernel finds its root on the first partition.
pub open spec fn with_root_partition(config: Json) -> Json {
    match config.member("cmdline"@) {
        Some(Json::Text(line)) => config.with_member(
            "cmdline"@,
            Json::Text(crate::text::replaced(line, ROOT_DEVICE@, ROOT_PARTITION@)),
        ),
        _ => config,
    }
}

/// The list of emulated devices brought up to date and followed by the pool
/// disks.
pub open spec fn device_list_for(
    list: Seq<Json>,
    vsock_cid: u32,
    rootfs_size: u64,
    pool_sizes: Seq<u64>,
) -> Seq<Json> {
    list.map_values(|dev: Json| refreshed(dev, vsock_cid, rootfs_size)) + pool_entries(pool_sizes)
}

/// Whether the size of the root image can be put into every root disk entry of
/// a template.
pub open spec fn template_has_place(template: Json, rootfs_size: u64) -> bool {
    match device_list(template) {
        Some(list) => forall|i: int|
            0 <= i < list.len() ==> has_place(#[trigger] list[i], rootfs_size),
        None => true,
    }
}

/// The machine configuration that a template makes.
pub open spec fn kata_config(template: Json, settings: SettingsView) -> Json {
    let config = if settings.partitioned {
        with_root_partition(template)
    } else {
        template
    };
    match device_list(config) {
        Some(list) => with_device_list(
            config,
            device_list_for(
                list,
                settings.vsock_cid,
                settings.rootfs_size,
                settings.pool_sizes,
            ),
        ),
        None => config,
    }
}

/// The mediated disk list as a document.
pub open spec fn mediate_config(list: Seq<Seq<char>>) -> Json {
    Json::Object(
        Map::<Seq<char>, Json>::empty().insert("mediated"@, json::json_texts(list)),
    )
}

/// Whether what `file` prints about an image, in lower case, tells of a
/// partition table.
pub open spec fn tells_of_partitions(report: Seq<char>) -> bool {
    ||| crate::text::contains_text(report, "partition"@)
    ||| crate::text::contains_text(report, "boot sector"@)
    ||| crate::text::contains_text(report, "mbr"@)
}

/// Whether an image has a partition table, by what `file` printed about it;
/// `None` where `file` could not be run.
pub open spec fn is_partitioned(output: Option<Seq<u8>>) -> bool {
    match output {
        Some(bytes) => tells_of_partitions(
            crate::text::lowercase_text(crate::text::lossy_text(bytes)),
        ),
        None => false,
    }
}

/// The size of the root image: what measuring it found, or, where that found
/// nothing, what measuring it below the working directory found. Zero where
/// neither did.
pub open spec fn root_size(measured: Option<u64>, fallback: Option<u64>) -> u64 {
    if measured is Some && measured->0 != 0 {
        measured->0
    } else {
        match fallback {
            Some(size) => size,
            None => 0,
        }
    }
}

/// The size of a pool image: what measuring it found, or the size of a
/// placeholder.
pub open spec fn pool_size(measured: Option<u64>) -> u64 {
    match measured {
        Some(size) => size,
        None => DUMMY_FILE_SIZE,
    }
}

/// The sizes of the pool images.
pub open spec fn pool_sizes(measured: Seq<Option<u64>>) -> Seq<u64> {
    measured.map_values(|m: Option<u64>| pool_size(m))
}

/// Whether an entry is of a type.
fn check_type(dev: &Value, name: &str) -> (r: bool)
    ensures
        r == has_type(json::json_view(*dev), name@),
{
    match json::get(dev, "type") {
        Some(found) => match found.as_str() {
            Some(s) => crate::text::same_text(s, name),
            None => false,
        },
        None => false,
    }
}

/// Brings an entry of the template up to date. Returns whether that was
/// possible.
fn refresh_device(dev: &mut Value, vsock_cid: u32, rootfs_size: u64) -> (done: bool)
    ensures
        done == has_place(json::json_view(*old(dev)), rootfs_size),
        done ==> json::json_view(*final(dev)) == refreshed(
            json::json_view(*old(dev)),
            vsock_cid,
            rootfs_size,
        ),
{
    let ghost before = json::json_view(*dev);
    if check_type(dev, VSOCK_TYPE) {
        let list: Vec<Value> = vec![json::number(vsock_cid as u64)];
        assert(json::json_views(list@) =~= seq![json::json_int(vsock_cid as int)]);
        json::set_member(dev, "cfg_list", json::array(list));
        return true;
    }
    if check_type(dev, DISK_TYPE) {
        proof {
            json::lemma_same_member(before, "cfg_list"@);
        }
        if let Some(found) = json::get_mut(dev, "cfg_list") {
            if let Some(list) = found.as_array_mut() {
                let ghost entries = json::json_views(list@);
                assert(list@.len() > 0 ==> entries[0] == json::json_view(list@[0]));
                if list.len() > 0 && json::equals_int(&list[0], 0) && rootfs_size > 0 {
                    if list.len() < 2 {
                        return false;
                    }
                    let sectors: Value = json::number(rootfs_size / SECTOR_SIZE);
                    list[1] = sectors;
                    assert(json::json_views(list@) =~= entries.update(1, json::json_view(sectors)));
                }
            }
        }
    }
    true
}

/// Makes the entry of a pool disk.
fn make_pool_entry(i: usize, size: u64) -> (entry: Value)
    requires
        i < DISK_POOL_SIZE,
    ensures
        json::json_view(entry) == pool_entry(i as int, size),
{
    let ipa: u64 = POOL_BASE_IPA + POOL_IPA_STEP * (i as u64);
    let name: String = "virtio_blk_pool_".to_string().concat(
        crate::text::decimal(i as u64).as_str(),
    ).concat("@").concat(crate::text::hex(ipa).as_str());
    let base_ipa: String = "0x".to_string().concat(crate::text::hex(ipa).as_str());
    let extent: Vec<Value> = vec![json::number(0), json::number(size / SECTOR_SIZE)];
    assert(json::json_views(extent@) =~= seq![
        json::json_int(0),
        json::json_int((size / SECTOR_SIZE) as int),
    ]);
    let mut entry: Value = json::empty_object();
    json::set_member(&mut entry, "name", json::text(name));
    json::set_member(&mut entry, "base_ipa", json::text(base_ipa));
    json::set_member(&mut entry, "length", json::text("0x1000".to_string()));
    json::set_member(&mut entry, "irq_id", json::number(POOL_BASE_IRQ + i as u64));
    json::set_member(&mut entry, "cfg_num", json::number(2));
    json::set_member(&mut entry, "cfg_list", json::array(extent));
    json::set_member(&mut entry, "type", json::text(DISK_TYPE.to_string()));
    entry
}

/// Brings the list of emulated devices up to date and adds the pool disks.
/// Returns whether that was possible.
fn refresh_device_list(list: &mut Vec<Value>, settings: &KataSettings) -> (done: bool)
    ensures
        done <==> (forall|i: int|
            0 <= i < old(list)@.len() ==> has_place(
                #[trigger] json::json_views(old(list)@)[i],
                settings.rootfs_size,
            )),
        done ==> json::json_views(final(list)@) == device_list_for(
            json::json_views(old(list)@),
            settings.vsock_cid,
            settings.rootfs_size,
            settings.pool_sizes@,
        ),
{
    let ghost before = json::json_views(list@);
    let count: usize = list.len();
    let mut i: usize = 0;
    while i < count
        invariant
            i <= count,
            before == json::json_views(old(list)@),
            before.len() == count,
            list@.len() == count,
            forall|j: int| 0 <= j < i ==> has_place(#[trigger] before[j], settings.rootfs_size),
            forall|j: int|
                0 <= j < i ==> json::json_view(#[trigger] list@[j]) == refreshed(
                    before[j],
                    settings.vsock_cid,
                    settings.rootfs_size,
                ),
            forall|j: int| i <= j < count ==> json::json_view(#[trigger] list@[j]) == before[j],
        decreases count - i,
    {
        if !refresh_device(&mut list[i], settings.vsock_cid, settings.rootfs_size) {
            return false;
        }
        i = i + 1;
    }
    let ghost updated = before.map_values(
        |dev: Json| refreshed(dev, settings.vsock_cid, settings.rootfs_size),
    );
    assert(json::json_views(list@) =~= updated + pool_entries(settings.pool_sizes@).take(0));
    let mut k: usize = 0;
    while k < DISK_POOL_SIZE
        invariant
            k <= DISK_POOL_SIZE,
            settings.pool_sizes@.len() == DISK_POOL_SIZE,
            json::json_views(list@) == updated + pool_entries(settings.pool_sizes@).take(k as int),
        decreases DISK_POOL_SIZE - k,
    {
        let ghost values = list@;
        let entry: Value = make_pool_entry(k, settings.pool_sizes[k]);
        list.push(entry);
        assert(json::json_views(list@) =~= json::json_views(values).push(json::json_view(entry)));
        assert(json::json_views(list@) =~= updated + pool_entries(settings.pool_sizes@).take(
            k + 1,
        ));
        k = k + 1;
    }
    assert(pool_entries(settings.pool_sizes@).take(k as int) =~= pool_entries(
        settings.pool_sizes@,
    ));
    true
}

/// Makes the kernel find its root on the first partition.
fn use_root_partition(config: &mut Value)
    ensures
        json::json_view(*final(config)) == with_root_partition(json::json_view(*old(config))),
{
    let line: Option<String> = match json::get(config, "cmdline") {
        Some(found) => match found.as_str() {
            Some(s) => {
                proof {
                    reveal_strlit("root=/dev/vda");
                }
                Some(crate::text::replace_all(s, ROOT_DEVICE, ROOT_PARTITION))
            },
            None => None,
        },
        None => None,
    };
    if let Some(text) = line {
        json::set_member(config, "cmdline", json::text(text));
    }
}

/// The path to the list of emulated devices is a plain JSON pointer.
proof fn lemma_device_list_keys()
    ensures
        json::plain_key("emulated_device"@),
        json::plain_key("emulated_device_list"@),
{
    reveal_strlit("emulated_device");
    reveal_strlit("emulated_device_list");
}

/// Turns a template into the machine configuration. `None` where a root disk
/// entry has no place for the size of the root image.
pub fn configure(template: Value, settings: &KataSettings) -> (r: Option<Value>)
    ensures
        match r {
            Some(config) => template_has_place(json::json_view(template), settings.rootfs_size)
                && json::json_view(config) == kata_config(json::json_view(template), settings@),
            None => !template_has_place(json::json_view(template), settings.rootfs_size),
        },
{
    let mut config: Value = template;
    if settings.partitioned {
        use_root_partition(&mut config);
    }
    let ghost ready = json::json_view(config);
    proof {
        lemma_device_list_keys();
        json::lemma_same_nested(ready, "emulated_device"@, "emulated_device_list"@);
    }
    if let Some(found) = json::nested_mut(&mut config, "emulated_device", "emulated_device_list") {
        if let Some(list) = found.as_array_mut() {
            if !refresh_device_list(list, settings) {
                return None;
            }
        }
    }
    Some(config)
}

/// Reads a template.
pub fn parse_template(text: &Vec<u8>) -> (r: Result<Value, ShyperError>)
    ensures
        match r {
            Ok(v) => json::json_parsed(text@) == Ok::<Json, Seq<char>>(json::json_view(v)),
            Err(e) => json::json_parsed(text@) matches Err(reason) && e@
                == ErrorView::ParseTemplate(reason),
        },
{
    match json::parse(text) {
        Ok(v) => Ok(v),
        Err(reason) => Err(ShyperError::ParseTemplate(reason)),
    }
}

/// Writes a document.
fn write_document(document: &Value) -> (text: Vec<u8>)
    ensures
        text@ == json::json_text(json::json_view(*document)),
{
    match json::to_text(document) {
        Ok(text) => text,
        Err(_) => unreached(),
    }
}

/// Writes the machine configuration that a template makes.
pub fn kata_json(template: Value, settings: &KataSettings) -> (r: Result<Vec<u8>, ShyperError>)
    ensures
        match r {
            Ok(text) => template_has_place(json::json_view(template), settings.rootfs_size)
                && text@ == json::json_text(kata_config(json::json_view(template), settings@)),
            Err(e) => !template_has_place(json::json_view(template), settings.rootfs_size) && e@
                == ErrorView::NoPlaceForSize,
        },
{
    match configure(template, settings) {
        Some(config) => Ok(write_document(&config)),
        None => Err(ShyperError::NoPlaceForSize),
    }
}

/// Makes the mediated disk list as a document.
pub fn mediate_document(list: Vec<String>) -> (document: Value)
    ensures
        json::json_view(document) == mediate_config(list.deep_view()),
{
    let ghost names = list.deep_view();
    let mut values: Vec<Value> = Vec::new();
    let mut i: usize = 0;
    while i < list.len()
        invariant
            i <= list@.len(),
            names == list.deep_view(),
            values@.len() == i,
            forall|j: int|
                0 <= j < i ==> json::json_view(#[trigger] values@[j]) == Json::Text(names[j]),
        decreases list@.len() - i,
    {
        values.push(json::text(list[i].clone()));
        i = i + 1;
    }
    assert(json::json_views(values@) =~= names.map_values(|s: Seq<char>| Json::Text(s)));
    let mut document: Value = json::empty_object();
    json::set_member(&mut document, "mediated", json::array(values));
    document
}

/// Writes the mediated disk list.
pub fn mediate_json(list: Vec<String>) -> (text: Vec<u8>)
    ensures
        text@ == json::json_text(mediate_config(list.deep_view())),
{
    write_document(&mediate_document(list))
}

/// Whether what `file` prints about an image, in lower case, tells of a
/// partition table.
pub fn report_tells_of_partitions(report: &str) -> (r: bool)
    ensures
        r == tells_of_partitions(report@),
{
    crate::text::contains(report, "partition") || crate::text::contains(report, "boot sector")
        || crate::text::contains(report, "mbr")
}

/// Whether an image has a partition table, by what `file` printed about it;
/// `None` where `file` could not be run.
pub fn detect_partitions(output: &Option<Vec<u8>>) -> (r: bool)
    ensures
        r == is_partitioned(output.deep_view()),
{
    match output {
        Some(bytes) => {
            assert(bytes.deep_view() =~= bytes@);
            let report: String = crate::text::decode_lossy(bytes);
            report_tells_of_partitions(crate::text::to_lowercase(report.as_str()).as_str())
        },
        None => false,
    }
}

/// Settles the size of the root image.
pub fn settle_root_size(measured: Option<u64>, fallback: Option<u64>) -> (size: u64)
    ensures
        size == root_size(measured, fallback),
{
    let mut size: u64 = 0;
    if let Some(s) = measured {
        size = s;
    }
    if size == 0 {
        if let Some(s) = fallback {
            size = s;
        }
    }
    size
}

/// Settles the sizes of the pool images.
pub fn settle_pool_sizes(measured: &[Option<u64>; DISK_POOL_SIZE]) -> (sizes:
    [u64; DISK_POOL_SIZE])
    ensures
        sizes@ == pool_sizes(measured@),
{
    let mut sizes: [u64; DISK_POOL_SIZE] = [DUMMY_FILE_SIZE; DISK_POOL_SIZE];
    let mut i: usize = 0;
    while i < DISK_POOL_SIZE
        invariant
            i <= DISK_POOL_SIZE,
            sizes@.len() == DISK_POOL_SIZE,
            measured@.len() == DISK_POOL_SIZE,
            forall|j: int| 0 <= j < i ==> #[trigger] sizes@[j] == pool_size(measured@[j]),
        decreases DISK_POOL_SIZE - i,
    {
        sizes[i] = match measured[i] {
            Some(size) => size,
            None => DUMMY_FILE_SIZE,
        };
        i = i + 1;
    }
    assert(sizes@ =~= pool_sizes(measured@));
    sizes
}

} // verus!
