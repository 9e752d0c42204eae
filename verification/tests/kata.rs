use serde_json::Value;
use shyper::error::ShyperError;
use shyper::kata::{
    configure, detect_partitions, kata_json, mediate_json, parse_template,
    report_tells_of_partitions, settle_pool_sizes, settle_root_size, KataSettings,
};
use shyper::pool::DUMMY_FILE_SIZE;

const TEMPLATE: &str = r#"{
    "name": "gvm",
    "cmdline": "earlycon root=/dev/vda rw",
    "ratio": 0.5,
    "emulated_device": {
        "count": 3,
        "emulated_device_list": [
            {"type": "EMU_DEVICE_T_VIRTIO_BLK_MEDIATED", "cfg_list": [0, 209715200], "irq_id": 46},
            {"type": "EMU_DEVICE_T_VIRTIO_VSOCK", "cfg_list": [3], "irq_id": 47},
            {"type": "EMU_DEVICE_T_VIRTIO_BLK_MEDIATED", "cfg_list": [1, 5]},
            {"type": "EMU_DEVICE_T_GICD", "cfg_list": [0, 7]}
        ]
    }
}"#;

fn settings(partitioned: bool, rootfs_size: u64) -> KataSettings {
    KataSettings {
        partitioned,
        vsock_cid: 42,
        rootfs_size,
        pool_sizes: [1024, DUMMY_FILE_SIZE],
    }
}

fn value(text: &str) -> Value {
    serde_json::from_str(text).unwrap()
}

fn generate(template: &str, settings: &KataSettings) -> Value {
    let parsed = parse_template(&template.as_bytes().to_vec()).unwrap();
    let text = kata_json(parsed, settings).unwrap();
    serde_json::from_slice(&text).unwrap()
}

#[test]
fn mediated_list_is_written() {
    let text = mediate_json(vec!["/a".to_string(), "b \"c\"".to_string()]);
    assert_eq!(text, br#"{"mediated":["/a","b \"c\""]}"#.to_vec());
    assert_eq!(mediate_json(Vec::new()), br#"{"mediated":[]}"#.to_vec());
}

#[test]
fn template_must_be_json() {
    assert_eq!(
        parse_template(&b"{".to_vec()).unwrap_err(),
        ShyperError::ParseTemplate("EOF while parsing an object at line 1 column 1".to_string())
    );
    let e = parse_template(&b"{\n  \"a\": x}".to_vec()).unwrap_err();
    assert_eq!(e.message(), "parse kata.json");
    assert_eq!(
        e.cause(),
        Some("expected value at line 2 column 8".to_string())
    );
    assert_eq!(ShyperError::NoFreeSlot.cause(), None);
    assert_eq!(parse_template(&b"[1]".to_vec()).unwrap(), value("[1]"));
}

#[test]
fn configuration_is_made_from_template() {
    let config = generate(TEMPLATE, &settings(true, 4096));
    let expected = value(
        r#"{
        "name": "gvm",
        "cmdline": "earlycon root=/dev/vda1 rw",
        "ratio": 0.5,
        "emulated_device": {
            "count": 3,
            "emulated_device_list": [
                {"type": "EMU_DEVICE_T_VIRTIO_BLK_MEDIATED", "cfg_list": [0, 8], "irq_id": 46},
                {"type": "EMU_DEVICE_T_VIRTIO_VSOCK", "cfg_list": [42], "irq_id": 47},
                {"type": "EMU_DEVICE_T_VIRTIO_BLK_MEDIATED", "cfg_list": [1, 5]},
                {"type": "EMU_DEVICE_T_GICD", "cfg_list": [0, 7]},
                {
                    "name": "virtio_blk_pool_0@60007000",
                    "base_ipa": "0x60007000",
                    "length": "0x1000",
                    "irq_id": 502,
                    "cfg_num": 2,
                    "cfg_list": [0, 2],
                    "type": "EMU_DEVICE_T_VIRTIO_BLK_MEDIATED"
                },
                {
                    "name": "virtio_blk_pool_1@60008000",
                    "base_ipa": "0x60008000",
                    "length": "0x1000",
                    "irq_id": 503,
                    "cfg_num": 2,
                    "cfg_list": [0, 20971520],
                    "type": "EMU_DEVICE_T_VIRTIO_BLK_MEDIATED"
                }
            ]
        }
    }"#,
    );
    assert_eq!(config, expected);
}

#[test]
fn configuration_is_written_compactly() {
    let parsed = parse_template(&br#"{ "b" : 1, "a" : [ true ] }"#.to_vec()).unwrap();
    assert_eq!(
        kata_json(parsed, &settings(false, 0)).unwrap(),
        br#"{"a":[true],"b":1}"#.to_vec()
    );
}

#[test]
fn command_line_stays_without_partitions() {
    let config = generate(TEMPLATE, &settings(false, 4096));
    assert_eq!(config["cmdline"], "earlycon root=/dev/vda rw");
}

#[test]
fn command_line_of_another_root_stays() {
    let config = generate(r#"{"cmdline": "root=/dev/sda"}"#, &settings(true, 0));
    assert_eq!(config, value(r#"{"cmdline": "root=/dev/sda"}"#));
}

#[test]
fn command_line_that_is_no_text_stays() {
    let config = generate(r#"{"cmdline": 7}"#, &settings(true, 0));
    assert_eq!(config, value(r#"{"cmdline": 7}"#));
    let config = generate("[1]", &settings(true, 0));
    assert_eq!(config, value("[1]"));
}

#[test]
fn root_size_that_is_unknown_changes_nothing() {
    let config = generate(TEMPLATE, &settings(false, 0));
    let list = &config["emulated_device"]["emulated_device_list"];
    assert_eq!(list[0]["cfg_list"], value("[0, 209715200]"));
}

#[test]
fn vsock_entry_without_list_gets_one() {
    let template =
        r#"{"emulated_device": {"emulated_device_list": [{"type": "EMU_DEVICE_T_VIRTIO_VSOCK"}]}}"#;
    let config = generate(template, &settings(false, 0));
    let list = config["emulated_device"]["emulated_device_list"]
        .as_array()
        .unwrap();
    assert_eq!(list.len(), 3);
    assert_eq!(
        list[0],
        value(r#"{"type": "EMU_DEVICE_T_VIRTIO_VSOCK", "cfg_list": [42]}"#)
    );
}

#[test]
fn odd_entries_stay() {
    let entries = r#"[
        1, null, "x", {"type": 3}, {},
        {"type": "EMU_DEVICE_T_VIRTIO_BLK_MEDIATED"},
        {"type": "EMU_DEVICE_T_VIRTIO_BLK_MEDIATED", "cfg_list": []},
        {"type": "EMU_DEVICE_T_VIRTIO_BLK_MEDIATED", "cfg_list": "0"},
        {"type": "EMU_DEVICE_T_VIRTIO_BLK_MEDIATED", "cfg_list": [0.0]},
        {"type": "EMU_DEVICE_T_VIRTIO_BLK_MEDIATED", "cfg_list": [-1]},
        {"type": "EMU_DEVICE_T_VIRTIO_BLK_MEDIATED", "cfg_list": [18446744073709551615]}
    ]"#;
    let template = format!(
        r#"{{"emulated_device": {{"emulated_device_list": {}}}}}"#,
        entries
    );
    let config = generate(&template, &settings(false, 4096));
    let list = config["emulated_device"]["emulated_device_list"]
        .as_array()
        .unwrap();
    let before = value(entries);
    let before = before.as_array().unwrap();
    assert_eq!(list.len(), before.len() + 2);
    assert_eq!(&list[..before.len()], &before[..]);
}

#[test]
fn empty_device_list_gets_the_pool() {
    let template = r#"{"emulated_device": {"emulated_device_list": []}}"#;
    let config = generate(template, &settings(true, 4096));
    let list = config["emulated_device"]["emulated_device_list"]
        .as_array()
        .unwrap();
    assert_eq!(list.len(), 2);
    assert_eq!(list[0]["name"], "virtio_blk_pool_0@60007000");
    assert_eq!(list[1]["name"], "virtio_blk_pool_1@60008000");
}

#[test]
fn template_without_device_list_gets_none() {
    for template in [
        "{}",
        r#"{"emulated_device": {}}"#,
        r#"{"emulated_device": []}"#,
        r#"{"emulated_device": {"emulated_device_list": {}}}"#,
        "null",
    ] {
        assert_eq!(generate(template, &settings(false, 4096)), value(template));
    }
}

#[test]
fn root_entry_without_place_for_size_is_refused() {
    let template = r#"{"emulated_device": {"emulated_device_list": [
        {"type": "EMU_DEVICE_T_VIRTIO_BLK_MEDIATED", "cfg_list": [0]}
    ]}}"#;
    let parsed = parse_template(&template.as_bytes().to_vec()).unwrap();
    assert_eq!(
        kata_json(parsed, &settings(false, 512)).unwrap_err(),
        ShyperError::NoPlaceForSize
    );
    assert!(configure(value(template), &settings(false, 512)).is_none());
    assert!(configure(value(template), &settings(false, 0)).is_some());
}

#[test]
fn root_entry_keeps_what_follows_its_size() {
    let template = r#"{"emulated_device": {"emulated_device_list": [
        {"type": "EMU_DEVICE_T_VIRTIO_BLK_MEDIATED", "cfg_list": [0, 1, 9]}
    ]}}"#;
    let config = configure(value(template), &settings(false, 1023)).unwrap();
    assert_eq!(
        config["emulated_device"]["emulated_device_list"][0]["cfg_list"],
        value("[0, 1, 9]")
    );
    let config = configure(value(template), &settings(false, 5120)).unwrap();
    assert_eq!(
        config["emulated_device"]["emulated_device_list"][0]["cfg_list"],
        value("[0, 10, 9]")
    );
}

#[test]
fn partition_tables_are_detected() {
    let seen = |s: &str| detect_partitions(&Some(s.as_bytes().to_vec()));
    assert!(seen("a.img: DOS/MBR boot sector; partition 1 : ID=0x83"));
    assert!(seen("GPT PARTITION table"));
    assert!(seen("x86 Boot Sector"));
    assert!(seen("MBR"));
    assert!(!seen("Linux rev 1.0 ext4 filesystem data"));
    assert!(!seen(""));
    assert!(!detect_partitions(&None));
    assert!(detect_partitions(&Some(b"\xff\xfe MBR".to_vec())));
    assert!(report_tells_of_partitions("mbr"));
    assert!(!report_tells_of_partitions("MBR"));
}

#[test]
fn root_size_falls_back() {
    assert_eq!(settle_root_size(Some(5), Some(7)), 5);
    assert_eq!(settle_root_size(Some(0), Some(7)), 7);
    assert_eq!(settle_root_size(None, Some(7)), 7);
    assert_eq!(settle_root_size(None, None), 0);
    assert_eq!(settle_root_size(Some(0), None), 0);
    assert_eq!(settle_root_size(Some(5), None), 5);
}

#[test]
fn pool_size_falls_back_to_placeholder() {
    assert_eq!(settle_pool_sizes(&[None, Some(0)]), [10737418240, 0]);
    assert_eq!(settle_pool_sizes(&[Some(9), None]), [9, 10737418240]);
}
