use shyper::command::{make_filesystem, CommandLine};
use shyper::config::{BootInfo, HypervisorConfig};
use shyper::device::{
    collect_block_paths, BlockConfig, BlockDevice, DeviceType, VsockConfig, VsockDevice,
};
use shyper::error::ShyperError;
use shyper::inner::{
    DeviceAction, ShyperInner, StatusOutcome, StopAction, WaitOutcome, WatchAction, WatchPoll,
};
use shyper::pool::{plan_disks, take_free_slot, Placeholder};
use shyper::start::{
    DaemonPoll, ReadOutcome, RunOutcome, StartAction, StartEvent, StartState, WriteOutcome,
};

fn disk(path: &str) -> DeviceType {
    DeviceType::Block(BlockDevice {
        config: BlockConfig {
            path_on_host: path.to_string(),
            index: 9,
        },
    })
}

fn vsock(guest_cid: u32) -> DeviceType {
    DeviceType::Vsock(VsockDevice {
        config: VsockConfig { guest_cid },
    })
}

fn texts(list: &[&str]) -> Vec<String> {
    list.iter().map(|s| s.to_string()).collect()
}

fn tool(args: &[&str]) -> CommandLine {
    CommandLine {
        program: "./shyper".to_string(),
        args: texts(args),
        dir: Some("/root/taishan200-boot/gvm".to_string()),
    }
}

fn placeholder(path: &str) -> Placeholder {
    Placeholder {
        path: path.to_string(),
        length: 10737418240,
        make_filesystem: CommandLine {
            program: "mkfs.ext4".to_string(),
            args: texts(&["-F", path]),
            dir: None,
        },
    }
}

fn ran(success: bool, stderr: &[u8]) -> StartEvent {
    StartEvent::Ran(RunOutcome::Ended {
        success,
        stderr: stderr.to_vec(),
    })
}

fn measured() -> StartEvent {
    StartEvent::Measured {
        rootfs: Some(1024),
        fallback: None,
        pool: [None, Some(512)],
    }
}

fn template() -> StartEvent {
    StartEvent::Read(ReadOutcome::Content(
        br#"{"emulated_device":{"emulated_device_list":[]}}"#.to_vec(),
    ))
}

fn written() -> StartEvent {
    StartEvent::Wrote(WriteOutcome::Written)
}

/// Answers the steps of a start with events.
fn play(vm: &mut ShyperInner, events: Vec<StartEvent>) -> (StartState, Vec<StartAction>) {
    let (mut state, action) = vm.start_vm(10);
    let mut actions = vec![action];
    for event in events {
        assert!(state.is_answered_by(&event));
        let (next, action) = vm.advance_start(state, event);
        state = next;
        actions.push(action);
    }
    (state, actions)
}

fn up_to_spawn() -> Vec<StartEvent> {
    vec![
        StartEvent::DisksPrepared,
        written(),
        template(),
        measured(),
        written(),
    ]
}

fn working_start() -> Vec<StartEvent> {
    let mut events = up_to_spawn();
    events.push(StartEvent::Spawned(Some(77)));
    events.push(StartEvent::Polled(DaemonPoll::Running));
    events.push(ran(true, b""));
    events.push(ran(true, b""));
    events
}

fn failure(vm: &mut ShyperInner, events: Vec<StartEvent>) -> (ShyperError, bool) {
    let (state, mut actions) = play(vm, events);
    assert_eq!(state, StartState::Ended);
    assert_eq!(vm.get_pids().unwrap(), Vec::<u32>::new());
    match actions.pop() {
        Some(StartAction::Fail { error, kill_daemon }) => (error, kill_daemon),
        other => panic!("{:?}", other),
    }
}

#[test]
fn fresh_machine() {
    let vm = ShyperInner::new();
    assert_eq!(vm.get_agent_socket().unwrap(), "vsock://3:1024");
    assert_eq!(vm.get_pids().unwrap(), Vec::<u32>::new());
    let e = vm.get_vmm_master_tid().unwrap_err();
    assert_eq!(e, ShyperError::ProcessNotFound);
    assert_eq!(e.message(), "VM process not found");
    assert_eq!(vm.hypervisor_config(), HypervisorConfig::default());
    assert!(vm.cleanup().is_ok());
    assert!(vm.check().is_ok());
    assert_eq!(vm.get_ns_path(12).unwrap(), "/proc/12/task/12/ns");
}

#[test]
fn last_assigned_cid_decides() {
    let mut vm = ShyperInner::new();
    for device in [vsock(5), vsock(u32::MAX), vsock(8), disk("/a"), vsock(u32::MAX)] {
        assert_eq!(vm.add_device(device).unwrap(), DeviceAction::Queued);
    }
    assert_eq!(vm.get_agent_socket().unwrap(), "vsock://8:1024");
}

#[test]
fn unassigned_cid_stays_default() {
    let mut vm = ShyperInner::new();
    vm.add_device(vsock(u32::MAX)).unwrap();
    vm.add_device(DeviceType::Other("network".to_string())).unwrap();
    assert_eq!(vm.get_agent_socket().unwrap(), "vsock://3:1024");
}

#[test]
fn block_paths_are_in_order() {
    let devices = vec![
        disk("/a"),
        vsock(4),
        disk("/b"),
        DeviceType::Other("x".to_string()),
        disk("/a"),
    ];
    assert_eq!(collect_block_paths(&devices), texts(&["/a", "/b", "/a"]));
}

#[test]
fn plan_without_disks() {
    let mut slots = [None, None];
    let plan = plan_disks(&mut slots, &Vec::new());
    let dummies = texts(&[
        "/root/taishan200-boot/gvm/dummy_disk_0.img",
        "/root/taishan200-boot/gvm/dummy_disk_1.img",
    ]);
    assert_eq!(plan.rootfs, None);
    assert_eq!(plan.pool, dummies);
    assert_eq!(plan.dummies, dummies);
    assert_eq!(plan.mediated()[0], "kata-containers-nopart.img");
    assert_eq!(plan.mediated()[1..], dummies[..]);
    assert_eq!(slots, [None, None]);
}

#[test]
fn plan_fills_slots_in_order() {
    let mut slots = [None, None];
    let plan = plan_disks(&mut slots, &texts(&["/r", "/a"]));
    assert_eq!(plan.rootfs, Some("/r".to_string()));
    let dummy = "/root/taishan200-boot/gvm/dummy_disk_1.img";
    assert_eq!(plan.mediated(), texts(&["/r", "/a", dummy]));
    assert_eq!(plan.dummies, texts(&[dummy]));
    assert_eq!(slots, [Some("/a".to_string()), None]);
}

#[test]
fn plan_drops_what_does_not_fit() {
    let mut slots = [None, None];
    let plan = plan_disks(&mut slots, &texts(&["/r", "/a", "/b", "/c"]));
    assert_eq!(plan.mediated(), texts(&["/r", "/a", "/b"]));
    assert_eq!(plan.dummies, Vec::<String>::new());
    assert_eq!(slots, [Some("/a".to_string()), Some("/b".to_string())]);
}

#[test]
fn plan_keeps_taken_slots() {
    let mut slots = [Some("/x".to_string()), None];
    let plan = plan_disks(&mut slots, &texts(&["/r", "/a", "/b"]));
    assert_eq!(plan.mediated(), texts(&["/r", "/a", "/b"]));
    assert_eq!(slots, [Some("/x".to_string()), Some("/b".to_string())]);
}

#[test]
fn first_free_slot_is_taken() {
    let mut slots = [Some("/x".to_string()), None];
    assert_eq!(take_free_slot(&mut slots, "/y".to_string()), Some(1));
    assert_eq!(slots, [Some("/x".to_string()), Some("/y".to_string())]);
    assert_eq!(take_free_slot(&mut slots, "/z".to_string()), None);
    assert_eq!(slots, [Some("/x".to_string()), Some("/y".to_string())]);
    let mut slots = [None, Some("/y".to_string())];
    assert_eq!(take_free_slot(&mut slots, "/z".to_string()), Some(0));
}

#[test]
fn working_start_runs_all_steps() {
    let mut vm = ShyperInner::new();
    assert!(vm.prepare_vm("box", None).is_ok());
    let (state, actions) = play(&mut vm, working_start());
    assert_eq!(state, StartState::Ended);
    let dummies = texts(&[
        "/root/taishan200-boot/gvm/dummy_disk_0.img",
        "/root/taishan200-boot/gvm/dummy_disk_1.img",
    ]);
    assert_eq!(
        actions[0],
        StartAction::PrepareDisks(dummies.iter().map(|path| placeholder(path)).collect())
    );
    assert_eq!(
        actions[1],
        StartAction::WriteFile {
            path: "/root/taishan200-boot/gvm/mediate_gen_box.json".to_string(),
            content: br#"{"mediated":["kata-containers-nopart.img","/root/taishan200-boot/gvm/dummy_disk_0.img","/root/taishan200-boot/gvm/dummy_disk_1.img"]}"#
                .to_vec(),
        }
    );
    assert_eq!(
        actions[2],
        StartAction::ReadFile {
            path: "/root/taishan200-boot/gvm/kata.json".to_string()
        }
    );
    assert_eq!(
        actions[3],
        StartAction::Measure {
            rootfs: "kata-containers-nopart.img".to_string(),
            fallback: "/root/taishan200-boot/gvm/kata-containers-nopart.img".to_string(),
            pool: dummies,
        }
    );
    match &actions[4] {
        StartAction::WriteFile { path, content } => {
            assert_eq!(path, "/root/taishan200-boot/gvm/kata_gen_box.json");
            let text = String::from_utf8(content.clone()).unwrap();
            assert!(text.contains(r#""cfg_list":[0,20971520]"#));
            assert!(text.contains(r#""cfg_list":[0,1]"#));
        }
        other => panic!("{:?}", other),
    }
    assert_eq!(
        actions[5],
        StartAction::Spawn {
            daemon: tool(&["system", "daemon", "mediate_gen_box.json"]),
            stdout: "/tmp/shyper_vm_box.stdout".to_string(),
            stderr: "/tmp/shyper_vm_box.stderr".to_string(),
        }
    );
    assert_eq!(actions[6], StartAction::Poll { delay_ms: 500 });
    assert_eq!(
        actions[7],
        StartAction::Run(tool(&["vm", "config", "kata_gen_box.json"]))
    );
    assert_eq!(actions[8], StartAction::Run(tool(&["vm", "boot", "1"])));
    assert_eq!(actions[9], StartAction::Started { pid: 77 });
    assert_eq!(vm.get_pids().unwrap(), vec![77]);
    assert_eq!(vm.get_vmm_master_tid().unwrap(), 77);
}

#[test]
fn queued_root_image_is_inspected() {
    let mut vm = ShyperInner::new();
    vm.add_device(disk("/root.img")).unwrap();
    let template = StartEvent::Read(ReadOutcome::Content(
        br#"{"cmdline":"root=/dev/vda"}"#.to_vec(),
    ));
    let (_, actions) = play(
        &mut vm,
        vec![
            StartEvent::DisksPrepared,
            written(),
            template,
            StartEvent::Inspected(Some(b"DOS/MBR boot sector".to_vec())),
            measured(),
        ],
    );
    assert_eq!(
        actions[3],
        StartAction::Inspect(CommandLine {
            program: "file".to_string(),
            args: texts(&["/root.img"]),
            dir: None,
        })
    );
    match &actions[5] {
        StartAction::WriteFile { content, .. } => {
            assert_eq!(content, &br#"{"cmdline":"root=/dev/vda1"}"#.to_vec())
        }
        other => panic!("{:?}", other),
    }
}

#[test]
fn queued_cid_reaches_the_configuration() {
    let mut vm = ShyperInner::new();
    vm.add_device(vsock(99)).unwrap();
    let template = StartEvent::Read(ReadOutcome::Content(
        br#"{"emulated_device":{"emulated_device_list":[{"type":"EMU_DEVICE_T_VIRTIO_VSOCK"}]}}"#
            .to_vec(),
    ));
    let (_, actions) = play(
        &mut vm,
        vec![StartEvent::DisksPrepared, written(), template, measured()],
    );
    match &actions[4] {
        StartAction::WriteFile { content, .. } => {
            let text = String::from_utf8(content.clone()).unwrap();
            assert!(text.contains(r#""cfg_list":[99]"#));
        }
        other => panic!("{:?}", other),
    }
}

#[test]
fn daemon_of_unknown_fate_is_taken_to_run() {
    let mut vm = ShyperInner::new();
    let mut events = working_start();
    events[6] = StartEvent::Polled(DaemonPoll::Unknown);
    let (_, actions) = play(&mut vm, events);
    assert_eq!(actions[9], StartAction::Started { pid: 77 });
}

#[test]
fn start_fails_at_mediated_list() {
    let mut vm = ShyperInner::new();
    vm.prepare_vm("x", Some("ns".to_string())).unwrap();
    let fail = |outcome| vec![StartEvent::DisksPrepared, StartEvent::Wrote(outcome)];
    let (e, kill) = failure(&mut vm, fail(WriteOutcome::NotCreated));
    assert_eq!(
        e.message(),
        "create mediate json /root/taishan200-boot/gvm/mediate_gen_x.json"
    );
    assert!(!kill);
    let (e, kill) = failure(&mut vm, fail(WriteOutcome::NotWritten));
    assert_eq!(e.message(), "write mediate json");
    assert!(!kill);
}

#[test]
fn start_fails_at_template() {
    let mut vm = ShyperInner::new();
    let fail = |outcome| {
        vec![
            StartEvent::DisksPrepared,
            written(),
            StartEvent::Read(outcome),
        ]
    };
    let (e, _) = failure(&mut vm, fail(ReadOutcome::NotOpened));
    assert_eq!(
        e.message(),
        "open kata.json template /root/taishan200-boot/gvm/kata.json"
    );
    let (e, _) = failure(&mut vm, fail(ReadOutcome::NotRead("gone".to_string())));
    assert_eq!(e.message(), "parse kata.json");
    assert_eq!(e.cause(), Some("gone".to_string()));
    let (e, kill) = failure(&mut vm, fail(ReadOutcome::Content(b"{]".to_vec())));
    assert_eq!(e.message(), "parse kata.json");
    assert_eq!(
        e.cause(),
        Some("key must be a string at line 1 column 2".to_string())
    );
    assert!(!kill);
}

#[test]
fn start_fails_at_configuration_file() {
    let mut vm = ShyperInner::new();
    let mut events = up_to_spawn();
    events[4] = StartEvent::Wrote(WriteOutcome::NotCreated);
    assert_eq!(failure(&mut vm, events).0.message(), "create kata json");
    let mut events = up_to_spawn();
    events[4] = StartEvent::Wrote(WriteOutcome::NotWritten);
    assert_eq!(failure(&mut vm, events).0.message(), "write kata json");
}

#[test]
fn start_fails_where_size_has_no_place() {
    let mut vm = ShyperInner::new();
    let template = br#"{"emulated_device":{"emulated_device_list":[
        {"type":"EMU_DEVICE_T_VIRTIO_BLK_MEDIATED","cfg_list":[0]}]}}"#;
    let events = vec![
        StartEvent::DisksPrepared,
        written(),
        StartEvent::Read(ReadOutcome::Content(template.to_vec())),
        measured(),
    ];
    let (e, kill) = failure(&mut vm, events);
    assert_eq!(e, ShyperError::NoPlaceForSize);
    assert_eq!(e.message(), "rootfs entry has no place for its size");
    assert!(!kill);
}

#[test]
fn start_fails_at_daemon() {
    let mut vm = ShyperInner::new();
    let mut events = up_to_spawn();
    events.push(StartEvent::Spawned(None));
    assert_eq!(
        failure(&mut vm, events),
        (ShyperError::SpawnDaemon, false)
    );
    assert_eq!(ShyperError::SpawnDaemon.message(), "spawn shyper daemon");
    let mut events = up_to_spawn();
    events.push(StartEvent::Spawned(Some(1)));
    events.push(StartEvent::Polled(DaemonPoll::Exited(
        "exit status: 2".to_string(),
    )));
    let (e, kill) = failure(&mut vm, events);
    assert_eq!(
        e.message(),
        "Shyper daemon exited prematurely with status: exit status: 2"
    );
    assert!(!kill);
}

#[test]
fn failed_commands_kill_the_daemon() {
    let mut vm = ShyperInner::new();
    let mut events = working_start();
    events.truncate(7);
    events.push(StartEvent::Ran(RunOutcome::NotRun));
    let (e, kill) = failure(&mut vm, events);
    assert_eq!((e.message().as_str(), kill), ("run vm config", false));

    let mut events = working_start();
    events.truncate(7);
    events.push(ran(false, b"bad \xff config"));
    let (e, kill) = failure(&mut vm, events);
    assert_eq!(
        (e.message().as_str(), kill),
        ("vm config failed: bad \u{fffd} config", true)
    );

    let mut events = working_start();
    events.truncate(8);
    events.push(StartEvent::Ran(RunOutcome::NotRun));
    let (e, kill) = failure(&mut vm, events);
    assert_eq!((e.message().as_str(), kill), ("run vm boot", false));

    let mut events = working_start();
    events.truncate(8);
    events.push(ran(false, "größe".as_bytes()));
    let (e, kill) = failure(&mut vm, events);
    assert_eq!(
        (e.message().as_str(), kill),
        ("vm boot failed: größe", true)
    );
}

#[test]
fn events_must_answer() {
    let mut vm = ShyperInner::new();
    let (state, _) = vm.start_vm(1);
    assert!(state.is_answered_by(&StartEvent::DisksPrepared));
    assert!(!state.is_answered_by(&written()));
    assert!(!StartState::Ended.is_answered_by(&written()));
    assert!(StartState::Spawning.is_answered_by(&StartEvent::Spawned(None)));
}

#[test]
fn hotplug_fills_the_pool() {
    let mut vm = ShyperInner::new();
    play(&mut vm, working_start());
    assert_eq!(
        vm.add_device(disk("/a")).unwrap(),
        DeviceAction::Replace(tool(&["vm", "replace-disk", "1", "1", "/a"]))
    );
    assert_eq!(
        vm.add_device(disk("/b")).unwrap(),
        DeviceAction::Replace(tool(&["vm", "replace-disk", "1", "2", "/b"]))
    );
    let e = vm.add_device(disk("/c")).unwrap_err();
    assert_eq!(e, ShyperError::NoFreeSlot);
    assert_eq!(e.message(), "No free disk slots in Shyper pool");
}

#[test]
fn hotplug_replaces_a_placeholder() {
    let mut vm = ShyperInner::new();
    vm.add_device(disk("/r")).unwrap();
    vm.add_device(disk("/a")).unwrap();
    let mut events = working_start();
    events.insert(3, StartEvent::Inspected(None));
    let (_, actions) = play(&mut vm, events);
    assert_eq!(
        actions[0],
        StartAction::PrepareDisks(vec![placeholder(
            "/root/taishan200-boot/gvm/dummy_disk_1.img"
        )])
    );
    assert_eq!(
        vm.add_device(disk("/b")).unwrap(),
        DeviceAction::Replace(tool(&["vm", "replace-disk", "1", "2", "/b"]))
    );
    assert!(vm.add_device(disk("/c")).is_err());
}

#[test]
fn running_machine_takes_only_disks() {
    let mut vm = ShyperInner::new();
    play(&mut vm, working_start());
    assert_eq!(vm.add_device(vsock(5)).unwrap(), DeviceAction::Unsupported);
    assert_eq!(
        vm.add_device(DeviceType::Other("x".to_string())).unwrap(),
        DeviceAction::Unsupported
    );
    assert_eq!(vm.get_agent_socket().unwrap(), "vsock://3:1024");
}

#[test]
fn replacement_outcomes() {
    assert!(ShyperInner::finish_replace(StatusOutcome::Ended {
        success: true,
        status: "ok".to_string()
    })
    .is_ok());
    let e = ShyperInner::finish_replace(StatusOutcome::Ended {
        success: false,
        status: "ExitStatus(unix_wait_status(256))".to_string(),
    })
    .unwrap_err();
    assert_eq!(
        e.message(),
        "replace-disk failed with status ExitStatus(unix_wait_status(256))"
    );
    let e = ShyperInner::finish_replace(StatusOutcome::NotRun).unwrap_err();
    assert_eq!(e.message(), "failed to replace disk");
}

#[test]
fn stop_destroys_and_kills() {
    let mut vm = ShyperInner::new();
    assert_eq!(vm.stop_vm(), tool(&["vm", "destroy", "1"]));
    assert_eq!(vm.finish_stop(true).unwrap(), StopAction::Nothing);
    let e = vm.finish_stop(false).unwrap_err();
    assert_eq!(e.message(), "failed to destroy GVM via shyper");
    play(&mut vm, working_start());
    assert_eq!(
        vm.finish_stop(true).unwrap(),
        StopAction::KillAndWait { pid: 77 }
    );
}

#[test]
fn waiting_gives_the_exit_code() {
    let mut vm = ShyperInner::new();
    let e = vm.wait_vm(WaitOutcome::Exited(Some(1))).unwrap_err();
    assert_eq!(e.message(), "no VM process to wait for");
    play(&mut vm, working_start());
    assert_eq!(vm.wait_vm(WaitOutcome::Exited(Some(4))).unwrap(), 4);
    assert_eq!(vm.wait_vm(WaitOutcome::Exited(None)).unwrap(), 0);
    let e = vm.wait_vm(WaitOutcome::Failed).unwrap_err();
    assert_eq!(e.message(), "failed to wait for vm process");
}

#[test]
fn watcher_tells_when_the_machine_is_gone() {
    assert_eq!(ShyperInner::watch(WatchPoll::NoProcess), WatchAction::Stop);
    assert_eq!(
        ShyperInner::watch(WatchPoll::Running),
        WatchAction::Sleep { delay_ms: 500 }
    );
    assert_eq!(ShyperInner::watch(WatchPoll::Exited), WatchAction::NotifyAndStop);
    assert_eq!(ShyperInner::watch(WatchPoll::Failed), WatchAction::NotifyAndStop);
}

#[test]
fn restore_gives_back_the_settings() {
    let mut vm = ShyperInner::new();
    let config = || HypervisorConfig {
        path: "/p".to_string(),
        boot_info: BootInfo {
            kernel: "/k".to_string(),
        },
        rest: "machine_type = \"virt\"".to_string(),
    };
    vm.set_hypervisor_config(config());
    vm.add_device(vsock(8)).unwrap();
    let state = vm.save().unwrap();
    assert_eq!(state.hypervisor_type, "shyper");
    assert_eq!(state.rest, "");
    let restored = ShyperInner::restore(state).unwrap();
    assert_eq!(restored.hypervisor_config(), config());
    assert_eq!(restored.get_agent_socket().unwrap(), "vsock://3:1024");
}

#[test]
fn placeholder_images_are_formatted() {
    assert_eq!(
        make_filesystem("/d.img".to_string()),
        CommandLine {
            program: "mkfs.ext4".to_string(),
            args: texts(&["-F", "/d.img"]),
            dir: None,
        }
    );
}

#[test]
fn machines_of_different_names_write_different_files() {
    let paths = |id: &str| {
        let mut vm = ShyperInner::new();
        vm.prepare_vm(id, None).unwrap();
        let (_, actions) = play(&mut vm, up_to_spawn());
        actions
            .into_iter()
            .filter_map(|a| match a {
                StartAction::WriteFile { path, .. } => Some(path),
                _ => None,
            })
            .collect::<Vec<String>>()
    };
    assert_ne!(paths("a")[0], paths("b")[0]);
    assert_ne!(paths("a")[1], paths("b")[1]);
}

#[test]
fn failed_start_can_be_tried_again() {
    let mut vm = ShyperInner::new();
    vm.add_device(disk("/r")).unwrap();
    vm.add_device(disk("/a")).unwrap();
    let mut events = working_start();
    events.insert(3, StartEvent::Inspected(None));
    let last = events.len() - 1;
    events[last] = ran(false, b"");
    assert_eq!(events.len(), 10);
    assert_eq!(
        failure(&mut vm, events),
        (ShyperError::BootFailed(String::new()), true)
    );
    assert_eq!(vm.add_device(disk("/b")).unwrap(), DeviceAction::Queued);
    let (_, actions) = play(&mut vm, vec![StartEvent::DisksPrepared]);
    assert_eq!(actions[0], StartAction::PrepareDisks(Vec::new()));
    match &actions[1] {
        StartAction::WriteFile { content, .. } => {
            assert_eq!(content, &br#"{"mediated":["/r","/a","/b"]}"#.to_vec())
        }
        other => panic!("{:?}", other),
    }
}
