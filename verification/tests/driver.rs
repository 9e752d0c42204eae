use shyper::config::{BootInfo, HypervisorConfig};
use shyper::device::{DeviceType, VsockConfig, VsockDevice};
use shyper::driver::{choose_socket, Capabilities, CapabilityBits, MemoryConfig, Shyper};
use shyper::error::ShyperError;
use shyper::inner::{DeviceAction, StopAction, WaitOutcome};
use shyper::start::{DaemonPoll, ReadOutcome, RunOutcome, StartAction, StartEvent, WriteOutcome};

fn vsock(guest_cid: u32) -> DeviceType {
    DeviceType::Vsock(VsockDevice {
        config: VsockConfig { guest_cid },
    })
}

fn start(shyper: &mut Shyper) {
    let ok = || {
        StartEvent::Ran(RunOutcome::Ended {
            success: true,
            stderr: Vec::new(),
        })
    };
    let (mut state, _) = shyper.start_vm(1);
    let mut last = None;
    for event in [
        StartEvent::DisksPrepared,
        StartEvent::Wrote(WriteOutcome::Written),
        StartEvent::Read(ReadOutcome::Content(b"{}".to_vec())),
        StartEvent::Measured {
            rootfs: None,
            fallback: None,
            pool: [None, None],
        },
        StartEvent::Wrote(WriteOutcome::Written),
        StartEvent::Spawned(Some(5)),
        StartEvent::Polled(DaemonPoll::Running),
        ok(),
        ok(),
    ] {
        let (next, action) = shyper.advance_start(state, event);
        state = next;
        last = Some(action);
    }
    assert_eq!(last, Some(StartAction::Started { pid: 5 }));
}

#[test]
fn own_address_wins() {
    let shyper = Shyper::default();
    for environment in [None, Some(String::new()), Some("vsock://9:9".to_string())] {
        assert_eq!(shyper.get_agent_socket(environment).unwrap(), "vsock://3:1024");
    }
}

#[test]
fn address_falls_back() {
    let env = || Some("tcp://1".to_string());
    assert_eq!(choose_socket(Ok("a".to_string()), env()), "a");
    assert_eq!(choose_socket(Ok(String::new()), env()), "tcp://1");
    assert_eq!(choose_socket(Err(ShyperError::ProcessNotFound), env()), "tcp://1");
    assert_eq!(
        choose_socket(Err(ShyperError::ProcessNotFound), Some(String::new())),
        "vsock://3:1024"
    );
    assert_eq!(choose_socket(Ok(String::new()), None), "vsock://3:1024");
}

#[test]
fn exit_code_is_remembered() {
    let mut shyper = Shyper::new();
    assert_eq!(shyper.wait_vm(WaitOutcome::Exited(Some(9))).unwrap(), 0);
    start(&mut shyper);
    assert_eq!(shyper.get_pids().unwrap(), vec![5]);
    assert_eq!(shyper.get_vmm_master_tid().unwrap(), 5);
    assert_eq!(
        shyper.finish_stop(true).unwrap(),
        StopAction::KillAndWait { pid: 5 }
    );
    assert_eq!(shyper.wait_vm(WaitOutcome::Failed).unwrap(), 0);
    assert_eq!(shyper.wait_vm(WaitOutcome::Exited(Some(9))).unwrap(), 9);
    assert_eq!(shyper.wait_vm(WaitOutcome::Failed).unwrap(), 9);
    assert_eq!(shyper.wait_vm(WaitOutcome::Exited(None)).unwrap(), 0);
}

#[test]
fn driver_hands_devices_back() {
    let shyper = Shyper::new();
    assert_eq!(shyper.add_device(vsock(8)).unwrap(), vsock(8));
    assert_eq!(shyper.get_agent_socket(None).unwrap(), "vsock://3:1024");
    assert!(shyper.remove_device(vsock(8)).is_ok());
    assert!(shyper.update_device(vsock(8)).is_ok());
}

#[test]
fn what_is_not_done_succeeds() {
    let mut shyper = Shyper::new();
    assert!(shyper.prepare_vm("a", None).is_ok());
    assert!(shyper.pause_vm().is_ok());
    assert!(shyper.save_vm().is_ok());
    assert!(shyper.resume_vm().is_ok());
    assert!(shyper.cleanup().is_ok());
    assert!(shyper.check().is_ok());
    assert_eq!(shyper.resize_vcpu(2, 4).unwrap(), (2, 4));
    assert_eq!(shyper.resize_memory(64).unwrap(), (64, MemoryConfig {}));
    assert_eq!(
        shyper.capabilities().unwrap(),
        Capabilities { fs_sharing: true }
    );
    let mut caps = Capabilities::default();
    assert_eq!(caps, Capabilities { fs_sharing: false });
    caps.set(CapabilityBits::FsSharingSupport);
    assert_eq!(caps, Capabilities { fs_sharing: true });
    assert_eq!(shyper.get_thread_ids().unwrap().vcpus.len(), 0);
    assert_eq!(shyper.get_jailer_root().unwrap(), "");
    assert_eq!(shyper.get_hypervisor_metrics().unwrap(), "");
    assert_eq!(shyper.guest_memory_block_size(), 0);
    assert_eq!(shyper.get_passfd_listener_addr().unwrap(), (String::new(), 0));
    assert_eq!(shyper.get_ns_path(3).unwrap(), "/proc/3/task/3/ns");
}

#[test]
fn state_is_saved_and_restored() {
    let mut shyper = Shyper::new();
    let config = || HypervisorConfig {
        path: "/p".to_string(),
        boot_info: BootInfo {
            kernel: "/k".to_string(),
        },
        rest: "debug = true".to_string(),
    };
    shyper.set_hypervisor_config(config());
    assert_eq!(shyper.save().unwrap(), shyper.save_state().unwrap());
    let restored = Shyper::restore(shyper.save_state().unwrap()).unwrap();
    assert_eq!(restored.hypervisor_config(), config());
    assert_eq!(restored.get_pids().unwrap().len(), 0);
}

#[test]
fn stop_begins_with_destroy() {
    let shyper = Shyper::new();
    assert_eq!(shyper.stop_vm().args, ["vm", "destroy", "1"]);
    assert!(shyper.finish_stop(false).is_err());
}

#[test]
fn machine_is_reached_through_the_driver() {
    let mut shyper = Shyper::new();
    assert_eq!(
        shyper.machine().add_device(vsock(8)).unwrap(),
        DeviceAction::Queued
    );
    assert_eq!(shyper.get_agent_socket(None).unwrap(), "vsock://8:1024");
}
