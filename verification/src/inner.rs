//! The state of one machine and what is done with it.

use vstd::prelude::*;
use vstd::string::StringExecFns;

use crate::command;
use crate::command::{CommandLine, CommandView};
use crate::config;
use crate::config::HypervisorConfig;
use crate::device;
use crate::device::DeviceType;
use crate::error::{ErrorView, ShyperError};
use crate::pool;
use crate::pool::Slots;
use crate::start;
use crate::start::{StartAction, StartEvent, StartState};

verus! {

/// The type under which the driver's state is saved.
pub const HYPERVISOR_SHYPER: &'static str = "shyper";

/// The context identifier of a guest for which none was assigned.
pub const DEFAULT_VSOCK_CID: u32 = 3;

/// How long the watcher of the machine's process waits between two looks at it,
/// in milliseconds.
pub const WATCH_INTERVAL_MS: u64 = 500;

/// What is saved of a machine.
#[derive(Debug, PartialEq, Eq)]
pub struct HypervisorState {
    pub hypervisor_type: String,
    pub config: HypervisorConfig,
    /// What else a state may hold, empty for nothing. The driver puts nothing
    /// there and does not read it.
    pub rest: String,
}

/// What came of running a command for its status.
#[derive(Debug, PartialEq, Eq)]
pub enum StatusOutcome {
    /// It could not be run.
    NotRun,
    /// It ended; with success or not, and with this status.
    Ended { success: bool, status: String },
}

/// What came of waiting for the machine's process.
#[derive(Debug, PartialEq, Eq)]
pub enum WaitOutcome {
    Failed,
    /// It ended with this code, `None` where a signal ended it.
    Exited(Option<i32>),
}

/// What adding a device asks for.
#[derive(Debug, PartialEq, Eq)]
pub enum DeviceAction {
    /// Nothing: the device waits for the start of the machine.
    Queued,
    /// Run this command, which replaces a disk of the running machine.
    Replace(CommandLine),
    /// Nothing: a running machine takes no device of this kind.
    Unsupported,
}

/// The mathematical value of a [`DeviceAction`].
pub enum DeviceActionView {
    Queued,
    Replace(CommandView),
    Unsupported,
}

impl View for DeviceAction {
    type V = DeviceActionView;

    open spec fn view(&self) -> DeviceActionView {
        match self {
            DeviceAction::Queued => DeviceActionView::Queued,
            DeviceAction::Replace(c) => DeviceActionView::Replace(c@),
            DeviceAction::Unsupported => DeviceActionView::Unsupported,
        }
    }
}

/// What is left to do of a stop.
#[derive(Debug, Clone, Copy, PartialEq, Eq, Structural)]
pub enum StopAction {
    /// Kill this process, then wait for it. Failures do not matter.
    KillAndWait { pid: u32 },
    /// Nothing: no process is held.
    Nothing,
}

/// What a look at the machine's process found.
#[derive(Debug, PartialEq, Eq)]
pub enum WatchPoll {
    /// No process is held.
    NoProcess,
    Running,
    Exited,
    Failed,
}

/// What the watcher of the machine's process does next.
#[derive(Debug, Clone, Copy, PartialEq, Eq, Structural)]
pub enum WatchAction {
    /// Look again after this many milliseconds.
    Sleep { delay_ms: u64 },
    /// Tell that the machine is gone, and stop.
    NotifyAndStop,
    /// Stop.
    Stop,
}

/// One machine.
pub struct ShyperInner {
    vm_process: Option<u32>,
    config: HypervisorConfig,
    pending_devices: Vec<DeviceType>,
    id: String,
    device_slots: Slots,
    vsock_cid: u32,
}

/// The mathematical value of a [`ShyperInner`].
pub struct ShyperInnerView {
    /// The process of the machine's daemon, `None` before the machine was
    /// started.
    pub vm_process: Option<u32>,
    /// The settings.
    pub config: HypervisorConfig,
    /// The devices that wait for the start.
    pub pending_devices: Seq<DeviceType>,
    /// The name of the machine.
    pub id: Seq<char>,
    /// The image behind each slot of the disk pool.
    pub device_slots: Seq<Option<Seq<char>>>,
    /// The context identifier of the guest.
    pub vsock_cid: u32,
}

impl View for ShyperInner {
    type V = ShyperInnerView;

    closed spec fn view(&self) -> ShyperInnerView {
        ShyperInnerView {
            vm_process: self.vm_process,
            config: self.config,
            pending_devices: self.pending_devices@,
            id: self.id@,
            device_slots: self.device_slots.deep_view(),
            vsock_cid: self.vsock_cid,
        }
    }
}

impl ShyperInnerView {
    /// Every machine has [`pool::DISK_POOL_SIZE`] slots.
    pub open spec fn wf(self) -> bool {
        self.device_slots.len() == pool::DISK_POOL_SIZE
    }

    /// The disks that wait for the start.
    pub open spec fn pending_disks(self) -> Seq<Seq<char>> {
        device::block_paths(self.pending_devices)
    }

    /// The machine after a device was queued.
    pub open spec fn queued(self, device: DeviceType) -> ShyperInnerView {
        ShyperInnerView {
            pending_devices: self.pending_devices.push(device),
            vsock_cid: device::cid_after(self.vsock_cid, device),
            ..self
        }
    }

    /// The machine after an image was put into a slot.
    pub open spec fn plugged(self, slot: int, path: Seq<char>) -> ShyperInnerView {
        ShyperInnerView { device_slots: self.device_slots.update(slot, Some(path)), ..self }
    }

    /// The machine after its start began.
    pub open spec fn starting(self) -> ShyperInnerView {
        ShyperInnerView {
            device_slots: pool::slots_after(self.device_slots, self.pending_disks()),
            ..self
        }
    }

    /// The machine after a step of its start.
    pub open spec fn after_step(self, action: start::StartActionView) -> ShyperInnerView {
        match action {
            start::StartActionView::Started { pid } => ShyperInnerView {
                vm_process: Some(pid),
                ..self
            },
            _ => self,
        }
    }
}

/// Every machine has [`pool::DISK_POOL_SIZE`] slots at all times.
pub proof fn law_slot_count(vm: ShyperInner)
    ensures
        vm@.wf(),
{
}

/// A machine with some settings of which nothing else is known yet.
pub open spec fn fresh(config: HypervisorConfig) -> ShyperInnerView {
    ShyperInnerView {
        vm_process: None,
        config,
        pending_devices: Seq::empty(),
        id: Seq::empty(),
        device_slots: Seq::new(pool::DISK_POOL_SIZE as nat, |i: int| None),
        vsock_cid: DEFAULT_VSOCK_CID,
    }
}

/// Whether a state is what is saved of a machine: its settings, under the
/// driver's type, and nothing else.
pub open spec fn is_saved_state(vm: ShyperInnerView, state: HypervisorState) -> bool {
    &&& state.hypervisor_type@ == HYPERVISOR_SHYPER@
    &&& state.config == vm.config
    &&& state.rest@ == Seq::<char>::empty()
}

/// What is left to do of a stop once the machine was destroyed.
pub open spec fn stop_action(vm_process: Option<u32>) -> StopAction {
    match vm_process {
        Some(pid) => StopAction::KillAndWait { pid },
        None => StopAction::Nothing,
    }
}

/// The address of the agent in a guest.
pub open spec fn agent_socket(vsock_cid: u32) -> Seq<char> {
    "vsock://"@ + crate::text::decimal_of(vsock_cid as nat) + ":1024"@
}

/// The namespaces of a process.
pub open spec fn ns_path(pid: u32) -> Seq<char> {
    "/proc/"@ + crate::text::decimal_of(pid as nat) + "/task/"@ + crate::text::decimal_of(
        pid as nat,
    ) + "/ns"@
}

impl ShyperInner {
    /// A machine with some settings of which nothing else is known yet.
    fn with_config(config: HypervisorConfig) -> (vm: ShyperInner)
        ensures
            vm@ == fresh(config),
    {
        let pending_devices: Vec<DeviceType> = Vec::new();
        let device_slots: Slots = [None, None];
        assert(device_slots.deep_view() =~= fresh(config).device_slots);
        assert(pending_devices@ =~= Seq::<DeviceType>::empty());
        ShyperInner {
            vm_process: None,
            config,
            pending_devices,
            id: String::new(),
            device_slots,
            vsock_cid: DEFAULT_VSOCK_CID,
        }
    }

    /// A machine with default settings.
    pub fn new() -> (vm: ShyperInner)
        ensures
            vm@ == fresh(vm@.config),
            vm@.config@ == config::default_config(),
            vm@.wf(),
    {
        ShyperInner::with_config(HypervisorConfig::default())
    }

    /// Sets the settings.
    pub fn set_hypervisor_config(&mut self, config: HypervisorConfig)
        ensures
            final(self)@ == (ShyperInnerView { config, ..old(self)@ }),
    {
        self.config = config;
    }

    /// Names the machine.
    pub fn prepare_vm(&mut self, id: &str, _netns: Option<String>) -> (r: Result<(), ShyperError>)
        ensures
            r is Ok,
            final(self)@ == (ShyperInnerView { id: id@, ..old(self)@ }),
    {
        self.id = id.to_string();
        Ok(())
    }

    /// Adds a device. Before the start of the machine it is queued; a vsock
    /// device then sets the context identifier. On a machine that was started a
    /// disk takes the first free slot of the pool, and what stood there is to be
    /// replaced; any other device is left out.
    pub fn add_device(&mut self, device: DeviceType) -> (r: Result<DeviceAction, ShyperError>)
        ensures
            old(self)@.vm_process is None ==> {
                &&& r matches Ok(action)
                &&& action@ == DeviceActionView::Queued
                &&& final(self)@ == old(self)@.queued(device)
            },
            old(self)@.vm_process is Some ==> match device {
                DeviceType::Block(blk) => match r {
                    Ok(action) => exists|slot: int|
                        #![trigger pool::is_first_free(old(self)@.device_slots, slot)]
                        {
                            &&& pool::is_first_free(old(self)@.device_slots, slot)
                            &&& action@ == DeviceActionView::Replace(
                                command::replace_disk_command(
                                    pool::config_id(slot) as nat,
                                    blk.config.path_on_host@,
                                ),
                            )
                            &&& final(self)@ == old(self)@.plugged(
                                slot,
                                blk.config.path_on_host@,
                            )
                        },
                    Err(e) => {
                        &&& pool::pool_full(old(self)@.device_slots)
                        &&& e@ == ErrorView::NoFreeSlot
                        &&& final(self)@ == old(self)@
                    },
                },
                _ => {
                    &&& r matches Ok(action)
                    &&& action@ == DeviceActionView::Unsupported
                    &&& final(self)@ == old(self)@
                },
            },
    {
        if self.vm_process.is_none() {
            if let DeviceType::Vsock(vsock) = &device {
                if vsock.config.guest_cid != u32::MAX {
                    self.vsock_cid = vsock.config.guest_cid;
                }
            }
            self.pending_devices.push(device);
            return Ok(DeviceAction::Queued);
        }
        match device {
            DeviceType::Block(blk) => {
                let path: String = blk.config.path_on_host;
                match pool::take_free_slot(&mut self.device_slots, path.clone()) {
                    Some(slot) => {
                        let config_id: u64 = slot as u64 + 1;
                        Ok(DeviceAction::Replace(command::replace_disk(config_id, path)))
                    },
                    None => Err(ShyperError::NoFreeSlot),
                }
            },
            _ => Ok(DeviceAction::Unsupported),
        }
    }

    /// What adding a disk to the running machine came to. The slot stays taken
    /// even where the replacement failed.
    pub fn finish_replace(outcome: StatusOutcome) -> (r: Result<(), ShyperError>)
        ensures
            match outcome {
                StatusOutcome::NotRun => r matches Err(e) && e@ == ErrorView::ReplaceNotRun,
                StatusOutcome::Ended { success, status } => if success {
                    r is Ok
                } else {
                    r matches Err(e) && e@ == ErrorView::ReplaceFailed(status@)
                },
            },
    {
        match outcome {
            StatusOutcome::NotRun => Err(ShyperError::ReplaceNotRun),
            StatusOutcome::Ended { success, status } => if success {
                Ok(())
            } else {
                Err(ShyperError::ReplaceFailed(status))
            },
        }
    }

    /// Begins to start the machine.
    pub fn start_vm(&mut self, _timeout: i32) -> (step: (StartState, StartAction))
        ensures
            final(self)@ == old(self)@.starting(),
            (step.0@, step.1@) == start::first_step(pool::disk_plan(old(self)@.pending_disks())),
    {
        let blocks: Vec<String> = device::collect_block_paths(&self.pending_devices);
        let plan: pool::DiskPlan = pool::plan_disks(&mut self.device_slots, &blocks);
        start::begin(plan)
    }

    /// Goes on starting the machine after an event. The last step of a start
    /// that succeeds makes the daemon the machine's process.
    pub fn advance_start(&mut self, state: StartState, event: StartEvent) -> (step: (
        StartState,
        StartAction,
    ))
        requires
            start::answers(state@, event),
        ensures
            (step.0@, step.1@) == start::next_step(
                old(self)@.id,
                old(self)@.vsock_cid,
                state@,
                event,
            ),
            final(self)@ == old(self)@.after_step(step.1@),
    {
        let step: (StartState, StartAction) = start::advance(
            &self.id,
            self.vsock_cid,
            state,
            event,
        );
        if let StartAction::Started { pid } = &step.1 {
            self.vm_process = Some(*pid);
        }
        step
    }

    /// Begins to stop the machine: the command to run.
    pub fn stop_vm(&self) -> (destroy: CommandLine)
        ensures
            destroy@ == command::destroy_command(),
    {
        command::destroy()
    }

    /// Goes on stopping the machine once the command was run, whatever it came
    /// to: the machine's process is to be killed and waited for.
    pub fn finish_stop(&self, ran: bool) -> (r: Result<StopAction, ShyperError>)
        ensures
            match r {
                Ok(action) => ran && action == stop_action(self@.vm_process),
                Err(e) => !ran && e@ == ErrorView::DestroyNotRun,
            },
    {
        if !ran {
            return Err(ShyperError::DestroyNotRun);
        }
        match self.vm_process {
            Some(pid) => Ok(StopAction::KillAndWait { pid }),
            None => Ok(StopAction::Nothing),
        }
    }

    /// The exit code of the machine, given what waiting for its process came to.
    pub fn wait_vm(&self, waited: WaitOutcome) -> (r: Result<i32, ShyperError>)
        ensures
            match self@.vm_process {
                None => r matches Err(e) && e@ == ErrorView::NoProcessToWaitFor,
                Some(_) => match waited {
                    WaitOutcome::Failed => r matches Err(e) && e@ == ErrorView::WaitFailed,
                    WaitOutcome::Exited(Some(code)) => r == Ok::<i32, ShyperError>(code),
                    WaitOutcome::Exited(None) => r == Ok::<i32, ShyperError>(0i32),
                },
            },
    {
        if self.vm_process.is_none() {
            return Err(ShyperError::NoProcessToWaitFor);
        }
        match waited {
            WaitOutcome::Failed => Err(ShyperError::WaitFailed),
            WaitOutcome::Exited(code) => match code {
                Some(code) => Ok(code),
                None => Ok(0),
            },
        }
    }

    /// What the watcher of the machine's process does after a look at it.
    pub fn watch(poll: WatchPoll) -> (action: WatchAction)
        ensures
            action == match poll {
                WatchPoll::NoProcess => WatchAction::Stop,
                WatchPoll::Running => WatchAction::Sleep { delay_ms: WATCH_INTERVAL_MS },
                WatchPoll::Exited => WatchAction::NotifyAndStop,
                WatchPoll::Failed => WatchAction::NotifyAndStop,
            },
    {
        match poll {
            WatchPoll::NoProcess => WatchAction::Stop,
            WatchPoll::Running => WatchAction::Sleep { delay_ms: WATCH_INTERVAL_MS },
            WatchPoll::Exited => WatchAction::NotifyAndStop,
            WatchPoll::Failed => WatchAction::NotifyAndStop,
        }
    }

    /// The address of the agent in the guest.
    pub fn get_agent_socket(&self) -> (r: Result<String, ShyperError>)
        ensures
            r matches Ok(address) && address@ == agent_socket(self@.vsock_cid),
    {
        Ok(
            "vsock://".to_string().concat(
                crate::text::decimal(self.vsock_cid as u64).as_str(),
            ).concat(":1024"),
        )
    }

    /// The processes of the machine.
    pub fn get_pids(&self) -> (r: Result<Vec<u32>, ShyperError>)
        ensures
            r matches Ok(pids) && pids@ == match self@.vm_process {
                Some(pid) => seq![pid],
                None => Seq::<u32>::empty(),
            },
    {
        let mut pids: Vec<u32> = Vec::new();
        if let Some(pid) = self.vm_process {
            pids.push(pid);
        }
        assert(pids@ =~= match self@.vm_process {
            Some(pid) => seq![pid],
            None => Seq::<u32>::empty(),
        });
        Ok(pids)
    }

    /// The main thread of the machine.
    pub fn get_vmm_master_tid(&self) -> (r: Result<u32, ShyperError>)
        ensures
            match r {
                Ok(tid) => self@.vm_process == Some(tid),
                Err(e) => self@.vm_process is None && e@ == ErrorView::ProcessNotFound,
            },
    {
        match self.vm_process {
            Some(pid) => Ok(pid),
            None => Err(ShyperError::ProcessNotFound),
        }
    }

    /// The namespaces of the driver's own process.
    pub fn get_ns_path(&self, own_pid: u32) -> (r: Result<String, ShyperError>)
        ensures
            r matches Ok(path) && path@ == ns_path(own_pid),
    {
        let pid: String = crate::text::decimal(own_pid as u64);
        Ok(
            "/proc/".to_string().concat(pid.as_str()).concat("/task/").concat(pid.as_str()).concat(
                "/ns",
            ),
        )
    }

    /// Cleans up: there is nothing to do.
    pub fn cleanup(&self) -> (r: Result<(), ShyperError>)
        ensures
            r is Ok,
    {
        Ok(())
    }

    /// Checks the machine: there is nothing to find.
    pub fn check(&self) -> (r: Result<(), ShyperError>)
        ensures
            r is Ok,
    {
        Ok(())
    }

    /// The settings.
    pub fn hypervisor_config(&self) -> (config: HypervisorConfig)
        ensures
            config == self@.config,
    {
        self.config.copy()
    }

    /// What is to be saved of the machine: its settings.
    pub fn save(&self) -> (r: Result<HypervisorState, ShyperError>)
        ensures
            r matches Ok(state) && is_saved_state(self@, state),
    {
        Ok(
            HypervisorState {
                hypervisor_type: HYPERVISOR_SHYPER.to_string(),
                config: self.config.copy(),
                rest: String::new(),
            },
        )
    }

    /// A machine with the settings that were saved.
    pub fn restore(state: HypervisorState) -> (r: Result<ShyperInner, ShyperError>)
        ensures
            r matches Ok(vm) && vm@ == fresh(state.config) && vm@.wf(),
    {
        Ok(ShyperInner::with_config(state.config))
    }
}

} // verus!
