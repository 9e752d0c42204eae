//! The driver as a container runtime sees it.

use vstd::prelude::*;

use crate::command::CommandLine;
use crate::config::HypervisorConfig;
use crate::device::DeviceType;
use crate::error::{ErrorView, ShyperError};
use crate::inner;
use crate::inner::{HypervisorState, ShyperInner, ShyperInnerView, StopAction, WaitOutcome};
use crate::start::{StartAction, StartEvent, StartState};

verus! {

/// The address of the agent where nothing else is known.
pub const DEFAULT_AGENT_SOCKET: &'static str = "vsock://3:1024";

/// The environment variable that sets the address of the agent.
pub const AGENT_ADDRESS_VARIABLE: &'static str = "KATA_AGENT_SERVER_ADDR";

/// What the hypervisor can do.
#[derive(Debug, Clone, Copy, PartialEq, Eq, Structural)]
pub struct Capabilities {
    /// Directories of the host can be shared with the guest.
    pub fs_sharing: bool,
}

/// One thing that a hypervisor may be able to do.
#[derive(Debug, Clone, Copy, PartialEq, Eq, Structural)]
pub enum CapabilityBits {
    /// Share directories of the host with the guest.
    FsSharingSupport,
}

impl Capabilities {
    /// Adds what the hypervisor can do.
    pub fn set(&mut self, flag: CapabilityBits)
        ensures
            *final(self) == (match flag {
                CapabilityBits::FsSharingSupport => Capabilities { fs_sharing: true },
            }),
    {
        match flag {
            CapabilityBits::FsSharingSupport => {
                self.fs_sharing = true;
            },
        }
    }
}

impl Default for Capabilities {
    fn default() -> (caps: Capabilities)
        ensures
            caps == (Capabilities { fs_sharing: false }),
    {
        Capabilities { fs_sharing: false }
    }
}

/// How the memory of a machine was changed: nothing is told of it.
#[derive(Debug, Clone, Copy, PartialEq, Eq, Structural)]
pub struct MemoryConfig {}

/// The threads of a machine's processors, as pairs of processor and thread.
#[derive(Debug, PartialEq, Eq)]
pub struct VcpuThreadIds {
    pub vcpus: Vec<(u32, u32)>,
}

/// The driver of one machine.
pub struct Shyper {
    inner: ShyperInner,
    exit_code: i32,
}

/// The mathematical value of a [`Shyper`].
pub struct ShyperView {
    /// The machine.
    pub inner: ShyperInnerView,
    /// The last exit code of the machine that was learnt, zero before.
    pub exit_code: i32,
}

impl View for Shyper {
    type V = ShyperView;

    closed spec fn view(&self) -> ShyperView {
        ShyperView { inner: self.inner@, exit_code: self.exit_code }
    }
}

/// The address of the agent: the machine's own, or, where it has none, that of
/// the environment, or, where that has none, the default.
pub open spec fn chosen_socket(own: Option<Seq<char>>, environment: Option<Seq<char>>) -> Seq<
    char,
> {
    if own is Some && own->0.len() > 0 {
        own->0
    } else if environment is Some && environment->0.len() > 0 {
        environment->0
    } else {
        DEFAULT_AGENT_SOCKET@
    }
}

/// The exit code after waiting for the machine: what was learnt, or, where
/// nothing was, the one from before.
pub open spec fn exit_code_after(before: i32, inner: ShyperInnerView, waited: WaitOutcome) -> i32 {
    match waited {
        WaitOutcome::Exited(code) if inner.vm_process is Some => match code {
            Some(code) => code,
            None => 0,
        },
        _ => before,
    }
}

/// Chooses the address of the agent.
pub fn choose_socket(own: Result<String, ShyperError>, environment: Option<String>) -> (address:
    String)
    ensures
        address@ == chosen_socket(
            match own {
                Ok(s) => Some(s@),
                Err(_) => None,
            },
            environment.deep_view(),
        ),
{
    if let Ok(s) = own {
        if !s.as_str().is_empty() {
            return s;
        }
    }
    if let Some(s) = environment {
        if !s.as_str().is_empty() {
            return s;
        }
    }
    DEFAULT_AGENT_SOCKET.to_string()
}

impl Shyper {
    /// The driver of a machine with default settings.
    pub fn new() -> (shyper: Shyper)
        ensures
            shyper@.inner == inner::fresh(shyper@.inner.config),
            shyper@.inner.config@ == crate::config::default_config(),
            shyper@.exit_code == 0,
    {
        Shyper { inner: ShyperInner::new(), exit_code: 0 }
    }

    /// The machine itself.
    pub fn machine(&mut self) -> (machine: &mut ShyperInner)
        ensures
            machine@ == old(self)@.inner,
            final(self)@ == (ShyperView { inner: final(machine)@, ..old(self)@ }),
    {
        &mut self.inner
    }

    /// Sets the settings.
    pub fn set_hypervisor_config(&mut self, config: HypervisorConfig)
        ensures
            final(self)@ == (ShyperView {
                inner: ShyperInnerView { config, ..old(self)@.inner },
                ..old(self)@
            }),
    {
        self.inner.set_hypervisor_config(config);
    }

    /// Names the machine.
    pub fn prepare_vm(&mut self, id: &str, netns: Option<String>) -> (r: Result<(), ShyperError>)
        ensures
            r is Ok,
            final(self)@ == (ShyperView {
                inner: ShyperInnerView { id: id@, ..old(self)@.inner },
                ..old(self)@
            }),
    {
        self.inner.prepare_vm(id, netns)
    }

    /// Begins to start the machine.
    pub fn start_vm(&mut self, timeout: i32) -> (step: (StartState, StartAction))
        ensures
            final(self)@ == (ShyperView { inner: old(self)@.inner.starting(), ..old(self)@ }),
            (step.0@, step.1@) == crate::start::first_step(
                crate::pool::disk_plan(old(self)@.inner.pending_disks()),
            ),
    {
        self.inner.start_vm(timeout)
    }

    /// Goes on starting the machine after an event.
    pub fn advance_start(&mut self, state: StartState, event: StartEvent) -> (step: (
        StartState,
        StartAction,
    ))
        requires
            crate::start::answers(state@, event),
        ensures
            (step.0@, step.1@) == crate::start::next_step(
                old(self)@.inner.id,
                old(self)@.inner.vsock_cid,
                state@,
                event,
            ),
            final(self)@ == (ShyperView {
                inner: old(self)@.inner.after_step(step.1@),
                ..old(self)@
            }),
    {
        self.inner.advance_start(state, event)
    }

    /// Takes what waiting for the machine's process came to. Returns the last
    /// exit code that was learnt.
    pub fn wait_vm(&mut self, waited: WaitOutcome) -> (r: Result<i32, ShyperError>)
        ensures
            final(self)@ == (ShyperView {
                exit_code: exit_code_after(old(self)@.exit_code, old(self)@.inner, waited),
                ..old(self)@
            }),
            r == Ok::<i32, ShyperError>(final(self)@.exit_code),
    {
        if let Ok(code) = self.inner.wait_vm(waited) {
            self.exit_code = code;
        }
        Ok(self.exit_code)
    }

    /// Begins to stop the machine: the command to run.
    pub fn stop_vm(&self) -> (destroy: CommandLine)
        ensures
            destroy@ == crate::command::destroy_command(),
    {
        self.inner.stop_vm()
    }

    /// Goes on stopping the machine once the command was run, whatever it came
    /// to: the machine's process is to be killed and waited for.
    pub fn finish_stop(&self, ran: bool) -> (r: Result<StopAction, ShyperError>)
        ensures
            match r {
                Ok(action) => ran && action == inner::stop_action(self@.inner.vm_process),
                Err(e) => !ran && e@ == ErrorView::DestroyNotRun,
            },
    {
        self.inner.finish_stop(ran)
    }

    /// The address of the agent in the guest, given the one that the environment
    /// sets.
    pub fn get_agent_socket(&self, environment: Option<String>) -> (r: Result<String, ShyperError>)
        ensures
            r matches Ok(address) && address@ == chosen_socket(
                Some(inner::agent_socket(self@.inner.vsock_cid)),
                environment.deep_view(),
            ),
    {
        Ok(choose_socket(self.inner.get_agent_socket(), environment))
    }

    /// The processes of the machine.
    pub fn get_pids(&self) -> (r: Result<Vec<u32>, ShyperError>)
        ensures
            r matches Ok(pids) && pids@ == match self@.inner.vm_process {
                Some(pid) => seq![pid],
                None => Seq::<u32>::empty(),
            },
    {
        self.inner.get_pids()
    }

    /// The main thread of the machine.
    pub fn get_vmm_master_tid(&self) -> (r: Result<u32, ShyperError>)
        ensures
            match r {
                Ok(tid) => self@.inner.vm_process == Some(tid),
                Err(e) => self@.inner.vm_process is None && e@ == ErrorView::ProcessNotFound,
            },
    {
        self.inner.get_vmm_master_tid()
    }

    /// Cleans up: there is nothing to do.
    pub fn cleanup(&self) -> (r: Result<(), ShyperError>)
        ensures
            r is Ok,
    {
        self.inner.cleanup()
    }

    /// Pauses the machine: nothing is done.
    pub fn pause_vm(&self) -> (r: Result<(), ShyperError>)
        ensures
            r is Ok,
    {
        Ok(())
    }

    /// Saves the machine: nothing is done.
    pub fn save_vm(&self) -> (r: Result<(), ShyperError>)
        ensures
            r is Ok,
    {
        Ok(())
    }

    /// Resumes the machine: nothing is done.
    pub fn resume_vm(&self) -> (r: Result<(), ShyperError>)
        ensures
            r is Ok,
    {
        Ok(())
    }

    /// Changes the number of processors: nothing is done, and the numbers are
    /// handed back.
    pub fn resize_vcpu(&self, old_vcpus: u32, new_vcpus: u32) -> (r: Result<
        (u32, u32),
        ShyperError,
    >)
        ensures
            r == Ok::<(u32, u32), ShyperError>((old_vcpus, new_vcpus)),
    {
        Ok((old_vcpus, new_vcpus))
    }

    /// Changes the memory: nothing is done, and the size is handed back.
    pub fn resize_memory(&self, new_mem_mb: u32) -> (r: Result<(u32, MemoryConfig), ShyperError>)
        ensures
            r == Ok::<(u32, MemoryConfig), ShyperError>((new_mem_mb, MemoryConfig {  })),
    {
        Ok((new_mem_mb, MemoryConfig {  }))
    }

    /// Adds a device: it is handed back and the machine stays as it is.
    pub fn add_device(&self, device: DeviceType) -> (r: Result<DeviceType, ShyperError>)
        ensures
            r == Ok::<DeviceType, ShyperError>(device),
    {
        Ok(device)
    }

    /// Removes a device: nothing is done.
    pub fn remove_device(&self, _device: DeviceType) -> (r: Result<(), ShyperError>)
        ensures
            r is Ok,
    {
        Ok(())
    }

    /// Updates a device: nothing is done.
    pub fn update_device(&self, _device: DeviceType) -> (r: Result<(), ShyperError>)
        ensures
            r is Ok,
    {
        Ok(())
    }

    /// The settings.
    pub fn hypervisor_config(&self) -> (config: HypervisorConfig)
        ensures
            config == self@.inner.config,
    {
        self.inner.hypervisor_config()
    }

    /// The threads of the machine's processors: none are known.
    pub fn get_thread_ids(&self) -> (r: Result<VcpuThreadIds, ShyperError>)
        ensures
            r matches Ok(ids) && ids.vcpus@ == Seq::<(u32, u32)>::empty(),
    {
        Ok(VcpuThreadIds { vcpus: Vec::new() })
    }

    /// The namespaces of the driver's own process.
    pub fn get_ns_path(&self, own_pid: u32) -> (r: Result<String, ShyperError>)
        ensures
            r matches Ok(path) && path@ == inner::ns_path(own_pid),
    {
        self.inner.get_ns_path(own_pid)
    }

    /// Checks the machine: there is nothing to find.
    pub fn check(&self) -> (r: Result<(), ShyperError>)
        ensures
            r is Ok,
    {
        self.inner.check()
    }

    /// The root of the jailer: there is none.
    pub fn get_jailer_root(&self) -> (r: Result<String, ShyperError>)
        ensures
            r matches Ok(path) && path@ == Seq::<char>::empty(),
    {
        Ok(String::new())
    }

    /// What is to be saved of the machine.
    pub fn save_state(&self) -> (r: Result<HypervisorState, ShyperError>)
        ensures
            r matches Ok(state) && inner::is_saved_state(self@.inner, state),
    {
        self.save()
    }

    /// What the hypervisor can do: share directories.
    pub fn capabilities(&self) -> (r: Result<Capabilities, ShyperError>)
        ensures
            r == Ok::<Capabilities, ShyperError>(Capabilities { fs_sharing: true }),
    {
        let mut caps: Capabilities = Capabilities::default();
        caps.set(CapabilityBits::FsSharingSupport);
        Ok(caps)
    }

    /// The metrics of the hypervisor: there are none.
    pub fn get_hypervisor_metrics(&self) -> (r: Result<String, ShyperError>)
        ensures
            r matches Ok(text) && text@ == Seq::<char>::empty(),
    {
        Ok(String::new())
    }

    /// The block size of the guest's memory: none was set.
    pub fn guest_memory_block_size(&self) -> (size: u32)
        ensures
            size == 0,
    {
        0
    }

    /// Where file descriptors can be passed: nowhere.
    pub fn get_passfd_listener_addr(&self) -> (r: Result<(String, u32), ShyperError>)
        ensures
            r matches Ok(address) && address.0@ == Seq::<char>::empty() && address.1 == 0,
    {
        Ok((String::new(), 0))
    }

    /// What is to be saved of the machine.
    pub fn save(&self) -> (r: Result<HypervisorState, ShyperError>)
        ensures
            r matches Ok(state) && inner::is_saved_state(self@.inner, state),
    {
        self.inner.save()
    }

    /// The driver of a machine with the settings that were saved.
    pub fn restore(state: HypervisorState) -> (r: Result<Shyper, ShyperError>)
        ensures
            r matches Ok(shyper) && shyper@ == (ShyperView {
                inner: inner::fresh(state.config),
                exit_code: 0,
            }),
    {
        match ShyperInner::restore(state) {
            Ok(inner) => Ok(Shyper { inner, exit_code: 0 }),
            Err(e) => Err(e),
        }
    }
}

impl Default for Shyper {
    fn default() -> (shyper: Shyper)
        ensures
            shyper@.inner == inner::fresh(shyper@.inner.config),
            shyper@.inner.config@ == crate::config::default_config(),
            shyper@.exit_code == 0,
    {
        Shyper::new()
    }
}

} // verus!
