//! What the driver asks for and answers, step by step, told by the very texts and
//! numbers that its caller sees.

use vstd::prelude::*;

use crate::command;
use crate::command::{CommandLine, CommandView};
use crate::config;
use crate::config::{
    Checked, ConfigError, ConfigErrorView, ConfigView, HypervisorConfig, PathProbe, Validation,
    ValidationView,
};
use crate::device::DeviceType;
use crate::driver;
use crate::error::{ErrorView, ShyperError};
use crate::inner;
use crate::inner::{
    DeviceAction, DeviceActionView, HypervisorState, ShyperInnerView, StopAction, WaitOutcome,
};
use crate::json;
use crate::json::Json;
use crate::kata;
use crate::kata::SettingsView;
use crate::pool;
use crate::start;
use crate::start::{
    DaemonPoll, ReadOutcome, RunOutcome, StartAction, StartActionView, StartEvent, StartStateView,
    StartStepView, WriteOutcome,
};
use crate::text;

verus! {

// ---- The commands ----

/// What a command line stands for: its program, each of its arguments in order,
/// and its directory.
pub proof fn law_command_line_is_its_parts(line: CommandLine, i: int)
    ensures
        line@.program == line.program@,
        line@.args.len() == line.args@.len(),
        0 <= i < line.args@.len() ==> line@.args[i] == line.args@[i]@,
        line.dir matches Some(dir) ==> line@.dir == Some(dir@),
        line.dir is None ==> line@.dir is None,
{
}

/// The commands beside the replacement of a disk. Those of the hypervisor's tool
/// run in its directory, and each names the file or image it is about, whatever
/// that is.
pub proof fn law_commands_name_their_files(name: Seq<char>)
    ensures
        command::daemon_command(name) == (CommandView {
            program: "./shyper"@,
            args: seq!["system"@, "daemon"@, name],
            dir: Some("/root/taishan200-boot/gvm"@),
        }),
        command::config_command(name) == (CommandView {
            program: "./shyper"@,
            args: seq!["vm"@, "config"@, name],
            dir: Some("/root/taishan200-boot/gvm"@),
        }),
        command::boot_command() == (CommandView {
            program: "./shyper"@,
            args: seq!["vm"@, "boot"@, "1"@],
            dir: Some("/root/taishan200-boot/gvm"@),
        }),
        command::destroy_command() == (CommandView {
            program: "./shyper"@,
            args: seq!["vm"@, "destroy"@, "1"@],
            dir: Some("/root/taishan200-boot/gvm"@),
        }),
        command::filesystem_command(name) == (CommandView {
            program: "mkfs.ext4"@,
            args: seq!["-F"@, name],
            dir: None,
        }),
        command::inspect_command(name) == (CommandView {
            program: "file"@,
            args: seq![name],
            dir: None,
        }),
{
}

// ---- The start ----

/// The files of a machine carry its name, whatever that is.
pub proof fn law_files_carry_the_name(id: Seq<char>, name: Seq<char>)
    ensures
        start::in_work_dir(name) == "/root/taishan200-boot/gvm/"@ + name,
        start::mediate_filename(id) == "mediate_gen_"@ + id + ".json"@,
        start::kata_filename(id) == "kata_gen_"@ + id + ".json"@,
        start::in_work_dir(start::mediate_filename(id))
            == "/root/taishan200-boot/gvm/mediate_gen_"@ + id + ".json"@,
        start::in_work_dir(start::kata_filename(id)) == "/root/taishan200-boot/gvm/kata_gen_"@ + id
            + ".json"@,
        start::stdout_log(id) == "/tmp/shyper_vm_"@ + id + ".stdout"@,
        start::stderr_log(id) == "/tmp/shyper_vm_"@ + id + ".stderr"@,
        start::in_work_dir("kata.json"@) == "/root/taishan200-boot/gvm/kata.json"@,
{
    reveal_strlit("/root/taishan200-boot/gvm");
    reveal_strlit("/");
    reveal_strlit("/root/taishan200-boot/gvm/");
    reveal_strlit("mediate_gen_");
    reveal_strlit("kata_gen_");
    reveal_strlit("/root/taishan200-boot/gvm/mediate_gen_");
    reveal_strlit("/root/taishan200-boot/gvm/kata_gen_");
    reveal_strlit("kata.json");
    reveal_strlit("/root/taishan200-boot/gvm/kata.json");
    assert(start::in_work_dir(name) =~= "/root/taishan200-boot/gvm/"@ + name);
    assert(start::in_work_dir(start::mediate_filename(id))
        =~= "/root/taishan200-boot/gvm/mediate_gen_"@ + id + ".json"@);
    assert(start::in_work_dir(start::kata_filename(id))
        =~= "/root/taishan200-boot/gvm/kata_gen_"@ + id + ".json"@);
    assert(start::in_work_dir("kata.json"@) =~= "/root/taishan200-boot/gvm/kata.json"@);
}

/// The images of a plan, told by the plan.
pub proof fn law_images_of_a_plan(plan: pool::DiskPlanView)
    ensures
        plan.root_image() == match plan.rootfs {
            Some(path) => path,
            None => "kata-containers-nopart.img"@,
        },
        plan.mediated() == seq![plan.root_image()] + plan.pool,
{
}

/// What each step of a start that works does next, whatever came of it before:
/// the placeholders, the mediated disk list, the template, the inspection of a
/// root image that was queued, the measuring, the machine configuration, the
/// daemon, the wait for it, the configuration, the boot, the end.
pub proof fn law_start_goes_on(
    id: Seq<char>,
    vsock_cid: u32,
    plan: pool::DiskPlanView,
    template: Json,
    partitioned: bool,
    pid: u32,
    text: Vec<u8>,
    output: Option<Vec<u8>>,
    stderr: Vec<u8>,
)
    ensures
        start::first_step(plan) == (
            StartStateView::Preparing { plan },
            StartActionView::PrepareDisks(pool::placeholders(plan.dummies)),
        ),
        start::next_step(
            id,
            vsock_cid,
            StartStateView::Preparing { plan },
            StartEvent::DisksPrepared,
        ) == (
            StartStateView::WritingMediate { plan },
            StartActionView::WriteFile {
                path: "/root/taishan200-boot/gvm/mediate_gen_"@ + id + ".json"@,
                content: json::json_text(kata::mediate_config(plan.mediated())),
            },
        ),
        start::next_step(
            id,
            vsock_cid,
            StartStateView::WritingMediate { plan },
            StartEvent::Wrote(WriteOutcome::Written),
        ) == (
            StartStateView::ReadingTemplate { plan },
            StartActionView::ReadFile { path: "/root/taishan200-boot/gvm/kata.json"@ },
        ),
        json::json_parsed(text@) == Ok::<Json, Seq<char>>(template) ==> start::next_step(
            id,
            vsock_cid,
            StartStateView::ReadingTemplate { plan },
            StartEvent::Read(ReadOutcome::Content(text)),
        ) == match plan.rootfs {
            Some(path) => (
                StartStateView::Inspecting { plan, template },
                StartActionView::Inspect(
                    CommandView { program: "file"@, args: seq![path], dir: None },
                ),
            ),
            None => (
                StartStateView::Measuring { template, partitioned: false },
                StartActionView::Measure {
                    rootfs: "kata-containers-nopart.img"@,
                    fallback: "/root/taishan200-boot/gvm/"@ + "kata-containers-nopart.img"@,
                    pool: plan.pool,
                },
            ),
        },
        plan.rootfs matches Some(path) ==> start::next_step(
            id,
            vsock_cid,
            StartStateView::Inspecting { plan, template },
            StartEvent::Inspected(output),
        ) == (
            StartStateView::Measuring {
                template,
                partitioned: kata::is_partitioned(output.deep_view()),
            },
            StartActionView::Measure {
                rootfs: path,
                fallback: "/root/taishan200-boot/gvm/"@ + path,
                pool: plan.pool,
            },
        ),
        start::next_step(
            id,
            vsock_cid,
            StartStateView::WritingKata,
            StartEvent::Wrote(WriteOutcome::Written),
        ) == (
            StartStateView::Spawning,
            StartActionView::Spawn {
                daemon: CommandView {
                    program: "./shyper"@,
                    args: seq!["system"@, "daemon"@, "mediate_gen_"@ + id + ".json"@],
                    dir: Some("/root/taishan200-boot/gvm"@),
                },
                stdout: "/tmp/shyper_vm_"@ + id + ".stdout"@,
                stderr: "/tmp/shyper_vm_"@ + id + ".stderr"@,
            },
        ),
        start::next_step(
            id,
            vsock_cid,
            StartStateView::Spawning,
            StartEvent::Spawned(Some(pid)),
        ) == (StartStateView::Settling { pid }, StartActionView::Poll { delay_ms: 500 }),
        start::next_step(
            id,
            vsock_cid,
            StartStateView::Configuring { pid },
            StartEvent::Ran(RunOutcome::Ended { success: true, stderr }),
        ) == (
            StartStateView::Booting { pid },
            StartActionView::Run(
                CommandView {
                    program: "./shyper"@,
                    args: seq!["vm"@, "boot"@, "1"@],
                    dir: Some("/root/taishan200-boot/gvm"@),
                },
            ),
        ),
        start::next_step(
            id,
            vsock_cid,
            StartStateView::Booting { pid },
            StartEvent::Ran(RunOutcome::Ended { success: true, stderr }),
        ) == (StartStateView::Ended, StartActionView::Started { pid }),
{
    law_files_carry_the_name(id, Seq::empty());
    if let Some(path) = plan.rootfs {
        law_files_carry_the_name(id, path);
    }
    law_files_carry_the_name(id, "kata-containers-nopart.img"@);
}

/// What the sizes that were measured come to: the configuration is made for the
/// machine's own context identifier and for those sizes, and is written under
/// the machine's name, unless a root disk entry has no place for the size.
pub proof fn law_configuration_is_for_the_machine(
    id: Seq<char>,
    vsock_cid: u32,
    template: Json,
    partitioned: bool,
    rootfs: Option<u64>,
    fallback: Option<u64>,
    pool_found: [Option<u64>; 2],
)
    ensures
        ({
            let size = kata::root_size(rootfs, fallback);
            start::next_step(
                id,
                vsock_cid,
                StartStateView::Measuring { template, partitioned },
                StartEvent::Measured { rootfs, fallback, pool: pool_found },
            ) == if kata::template_has_place(template, size) {
                (
                    StartStateView::WritingKata,
                    StartActionView::WriteFile {
                        path: "/root/taishan200-boot/gvm/kata_gen_"@ + id + ".json"@,
                        content: json::json_text(
                            kata::kata_config(
                                template,
                                SettingsView {
                                    partitioned,
                                    vsock_cid,
                                    rootfs_size: size,
                                    pool_sizes: kata::pool_sizes(pool_found@),
                                },
                            ),
                        ),
                    },
                )
            } else {
                (
                    StartStateView::Ended,
                    StartActionView::Fail { error: ErrorView::NoPlaceForSize, kill_daemon: false },
                )
            }
        }),
{
    law_files_carry_the_name(id, Seq::empty());
}

/// A daemon that was not found gone, be it seen to run or not, is configured; one
/// that is gone is told with its status.
pub proof fn law_daemon_that_is_not_gone_is_configured(
    id: Seq<char>,
    vsock_cid: u32,
    pid: u32,
    poll: DaemonPoll,
)
    ensures
        start::next_step(
            id,
            vsock_cid,
            StartStateView::Settling { pid },
            StartEvent::Polled(poll),
        ) == match poll {
            DaemonPoll::Exited(status) => (
                StartStateView::Ended,
                StartActionView::Fail {
                    error: ErrorView::DaemonExited(status@),
                    kill_daemon: false,
                },
            ),
            _ => (
                StartStateView::Configuring { pid },
                StartActionView::Run(
                    CommandView {
                        program: "./shyper"@,
                        args: seq!["vm"@, "config"@, "kata_gen_"@ + id + ".json"@],
                        dir: Some("/root/taishan200-boot/gvm"@),
                    },
                ),
            ),
        },
{
}

/// The error with which a start fails and whether it takes the daemon with it,
/// for everything that can go wrong outside.
pub proof fn law_start_fails_as_told(
    id: Seq<char>,
    vsock_cid: u32,
    plan: pool::DiskPlanView,
    pid: u32,
    text: Vec<u8>,
    reason: String,
    stderr: Vec<u8>,
)
    ensures
        fails(
            start::next_step(
                id,
                vsock_cid,
                StartStateView::WritingMediate { plan },
                StartEvent::Wrote(WriteOutcome::NotCreated),
            ),
            "create mediate json "@ + ("/root/taishan200-boot/gvm/mediate_gen_"@ + id + ".json"@),
            None,
            false,
        ),
        fails(
            start::next_step(
                id,
                vsock_cid,
                StartStateView::WritingMediate { plan },
                StartEvent::Wrote(WriteOutcome::NotWritten),
            ),
            "write mediate json"@,
            None,
            false,
        ),
        fails(
            start::next_step(
                id,
                vsock_cid,
                StartStateView::ReadingTemplate { plan },
                StartEvent::Read(ReadOutcome::NotOpened),
            ),
            "open kata.json template "@ + "/root/taishan200-boot/gvm/kata.json"@,
            None,
            false,
        ),
        fails(
            start::next_step(
                id,
                vsock_cid,
                StartStateView::ReadingTemplate { plan },
                StartEvent::Read(ReadOutcome::NotRead(reason)),
            ),
            "parse kata.json"@,
            Some(reason@),
            false,
        ),
        json::json_parsed(text@) matches Err(why) ==> fails(
            start::next_step(
                id,
                vsock_cid,
                StartStateView::ReadingTemplate { plan },
                StartEvent::Read(ReadOutcome::Content(text)),
            ),
            "parse kata.json"@,
            Some(why),
            false,
        ),
        fails(
            start::next_step(
                id,
                vsock_cid,
                StartStateView::WritingKata,
                StartEvent::Wrote(WriteOutcome::NotCreated),
            ),
            "create kata json"@,
            None,
            false,
        ),
        fails(
            start::next_step(
                id,
                vsock_cid,
                StartStateView::WritingKata,
                StartEvent::Wrote(WriteOutcome::NotWritten),
            ),
            "write kata json"@,
            None,
            false,
        ),
        fails(
            start::next_step(
                id,
                vsock_cid,
                StartStateView::Spawning,
                StartEvent::Spawned(None),
            ),
            "spawn shyper daemon"@,
            None,
            false,
        ),
        fails(
            start::next_step(
                id,
                vsock_cid,
                StartStateView::Configuring { pid },
                StartEvent::Ran(RunOutcome::NotRun),
            ),
            "run vm config"@,
            None,
            false,
        ),
        fails(
            start::next_step(
                id,
                vsock_cid,
                StartStateView::Configuring { pid },
                StartEvent::Ran(RunOutcome::Ended { success: false, stderr }),
            ),
            "vm config failed: "@ + text::lossy_text(stderr@),
            None,
            true,
        ),
        fails(
            start::next_step(
                id,
                vsock_cid,
                StartStateView::Booting { pid },
                StartEvent::Ran(RunOutcome::NotRun),
            ),
            "run vm boot"@,
            None,
            false,
        ),
        fails(
            start::next_step(
                id,
                vsock_cid,
                StartStateView::Booting { pid },
                StartEvent::Ran(RunOutcome::Ended { success: false, stderr }),
            ),
            "vm boot failed: "@ + text::lossy_text(stderr@),
            None,
            true,
        ),
{
    law_files_carry_the_name(id, Seq::empty());
}

/// Whether a start is over with an error that says something, from a cause that
/// may be known, and kills the daemon or not.
pub open spec fn fails(
    step: StartStepView,
    says: Seq<char>,
    cause: Option<Seq<char>>,
    kills: bool,
) -> bool {
    &&& step.0 is Ended
    &&& step.1 matches StartActionView::Fail { error, kill_daemon }
    &&& error.text() == says
    &&& error.cause() == cause
    &&& kill_daemon == kills
}

/// Which event answers which state of a start: the one that tells what came of
/// the action that the state stands for. None answers a start that is over.
pub proof fn law_what_answers_a_state(
    plan: pool::DiskPlanView,
    template: Json,
    partitioned: bool,
    pid: u32,
    event: StartEvent,
)
    ensures
        start::answers(StartStateView::Preparing { plan }, event) <==> event is DisksPrepared,
        start::answers(StartStateView::WritingMediate { plan }, event) <==> event is Wrote,
        start::answers(StartStateView::ReadingTemplate { plan }, event) <==> event is Read,
        start::answers(StartStateView::Inspecting { plan, template }, event)
            <==> event is Inspected,
        start::answers(StartStateView::Measuring { template, partitioned }, event)
            <==> event is Measured,
        start::answers(StartStateView::WritingKata, event) <==> event is Wrote,
        start::answers(StartStateView::Spawning, event) <==> event is Spawned,
        start::answers(StartStateView::Settling { pid }, event) <==> event is Polled,
        start::answers(StartStateView::Configuring { pid }, event) <==> event is Ran,
        start::answers(StartStateView::Booting { pid }, event) <==> event is Ran,
        !start::answers(StartStateView::Ended, event),
{
}

/// What an action asks for is what its value says.
pub proof fn law_action_is_its_parts(action: StartAction, i: int)
    ensures
        action matches StartAction::PrepareDisks(disks) ==> (
        action@ matches StartActionView::PrepareDisks(views) && {
            &&& views.len() == disks@.len()
            &&& 0 <= i < disks@.len() ==> {
                &&& views[i].path == disks@[i].path@
                &&& views[i].length == disks@[i].length
                &&& views[i].make_filesystem == disks@[i].make_filesystem@
            }
        }),
        action matches StartAction::WriteFile { path, content } ==> action@ == (
        StartActionView::WriteFile { path: path@, content: content@ }),
        action matches StartAction::ReadFile { path } ==> action@ == (StartActionView::ReadFile {
            path: path@,
        }),
        action matches StartAction::Inspect(line) ==> action@ == StartActionView::Inspect(line@),
        action matches StartAction::Measure { rootfs, fallback, pool } ==> (
        action@ matches StartActionView::Measure { rootfs: r, fallback: f, pool: p } && {
            &&& r == rootfs@
            &&& f == fallback@
            &&& p.len() == pool@.len()
            &&& 0 <= i < pool@.len() ==> p[i] == pool@[i]@
        }),
        action matches StartAction::Spawn { daemon, stdout, stderr } ==> action@ == (
        StartActionView::Spawn { daemon: daemon@, stdout: stdout@, stderr: stderr@ }),
        action matches StartAction::Poll { delay_ms } ==> action@ == (StartActionView::Poll {
            delay_ms,
        }),
        action matches StartAction::Run(line) ==> action@ == StartActionView::Run(line@),
        action matches StartAction::Fail { error, kill_daemon } ==> action@ == (
        StartActionView::Fail { error: error@, kill_daemon }),
        action matches StartAction::Started { pid } ==> action@ == (StartActionView::Started {
            pid,
        }),
{
}

// ---- What errors say ----

/// What each error of the driver says, and what caused it where that is known.
pub proof fn law_what_errors_say(e: ShyperError)
    ensures
        e@.text() == match e {
            ShyperError::NoFreeSlot => "No free disk slots in Shyper pool"@,
            ShyperError::ReplaceNotRun => "failed to replace disk"@,
            ShyperError::ReplaceFailed(s) => "replace-disk failed with status "@ + s@,
            ShyperError::CreateMediate(s) => "create mediate json "@ + s@,
            ShyperError::WriteMediate => "write mediate json"@,
            ShyperError::OpenTemplate(s) => "open kata.json template "@ + s@,
            ShyperError::ParseTemplate(_) => "parse kata.json"@,
            ShyperError::NoPlaceForSize => "rootfs entry has no place for its size"@,
            ShyperError::CreateKata => "create kata json"@,
            ShyperError::WriteKata => "write kata json"@,
            ShyperError::SpawnDaemon => "spawn shyper daemon"@,
            ShyperError::DaemonExited(s) => "Shyper daemon exited prematurely with status: "@ + s@,
            ShyperError::ConfigNotRun => "run vm config"@,
            ShyperError::ConfigFailed(s) => "vm config failed: "@ + s@,
            ShyperError::BootNotRun => "run vm boot"@,
            ShyperError::BootFailed(s) => "vm boot failed: "@ + s@,
            ShyperError::DestroyNotRun => "failed to destroy GVM via shyper"@,
            ShyperError::NoProcessToWaitFor => "no VM process to wait for"@,
            ShyperError::WaitFailed => "failed to wait for vm process"@,
            ShyperError::ProcessNotFound => "VM process not found"@,
        },
        e@.cause() == match e {
            ShyperError::ParseTemplate(s) => Some(s@),
            _ => None,
        },
{
}

/// What each error of the settings says.
pub proof fn law_what_setting_errors_say(e: ConfigError)
    ensures
        e@.text() == match e {
            ConfigError::EmptyPath => "Shyper path is empty"@,
            ConfigError::InvalidPath { path, reason } => "Shyper binary path `"@ + path@
                + "` is invalid: "@ + reason@,
            ConfigError::EmptyKernel => "Guest kernel image for shyper is empty"@,
            ConfigError::InvalidKernel { path, reason } => "Shyper kernel path `"@ + path@
                + "` is invalid: "@ + reason@,
        },
{
}

// ---- The settings ----

/// The defaults of Shyper's settings: what is empty is filled in, what is set
/// stays, and no other settings come, go or change.
pub proof fn law_defaults_fill_what_is_empty(conf: Map<Seq<char>, ConfigView>, name: Seq<char>)
    ensures
        config::adjusted(conf).contains_key(name) <==> conf.contains_key(name),
        conf.contains_key(name) && name != "shyper"@ ==> config::adjusted(conf)[name] == conf[name],
        conf.contains_key("shyper"@) ==> {
            let before = conf["shyper"@];
            let after = config::adjusted(conf)["shyper"@];
            &&& before.path.len() > 0 ==> after.path == before.path
            &&& before.path.len() == 0 ==> after.path == "/usr/bin/shyper-cli"@
            &&& before.kernel.len() > 0 ==> after.kernel == before.kernel
            &&& before.kernel.len() == 0 ==> after.kernel
                == "/usr/share/kata-containers/vmlinuz-shyper"@
            &&& after.rest == before.rest
        },
{
}

/// What a check of some settings asks for and finds: the executable is resolved
/// first, under its own path, and then the guest kernel, under its own.
pub proof fn law_check_resolves_what_is_set(settings: ConfigView, reason: String)
    ensures
        forall|checked: Checked|
            settings.path.len() == 0 ==> #[trigger] config::validation(settings, checked)
                == ValidationView::Invalid(ConfigErrorView::EmptyPath),
        settings.path.len() > 0 ==> {
            &&& config::validation(settings, Checked::Nothing) == ValidationView::ProbePath(
                settings.path,
            )
            &&& config::validation(settings, Checked::Path(PathProbe::Unresolved(reason)))
                == ValidationView::Invalid(
                ConfigErrorView::InvalidPath { path: settings.path, reason: reason@ },
            )
            &&& config::validation(settings, Checked::Path(PathProbe::Resolved))
                == if settings.kernel.len() == 0 {
                ValidationView::Invalid(ConfigErrorView::EmptyKernel)
            } else {
                ValidationView::ProbeKernel(settings.kernel)
            }
        },
        settings.path.len() > 0 && settings.kernel.len() > 0 ==> {
            &&& config::validation(settings, Checked::Kernel(PathProbe::Resolved))
                == ValidationView::Valid
            &&& config::validation(settings, Checked::Kernel(PathProbe::Unresolved(reason)))
                == ValidationView::Invalid(
                ConfigErrorView::InvalidKernel { path: settings.kernel, reason: reason@ },
            )
        },
{
}

/// Settings and what they are valued at, what a check asks for and its value.
pub proof fn law_settings_are_their_parts(settings: HypervisorConfig, found: Validation)
    ensures
        settings@.path == settings.path@,
        settings@.kernel == settings.boot_info.kernel@,
        settings@.rest == settings.rest@,
        found matches Validation::ProbePath(path) ==> found@ == ValidationView::ProbePath(path@),
        found matches Validation::ProbeKernel(path) ==> found@ == ValidationView::ProbeKernel(
            path@,
        ),
        found is Valid <==> found@ is Valid,
        found matches Validation::Invalid(e) ==> found@ == ValidationView::Invalid(e@),
        config::default_config().path.len() == 0,
        config::default_config().kernel.len() == 0,
        config::default_config().rest.len() == 0,
        config::HYPERVISOR_NAME_SHYPER@ == "shyper"@,
{
}

// ---- The machine and the driver around it ----

/// A new machine has no process, no device, no name, two free slots and the
/// third context identifier.
pub proof fn law_new_machine(settings: HypervisorConfig, slot: int)
    ensures
        ({
            let vm = inner::fresh(settings);
            &&& vm.vm_process is None
            &&& vm.config == settings
            &&& vm.pending_devices.len() == 0
            &&& vm.id.len() == 0
            &&& vm.device_slots.len() == 2
            &&& 0 <= slot < 2 ==> vm.device_slots[slot] is None
            &&& vm.vsock_cid == 3
        }),
{
}

/// Queuing a device puts it behind those that wait and leaves the rest of the
/// machine, but for the context identifier, as it is.
pub proof fn law_queued_device_waits(vm: ShyperInnerView, device: DeviceType)
    ensures
        vm.queued(device).pending_devices == vm.pending_devices.push(device),
        vm.queued(device).vm_process == vm.vm_process,
        vm.queued(device).config == vm.config,
        vm.queued(device).id == vm.id,
        vm.queued(device).device_slots == vm.device_slots,
        vm.queued(device).vsock_cid == match device {
            DeviceType::Vsock(vsock) if vsock.config.guest_cid != u32::MAX =>
                vsock.config.guest_cid,
            _ => vm.vsock_cid,
        },
{
}

/// A step of a start changes the machine's process where the machine counts as
/// started, and nothing else ever.
pub proof fn law_step_changes_the_process_alone(vm: ShyperInnerView, action: StartActionView)
    ensures
        vm.after_step(action).vm_process == match action {
            StartActionView::Started { pid } => Some(pid),
            _ => vm.vm_process,
        },
        vm.after_step(action).config == vm.config,
        vm.after_step(action).pending_devices == vm.pending_devices,
        vm.after_step(action).id == vm.id,
        vm.after_step(action).device_slots == vm.device_slots,
        vm.after_step(action).vsock_cid == vm.vsock_cid,
{
}

/// A stop kills the process that the machine has, and waits for it; a state that
/// is saved is named after the hypervisor and holds the settings alone.
pub proof fn law_stop_and_save(vm: ShyperInnerView, state: HypervisorState)
    ensures
        vm.vm_process matches Some(pid) ==> inner::stop_action(vm.vm_process) == (
        StopAction::KillAndWait { pid }),
        vm.vm_process is None ==> inner::stop_action(vm.vm_process) == StopAction::Nothing,
        inner::is_saved_state(vm, state) <==> state.hypervisor_type@ == "shyper"@ && state.config
            == vm.config && state.rest@.len() == 0,
{
    assert(state.rest@.len() == 0 ==> state.rest@ =~= Seq::<char>::empty());
}

/// What adding a device asks for is what its value says.
pub proof fn law_device_action_is_its_parts(action: DeviceAction)
    ensures
        action is Queued <==> action@ is Queued,
        action is Unsupported <==> action@ is Unsupported,
        action matches DeviceAction::Replace(line) ==> action@ == DeviceActionView::Replace(line@),
{
}

/// The address of the agent is the first of three that is not empty: the
/// machine's own, that of the environment, the default.
pub proof fn law_first_address_that_is_set(own: Option<Seq<char>>, environment: Option<Seq<char>>)
    ensures
        own matches Some(s) ==> s.len() > 0 ==> driver::chosen_socket(own, environment) == s,
        own is None || own->0.len() == 0 ==> (environment matches Some(s) ==> s.len() > 0
            ==> driver::chosen_socket(own, environment) == s),
        (own is None || own->0.len() == 0) && (environment is None || environment->0.len() == 0)
            ==> driver::chosen_socket(own, environment) == "vsock://3:1024"@,
        driver::AGENT_ADDRESS_VARIABLE@ == "KATA_AGENT_SERVER_ADDR"@,
{
}

/// The exit code that is remembered changes where a machine that has a process
/// was waited for: to the code of the process, or to zero where a signal ended
/// it.
pub proof fn law_exit_code_that_is_remembered(before: i32, vm: ShyperInnerView, code: i32)
    ensures
        vm.vm_process is Some ==> driver::exit_code_after(
            before,
            vm,
            WaitOutcome::Exited(Some(code)),
        ) == code,
        vm.vm_process is Some ==> driver::exit_code_after(before, vm, WaitOutcome::Exited(None))
            == 0,
        vm.vm_process is None ==> driver::exit_code_after(
            before,
            vm,
            WaitOutcome::Exited(Some(code)),
        ) == before,
        vm.vm_process is None ==> driver::exit_code_after(before, vm, WaitOutcome::Exited(None))
            == before,
        driver::exit_code_after(before, vm, WaitOutcome::Failed) == before,
{
}

/// The settings of a configuration are valued at what they hold, and a plan at
/// its images.
pub proof fn law_settings_and_plan_are_their_parts(
    settings: kata::KataSettings,
    plan: pool::DiskPlan,
    i: int,
)
    ensures
        settings@.partitioned == settings.partitioned,
        settings@.vsock_cid == settings.vsock_cid,
        settings@.rootfs_size == settings.rootfs_size,
        settings@.pool_sizes == settings.pool_sizes@,
        plan.rootfs matches Some(path) ==> plan@.rootfs == Some(path@),
        plan.rootfs is None ==> plan@.rootfs is None,
        plan@.pool.len() == plan.pool@.len(),
        0 <= i < plan.pool@.len() ==> plan@.pool[i] == plan.pool@[i]@,
        plan@.dummies.len() == plan.dummies@.len(),
        0 <= i < plan.dummies@.len() ==> plan@.dummies[i] == plan.dummies@[i]@,
{
}

} // verus!
