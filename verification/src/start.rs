//! The start of a machine, as a state machine: each step names what is to be
//! done outside, and takes what came of it.

use serde_json::Value;
use vstd::pervasive::unreached;
use vstd::prelude::*;
use vstd::string::StringExecFns;

use crate::command;
use crate::command::{CommandLine, CommandView};
use crate::error::{ErrorView, ShyperError};
use crate::json;
use crate::json::Json;
use crate::kata;
use crate::kata::{KataSettings, SettingsView};
use crate::pool;
use crate::pool::{DiskPlan, DiskPlanView, Placeholder, PlaceholderView, DISK_POOL_SIZE};

verus! {

/// How long the daemon is given before it is looked after, in milliseconds.
pub const DAEMON_SETTLE_MS: u64 = 500;

/// The name of the mediated disk list of a machine.
pub open spec fn mediate_filename(id: Seq<char>) -> Seq<char> {
    "mediate_gen_"@ + id + ".json"@
}

/// The name of the configuration of a machine.
pub open spec fn kata_filename(id: Seq<char>) -> Seq<char> {
    "kata_gen_"@ + id + ".json"@
}

/// A file below the working directory.
pub open spec fn in_work_dir(name: Seq<char>) -> Seq<char> {
    command::WORK_DIR@ + "/"@ + name
}

/// Where the daemon's standard output goes.
pub open spec fn stdout_log(id: Seq<char>) -> Seq<char> {
    "/tmp/shyper_vm_"@ + id + ".stdout"@
}

/// Where the daemon's standard error goes.
pub open spec fn stderr_log(id: Seq<char>) -> Seq<char> {
    "/tmp/shyper_vm_"@ + id + ".stderr"@
}

/// What came of creating and writing a file.
#[derive(Debug, PartialEq, Eq)]
pub enum WriteOutcome {
    NotCreated,
    NotWritten,
    Written,
}

/// What came of opening and reading a file.
#[derive(Debug, PartialEq, Eq)]
pub enum ReadOutcome {
    NotOpened,
    /// It was opened but not read, for this reason.
    NotRead(String),
    Content(Vec<u8>),
}

/// What a look at the daemon found.
#[derive(Debug, PartialEq, Eq)]
pub enum DaemonPoll {
    /// It has ended, with this status.
    Exited(String),
    Running,
    /// The look failed.
    Unknown,
}

/// What came of running a command to its end.
#[derive(Debug, PartialEq, Eq)]
pub enum RunOutcome {
    /// It could not be run.
    NotRun,
    /// It ended; with success or not, and with this on its standard error.
    Ended { success: bool, stderr: Vec<u8> },
}

/// What came of a [`StartAction`].
#[derive(Debug, PartialEq, Eq)]
pub enum StartEvent {
    /// The placeholder images were made, as far as that went.
    DisksPrepared,
    /// A file was to be written.
    Wrote(WriteOutcome),
    /// A file was to be read.
    Read(ReadOutcome),
    /// An image was to be inspected; what that printed, `None` where it could
    /// not be run.
    Inspected(Option<Vec<u8>>),
    /// Images were to be measured; the sizes of those that could be.
    Measured {
        rootfs: Option<u64>,
        fallback: Option<u64>,
        pool: [Option<u64>; DISK_POOL_SIZE],
    },
    /// The daemon was to be spawned; its process, `None` where that failed.
    Spawned(Option<u32>),
    /// The daemon was looked after.
    Polled(DaemonPoll),
    /// A command was to be run.
    Ran(RunOutcome),
}

/// What is to be done outside next.
#[derive(Debug, PartialEq, Eq)]
pub enum StartAction {
    /// Make these placeholder images and the file system on each. Failures do
    /// not matter.
    PrepareDisks(Vec<Placeholder>),
    /// Write a file.
    WriteFile { path: String, content: Vec<u8> },
    /// Read a file.
    ReadFile { path: String },
    /// Run a command and take what it prints.
    Inspect(CommandLine),
    /// Measure the root image, the same name below the working directory, and
    /// the pool images.
    Measure { rootfs: String, fallback: String, pool: Vec<String> },
    /// Spawn the daemon, with its output in these files where they can be
    /// created.
    Spawn { daemon: CommandLine, stdout: String, stderr: String },
    /// Give the daemon this many milliseconds, then look after it.
    Poll { delay_ms: u64 },
    /// Run a command to its end.
    Run(CommandLine),
    /// The start failed; kill the daemon first where that is asked.
    Fail { error: ShyperError, kill_daemon: bool },
    /// The machine runs; the daemon is its process.
    Started { pid: u32 },
}

/// Where the start of a machine stands.
#[derive(Debug, PartialEq, Eq)]
pub enum StartState {
    /// The placeholder images are being made.
    Preparing { plan: DiskPlan },
    /// The mediated disk list is being written.
    WritingMediate { plan: DiskPlan },
    /// The template is being read.
    ReadingTemplate { plan: DiskPlan },
    /// The root image is being inspected.
    Inspecting { plan: DiskPlan, template: Value },
    /// The images are being measured.
    Measuring { template: Value, partitioned: bool },
    /// The machine configuration is being written.
    WritingKata,
    /// The daemon is being spawned.
    Spawning,
    /// The daemon is being looked after.
    Settling { pid: u32 },
    /// The machine is being configured.
    Configuring { pid: u32 },
    /// The machine is being booted.
    Booting { pid: u32 },
    /// The start is over.
    Ended,
}

/// The mathematical value of a [`StartAction`].
pub enum StartActionView {
    PrepareDisks(Seq<PlaceholderView>),
    WriteFile { path: Seq<char>, content: Seq<u8> },
    ReadFile { path: Seq<char> },
    Inspect(CommandView),
    Measure { rootfs: Seq<char>, fallback: Seq<char>, pool: Seq<Seq<char>> },
    Spawn { daemon: CommandView, stdout: Seq<char>, stderr: Seq<char> },
    Poll { delay_ms: u64 },
    Run(CommandView),
    Fail { error: ErrorView, kill_daemon: bool },
    Started { pid: u32 },
}

/// The mathematical value of a [`StartState`].
pub enum StartStateView {
    Preparing { plan: DiskPlanView },
    WritingMediate { plan: DiskPlanView },
    ReadingTemplate { plan: DiskPlanView },
    Inspecting { plan: DiskPlanView, template: Json },
    Measuring { template: Json, partitioned: bool },
    WritingKata,
    Spawning,
    Settling { pid: u32 },
    Configuring { pid: u32 },
    Booting { pid: u32 },
    Ended,
}

impl View for StartAction {
    type V = StartActionView;

    open spec fn view(&self) -> StartActionView {
        match self {
            StartAction::PrepareDisks(list) => StartActionView::PrepareDisks(
                pool::placeholder_views(list@),
            ),
            StartAction::WriteFile { path, content } => StartActionView::WriteFile {
                path: path@,
                content: content@,
            },
            StartAction::ReadFile { path } => StartActionView::ReadFile { path: path@ },
            StartAction::Inspect(c) => StartActionView::Inspect(c@),
            StartAction::Measure { rootfs, fallback, pool } => StartActionView::Measure {
                rootfs: rootfs@,
                fallback: fallback@,
                pool: pool.deep_view(),
            },
            StartAction::Spawn { daemon, stdout, stderr } => StartActionView::Spawn {
                daemon: daemon@,
                stdout: stdout@,
                stderr: stderr@,
            },
            StartAction::Poll { delay_ms } => StartActionView::Poll { delay_ms: *delay_ms },
            StartAction::Run(c) => StartActionView::Run(c@),
            StartAction::Fail { error, kill_daemon } => StartActionView::Fail {
                error: error@,
                kill_daemon: *kill_daemon,
            },
            StartAction::Started { pid } => StartActionView::Started { pid: *pid },
        }
    }
}

impl View for StartState {
    type V = StartStateView;

    open spec fn view(&self) -> StartStateView {
        match self {
            StartState::Preparing { plan } => StartStateView::Preparing { plan: plan@ },
            StartState::WritingMediate { plan } => StartStateView::WritingMediate { plan: plan@ },
            StartState::ReadingTemplate { plan } => StartStateView::ReadingTemplate {
                plan: plan@,
            },
            StartState::Inspecting { plan, template } => StartStateView::Inspecting {
                plan: plan@,
                template: json::json_view(*template),
            },
            StartState::Measuring { template, partitioned } => StartStateView::Measuring {
                template: json::json_view(*template),
                partitioned: *partitioned,
            },
            StartState::WritingKata => StartStateView::WritingKata,
            StartState::Spawning => StartStateView::Spawning,
            StartState::Settling { pid } => StartStateView::Settling { pid: *pid },
            StartState::Configuring { pid } => StartStateView::Configuring { pid: *pid },
            StartState::Booting { pid } => StartStateView::Booting { pid: *pid },
            StartState::Ended => StartStateView::Ended,
        }
    }
}

/// A state of the start and what is to be done in it.
pub type StartStepView = (StartStateView, StartActionView);

/// Whether an event answers what was asked for in a state.
pub open spec fn answers(state: StartStateView, event: StartEvent) -> bool {
    match state {
        StartStateView::Preparing { .. } => event is DisksPrepared,
        StartStateView::WritingMediate { .. } => event is Wrote,
        StartStateView::ReadingTemplate { .. } => event is Read,
        StartStateView::Inspecting { .. } => event is Inspected,
        StartStateView::Measuring { .. } => event is Measured,
        StartStateView::WritingKata => event is Wrote,
        StartStateView::Spawning => event is Spawned,
        StartStateView::Settling { .. } => event is Polled,
        StartStateView::Configuring { .. } => event is Ran,
        StartStateView::Booting { .. } => event is Ran,
        StartStateView::Ended => false,
    }
}

/// The end of a start that failed.
pub open spec fn failed(error: ErrorView, kill_daemon: bool) -> StartStepView {
    (StartStateView::Ended, StartActionView::Fail { error, kill_daemon })
}

/// The first step.
pub open spec fn first_step(plan: DiskPlanView) -> StartStepView {
    (
        StartStateView::Preparing { plan },
        StartActionView::PrepareDisks(pool::placeholders(plan.dummies)),
    )
}

/// The step that writes the mediated disk list.
pub open spec fn mediate_step(id: Seq<char>, plan: DiskPlanView) -> StartStepView {
    (
        StartStateView::WritingMediate { plan },
        StartActionView::WriteFile {
            path: in_work_dir(mediate_filename(id)),
            content: json::json_text(kata::mediate_config(plan.mediated())),
        },
    )
}

/// The step that reads the template.
pub open spec fn template_step(
    id: Seq<char>,
    plan: DiskPlanView,
    outcome: WriteOutcome,
) -> StartStepView {
    match outcome {
        WriteOutcome::NotCreated => failed(
            ErrorView::CreateMediate(in_work_dir(mediate_filename(id))),
            false,
        ),
        WriteOutcome::NotWritten => failed(ErrorView::WriteMediate, false),
        WriteOutcome::Written => (
            StartStateView::ReadingTemplate { plan },
            StartActionView::ReadFile { path: in_work_dir("kata.json"@) },
        ),
    }
}

/// The step that measures the images.
pub open spec fn measure_step(
    plan: DiskPlanView,
    template: Json,
    partitioned: bool,
) -> StartStepView {
    (
        StartStateView::Measuring { template, partitioned },
        StartActionView::Measure {
            rootfs: plan.root_image(),
            fallback: in_work_dir(plan.root_image()),
            pool: plan.pool,
        },
    )
}

/// The step after the template was read: a root image that was queued is
/// inspected, the one that is there by default is known to have no partitions.
pub open spec fn inspect_step(plan: DiskPlanView, outcome: ReadOutcome) -> StartStepView {
    match outcome {
        ReadOutcome::NotOpened => failed(ErrorView::OpenTemplate(in_work_dir("kata.json"@)), false),
        ReadOutcome::NotRead(reason) => failed(ErrorView::ParseTemplate(reason@), false),
        ReadOutcome::Content(text) => match json::json_parsed(text@) {
            Err(reason) => failed(ErrorView::ParseTemplate(reason), false),
            Ok(template) => match plan.rootfs {
                Some(path) => (
                    StartStateView::Inspecting { plan, template },
                    StartActionView::Inspect(command::inspect_command(path)),
                ),
                None => measure_step(plan, template, false),
            },
        },
    }
}

/// The step that writes the machine configuration.
pub open spec fn kata_step(id: Seq<char>, template: Json, settings: SettingsView) -> StartStepView {
    if !kata::template_has_place(template, settings.rootfs_size) {
        failed(ErrorView::NoPlaceForSize, false)
    } else {
        (
            StartStateView::WritingKata,
            StartActionView::WriteFile {
                path: in_work_dir(kata_filename(id)),
                content: json::json_text(kata::kata_config(template, settings)),
            },
        )
    }
}

/// The step that spawns the daemon.
pub open spec fn spawn_step(id: Seq<char>, outcome: WriteOutcome) -> StartStepView {
    match outcome {
        WriteOutcome::NotCreated => failed(ErrorView::CreateKata, false),
        WriteOutcome::NotWritten => failed(ErrorView::WriteKata, false),
        WriteOutcome::Written => (
            StartStateView::Spawning,
            StartActionView::Spawn {
                daemon: command::daemon_command(mediate_filename(id)),
                stdout: stdout_log(id),
                stderr: stderr_log(id),
            },
        ),
    }
}

/// The step that lets the daemon settle.
pub open spec fn settle_step(spawned: Option<u32>) -> StartStepView {
    match spawned {
        Some(pid) => (
            StartStateView::Settling { pid },
            StartActionView::Poll { delay_ms: DAEMON_SETTLE_MS },
        ),
        None => failed(ErrorView::SpawnDaemon, false),
    }
}

/// The step that configures the machine. A daemon of which nothing is known is
/// taken to run.
pub open spec fn config_step(id: Seq<char>, pid: u32, poll: DaemonPoll) -> StartStepView {
    match poll {
        DaemonPoll::Exited(status) => failed(ErrorView::DaemonExited(status@), false),
        _ => (
            StartStateView::Configuring { pid },
            StartActionView::Run(command::config_command(kata_filename(id))),
        ),
    }
}

/// The step that boots the machine. A configuration that failed takes the
/// daemon with it.
pub open spec fn boot_step(pid: u32, outcome: RunOutcome) -> StartStepView {
    match outcome {
        RunOutcome::NotRun => failed(ErrorView::ConfigNotRun, false),
        RunOutcome::Ended { success, stderr } => if success {
            (StartStateView::Booting { pid }, StartActionView::Run(command::boot_command()))
        } else {
            failed(ErrorView::ConfigFailed(crate::text::lossy_text(stderr@)), true)
        },
    }
}

/// The last step. A boot that failed takes the daemon with it.
pub open spec fn last_step(pid: u32, outcome: RunOutcome) -> StartStepView {
    match outcome {
        RunOutcome::NotRun => failed(ErrorView::BootNotRun, false),
        RunOutcome::Ended { success, stderr } => if success {
            (StartStateView::Ended, StartActionView::Started { pid })
        } else {
            failed(ErrorView::BootFailed(crate::text::lossy_text(stderr@)), true)
        },
    }
}

/// What comes after an event: the next state and what is to be done in it.
pub open spec fn next_step(
    id: Seq<char>,
    vsock_cid: u32,
    state: StartStateView,
    event: StartEvent,
) -> StartStepView
    recommends
        answers(state, event),
{
    match (state, event) {
        (StartStateView::Preparing { plan }, StartEvent::DisksPrepared) => mediate_step(id, plan),
        (StartStateView::WritingMediate { plan }, StartEvent::Wrote(outcome)) => template_step(
            id,
            plan,
            outcome,
        ),
        (StartStateView::ReadingTemplate { plan }, StartEvent::Read(outcome)) => inspect_step(
            plan,
            outcome,
        ),
        (StartStateView::Inspecting { plan, template }, StartEvent::Inspected(output)) =>
            measure_step(plan, template, kata::is_partitioned(output.deep_view())),
        (
            StartStateView::Measuring { template, partitioned },
            StartEvent::Measured { rootfs, fallback, pool },
        ) => kata_step(
            id,
            template,
            SettingsView {
                partitioned,
                vsock_cid,
                rootfs_size: kata::root_size(rootfs, fallback),
                pool_sizes: kata::pool_sizes(pool@),
            },
        ),
        (StartStateView::WritingKata, StartEvent::Wrote(outcome)) => spawn_step(id, outcome),
        (StartStateView::Spawning, StartEvent::Spawned(pid)) => settle_step(pid),
        (StartStateView::Settling { pid }, StartEvent::Polled(poll)) => config_step(id, pid, poll),
        (StartStateView::Configuring { pid }, StartEvent::Ran(outcome)) => boot_step(pid, outcome),
        (StartStateView::Booting { pid }, StartEvent::Ran(outcome)) => last_step(pid, outcome),
        _ => arbitrary(),
    }
}

/// Joins three texts.
fn join3(a: &str, b: &str, c: &str) -> (text: String)
    ensures
        text@ == a@ + b@ + c@,
{
    a.to_string().concat(b).concat(c)
}

/// The name of the mediated disk list of a machine.
pub fn mediate_file(id: &String) -> (name: String)
    ensures
        name@ == mediate_filename(id@),
{
    join3("mediate_gen_", id.as_str(), ".json")
}

/// The name of the configuration of a machine.
pub fn kata_file(id: &String) -> (name: String)
    ensures
        name@ == kata_filename(id@),
{
    join3("kata_gen_", id.as_str(), ".json")
}

/// A file below the working directory.
fn work_path(name: &str) -> (path: String)
    ensures
        path@ == in_work_dir(name@),
{
    join3(command::WORK_DIR, "/", name)
}

/// The end of a start that failed.
fn fail(error: ShyperError, kill_daemon: bool) -> (step: (StartState, StartAction))
    ensures
        (step.0@, step.1@) == failed(error@, kill_daemon),
{
    (StartState::Ended, StartAction::Fail { error, kill_daemon })
}

/// Begins to start a machine with these disks.
pub fn begin(plan: DiskPlan) -> (step: (StartState, StartAction))
    ensures
        (step.0@, step.1@) == first_step(plan@),
{
    let placeholders: Vec<Placeholder> = plan.placeholders();
    (StartState::Preparing { plan }, StartAction::PrepareDisks(placeholders))
}

fn write_mediate(id: &String, plan: DiskPlan) -> (step: (StartState, StartAction))
    ensures
        (step.0@, step.1@) == mediate_step(id@, plan@),
{
    let content: Vec<u8> = kata::mediate_json(plan.mediated());
    let path: String = work_path(mediate_file(id).as_str());
    (StartState::WritingMediate { plan }, StartAction::WriteFile { path, content })
}

fn read_template(id: &String, plan: DiskPlan, outcome: WriteOutcome) -> (step: (
    StartState,
    StartAction,
))
    ensures
        (step.0@, step.1@) == template_step(id@, plan@, outcome),
{
    match outcome {
        WriteOutcome::NotCreated => fail(
            ShyperError::CreateMediate(work_path(mediate_file(id).as_str())),
            false,
        ),
        WriteOutcome::NotWritten => fail(ShyperError::WriteMediate, false),
        WriteOutcome::Written => (
            StartState::ReadingTemplate { plan },
            StartAction::ReadFile { path: work_path("kata.json") },
        ),
    }
}

fn measure(plan: DiskPlan, template: Value, partitioned: bool) -> (step: (StartState, StartAction))
    ensures
        (step.0@, step.1@) == measure_step(plan@, json::json_view(template), partitioned),
{
    let rootfs: String = plan.root_image();
    let fallback: String = work_path(rootfs.as_str());
    (
        StartState::Measuring { template, partitioned },
        StartAction::Measure { rootfs, fallback, pool: plan.pool },
    )
}

fn inspect(plan: DiskPlan, outcome: ReadOutcome) -> (step: (StartState, StartAction))
    ensures
        (step.0@, step.1@) == inspect_step(plan@, outcome),
{
    match outcome {
        ReadOutcome::NotOpened => fail(ShyperError::OpenTemplate(work_path("kata.json")), false),
        ReadOutcome::NotRead(reason) => fail(ShyperError::ParseTemplate(reason), false),
        ReadOutcome::Content(text) => match kata::parse_template(&text) {
            Err(error) => fail(error, false),
            Ok(template) => {
                let queued: Option<String> = match &plan.rootfs {
                    Some(path) => Some(path.clone()),
                    None => None,
                };
                match queued {
                    Some(path) => (
                        StartState::Inspecting { plan, template },
                        StartAction::Inspect(command::inspect(path)),
                    ),
                    None => measure(plan, template, false),
                }
            },
        },
    }
}

fn write_kata(id: &String, template: Value, settings: &KataSettings) -> (step: (
    StartState,
    StartAction,
))
    ensures
        (step.0@, step.1@) == kata_step(id@, json::json_view(template), settings@),
{
    match kata::kata_json(template, settings) {
        Ok(content) => {
            let path: String = work_path(kata_file(id).as_str());
            (StartState::WritingKata, StartAction::WriteFile { path, content })
        },
        Err(error) => fail(error, false),
    }
}

fn spawn(id: &String, outcome: WriteOutcome) -> (step: (StartState, StartAction))
    ensures
        (step.0@, step.1@) == spawn_step(id@, outcome),
{
    match outcome {
        WriteOutcome::NotCreated => fail(ShyperError::CreateKata, false),
        WriteOutcome::NotWritten => fail(ShyperError::WriteKata, false),
        WriteOutcome::Written => (
            StartState::Spawning,
            StartAction::Spawn {
                daemon: command::daemon(mediate_file(id)),
                stdout: join3("/tmp/shyper_vm_", id.as_str(), ".stdout"),
                stderr: join3("/tmp/shyper_vm_", id.as_str(), ".stderr"),
            },
        ),
    }
}

fn settle(spawned: Option<u32>) -> (step: (StartState, StartAction))
    ensures
        (step.0@, step.1@) == settle_step(spawned),
{
    match spawned {
        Some(pid) => (
            StartState::Settling { pid },
            StartAction::Poll { delay_ms: DAEMON_SETTLE_MS },
        ),
        None => fail(ShyperError::SpawnDaemon, false),
    }
}

fn configure(id: &String, pid: u32, poll: DaemonPoll) -> (step: (StartState, StartAction))
    ensures
        (step.0@, step.1@) == config_step(id@, pid, poll),
{
    match poll {
        DaemonPoll::Exited(status) => fail(ShyperError::DaemonExited(status), false),
        _ => (StartState::Configuring { pid }, StartAction::Run(command::config(kata_file(id)))),
    }
}

fn boot(pid: u32, outcome: RunOutcome) -> (step: (StartState, StartAction))
    ensures
        (step.0@, step.1@) == boot_step(pid, outcome),
{
    match outcome {
        RunOutcome::NotRun => fail(ShyperError::ConfigNotRun, false),
        RunOutcome::Ended { success, stderr } => if success {
            (StartState::Booting { pid }, StartAction::Run(command::boot()))
        } else {
            fail(ShyperError::ConfigFailed(crate::text::decode_lossy(&stderr)), true)
        },
    }
}

fn end(pid: u32, outcome: RunOutcome) -> (step: (StartState, StartAction))
    ensures
        (step.0@, step.1@) == last_step(pid, outcome),
{
    match outcome {
        RunOutcome::NotRun => fail(ShyperError::BootNotRun, false),
        RunOutcome::Ended { success, stderr } => if success {
            (StartState::Ended, StartAction::Started { pid })
        } else {
            fail(ShyperError::BootFailed(crate::text::decode_lossy(&stderr)), true)
        },
    }
}

impl StartState {
    /// Whether an event answers what was asked for in this state.
    pub fn is_answered_by(&self, event: &StartEvent) -> (r: bool)
        ensures
            r == answers(self@, *event),
    {
        match (self, event) {
            (StartState::Preparing { .. }, StartEvent::DisksPrepared) => true,
            (StartState::WritingMediate { .. }, StartEvent::Wrote(_)) => true,
            (StartState::ReadingTemplate { .. }, StartEvent::Read(_)) => true,
            (StartState::Inspecting { .. }, StartEvent::Inspected(_)) => true,
            (StartState::Measuring { .. }, StartEvent::Measured { .. }) => true,
            (StartState::WritingKata, StartEvent::Wrote(_)) => true,
            (StartState::Spawning, StartEvent::Spawned(_)) => true,
            (StartState::Settling { .. }, StartEvent::Polled(_)) => true,
            (StartState::Configuring { .. }, StartEvent::Ran(_)) => true,
            (StartState::Booting { .. }, StartEvent::Ran(_)) => true,
            _ => false,
        }
    }
}

/// Goes on with the start of a machine after an event.
pub fn advance(id: &String, vsock_cid: u32, state: StartState, event: StartEvent) -> (step: (
    StartState,
    StartAction,
))
    requires
        answers(state@, event),
    ensures
        (step.0@, step.1@) == next_step(id@, vsock_cid, state@, event),
{
    match (state, event) {
        (StartState::Preparing { plan }, StartEvent::DisksPrepared) => write_mediate(id, plan),
        (StartState::WritingMediate { plan }, StartEvent::Wrote(outcome)) => read_template(
            id,
            plan,
            outcome,
        ),
        (StartState::ReadingTemplate { plan }, StartEvent::Read(outcome)) => inspect(plan, outcome),
        (StartState::Inspecting { plan, template }, StartEvent::Inspected(output)) => {
            let partitioned: bool = kata::detect_partitions(&output);
            measure(plan, template, partitioned)
        },
        (
            StartState::Measuring { template, partitioned },
            StartEvent::Measured { rootfs, fallback, pool },
        ) => {
            let settings: KataSettings = KataSettings {
                partitioned,
                vsock_cid,
                rootfs_size: kata::settle_root_size(rootfs, fallback),
                pool_sizes: kata::settle_pool_sizes(&pool),
            };
            write_kata(id, template, &settings)
        },
        (StartState::WritingKata, StartEvent::Wrote(outcome)) => spawn(id, outcome),
        (StartState::Spawning, StartEvent::Spawned(pid)) => settle(pid),
        (StartState::Settling { pid }, StartEvent::Polled(poll)) => configure(id, pid, poll),
        (StartState::Configuring { pid }, StartEvent::Ran(outcome)) => boot(pid, outcome),
        (StartState::Booting { pid }, StartEvent::Ran(outcome)) => end(pid, outcome),
        _ => unreached(),
    }
}

} // verus!
