//! The command lines that the driver asks to have run.

use vstd::prelude::*;

verus! {

/// The directory in which the hypervisor's files lie and its tool runs.
pub const WORK_DIR: &'static str = "/root/taishan200-boot/gvm";

/// The hypervisor's command line tool, relative to [`WORK_DIR`].
pub const SHYPER_TOOL: &'static str = "./shyper";

/// The identifier of the one virtual machine that the hypervisor runs.
pub const VM_ID: &'static str = "1";

/// A program, its arguments and the directory to run it in.
#[derive(Debug, PartialEq, Eq)]
pub struct CommandLine {
    pub program: String,
    pub args: Vec<String>,
    /// `None`: the directory of the caller.
    pub dir: Option<String>,
}

/// The mathematical value of a [`CommandLine`].
pub struct CommandView {
    pub program: Seq<char>,
    pub args: Seq<Seq<char>>,
    pub dir: Option<Seq<char>>,
}

impl View for CommandLine {
    type V = CommandView;

    open spec fn view(&self) -> CommandView {
        CommandView {
            program: self.program@,
            args: self.args.deep_view(),
            dir: self.dir.deep_view(),
        }
    }
}

/// The hypervisor's tool with some arguments.
pub open spec fn shyper_command(args: Seq<Seq<char>>) -> CommandView {
    CommandView { program: SHYPER_TOOL@, args, dir: Some(WORK_DIR@) }
}

/// Replaces the disk behind a configuration entry of the running machine.
pub open spec fn replace_disk_command(config_id: nat, path: Seq<char>) -> CommandView {
    shyper_command(
        seq!["vm"@, "replace-disk"@, VM_ID@, crate::text::decimal_of(config_id), path],
    )
}

/// Starts the daemon on a mediated disk list.
pub open spec fn daemon_command(mediate_filename: Seq<char>) -> CommandView {
    shyper_command(seq!["system"@, "daemon"@, mediate_filename])
}

/// Loads the configuration of the machine.
pub open spec fn config_command(kata_filename: Seq<char>) -> CommandView {
    shyper_command(seq!["vm"@, "config"@, kata_filename])
}

/// Boots the machine.
pub open spec fn boot_command() -> CommandView {
    shyper_command(seq!["vm"@, "boot"@, VM_ID@])
}

/// Destroys the machine.
pub open spec fn destroy_command() -> CommandView {
    shyper_command(seq!["vm"@, "destroy"@, VM_ID@])
}

/// Makes a file system on an image.
pub open spec fn filesystem_command(path: Seq<char>) -> CommandView {
    CommandView { program: "mkfs.ext4"@, args: seq!["-F"@, path], dir: None }
}

/// Asks what kind of file an image is.
pub open spec fn inspect_command(path: Seq<char>) -> CommandView {
    CommandView { program: "file"@, args: seq![path], dir: None }
}

/// The tool with its arguments.
fn shyper(args: Vec<String>) -> (command: CommandLine)
    ensures
        command@ == shyper_command(args.deep_view()),
{
    CommandLine {
        program: SHYPER_TOOL.to_string(),
        args,
        dir: Some(WORK_DIR.to_string()),
    }
}

/// The command that replaces the disk behind a configuration entry.
pub fn replace_disk(config_id: u64, path: String) -> (command: CommandLine)
    ensures
        command@ == replace_disk_command(config_id as nat, path@),
{
    let args: Vec<String> = vec![
        "vm".to_string(),
        "replace-disk".to_string(),
        VM_ID.to_string(),
        crate::text::decimal(config_id),
        path,
    ];
    assert(args.deep_view() =~= replace_disk_command(config_id as nat, path@).args);
    shyper(args)
}

/// The command that starts the daemon.
pub fn daemon(mediate_filename: String) -> (command: CommandLine)
    ensures
        command@ == daemon_command(mediate_filename@),
{
    let args: Vec<String> = vec!["system".to_string(), "daemon".to_string(), mediate_filename];
    assert(args.deep_view() =~= daemon_command(mediate_filename@).args);
    shyper(args)
}

/// The command that loads the configuration of the machine.
pub fn config(kata_filename: String) -> (command: CommandLine)
    ensures
        command@ == config_command(kata_filename@),
{
    let args: Vec<String> = vec!["vm".to_string(), "config".to_string(), kata_filename];
    assert(args.deep_view() =~= config_command(kata_filename@).args);
    shyper(args)
}

/// The command that boots the machine.
pub fn boot() -> (command: CommandLine)
    ensures
        command@ == boot_command(),
{
    let args: Vec<String> = vec!["vm".to_string(), "boot".to_string(), VM_ID.to_string()];
    assert(args.deep_view() =~= boot_command().args);
    shyper(args)
}

/// The command that destroys the machine.
pub fn destroy() -> (command: CommandLine)
    ensures
        command@ == destroy_command(),
{
    let args: Vec<String> = vec!["vm".to_string(), "destroy".to_string(), VM_ID.to_string()];
    assert(args.deep_view() =~= destroy_command().args);
    shyper(args)
}

/// The command that makes a file system on an image.
pub fn make_filesystem(path: String) -> (command: CommandLine)
    ensures
        command@ == filesystem_command(path@),
{
    let args: Vec<String> = vec!["-F".to_string(), path];
    assert(args.deep_view() =~= filesystem_command(path@).args);
    CommandLine { program: "mkfs.ext4".to_string(), args, dir: None }
}

/// The command that asks what kind of file an image is.
pub fn inspect(path: String) -> (command: CommandLine)
    ensures
        command@ == inspect_command(path@),
{
    let args: Vec<String> = vec![path];
    assert(args.deep_view() =~= inspect_command(path@).args);
    CommandLine { program: "file".to_string(), args, dir: None }
}

} // verus!
