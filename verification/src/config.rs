//! The hypervisor settings of a configuration file, and the plugin that fills
//! in and checks those of Shyper.

use vstd::hash_map::StringHashMap;
use vstd::prelude::*;
use vstd::string::StringExecFns;

verus! {

/// The name of the hypervisor, by which its settings and its plugin are found.
pub const HYPERVISOR_NAME_SHYPER: &'static str = "shyper";

/// Where the hypervisor's tool lies by default.
pub const DEFAULT_SHYPER_BINARY_PATH: &'static str = "/usr/bin/shyper-cli";

/// Where the guest kernel lies by default.
pub const DEFAULT_SHYPER_GUEST_KERNEL_IMAGE: &'static str =
    "/usr/share/kata-containers/vmlinuz-shyper";

/// How a machine is booted.
#[derive(Debug, PartialEq, Eq)]
pub struct BootInfo {
    /// The guest kernel image.
    pub kernel: String,
}

/// The settings of one hypervisor.
#[derive(Debug, PartialEq, Eq)]
pub struct HypervisorConfig {
    /// The hypervisor's executable.
    pub path: String,
    pub boot_info: BootInfo,
    /// The other settings, written down by the caller, empty for their defaults.
    /// They are carried along and never read.
    pub rest: String,
}

/// The mathematical value of a [`HypervisorConfig`].
pub struct ConfigView {
    pub path: Seq<char>,
    pub kernel: Seq<char>,
    pub rest: Seq<char>,
}

impl View for HypervisorConfig {
    type V = ConfigView;

    open spec fn view(&self) -> ConfigView {
        ConfigView { path: self.path@, kernel: self.boot_info.kernel@, rest: self.rest@ }
    }
}

impl HypervisorConfig {
    /// A copy of the settings.
    pub fn copy(&self) -> (copy: HypervisorConfig)
        ensures
            copy == *self,
    {
        HypervisorConfig {
            path: self.path.clone(),
            boot_info: BootInfo { kernel: self.boot_info.kernel.clone() },
            rest: self.rest.clone(),
        }
    }
}

/// Settings of which nothing is set.
pub open spec fn default_config() -> ConfigView {
    ConfigView { path: Seq::empty(), kernel: Seq::empty(), rest: Seq::empty() }
}

impl Default for HypervisorConfig {
    fn default() -> (config: HypervisorConfig)
        ensures
            config@ == default_config(),
    {
        HypervisorConfig {
            path: String::new(),
            boot_info: BootInfo { kernel: String::new() },
            rest: String::new(),
        }
    }
}

/// The settings of every hypervisor, by its name.
pub struct TomlConfig {
    hypervisor: StringHashMap<HypervisorConfig>,
}

impl View for TomlConfig {
    type V = Map<Seq<char>, ConfigView>;

    closed spec fn view(&self) -> Map<Seq<char>, ConfigView> {
        self.hypervisor@.map_values(|c: HypervisorConfig| c@)
    }
}

impl TomlConfig {
    /// No settings.
    pub fn new() -> (conf: TomlConfig)
        ensures
            conf@ == Map::<Seq<char>, ConfigView>::empty(),
    {
        let conf = TomlConfig { hypervisor: StringHashMap::new() };
        assert(conf@ =~= Map::<Seq<char>, ConfigView>::empty());
        conf
    }

    /// Sets the settings of a hypervisor.
    pub fn set_hypervisor(&mut self, name: &str, config: HypervisorConfig)
        ensures
            final(self)@ == old(self)@.insert(name@, config@),
    {
        self.hypervisor.insert(name.to_string(), config);
        assert(self@ =~= old(self)@.insert(name@, config@));
    }

    /// The settings of a hypervisor.
    pub fn hypervisor(&self, name: &str) -> (config: Option<&HypervisorConfig>)
        ensures
            match config {
                Some(c) => self@.contains_key(name@) && self@[name@] == c@,
                None => !self@.contains_key(name@),
            },
    {
        self.hypervisor.get(name)
    }
}

/// A text, or another one where it is empty.
pub open spec fn or_default(text: Seq<char>, default: Seq<char>) -> Seq<char> {
    if text.len() == 0 {
        default
    } else {
        text
    }
}

/// Shyper's settings with the defaults filled in.
pub open spec fn with_defaults(config: ConfigView) -> ConfigView {
    ConfigView {
        path: or_default(config.path, DEFAULT_SHYPER_BINARY_PATH@),
        kernel: or_default(config.kernel, DEFAULT_SHYPER_GUEST_KERNEL_IMAGE@),
        rest: config.rest,
    }
}

/// The settings after Shyper's defaults were filled in, where there are settings
/// of Shyper.
pub open spec fn adjusted(conf: Map<Seq<char>, ConfigView>) -> Map<Seq<char>, ConfigView> {
    if conf.contains_key(HYPERVISOR_NAME_SHYPER@) {
        conf.insert(
            HYPERVISOR_NAME_SHYPER@,
            with_defaults(conf[HYPERVISOR_NAME_SHYPER@]),
        )
    } else {
        conf
    }
}

/// What is wrong with Shyper's settings.
#[derive(Debug, PartialEq, Eq)]
pub enum ConfigError {
    /// No executable is set.
    EmptyPath,
    /// The executable cannot be resolved, for this reason.
    InvalidPath { path: String, reason: String },
    /// No guest kernel is set.
    EmptyKernel,
    /// The guest kernel cannot be resolved, for this reason.
    InvalidKernel { path: String, reason: String },
}

/// The mathematical value of a [`ConfigError`].
pub enum ConfigErrorView {
    EmptyPath,
    InvalidPath { path: Seq<char>, reason: Seq<char> },
    EmptyKernel,
    InvalidKernel { path: Seq<char>, reason: Seq<char> },
}

impl View for ConfigError {
    type V = ConfigErrorView;

    open spec fn view(&self) -> ConfigErrorView {
        match self {
            ConfigError::EmptyPath => ConfigErrorView::EmptyPath,
            ConfigError::InvalidPath { path, reason } => ConfigErrorView::InvalidPath {
                path: path@,
                reason: reason@,
            },
            ConfigError::EmptyKernel => ConfigErrorView::EmptyKernel,
            ConfigError::InvalidKernel { path, reason } => ConfigErrorView::InvalidKernel {
                path: path@,
                reason: reason@,
            },
        }
    }
}

impl ConfigErrorView {
    /// What the error says to the caller.
    pub open spec fn text(self) -> Seq<char> {
        match self {
            ConfigErrorView::EmptyPath => "Shyper path is empty"@,
            ConfigErrorView::InvalidPath { path, reason } => "Shyper binary path `"@ + path
                + "` is invalid: "@ + reason,
            ConfigErrorView::EmptyKernel => "Guest kernel image for shyper is empty"@,
            ConfigErrorView::InvalidKernel { path, reason } => "Shyper kernel path `"@ + path
                + "` is invalid: "@ + reason,
        }
    }
}

impl ConfigError {
    /// What the error says to the caller.
    pub fn message(&self) -> (text: String)
        ensures
            text@ == self@.text(),
    {
        match self {
            ConfigError::EmptyPath => "Shyper path is empty".to_string(),
            ConfigError::InvalidPath { path, reason } => "Shyper binary path `".to_string().concat(
                path.as_str(),
            ).concat("` is invalid: ").concat(reason.as_str()),
            ConfigError::EmptyKernel => "Guest kernel image for shyper is empty".to_string(),
            ConfigError::InvalidKernel { path, reason } =>
                "Shyper kernel path `".to_string().concat(path.as_str()).concat(
                "` is invalid: ",
            ).concat(reason.as_str()),
        }
    }
}

/// What resolving a path on the host found.
#[derive(Debug, PartialEq, Eq)]
pub enum PathProbe {
    Resolved,
    /// It cannot be resolved, for this reason.
    Unresolved(String),
}

/// The checks of Shyper's settings that are over.
#[derive(Debug, PartialEq, Eq)]
pub enum Checked {
    /// None yet.
    Nothing,
    /// The executable was probed.
    Path(PathProbe),
    /// The executable was resolved and the guest kernel was probed.
    Kernel(PathProbe),
}

/// What the check of Shyper's settings asks for next.
#[derive(Debug, PartialEq, Eq)]
pub enum Validation {
    /// Resolve the executable and go on with [`Checked::Path`].
    ProbePath(String),
    /// Resolve the guest kernel and go on with [`Checked::Kernel`].
    ProbeKernel(String),
    /// The settings are in order.
    Valid,
    /// The settings are wrong.
    Invalid(ConfigError),
}

/// The mathematical value of a [`Validation`].
pub enum ValidationView {
    ProbePath(Seq<char>),
    ProbeKernel(Seq<char>),
    Valid,
    Invalid(ConfigErrorView),
}

impl View for Validation {
    type V = ValidationView;

    open spec fn view(&self) -> ValidationView {
        match self {
            Validation::ProbePath(path) => ValidationView::ProbePath(path@),
            Validation::ProbeKernel(path) => ValidationView::ProbeKernel(path@),
            Validation::Valid => ValidationView::Valid,
            Validation::Invalid(e) => ValidationView::Invalid(e@),
        }
    }
}

/// What the check of some settings asks for, given the checks that are over. The
/// executable comes first, then the guest kernel; each must be set and must
/// resolve.
pub open spec fn validation(config: ConfigView, checked: Checked) -> ValidationView {
    if config.path.len() == 0 {
        ValidationView::Invalid(ConfigErrorView::EmptyPath)
    } else {
        match checked {
            Checked::Nothing => ValidationView::ProbePath(config.path),
            Checked::Path(PathProbe::Unresolved(reason)) => ValidationView::Invalid(
                ConfigErrorView::InvalidPath { path: config.path, reason: reason@ },
            ),
            _ => if config.kernel.len() == 0 {
                ValidationView::Invalid(ConfigErrorView::EmptyKernel)
            } else {
                match checked {
                    Checked::Kernel(PathProbe::Unresolved(reason)) => ValidationView::Invalid(
                        ConfigErrorView::InvalidKernel { path: config.kernel, reason: reason@ },
                    ),
                    Checked::Kernel(PathProbe::Resolved) => ValidationView::Valid,
                    _ => ValidationView::ProbeKernel(config.kernel),
                }
            },
        }
    }
}

/// The plugins that handle the settings of the hypervisors, by name.
pub struct HypervisorPlugins {
    plugins: StringHashMap<ShyperConfig>,
}

impl View for HypervisorPlugins {
    type V = Map<Seq<char>, ShyperConfig>;

    closed spec fn view(&self) -> Map<Seq<char>, ShyperConfig> {
        self.plugins@
    }
}

impl HypervisorPlugins {
    /// No plugins.
    pub fn new() -> (plugins: HypervisorPlugins)
        ensures
            plugins@ == Map::<Seq<char>, ShyperConfig>::empty(),
    {
        HypervisorPlugins { plugins: StringHashMap::new() }
    }

    /// Registers a plugin under a name, in place of the one that was there.
    pub fn insert(&mut self, name: &str, plugin: ShyperConfig)
        ensures
            final(self)@ == old(self)@.insert(name@, plugin),
    {
        self.plugins.insert(name.to_string(), plugin);
    }

    /// The plugin of a name.
    pub fn get(&self, name: &str) -> (plugin: Option<&ShyperConfig>)
        ensures
            match plugin {
                Some(p) => self@.contains_key(name@) && self@[name@] == *p,
                None => !self@.contains_key(name@),
            },
    {
        self.plugins.get(name)
    }
}

/// The plugin that handles Shyper's settings.
#[derive(Debug, Clone, Copy)]
pub struct ShyperConfig {}

impl Default for ShyperConfig {
    fn default() -> (plugin: ShyperConfig)
        ensures
            plugin == (ShyperConfig {  }),
    {
        ShyperConfig {  }
    }
}

impl ShyperConfig {
    /// The plugin.
    pub fn new() -> (plugin: ShyperConfig)
        ensures
            plugin == (ShyperConfig {  }),
    {
        ShyperConfig {  }
    }

    /// Registers the plugin under the hypervisor's name.
    pub fn register(self, plugins: &mut HypervisorPlugins)
        ensures
            final(plugins)@ == old(plugins)@.insert(HYPERVISOR_NAME_SHYPER@, self),
    {
        plugins.insert(HYPERVISOR_NAME_SHYPER, self);
    }

    /// The most processors that a machine may have, zero for no limit of the
    /// plugin's own.
    pub fn get_max_cpus(&self) -> (n: u32)
        ensures
            n == 0,
    {
        0
    }

    /// The least memory that a machine must have.
    pub fn get_min_memory(&self) -> (n: u32)
        ensures
            n == 0,
    {
        0
    }

    /// The hypervisor's name.
    pub fn name(&self) -> (name: &'static str)
        ensures
            name@ == HYPERVISOR_NAME_SHYPER@,
    {
        HYPERVISOR_NAME_SHYPER
    }

    /// Fills in the defaults of Shyper's settings.
    pub fn adjust_config(&self, conf: &mut TomlConfig) -> (r: Result<(), ConfigError>)
        ensures
            r is Ok,
            final(conf)@ == adjusted(old(conf)@),
    {
        let mut shyper: HypervisorConfig = match conf.hypervisor(HYPERVISOR_NAME_SHYPER) {
            Some(config) => config.copy(),
            None => {
                return Ok(());
            },
        };
        if shyper.path.as_str().is_empty() {
            shyper.path = DEFAULT_SHYPER_BINARY_PATH.to_string();
        }
        if shyper.boot_info.kernel.as_str().is_empty() {
            shyper.boot_info.kernel = DEFAULT_SHYPER_GUEST_KERNEL_IMAGE.to_string();
        }
        conf.set_hypervisor(HYPERVISOR_NAME_SHYPER, shyper);
        Ok(())
    }

    /// Goes on checking Shyper's settings after some checks. Settings without
    /// any of Shyper are in order.
    pub fn validate(&self, conf: &TomlConfig, checked: &Checked) -> (r: Validation)
        ensures
            r@ == if conf@.contains_key(HYPERVISOR_NAME_SHYPER@) {
                validation(conf@[HYPERVISOR_NAME_SHYPER@], *checked)
            } else {
                ValidationView::Valid
            },
    {
        let shyper: &HypervisorConfig = match conf.hypervisor(HYPERVISOR_NAME_SHYPER) {
            Some(config) => config,
            None => {
                return Validation::Valid;
            },
        };
        if shyper.path.as_str().is_empty() {
            return Validation::Invalid(ConfigError::EmptyPath);
        }
        match checked {
            Checked::Nothing => {
                return Validation::ProbePath(shyper.path.clone());
            },
            Checked::Path(PathProbe::Unresolved(reason)) => {
                return Validation::Invalid(
                    ConfigError::InvalidPath { path: shyper.path.clone(), reason: reason.clone() },
                );
            },
            _ => {},
        }
        if shyper.boot_info.kernel.as_str().is_empty() {
            return Validation::Invalid(ConfigError::EmptyKernel);
        }
        match checked {
            Checked::Kernel(PathProbe::Unresolved(reason)) => Validation::Invalid(
                ConfigError::InvalidKernel {
                    path: shyper.boot_info.kernel.clone(),
                    reason: reason.clone(),
                },
            ),
            Checked::Kernel(PathProbe::Resolved) => Validation::Valid,
            _ => Validation::ProbeKernel(shyper.boot_info.kernel.clone()),
        }
    }
}

} // verus!
