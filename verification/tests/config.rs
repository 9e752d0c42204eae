use shyper::config::{
    BootInfo, Checked, ConfigError, HypervisorConfig, HypervisorPlugins, PathProbe, ShyperConfig,
    TomlConfig, Validation,
};

fn settings(path: &str, kernel: &str) -> HypervisorConfig {
    HypervisorConfig {
        path: path.to_string(),
        boot_info: BootInfo {
            kernel: kernel.to_string(),
        },
        rest: "cpus = 4".to_string(),
    }
}

fn with_shyper(path: &str, kernel: &str) -> TomlConfig {
    let mut conf = TomlConfig::new();
    conf.set_hypervisor("shyper", settings(path, kernel));
    conf
}

#[test]
fn plugin_is_registered_under_its_name() {
    let mut plugins = HypervisorPlugins::new();
    assert!(plugins.get("shyper").is_none());
    ShyperConfig::new().register(&mut plugins);
    assert!(plugins.get("shyper").is_some());
    assert!(plugins.get("qemu").is_none());
    ShyperConfig::default().register(&mut plugins);
    assert!(plugins.get("shyper").is_some());
}

#[test]
fn plugin_has_no_limits_of_its_own() {
    let plugin = ShyperConfig::new();
    assert_eq!(plugin.get_max_cpus(), 0);
    assert_eq!(plugin.get_min_memory(), 0);
    assert_eq!(plugin.name(), "shyper");
}

#[test]
fn adjust_fills_in_what_is_empty() {
    let mut conf = with_shyper("", "");
    conf.set_hypervisor("qemu", settings("", ""));
    let plugin = ShyperConfig::new();
    assert!(plugin.adjust_config(&mut conf).is_ok());
    let expected = settings(
        "/usr/bin/shyper-cli",
        "/usr/share/kata-containers/vmlinuz-shyper",
    );
    assert_eq!(conf.hypervisor("shyper"), Some(&expected));
    assert_eq!(conf.hypervisor("qemu"), Some(&settings("", "")));
    assert!(plugin.adjust_config(&mut conf).is_ok());
    assert_eq!(conf.hypervisor("shyper"), Some(&expected));
}

#[test]
fn adjust_keeps_what_is_set() {
    let mut conf = with_shyper("/opt/shyper", "");
    assert!(ShyperConfig::new().adjust_config(&mut conf).is_ok());
    assert_eq!(
        conf.hypervisor("shyper"),
        Some(&settings(
            "/opt/shyper",
            "/usr/share/kata-containers/vmlinuz-shyper"
        ))
    );
    let mut conf = with_shyper("", "/boot/vmlinuz");
    assert!(ShyperConfig::new().adjust_config(&mut conf).is_ok());
    assert_eq!(
        conf.hypervisor("shyper"),
        Some(&settings("/usr/bin/shyper-cli", "/boot/vmlinuz"))
    );
}

#[test]
fn adjust_adds_no_settings() {
    let mut conf = TomlConfig::new();
    assert!(ShyperConfig::new().adjust_config(&mut conf).is_ok());
    assert!(conf.hypervisor("shyper").is_none());
}

#[test]
fn settings_without_shyper_are_valid() {
    let conf = TomlConfig::new();
    assert_eq!(
        ShyperConfig::new().validate(&conf, &Checked::Nothing),
        Validation::Valid
    );
}

#[test]
fn validation_probes_path_then_kernel() {
    let conf = with_shyper("/bin/a", "/boot/b");
    let plugin = ShyperConfig::new();
    assert_eq!(
        plugin.validate(&conf, &Checked::Nothing),
        Validation::ProbePath("/bin/a".to_string())
    );
    assert_eq!(
        plugin.validate(&conf, &Checked::Path(PathProbe::Resolved)),
        Validation::ProbeKernel("/boot/b".to_string())
    );
    assert_eq!(
        plugin.validate(&conf, &Checked::Kernel(PathProbe::Resolved)),
        Validation::Valid
    );
}

#[test]
fn empty_path_is_invalid() {
    let conf = with_shyper("", "");
    let r = ShyperConfig::new().validate(&conf, &Checked::Nothing);
    assert_eq!(r, Validation::Invalid(ConfigError::EmptyPath));
    assert_eq!(ConfigError::EmptyPath.message(), "Shyper path is empty");
}

#[test]
fn unresolved_path_is_invalid() {
    let conf = with_shyper("/bin/a", "");
    let checked = Checked::Path(PathProbe::Unresolved("gone".to_string()));
    match ShyperConfig::new().validate(&conf, &checked) {
        Validation::Invalid(e) => {
            assert_eq!(e.message(), "Shyper binary path `/bin/a` is invalid: gone")
        }
        other => panic!("{:?}", other),
    }
}

#[test]
fn empty_kernel_is_invalid() {
    let conf = with_shyper("/bin/a", "");
    let r = ShyperConfig::new().validate(&conf, &Checked::Path(PathProbe::Resolved));
    assert_eq!(r, Validation::Invalid(ConfigError::EmptyKernel));
    assert_eq!(
        ConfigError::EmptyKernel.message(),
        "Guest kernel image for shyper is empty"
    );
}

#[test]
fn unresolved_kernel_is_invalid() {
    let conf = with_shyper("/bin/a", "/boot/b");
    let checked = Checked::Kernel(PathProbe::Unresolved("gone".to_string()));
    match ShyperConfig::new().validate(&conf, &checked) {
        Validation::Invalid(e) => {
            assert_eq!(e.message(), "Shyper kernel path `/boot/b` is invalid: gone")
        }
        other => panic!("{:?}", other),
    }
}

#[test]
fn adjusted_settings_are_never_empty() {
    let mut conf = with_shyper("", "");
    let plugin = ShyperConfig::new();
    assert!(plugin.adjust_config(&mut conf).is_ok());
    assert_eq!(
        plugin.validate(&conf, &Checked::Nothing),
        Validation::ProbePath("/usr/bin/shyper-cli".to_string())
    );
    assert_eq!(
        plugin.validate(&conf, &Checked::Path(PathProbe::Resolved)),
        Validation::ProbeKernel("/usr/share/kata-containers/vmlinuz-shyper".to_string())
    );
}
