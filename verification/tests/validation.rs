use balsa_flakegen::plan::{
    AccountsConfig, Arch, BalsaInstallPlan, BootConfig, BootLoader, CachyNixpkgsPolicy, CachyVariant,
    CachyosCache, CpuVendor, DesktopChoice, DiskoConfig, EncryptionConfig, Filesystem, FirmwareMode,
    Gpu, HardwareConfig, KernelChoice, LocaleConfig, LoginManager, NetworkBackend, NetworkConfig,
    PartitionScheme, SwapMode, TuningProfile, UserAccount, default_esp, default_nixpkgs_ref,
    default_state_version,
};
use balsa_flakegen::Error;

/// A plasma install on an encrypted ZFS pool with the LTS kernel.
fn zfs_plan() -> BalsaInstallPlan {
    BalsaInstallPlan {
        locale: LocaleConfig {
            locale: "en_US.UTF-8".to_string(),
            keymap: "us".to_string(),
            timezone: "Europe/Berlin".to_string(),
        },
        disk: DiskoConfig {
            disk: "/dev/nvme0n1".to_string(),
            scheme: PartitionScheme::Guided,
            filesystem: Filesystem::Zfs,
            swap: SwapMode::Zram,
            encryption: Some(EncryptionConfig { luks_name: "cryptroot".to_string() }),
        },
        boot: BootConfig {
            loader: BootLoader::SystemdBoot,
            dual_boot: false,
            legacy_bios: false,
            esp_mount: default_esp(),
        },
        hardware: HardwareConfig {
            arch: Arch::X86_64Linux,
            cpu: CpuVendor::Amd,
            gpu: vec![Gpu::Amd],
            firmware: FirmwareMode::Auto,
        },
        network: NetworkConfig {
            hostname: "balsa-zfs".to_string(),
            backend: NetworkBackend::NetworkManager,
            host_id: Some("8425e349".to_string()),
        },
        kernel: KernelChoice::Lts,
        desktop: DesktopChoice::Plasma,
        login_manager: None,
        accounts: AccountsConfig {
            primary: UserAccount {
                username: "alice".to_string(),
                full_name: "Alice".to_string(),
                hashed_password: "$y$j9T$abc".to_string(),
            },
            root_enabled: false,
            root_hashed_password: None,
        },
        tuning_profile: TuningProfile::Standard,
        nixpkgs_ref: default_nixpkgs_ref(),
        balsa_ref: None,
        state_version: default_state_version(),
    }
}

#[test]
fn zfs_requires_a_well_formed_host_id() {
    let mut plan = zfs_plan();
    assert!(plan.validate().is_ok());

    plan.network.host_id = None;
    let errs = plan.validate().unwrap_err();
    assert!(
        errs.iter().any(|e| e.contains("needs network.host_id")),
        "{errs:?}"
    );

    plan.network.host_id = Some("not-hex!".to_string());
    let errs = plan.validate().unwrap_err();
    assert!(errs.iter().any(|e| e.contains("8 hex digits")), "{errs:?}");
}

#[test]
fn defaults_are_the_documented_ones() {
    assert_eq!(default_nixpkgs_ref(), "nixos-unstable");
    assert_eq!(default_state_version(), "25.05");
    assert_eq!(default_esp(), "/boot");
}

#[test]
fn every_plan_problem_is_reported_in_order() {
    let mut plan = zfs_plan();
    plan.hardware.arch = Arch::Aarch64Linux;
    plan.kernel = KernelChoice::Zen;
    plan.network.hostname = "my host".to_string();
    plan.accounts.primary.username = "Alice".to_string();
    plan.accounts.primary.hashed_password = String::new();
    plan.accounts.root_enabled = true;
    plan.boot.loader = BootLoader::Limine;
    plan.network.host_id = Some("1234567".to_string());
    plan.disk.scheme = PartitionScheme::Manual { devices: " \n\t ".to_string() };
    plan.disk.encryption = Some(EncryptionConfig { luks_name: "has space".to_string() });
    plan.disk.swap = SwapMode::File { size_gib: 0 };
    plan.disk.disk = "sda".to_string();
    let errs = plan.validate().unwrap_err();
    assert_eq!(
        errs,
        vec![
            "kernel Zen is x86_64-only but arch is Aarch64Linux".to_string(),
            "invalid hostname \"my host\"".to_string(),
            "invalid username \"Alice\"".to_string(),
            "primary account has an empty hashed_password".to_string(),
            "root_enabled is set but root_hashed_password is missing".to_string(),
            "Limine is only offered for btrfs installs, not Zfs".to_string(),
            "host_id \"1234567\" must be exactly 8 hex digits".to_string(),
            "manual partitioning selected with an empty devices block".to_string(),
            "invalid luks_name \"has space\"".to_string(),
            "ZFS cannot host a swap file; use partition or zram swap".to_string(),
            "swap size_gib must be at least 1".to_string(),
            "disk \"sda\" is not an absolute path".to_string(),
        ]
    );
    let msg = Error::Validation(errs.clone()).message();
    assert!(msg.starts_with("invalid install plan:\n  - kernel Zen"));
    assert_eq!(msg.matches("\n  - ").count(), errs.len());
}

#[test]
fn kernel_messages_quote_as_debug_does() {
    let mut plan = zfs_plan();
    plan.hardware.arch = Arch::Aarch64Linux;
    plan.kernel = KernelChoice::CachyOs {
        variant: CachyVariant::Bore,
        nixpkgs_policy: CachyNixpkgsPolicy::SystemNixpkgs,
        cache: CachyosCache {
            substituter: "https://a\"b".to_string(),
            trusted_public_key: "k\\1".to_string(),
        },
    };
    let errs = plan.validate().unwrap_err();
    assert_eq!(
        errs[0],
        format!("kernel {:?} is x86_64-only but arch is {:?}", plan.kernel, plan.hardware.arch)
    );
    assert_eq!(plan.kernel.debug_text(), format!("{:?}", plan.kernel));
    for fs in Filesystem::ALL {
        assert_eq!(fs.debug_text(), format!("{fs:?}"));
    }
}

#[test]
fn unicode_host_id_is_not_eight_hex_digits() {
    let mut plan = zfs_plan();
    plan.network.host_id = Some("ab12cd3é".to_string());
    let errs = plan.validate().unwrap_err();
    assert_eq!(errs, vec!["host_id \"ab12cd3é\" must be exactly 8 hex digits".to_string()]);
    plan.network.host_id = Some("AB12cd34".to_string());
    assert!(plan.validate().is_ok());
}

#[test]
fn disk_validation_alone() {
    let mut disk = zfs_plan().disk;
    assert!(disk.validate().is_ok());
    disk.swap = SwapMode::Partition { size_gib: 0 };
    assert_eq!(disk.validate().unwrap_err(), vec!["swap size_gib must be at least 1".to_string()]);
    disk.swap = SwapMode::Disabled;
    disk.scheme = PartitionScheme::Manual { devices: "disk = {};".to_string() };
    assert!(disk.validate().is_ok());
}

#[test]
fn loaders_and_login_managers() {
    let mut boot = zfs_plan().boot;
    assert_eq!(boot.effective_loader(), BootLoader::SystemdBoot);
    boot.dual_boot = true;
    assert_eq!(boot.effective_loader(), BootLoader::Grub);
    boot.dual_boot = false;
    boot.legacy_bios = true;
    assert_eq!(boot.effective_loader(), BootLoader::Grub);
    boot.loader = BootLoader::Limine;
    assert_eq!(boot.effective_loader(), BootLoader::Limine);

    let mut plan = zfs_plan();
    assert_eq!(plan.login_manager(), LoginManager::Sddm);
    plan.desktop = DesktopChoice::Sway;
    assert_eq!(plan.login_manager(), LoginManager::Regreet);
    plan.login_manager = Some(LoginManager::Ly);
    assert_eq!(plan.login_manager(), LoginManager::Ly);

    for d in DesktopChoice::ALL {
        if d.is_tiling() {
            assert_eq!(d.default_login_manager(), LoginManager::Regreet);
        }
    }
    assert_eq!(DesktopChoice::Gnome.default_login_manager(), LoginManager::Gdm);
    assert_eq!(DesktopChoice::Cosmic.default_login_manager(), LoginManager::CosmicGreeter);
    assert_eq!(DesktopChoice::Labwc.default_login_manager(), LoginManager::Sddm);
    assert!(DesktopChoice::Dwm.needs_xserver() && !DesktopChoice::Sway.needs_xserver());
    assert!(KernelChoice::Zen.is_x64_only() && !KernelChoice::Lts.is_x64_only());
    assert!(Arch::X86_64Linux.is_x64() && !Arch::Aarch64Linux.is_x64());
    assert_eq!(BootLoader::ALL.len(), 3);
}
