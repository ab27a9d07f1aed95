use balsa_flakegen::disko::generate_disko_config;
use balsa_flakegen::generate::{engine, system_values, warnings, RenderRequest, TEMPLATE_FILES};
use balsa_flakegen::plan::{
    AccountsConfig, Arch, BalsaInstallPlan, BootConfig, BootLoader, CachyNixpkgsPolicy, CachyVariant,
    CachyosCache, CpuVendor, DesktopChoice, DiskoConfig, Filesystem, FirmwareMode, Gpu, HardwareConfig,
    KernelChoice, LocaleConfig, LoginManager, NetworkBackend, NetworkConfig, PartitionScheme, SwapMode,
    TuningProfile, UserAccount,
};
use balsa_flakegen::{generate, Error};
use tera::{Context, Tera};

fn plan() -> BalsaInstallPlan {
    BalsaInstallPlan {
        locale: LocaleConfig {
            locale: "en_US.UTF-8".to_string(),
            keymap: "us".to_string(),
            timezone: "UTC".to_string(),
        },
        disk: DiskoConfig {
            disk: "/dev/sda".to_string(),
            scheme: PartitionScheme::Guided,
            filesystem: Filesystem::Btrfs,
            swap: SwapMode::File { size_gib: 4 },
            encryption: None,
        },
        boot: BootConfig {
            loader: BootLoader::SystemdBoot,
            dual_boot: true,
            legacy_bios: false,
            esp_mount: "/boot/efi".to_string(),
        },
        hardware: HardwareConfig {
            arch: Arch::X86_64Linux,
            cpu: CpuVendor::Intel,
            gpu: vec![Gpu::Intel, Gpu::NvidiaOpen],
            firmware: FirmwareMode::Auto,
        },
        network: NetworkConfig {
            hostname: "gamer".to_string(),
            backend: NetworkBackend::NetworkManager,
            host_id: None,
        },
        kernel: KernelChoice::CachyOs {
            variant: CachyVariant::Bore,
            nixpkgs_policy: CachyNixpkgsPolicy::SystemNixpkgs,
            cache: CachyosCache::default(),
        },
        desktop: DesktopChoice::Hyprland,
        login_manager: None,
        accounts: AccountsConfig {
            primary: UserAccount {
                username: "bob".to_string(),
                full_name: "Bob".to_string(),
                hashed_password: "$y$x".to_string(),
            },
            root_enabled: false,
            root_hashed_password: None,
        },
        tuning_profile: TuningProfile::Gaming,
        nixpkgs_ref: "nixos-unstable".to_string(),
        balsa_ref: None,
        state_version: "25.05".to_string(),
    }
}

/// Small stand-ins for the real templates: they show what each rendering was given.
fn templates() -> Vec<(String, String)> {
    vec![
        ("flake.nix.j2".to_string(), "# {{ host | nix }}  \n\n\n\nloader={{ loader }}\n".to_string()),
        ("configuration.nix.j2".to_string(), "swap={{ swap }} tiling={{ tiling }}\n\n\n".to_string()),
        ("hardware-configuration.nix.j2".to_string(), "unfree={{ unfree }} nvidia_open={{ open }}".to_string()),
        ("disko-config.nix.j2".to_string(), "device = \"{{ disk }}\";\nesp={{ esp }} bios={{ bios }}\n".to_string()),
    ]
}

/// Renders a request the way an application would: the request's values go into a context.
fn render(tera: &Tera, req: &RenderRequest) -> Result<String, String> {
    let mut ctx = Context::new();
    let template = match req {
        RenderRequest::System { template, plan, values } => {
            ctx.insert("host", &plan.network.hostname);
            ctx.insert("loader", &format!("{:?}", values.effective_loader));
            ctx.insert("swap", &values.swapfile.map(|s| format!("{}@{}", s.mib, s.path)).unwrap_or_default());
            ctx.insert("tiling", &values.desktop_is_tiling);
            ctx.insert("unfree", &values.allow_unfree);
            ctx.insert("open", &values.nvidia_open);
            *template
        }
        RenderRequest::Disko { disk, legacy_bios, esp_mount } => {
            ctx.insert("disk", &disk.disk);
            ctx.insert("esp", esp_mount);
            ctx.insert("bios", legacy_bios);
            "disko-config.nix.j2"
        }
    };
    tera.render(template, &ctx).map_err(|e| e.to_string())
}

#[test]
fn generates_the_four_files_tidied() {
    let p = plan();
    let result = generate(&p, &templates(), &render).unwrap_or_else(|e| panic!("{}", e.message()));
    let names: Vec<&str> = result.config.files.iter().map(|(n, _)| n.as_str()).collect();
    assert_eq!(
        names,
        vec!["configuration.nix", "disko-config.nix", "flake.nix", "hardware-configuration.nix"]
    );
    assert_eq!(result.config.get("flake.nix").unwrap(), "# gamer\n\nloader=Grub\n");
    assert_eq!(
        result.config.get("configuration.nix").unwrap(),
        "swap=4096@/swap/swapfile tiling=true\n\n"
    );
    assert_eq!(
        result.config.get("hardware-configuration.nix").unwrap(),
        "unfree=true nvidia_open=true\n"
    );
    assert_eq!(
        result.config.get("disko-config.nix").unwrap(),
        "device = \"/dev/sda\";\nesp=/boot/efi bios=false\n"
    );
    assert!(result.config.get("missing.nix").is_none());
    assert_eq!(result.warnings.len(), 2);
    assert!(result.warnings[1].contains("builds from source"));
}

#[test]
fn invalid_plans_fail_before_rendering() {
    let mut p = plan();
    p.network.hostname = String::new();
    match generate(&p, &templates(), &|_: &Tera, _: &RenderRequest| -> Result<String, String> {
        panic!("rendered an invalid plan")
    }) {
        Err(Error::Validation(errs)) => assert_eq!(errs, vec!["invalid hostname \"\"".to_string()]),
        other => panic!("unexpected {:?}", other.map(|r| r.warnings)),
    }
}

#[test]
fn broken_templates_are_template_errors() {
    let bad = vec![("flake.nix.j2".to_string(), "{% if %}".to_string())];
    assert!(engine(&bad).is_err());
    match generate(&plan(), &bad, &render) {
        Err(Error::Template(m)) => assert!(!m.is_empty()),
        other => panic!("unexpected {:?}", other.map(|r| r.warnings)),
    }
    let missing = vec![("flake.nix.j2".to_string(), "x".to_string())];
    assert!(matches!(generate(&plan(), &missing, &render), Err(Error::Template(_))));
}

#[test]
fn engine_holds_the_given_templates_and_escapes_for_nix() {
    let tera = engine(&templates()).unwrap();
    let mut names: Vec<&str> = tera.get_template_names().collect();
    names.sort();
    assert_eq!(
        names,
        vec!["configuration.nix.j2", "disko-config.nix.j2", "flake.nix.j2", "hardware-configuration.nix.j2"]
    );
    let mut ctx = Context::new();
    ctx.insert("host", "a\"${b}");
    ctx.insert("loader", "x");
    assert_eq!(tera.render("flake.nix.j2", &ctx).unwrap(), "# a\\\"\\${b}  \n\n\n\nloader=x\n");
    assert_eq!(TEMPLATE_FILES.len(), 17);
    assert_eq!(TEMPLATE_FILES[16], "disko-config.nix.j2");
}

#[test]
fn values_and_warnings_follow_the_plan() {
    let mut p = plan();
    let v = system_values(&p);
    assert_eq!(v.effective_loader, BootLoader::Grub);
    assert_eq!(v.login, LoginManager::Regreet);
    assert!(v.has_nvidia && v.nvidia_open && v.allow_unfree && v.desktop_is_tiling && !v.needs_xserver);
    let cachy = v.cachyos.unwrap();
    assert_eq!(cachy.packages_attr, "pkgs.cachyosKernels.linuxPackages-cachyos-bore");

    p.kernel = KernelChoice::Default;
    p.hardware.gpu = vec![Gpu::Amd];
    p.hardware.firmware = FirmwareMode::All;
    p.disk.swap = SwapMode::File { size_gib: 2 };
    p.disk.filesystem = Filesystem::Ext4;
    let v = system_values(&p);
    assert!(!v.has_nvidia && !v.nvidia_open && v.allow_unfree && v.cachyos.is_none());
    let swap = v.swapfile.unwrap();
    assert_eq!((swap.mib, swap.path), (2048, "/swapfile"));
    assert!(warnings(&p).is_empty());

    p.disk.scheme = PartitionScheme::Manual { devices: "x".to_string() };
    p.disk.filesystem = Filesystem::Zfs;
    p.disk.swap = SwapMode::Zram;
    let w = warnings(&p);
    assert_eq!(w.len(), 2);
    assert!(w[0].starts_with("Manual partitioning"));
    assert!(w[1].starts_with("ZFS: run `zpool export zroot`"));
}

#[test]
fn disko_config_alone() {
    let mut disk = plan().disk;
    let out = generate_disko_config(&disk, true, "/efi", &templates(), &render).unwrap();
    assert_eq!(out, "device = \"/dev/sda\";\nesp=/efi bios=true\n");
    disk.disk = "sda".to_string();
    match generate_disko_config(&disk, true, "/efi", &templates(), &render) {
        Err(Error::Validation(errs)) => assert_eq!(errs, vec!["disk \"sda\" is not an absolute path".to_string()]),
        other => panic!("unexpected {other:?}"),
    }
}

#[test]
fn error_messages() {
    assert_eq!(Error::Template("boom".to_string()).message(), "template error: boom");
    assert_eq!(Error::Plan("bad".to_string()).message(), "could not parse plan: bad");
    assert_eq!(Error::Io("gone".to_string()).message(), "io error: gone");
    assert_eq!(
        Error::Validation(vec!["a".to_string(), "b".to_string()]).message(),
        "invalid install plan:\n  - a\n  - b"
    );
}

#[test]
fn only_cachyos_manual_disko_and_zfs_warn() {
    let kernels = vec![
        KernelChoice::Default,
        KernelChoice::Lts,
        KernelChoice::Zen,
        KernelChoice::Xanmod,
        KernelChoice::CachyOs {
            variant: CachyVariant::Latest,
            nixpkgs_policy: CachyNixpkgsPolicy::Pinned,
            cache: CachyosCache::default(),
        },
        KernelChoice::CachyOs {
            variant: CachyVariant::Lts,
            nixpkgs_policy: CachyNixpkgsPolicy::SystemNixpkgs,
            cache: CachyosCache::default(),
        },
    ];
    for kernel in kernels {
        for manual in [false, true] {
            for fs in Filesystem::ALL {
                let mut p = plan();
                p.kernel = kernel.clone();
                p.disk.filesystem = fs;
                p.disk.swap = SwapMode::Zram;
                p.network.host_id = Some("0a1b2c3d".to_string());
                if manual {
                    p.disk.scheme = PartitionScheme::Manual { devices: "disk = {};".to_string() };
                }
                let result = generate(&p, &templates(), &render).unwrap_or_else(|e| panic!("{}", e.message()));
                let cachy = matches!(p.kernel, KernelChoice::CachyOs { .. });
                assert_eq!(
                    !result.warnings.is_empty(),
                    cachy || manual || fs == Filesystem::Zfs,
                    "{kernel:?} {manual} {fs:?}"
                );
                let compiles = result.warnings.iter().any(|w| w.contains("builds from source"));
                assert_eq!(
                    compiles,
                    matches!(p.kernel, KernelChoice::CachyOs { nixpkgs_policy: CachyNixpkgsPolicy::SystemNixpkgs, .. })
                );
            }
        }
    }
}

#[test]
fn render_failures_are_template_errors() {
    let failing = |_: &Tera, _: &RenderRequest| -> Result<String, String> { Err("no such variable".to_string()) };
    match generate(&plan(), &templates(), &failing) {
        Err(Error::Template(m)) => assert_eq!(m, "no such variable"),
        other => panic!("unexpected {:?}", other.map(|r| r.warnings)),
    }
    match generate_disko_config(&plan().disk, false, "/boot", &templates(), &failing) {
        Err(Error::Template(m)) => assert_eq!(m, "no such variable"),
        other => panic!("unexpected {other:?}"),
    }
}

#[test]
fn generated_disko_file_matches_the_standalone_one() {
    let p = plan();
    let result = generate(&p, &templates(), &render).unwrap();
    let alone = generate_disko_config(&p.disk, p.boot.legacy_bios, &p.boot.esp_mount, &templates(), &render).unwrap();
    assert_eq!(result.config.get("disko-config.nix").unwrap(), &alone);
}

#[test]
fn templates_must_load_in_order() {
    // A template that pulls in a fragment loads only once the fragment is there.
    let fragment = ("part.j2".to_string(), "x".to_string());
    let whole = ("whole.j2".to_string(), "{% include \"part.j2\" %}".to_string());
    assert!(engine(&vec![fragment.clone(), whole.clone()]).is_ok());
    assert!(engine(&vec![whole, fragment]).is_err());
    assert!(engine(&vec![]).is_ok());
}
