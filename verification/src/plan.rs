//! The install plan: the interface between a UI and the generator.
use vstd::prelude::*;
use vstd::string::*;
use crate::text::{views, quoted, debug_quote, CharClass, all_in_class, is_blank, chars_in_class, is_blank_str, has_char_count, starts_with_char};

verus! {

/// The complete description of an install. Interface between UI and generator
#[derive(Debug, Clone)]
pub struct BalsaInstallPlan {
    pub locale: LocaleConfig,
    pub disk: DiskoConfig,
    pub boot: BootConfig,
    pub hardware: HardwareConfig,
    pub network: NetworkConfig,
    pub kernel: KernelChoice,
    pub desktop: DesktopChoice,
    /// None means default
    pub login_manager: Option<LoginManager>,
    pub accounts: AccountsConfig,
    pub tuning_profile: TuningProfile,
    pub nixpkgs_ref: String,
    /// Balsa commit whose nixosModules the system imports; fixtures use None, having no pushed commit.
    pub balsa_ref: Option<String>,
    pub state_version: String,
}

/// The `nixpkgs_ref` a plan gets when it names none.
pub fn default_nixpkgs_ref() -> (r: String)
    ensures
        r@ == "nixos-unstable"@,
{
    String::from_str("nixos-unstable")
}

/// The `state_version` a plan gets when it names none.
pub fn default_state_version() -> (r: String)
    ensures
        r@ == "25.05"@,
{
    String::from_str("25.05")
}

#[derive(Debug, Clone)]
pub struct LocaleConfig {
    pub locale: String,
    pub keymap: String,
    pub timezone: String,
}

#[derive(Debug, Clone)]
pub struct DiskoConfig {
    /// e.g. "/dev/sda", "/dev/nvme0n1"
    pub disk: String,
    pub scheme: PartitionScheme,
    pub filesystem: Filesystem,
    pub swap: SwapMode,
    /// `None` means no full-disk encryption
    pub encryption: Option<EncryptionConfig>,
}

#[derive(Debug, Clone)]
pub struct EncryptionConfig {
    /// Device-mapper name, i.e. /dev/mapper/<luks_name>
    pub luks_name: String,
}

#[derive(Debug, Clone)]
pub enum PartitionScheme {
    Guided,
    /// The body of disko.devices, written by the caller
    Manual { devices: String },
}

#[derive(Debug, Clone, Copy, PartialEq, Eq, Structural)]
pub enum Filesystem {
    Btrfs,
    Ext4,
    Xfs,
    /// Single-disk pool named `zroot`. Needs `network.host_id`.
    Zfs,
}

impl Filesystem {
    pub const ALL: [Filesystem; 4] = [
        Filesystem::Btrfs,
        Filesystem::Ext4,
        Filesystem::Xfs,
        Filesystem::Zfs,
    ];
}

#[derive(Debug, Clone, Copy, PartialEq, Eq, Structural)]
pub enum SwapMode {
    /// No swap at all (`none` in plan files)
    Disabled,
    Partition { size_gib: u32 },
    File { size_gib: u32 },
    Zram,
}

#[derive(Debug, Clone)]
pub struct BootConfig {
    pub loader: BootLoader,
    pub dual_boot: bool,
    pub legacy_bios: bool,
    pub esp_mount: String,
}

/// The ESP mount point a plan gets when it names none.
pub fn default_esp() -> (r: String)
    ensures
        r@ == "/boot"@,
{
    String::from_str("/boot")
}

pub open spec fn spec_effective_loader(loader: BootLoader, dual_boot: bool, legacy_bios: bool) -> BootLoader {
    if loader == BootLoader::SystemdBoot && (dual_boot || legacy_bios) {
        BootLoader::Grub
    } else {
        loader
    }
}

impl BootConfig {
    /// systemd-boot handles neither, so it falls back to GRUB; explicit picks stand
    pub fn effective_loader(&self) -> (r: BootLoader)
        ensures
            r == spec_effective_loader(self.loader, self.dual_boot, self.legacy_bios),
    {
        match self.loader {
            BootLoader::SystemdBoot if self.dual_boot || self.legacy_bios => BootLoader::Grub,
            other => other,
        }
    }
}

#[derive(Debug, Clone, Copy, PartialEq, Eq, Structural)]
pub enum BootLoader {
    SystemdBoot,
    Grub,
    /// Only offered for btrfs installs since Limine lets you reap the benefits of btrfs
    Limine,
}

impl BootLoader {
    pub const ALL: [BootLoader; 3] = [BootLoader::SystemdBoot, BootLoader::Grub, BootLoader::Limine];
}

#[derive(Debug, Clone)]
pub struct HardwareConfig {
    pub arch: Arch,
    pub cpu: CpuVendor,
    pub gpu: Vec<Gpu>,
    pub firmware: FirmwareMode,
}

#[derive(Debug, Clone, Copy, PartialEq, Eq, Structural)]
pub enum Arch {
    X86_64Linux,
    Aarch64Linux,
}

impl Arch {
    pub fn is_x64(self) -> (r: bool)
        ensures
            r == (self == Arch::X86_64Linux),
    {
        self == Arch::X86_64Linux
    }
}

#[derive(Debug, Clone, Copy, PartialEq, Eq, Structural)]
pub enum CpuVendor {
    Intel,
    Amd,
    Other,
}

#[derive(Debug, Clone, Copy, PartialEq, Eq, Structural)]
pub enum Gpu {
    Amd,
    Intel,
    NvidiaProprietary,
    NvidiaOpen,
    Nouveau,
    Virtio,
}

#[derive(Debug, Clone, Copy, PartialEq, Eq, Structural)]
pub enum FirmwareMode {
    /// Redistributable blobs only
    Auto,
    /// Everything, including unfree blobs
    All,
    Off,
}

#[derive(Debug, Clone)]
pub struct NetworkConfig {
    pub hostname: String,
    pub backend: NetworkBackend,
    /// `networking.hostId`, 8 hex digits. Required by ZFS.
    pub host_id: Option<String>,
}

#[derive(Debug, Clone, Copy, PartialEq, Eq, Structural)]
pub enum NetworkBackend {
    NetworkManager,
    SystemdNetworkd,
    /// No network service (`none` in plan files)
    Disabled,
}

#[derive(Debug, Clone)]
pub enum KernelChoice {
    /// linuxPackages_latest
    Default,
    /// linuxPackages
    Lts,
    Zen,
    Xanmod,
    CachyOs {
        /// cachyos kernels have attributes that require extra configuration
        variant: CachyVariant,
        nixpkgs_policy: CachyNixpkgsPolicy,
        cache: CachyosCache,
    },
}

pub open spec fn spec_is_x64_only(k: KernelChoice) -> bool {
    !(k is Default || k is Lts)
}

impl KernelChoice {
    pub fn is_x64_only(&self) -> (r: bool)
        ensures
            r == spec_is_x64_only(*self),
    {
        !matches!(self, KernelChoice::Default | KernelChoice::Lts)
    }
}

#[derive(Debug, Clone, Copy, PartialEq, Eq, Structural)]
pub enum CachyVariant {
    Latest,
    Lts,
    Bore, // based on latest but uses BORE scheduler
}

pub open spec fn spec_attr_suffix(v: CachyVariant) -> Seq<char> {
    match v {
        CachyVariant::Latest => "latest"@,
        CachyVariant::Lts => "lts"@,
        CachyVariant::Bore => "bore"@,
    }
}

impl CachyVariant {
    /// Attribute suffix under pkgs.cachyosKernels.linuxPackages-cachyos-yaddayadda.
    pub fn attr_suffix(self) -> (r: &'static str)
        ensures
            r@ == spec_attr_suffix(self),
    {
        match self {
            CachyVariant::Latest => "latest",
            CachyVariant::Lts => "lts",
            CachyVariant::Bore => "bore",
        }
    }
}

/// Which of upstream's two overlays to use
#[derive(Debug, Clone, Copy, PartialEq, Eq, Structural)]
pub enum CachyNixpkgsPolicy {
    /// Upstream's nixpkgs revision, the cache hits, but nixpkgs.config misses the kernel
    Pinned,
    /// balsa nixpkgs: nixpkgs.config applies, but the kernel may be compiled
    SystemNixpkgs,
}

impl Default for CachyNixpkgsPolicy {
    fn default() -> (r: Self)
        ensures
            r == CachyNixpkgsPolicy::Pinned,
    {
        CachyNixpkgsPolicy::Pinned
    }
}

#[derive(Debug, Clone, PartialEq, Eq)]
pub struct CachyosCache {
    pub substituter: String,
    pub trusted_public_key: String,
}

impl Default for CachyosCache {
    fn default() -> (r: Self)
        ensures
            r.substituter@ == "https://xddxdd.cachix.org"@,
            r.trusted_public_key@ == "xddxdd.cachix.org-1:ay1HJyNDYmlSwj5NXQG065C8LfoqqKaTNCyzeixGjf8="@,
    {
        // From the xddxdd/nix-cachyos-kernel README and its flake nixConfig
        CachyosCache {
            substituter: String::from_str("https://xddxdd.cachix.org"),
            trusted_public_key: String::from_str(
                "xddxdd.cachix.org-1:ay1HJyNDYmlSwj5NXQG065C8LfoqqKaTNCyzeixGjf8=",
            ),
        }
    }
}

#[derive(Debug, Clone, Copy, PartialEq, Eq, Structural)]
pub enum DesktopChoice {
    Plasma,
    Gnome,
    Xfce,
    Cinnamon,
    Mate,
    Cosmic,
    Wayfire,
    Openbox,
    Budgie,
    Lxqt,
    Fluxbox,
    Enlightenment,
    Labwc,
    Pantheon,
    Niri,
    Mango,
    Hyprland,
    I3,
    Sway,
    Bspwm,
    Xmonad,
    Dwm,
}

pub open spec fn spec_is_tiling(d: DesktopChoice) -> bool {
    ||| d == DesktopChoice::Niri
    ||| d == DesktopChoice::Mango
    ||| d == DesktopChoice::Hyprland
    ||| d == DesktopChoice::I3
    ||| d == DesktopChoice::Sway
    ||| d == DesktopChoice::Bspwm
    ||| d == DesktopChoice::Xmonad
    ||| d == DesktopChoice::Dwm
}

pub open spec fn spec_needs_xserver(d: DesktopChoice) -> bool {
    ||| d == DesktopChoice::Xfce
    ||| d == DesktopChoice::Cinnamon
    ||| d == DesktopChoice::Mate
    ||| d == DesktopChoice::Openbox
    ||| d == DesktopChoice::Fluxbox
    ||| d == DesktopChoice::Enlightenment
    ||| d == DesktopChoice::Pantheon
    ||| d == DesktopChoice::I3
    ||| d == DesktopChoice::Bspwm
    ||| d == DesktopChoice::Xmonad
    ||| d == DesktopChoice::Dwm
    ||| d == DesktopChoice::Budgie
    ||| d == DesktopChoice::Lxqt
}

pub open spec fn spec_default_login_manager(d: DesktopChoice) -> LoginManager {
    if d == DesktopChoice::Plasma {
        LoginManager::Sddm
    } else if d == DesktopChoice::Gnome || d == DesktopChoice::Pantheon || d == DesktopChoice::Budgie {
        LoginManager::Gdm
    } else if d == DesktopChoice::Cosmic {
        LoginManager::CosmicGreeter
    } else if spec_is_tiling(d) {
        LoginManager::Regreet
    } else {
        LoginManager::Sddm
    }
}

impl DesktopChoice {
    /// every option as of right now
    pub const ALL: [DesktopChoice; 22] = [
        DesktopChoice::Plasma,
        DesktopChoice::Gnome,
        DesktopChoice::Xfce,
        DesktopChoice::Cinnamon,
        DesktopChoice::Mate,
        DesktopChoice::Cosmic,
        DesktopChoice::Wayfire,
        DesktopChoice::Openbox,
        DesktopChoice::Budgie,
        DesktopChoice::Lxqt,
        DesktopChoice::Fluxbox,
        DesktopChoice::Enlightenment,
        DesktopChoice::Labwc,
        DesktopChoice::Pantheon,
        DesktopChoice::Niri,
        DesktopChoice::Mango,
        DesktopChoice::Hyprland,
        DesktopChoice::I3,
        DesktopChoice::Sway,
        DesktopChoice::Bspwm,
        DesktopChoice::Xmonad,
        DesktopChoice::Dwm,
    ];

    pub fn is_tiling(self) -> (r: bool)
        ensures
            r == spec_is_tiling(self),
    {
        matches!(
            self,
            DesktopChoice::Niri | DesktopChoice::Mango | DesktopChoice::Hyprland | DesktopChoice::I3
                | DesktopChoice::Sway | DesktopChoice::Bspwm | DesktopChoice::Xmonad
                | DesktopChoice::Dwm
        )
    }

    /// True when the pick runs on X11 and needs services.xserver.enable.
    pub fn needs_xserver(self) -> (r: bool)
        ensures
            r == spec_needs_xserver(self),
    {
        matches!(
            self,
            DesktopChoice::Xfce | DesktopChoice::Cinnamon | DesktopChoice::Mate
                | DesktopChoice::Openbox | DesktopChoice::Fluxbox | DesktopChoice::Enlightenment
                | DesktopChoice::Pantheon | DesktopChoice::I3 | DesktopChoice::Bspwm
                | DesktopChoice::Xmonad | DesktopChoice::Dwm | DesktopChoice::Budgie
                | DesktopChoice::Lxqt
        )
    }

    pub fn default_login_manager(self) -> (r: LoginManager)
        ensures
            r == spec_default_login_manager(self),
    {
        match self {
            DesktopChoice::Plasma => LoginManager::Sddm,
            DesktopChoice::Gnome | DesktopChoice::Pantheon | DesktopChoice::Budgie => LoginManager::Gdm,
            DesktopChoice::Cosmic => LoginManager::CosmicGreeter,
            other if other.is_tiling() => LoginManager::Regreet,
            _ => LoginManager::Sddm,
        }
    }
}

#[derive(Debug, Clone, Copy, PartialEq, Eq, Structural)]
pub enum LoginManager {
    Sddm,
    Gdm,
    PlasmaLoginManager,
    Greetd,
    Ly,
    Regreet,
    Lemurs,
    CosmicGreeter,
}

#[derive(Debug, Clone)]
pub struct AccountsConfig {
    pub primary: UserAccount,
    pub root_enabled: bool,
    /// Required when root enabled.
    pub root_hashed_password: Option<String>,
}

#[derive(Debug, Clone)]
pub struct UserAccount {
    pub username: String,
    pub full_name: String,
    /// Output of mkpasswd -m yescrypt, written to hashedPassword.
    pub hashed_password: String,
}

#[derive(Debug, Clone, Copy, PartialEq, Eq, Structural)]
pub enum TuningProfile {
    Standard,
    Laptop,
    Gaming,
    Development,
    Creative,
    Lightweight,
}

pub open spec fn spec_login_manager(p: BalsaInstallPlan) -> LoginManager {
    match p.login_manager {
        Some(lm) => lm,
        None => spec_default_login_manager(p.desktop),
    }
}

impl BalsaInstallPlan {
    pub fn login_manager(&self) -> (r: LoginManager)
        ensures
            r == spec_login_manager(*self),
    {
        match self.login_manager {
            Some(lm) => lm,
            None => self.desktop.default_login_manager(),
        }
    }
}

// ---------------------------------------------------------------------------
// What `{:?}` prints for the plan's values; validation messages quote them.

pub open spec fn arch_debug(a: Arch) -> Seq<char> {
    match a {
        Arch::X86_64Linux => "X86_64Linux"@,
        Arch::Aarch64Linux => "Aarch64Linux"@,
    }
}

pub open spec fn filesystem_debug(f: Filesystem) -> Seq<char> {
    match f {
        Filesystem::Btrfs => "Btrfs"@,
        Filesystem::Ext4 => "Ext4"@,
        Filesystem::Xfs => "Xfs"@,
        Filesystem::Zfs => "Zfs"@,
    }
}

pub open spec fn variant_debug(v: CachyVariant) -> Seq<char> {
    match v {
        CachyVariant::Latest => "Latest"@,
        CachyVariant::Lts => "Lts"@,
        CachyVariant::Bore => "Bore"@,
    }
}

pub open spec fn policy_debug(p: CachyNixpkgsPolicy) -> Seq<char> {
    match p {
        CachyNixpkgsPolicy::Pinned => "Pinned"@,
        CachyNixpkgsPolicy::SystemNixpkgs => "SystemNixpkgs"@,
    }
}

pub open spec fn kernel_debug(k: KernelChoice) -> Seq<char> {
    match k {
        KernelChoice::Default => "Default"@,
        KernelChoice::Lts => "Lts"@,
        KernelChoice::Zen => "Zen"@,
        KernelChoice::Xanmod => "Xanmod"@,
        KernelChoice::CachyOs { variant, nixpkgs_policy, cache } =>
            "CachyOs { variant: "@ + variant_debug(variant) + ", nixpkgs_policy: "@
                + policy_debug(nixpkgs_policy) + ", cache: CachyosCache { substituter: "@
                + quoted(cache.substituter@) + ", trusted_public_key: "@
                + quoted(cache.trusted_public_key@) + " } }"@,
    }
}

impl Arch {
    /// The text `{:?}` prints for this value.
    pub fn debug_text(self) -> (r: &'static str)
        ensures
            r@ == arch_debug(self),
    {
        match self {
            Arch::X86_64Linux => "X86_64Linux",
            Arch::Aarch64Linux => "Aarch64Linux",
        }
    }
}

impl Filesystem {
    /// The text `{:?}` prints for this value.
    pub fn debug_text(self) -> (r: &'static str)
        ensures
            r@ == filesystem_debug(self),
    {
        match self {
            Filesystem::Btrfs => "Btrfs",
            Filesystem::Ext4 => "Ext4",
            Filesystem::Xfs => "Xfs",
            Filesystem::Zfs => "Zfs",
        }
    }
}

impl KernelChoice {
    /// The text `{:?}` prints for this value.
    pub fn debug_text(&self) -> (r: String)
        ensures
            r@ == kernel_debug(*self),
    {
        match self {
            KernelChoice::Default => String::from_str("Default"),
            KernelChoice::Lts => String::from_str("Lts"),
            KernelChoice::Zen => String::from_str("Zen"),
            KernelChoice::Xanmod => String::from_str("Xanmod"),
            KernelChoice::CachyOs { variant, nixpkgs_policy, cache } => {
                let mut r = String::from_str("CachyOs { variant: ");
                r.append(match variant {
                    CachyVariant::Latest => "Latest",
                    CachyVariant::Lts => "Lts",
                    CachyVariant::Bore => "Bore",
                });
                r.append(", nixpkgs_policy: ");
                r.append(match nixpkgs_policy {
                    CachyNixpkgsPolicy::Pinned => "Pinned",
                    CachyNixpkgsPolicy::SystemNixpkgs => "SystemNixpkgs",
                });
                r.append(", cache: CachyosCache { substituter: ");
                r.append(debug_quote(cache.substituter.as_str()).as_str());
                r.append(", trusted_public_key: ");
                r.append(debug_quote(cache.trusted_public_key.as_str()).as_str());
                r.append(" } }");
                r
            },
        }
    }
}

// ---------------------------------------------------------------------------
// Validation

/// `[m]` when `b` holds, else nothing.
pub open spec fn msg_if(b: bool, m: Seq<char>) -> Seq<Seq<char>> {
    if b {
        seq![m]
    } else {
        Seq::empty()
    }
}

pub open spec fn spec_swap_is_file(s: SwapMode) -> bool {
    s is File
}

pub open spec fn spec_swap_size_zero(s: SwapMode) -> bool {
    match s {
        SwapMode::Partition { size_gib } => size_gib == 0,
        SwapMode::File { size_gib } => size_gib == 0,
        _ => false,
    }
}

pub open spec fn manual_devices_blank(scheme: PartitionScheme) -> bool {
    match scheme {
        PartitionScheme::Manual { devices } => is_blank(devices@),
        PartitionScheme::Guided => false,
    }
}

pub open spec fn luks_name_ok(n: Seq<char>) -> bool {
    n.len() > 0 && all_in_class(CharClass::MapperName, n)
}

pub open spec fn luks_name_bad(enc: Option<EncryptionConfig>) -> bool {
    match enc {
        Some(e) => !luks_name_ok(e.luks_name@),
        None => false,
    }
}

pub open spec fn luks_name_of(enc: Option<EncryptionConfig>) -> Seq<char> {
    match enc {
        Some(e) => e.luks_name@,
        None => Seq::empty(),
    }
}

pub open spec fn is_absolute(p: Seq<char>) -> bool {
    p.len() > 0 && p[0] == '/'
}

/// The problems `DiskoConfig::validate` reports, in order.
pub open spec fn disk_errors(d: DiskoConfig) -> Seq<Seq<char>> {
    msg_if(manual_devices_blank(d.scheme), "manual partitioning selected with an empty devices block"@)
        + msg_if(luks_name_bad(d.encryption), "invalid luks_name "@ + quoted(luks_name_of(d.encryption)))
        + msg_if(d.filesystem == Filesystem::Zfs && spec_swap_is_file(d.swap),
            "ZFS cannot host a swap file; use partition or zram swap"@)
        + msg_if(spec_swap_size_zero(d.swap), "swap size_gib must be at least 1"@)
        + msg_if(!is_absolute(d.disk@), "disk "@ + quoted(d.disk@) + " is not an absolute path"@)
}

pub open spec fn hostname_ok(h: Seq<char>) -> bool {
    h.len() > 0 && all_in_class(CharClass::Hostname, h)
}

pub open spec fn username_ok(u: Seq<char>) -> bool {
    u.len() > 0 && all_in_class(CharClass::Username, u)
}

pub open spec fn host_id_ok(id: Seq<char>) -> bool {
    id.len() == 8 && all_in_class(CharClass::HexDigit, id)
}

/// The host-id problem `BalsaInstallPlan::validate` reports, if any.
pub open spec fn host_id_errors(host_id: Option<String>, fs: Filesystem) -> Seq<Seq<char>> {
    match host_id {
        Some(id) => msg_if(!host_id_ok(id@), "host_id "@ + quoted(id@) + " must be exactly 8 hex digits"@),
        None => msg_if(fs == Filesystem::Zfs, "ZFS needs network.host_id (networking.hostId)"@),
    }
}

/// The problems `BalsaInstallPlan::validate` reports, in order.
pub open spec fn plan_errors(p: BalsaInstallPlan) -> Seq<Seq<char>> {
    msg_if(spec_is_x64_only(p.kernel) && p.hardware.arch != Arch::X86_64Linux,
        "kernel "@ + kernel_debug(p.kernel) + " is x86_64-only but arch is "@ + arch_debug(p.hardware.arch))
        + msg_if(!hostname_ok(p.network.hostname@), "invalid hostname "@ + quoted(p.network.hostname@))
        + msg_if(!username_ok(p.accounts.primary.username@),
            "invalid username "@ + quoted(p.accounts.primary.username@))
        + msg_if(p.accounts.primary.hashed_password@.len() == 0,
            "primary account has an empty hashed_password"@)
        + msg_if(p.accounts.root_enabled && p.accounts.root_hashed_password is None,
            "root_enabled is set but root_hashed_password is missing"@)
        + msg_if(spec_effective_loader(p.boot.loader, p.boot.dual_boot, p.boot.legacy_bios) == BootLoader::Limine
            && p.disk.filesystem != Filesystem::Btrfs,
            "Limine is only offered for btrfs installs, not "@ + filesystem_debug(p.disk.filesystem))
        + host_id_errors(p.network.host_id, p.disk.filesystem)
        + disk_errors(p.disk)
}

/// Appends `m` to `errs`, keeping the views in step.
fn push_msg(errs: &mut Vec<String>, m: String)
    ensures
        views(final(errs)@) == views(old(errs)@).push(m@),
{
    let ghost before = errs@;
    errs.push(m);
    assert(views(errs@) =~= views(before).push(m@));
}

/// `Ok` when `errs` is empty, else `Err(errs)`.
fn into_result(errs: Vec<String>) -> (r: Result<(), Vec<String>>)
    ensures
        r is Ok <==> errs@.len() == 0,
        r matches Err(e) ==> e@ == errs@,
{
    if errs.len() == 0 { Ok(()) } else { Err(errs) }
}

impl DiskoConfig {
    pub fn validate(&self) -> (r: Result<(), Vec<String>>)
        ensures
            r is Ok <==> disk_errors(*self).len() == 0,
            r matches Err(e) ==> views(e@) == disk_errors(*self),
    {
        let mut errs: Vec<String> = Vec::new();
        let ghost d = *self;
        assert(views(errs@) =~= Seq::<Seq<char>>::empty());

        let ghost e0 = views(errs@);
        if let PartitionScheme::Manual { devices } = &self.scheme {
            if is_blank_str(devices.as_str()) {
                push_msg(&mut errs, String::from_str("manual partitioning selected with an empty devices block"));
            }
        }
        assert(views(errs@) =~= e0 + msg_if(manual_devices_blank(d.scheme), "manual partitioning selected with an empty devices block"@));

        let ghost e1 = views(errs@);
        if let Some(enc) = &self.encryption {
            if !(!enc.luks_name.as_str().is_empty() && chars_in_class(CharClass::MapperName, enc.luks_name.as_str())) {
                let mut m = String::from_str("invalid luks_name ");
                m.append(debug_quote(enc.luks_name.as_str()).as_str());
                push_msg(&mut errs, m);
            }
        }
        assert(views(errs@) =~= e1 + msg_if(luks_name_bad(d.encryption), "invalid luks_name "@ + quoted(luks_name_of(d.encryption))));

        let ghost e2 = views(errs@);
        if self.filesystem == Filesystem::Zfs && matches!(self.swap, SwapMode::File { .. }) {
            push_msg(&mut errs, String::from_str("ZFS cannot host a swap file; use partition or zram swap"));
        }
        assert(views(errs@) =~= e2 + msg_if(d.filesystem == Filesystem::Zfs && spec_swap_is_file(d.swap),
            "ZFS cannot host a swap file; use partition or zram swap"@));

        let ghost e3 = views(errs@);
        if let SwapMode::Partition { size_gib: 0 } | SwapMode::File { size_gib: 0 } = self.swap {
            push_msg(&mut errs, String::from_str("swap size_gib must be at least 1"));
        }
        assert(views(errs@) =~= e3 + msg_if(spec_swap_size_zero(d.swap), "swap size_gib must be at least 1"@));

        let ghost e4 = views(errs@);
        if !starts_with_char(self.disk.as_str(), '/') {
            let mut m = String::from_str("disk ");
            m.append(debug_quote(self.disk.as_str()).as_str());
            m.append(" is not an absolute path");
            push_msg(&mut errs, m);
        }
        assert(views(errs@) =~= e4 + msg_if(!is_absolute(d.disk@), "disk "@ + quoted(d.disk@) + " is not an absolute path"@));
        assert(views(errs@) =~= disk_errors(d));
        into_result(errs)
    }
}

impl BalsaInstallPlan {
    fn check_kernel_arch(&self, errs: &mut Vec<String>)
        ensures
            views(final(errs)@) == views(old(errs)@) + msg_if(
                spec_is_x64_only(self.kernel) && self.hardware.arch != Arch::X86_64Linux,
                "kernel "@ + kernel_debug(self.kernel) + " is x86_64-only but arch is "@ + arch_debug(self.hardware.arch),
            ),
    {
        let ghost before = views(errs@);
        if self.kernel.is_x64_only() && !self.hardware.arch.is_x64() {
            let mut m = String::from_str("kernel ");
            m.append(self.kernel.debug_text().as_str());
            m.append(" is x86_64-only but arch is ");
            m.append(self.hardware.arch.debug_text());
            push_msg(errs, m);
        }
        assert(views(errs@) =~= before + msg_if(
            spec_is_x64_only(self.kernel) && self.hardware.arch != Arch::X86_64Linux,
            "kernel "@ + kernel_debug(self.kernel) + " is x86_64-only but arch is "@ + arch_debug(self.hardware.arch),
        ));
    }

    fn check_names(&self, errs: &mut Vec<String>)
        ensures
            views(final(errs)@) == views(old(errs)@)
                + msg_if(!hostname_ok(self.network.hostname@), "invalid hostname "@ + quoted(self.network.hostname@))
                + msg_if(!username_ok(self.accounts.primary.username@),
                    "invalid username "@ + quoted(self.accounts.primary.username@)),
    {
        let ghost e0 = views(errs@);
        let hostname = self.network.hostname.as_str();
        if hostname.is_empty() || !chars_in_class(CharClass::Hostname, hostname) {
            let mut m = String::from_str("invalid hostname ");
            m.append(debug_quote(hostname).as_str());
            push_msg(errs, m);
        }
        let ghost e1 = views(errs@);
        assert(e1 =~= e0 + msg_if(!hostname_ok(self.network.hostname@), "invalid hostname "@ + quoted(self.network.hostname@)));
        let username = self.accounts.primary.username.as_str();
        if username.is_empty() || !chars_in_class(CharClass::Username, username) {
            let mut m = String::from_str("invalid username ");
            m.append(debug_quote(username).as_str());
            push_msg(errs, m);
        }
        assert(views(errs@) =~= e1 + msg_if(!username_ok(self.accounts.primary.username@),
            "invalid username "@ + quoted(self.accounts.primary.username@)));
    }

    fn check_accounts(&self, errs: &mut Vec<String>)
        ensures
            views(final(errs)@) == views(old(errs)@)
                + msg_if(self.accounts.primary.hashed_password@.len() == 0,
                    "primary account has an empty hashed_password"@)
                + msg_if(self.accounts.root_enabled && self.accounts.root_hashed_password is None,
                    "root_enabled is set but root_hashed_password is missing"@),
    {
        let ghost e0 = views(errs@);
        if self.accounts.primary.hashed_password.as_str().is_empty() {
            push_msg(errs, String::from_str("primary account has an empty hashed_password"));
        }
        let ghost e1 = views(errs@);
        assert(e1 =~= e0 + msg_if(self.accounts.primary.hashed_password@.len() == 0,
            "primary account has an empty hashed_password"@));
        if self.accounts.root_enabled && self.accounts.root_hashed_password.is_none() {
            push_msg(errs, String::from_str("root_enabled is set but root_hashed_password is missing"));
        }
        assert(views(errs@) =~= e1 + msg_if(self.accounts.root_enabled && self.accounts.root_hashed_password is None,
            "root_enabled is set but root_hashed_password is missing"@));
    }

    fn check_loader(&self, errs: &mut Vec<String>)
        ensures
            views(final(errs)@) == views(old(errs)@) + msg_if(
                spec_effective_loader(self.boot.loader, self.boot.dual_boot, self.boot.legacy_bios) == BootLoader::Limine
                    && self.disk.filesystem != Filesystem::Btrfs,
                "Limine is only offered for btrfs installs, not "@ + filesystem_debug(self.disk.filesystem),
            ),
    {
        let ghost e0 = views(errs@);
        if self.boot.effective_loader() == BootLoader::Limine && self.disk.filesystem != Filesystem::Btrfs {
            let mut m = String::from_str("Limine is only offered for btrfs installs, not ");
            m.append(self.disk.filesystem.debug_text());
            push_msg(errs, m);
        }
        assert(views(errs@) =~= e0 + msg_if(
            spec_effective_loader(self.boot.loader, self.boot.dual_boot, self.boot.legacy_bios) == BootLoader::Limine
                && self.disk.filesystem != Filesystem::Btrfs,
            "Limine is only offered for btrfs installs, not "@ + filesystem_debug(self.disk.filesystem),
        ));
    }

    fn check_host_id(&self, errs: &mut Vec<String>)
        ensures
            views(final(errs)@) == views(old(errs)@) + host_id_errors(self.network.host_id, self.disk.filesystem),
    {
        let ghost e0 = views(errs@);
        match &self.network.host_id {
            Some(id) => {
                if !(has_char_count(id.as_str(), 8) && chars_in_class(CharClass::HexDigit, id.as_str())) {
                    let mut m = String::from_str("host_id ");
                    m.append(debug_quote(id.as_str()).as_str());
                    m.append(" must be exactly 8 hex digits");
                    push_msg(errs, m);
                }
            },
            None => {
                if self.disk.filesystem == Filesystem::Zfs {
                    push_msg(errs, String::from_str("ZFS needs network.host_id (networking.hostId)"));
                }
            },
        }
        assert(views(errs@) =~= e0 + host_id_errors(self.network.host_id, self.disk.filesystem));
    }

    /// Catches Nix that would evaluate but be wrong, plus what the scaffold forbids
    pub fn validate(&self) -> (r: Result<(), Vec<String>>)
        ensures
            r is Ok <==> plan_errors(*self).len() == 0,
            r matches Err(e) ==> views(e@) == plan_errors(*self),
    {
        let mut errs: Vec<String> = Vec::new();
        assert(views(errs@) =~= Seq::<Seq<char>>::empty());
        self.check_kernel_arch(&mut errs);
        self.check_names(&mut errs);
        self.check_accounts(&mut errs);
        self.check_loader(&mut errs);
        self.check_host_id(&mut errs);
        let ghost e7 = views(errs@);
        if let Err(disk_errs) = self.disk.validate() {
            let ghost before = errs@;
            let mut disk_errs = disk_errs;
            errs.append(&mut disk_errs);
            assert(views(errs@) =~= views(before) + disk_errors(self.disk));
        }
        assert(views(errs@) =~= e7 + disk_errors(self.disk));
        assert(views(errs@) =~= plan_errors(*self));
        into_result(errs)
    }
}

} // verus!
