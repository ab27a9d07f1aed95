//! Properties of the library that span its functions.
use vstd::prelude::*;
use crate::generate::cachyos::{cachyos_warnings, compile_warning, install_env_warning};
use crate::generate::{manual_scheme_warning, plan_warnings, zfs_warning, RenderRequest, engine_for};
use crate::disko::{disko_rendered, disko_request};
use crate::text::{contains_text, lemma_contains_piece};
use crate::plan::DiskoConfig;
use tera::Tera;
use crate::cli::{SwapArg, swap_args_error, swap_from_args};
use crate::generate::{SystemValues, spec_has_nvidia, values_for};
use crate::text::{CharClass, in_class};
use crate::plan::{FirmwareMode, Gpu, SwapMode, luks_name_ok, spec_needs_xserver, KernelChoice, PartitionScheme, hostname_ok, username_ok};
use crate::text::is_whitespace;
use crate::generate::cachyos::{CachyosSpec, spec_matches};
use crate::plan::CachyosCache;
use crate::plan::{
    BalsaInstallPlan, BootLoader, CachyNixpkgsPolicy, CachyVariant, DesktopChoice, Filesystem,
    LoginManager, host_id_ok, disk_errors, plan_errors, spec_attr_suffix,
    spec_default_login_manager, spec_effective_loader, spec_is_tiling, spec_is_x64_only, spec_login_manager,
};

verus! {

/// A plan that passes validation has a disk layout that passes validation, and so never puts a
/// swap file on ZFS.
pub proof fn lemma_valid_plan_has_valid_disk(p: BalsaInstallPlan)
    requires
        plan_errors(p).len() == 0,
    ensures
        disk_errors(p.disk).len() == 0,
        !(p.disk.filesystem == Filesystem::Zfs && p.disk.swap is File),
{
}

/// Plan validation reports every problem of the disk layout, after the plan's own.
pub proof fn law_plan_errors_end_with_disk_errors(p: BalsaInstallPlan)
    ensures
        plan_errors(p).len() >= disk_errors(p.disk).len(),
        plan_errors(p).subrange(plan_errors(p).len() - disk_errors(p.disk).len(), plan_errors(p).len() as int)
            == disk_errors(p.disk),
{
    let pe = plan_errors(p);
    let de = disk_errors(p.disk);
    assert(pe.subrange(pe.len() - de.len(), pe.len() as int) =~= de);
}

/// A valid plan boots with Limine only from btrfs.
pub proof fn law_valid_plan_limine_only_on_btrfs(p: BalsaInstallPlan)
    requires
        plan_errors(p).len() == 0,
        spec_effective_loader(p.boot.loader, p.boot.dual_boot, p.boot.legacy_bios) == BootLoader::Limine,
    ensures
        p.disk.filesystem == Filesystem::Btrfs,
{
}

/// A valid ZFS plan carries a host id of exactly 8 hex digits.
pub proof fn law_valid_zfs_plan_has_host_id(p: BalsaInstallPlan)
    requires
        plan_errors(p).len() == 0,
        p.disk.filesystem == Filesystem::Zfs,
    ensures
        p.network.host_id matches Some(id) && host_id_ok(id@),
{
}

/// A valid plan picks an x86_64-only kernel only for x86_64.
pub proof fn law_valid_plan_kernel_fits_arch(p: BalsaInstallPlan)
    requires
        plan_errors(p).len() == 0,
        spec_is_x64_only(p.kernel),
    ensures
        p.hardware.arch == crate::plan::Arch::X86_64Linux,
{
}

/// Dual boot and legacy BIOS never boot with systemd-boot: it falls back to GRUB there, and
/// every other pick stands.
pub proof fn law_effective_loader(loader: BootLoader, dual_boot: bool, legacy_bios: bool)
    ensures
        (dual_boot || legacy_bios) && loader == BootLoader::SystemdBoot ==> spec_effective_loader(
            loader,
            dual_boot,
            legacy_bios,
        ) == BootLoader::Grub,
        !(loader == BootLoader::SystemdBoot && (dual_boot || legacy_bios)) ==> spec_effective_loader(
            loader,
            dual_boot,
            legacy_bios,
        ) == loader,
        spec_effective_loader(loader, dual_boot, legacy_bios) == BootLoader::SystemdBoot ==> !dual_boot
            && !legacy_bios,
{
}

/// An explicit login manager stands; otherwise the desktop's default applies, and every tiling
/// desktop defaults to ReGreet.
pub proof fn law_login_manager(p: BalsaInstallPlan, d: DesktopChoice)
    ensures
        p.login_manager matches Some(lm) ==> spec_login_manager(p) == lm,
        p.login_manager is None ==> spec_login_manager(p) == spec_default_login_manager(p.desktop),
        spec_is_tiling(d) ==> spec_default_login_manager(d) == LoginManager::Regreet,
{
}

/// Every CachyOS pick warns about the install environment; it warns about compiling the
/// kernel exactly when it uses the system nixpkgs.
pub proof fn law_cachyos_warnings(variant: CachyVariant, policy: CachyNixpkgsPolicy, substituter: Seq<char>)
    ensures
        cachyos_warnings(variant, policy, substituter)[0] == install_env_warning(variant, substituter),
        cachyos_warnings(variant, policy, substituter).len() == if policy == CachyNixpkgsPolicy::SystemNixpkgs {
            2int
        } else {
            1int
        },
        policy == CachyNixpkgsPolicy::SystemNixpkgs ==> cachyos_warnings(variant, policy, substituter)[1]
            == compile_warning(variant, substituter),
{
}

/// Generation warns exactly for a CachyOS kernel, a manual disko block or a ZFS pool.
pub proof fn law_warnings_only_for_cachyos_manual_or_zfs(p: BalsaInstallPlan)
    ensures
        plan_warnings(p).len() > 0 <==> (p.kernel is CachyOs || p.disk.scheme is Manual || p.disk.filesystem
            == Filesystem::Zfs),
        p.disk.scheme is Manual ==> plan_warnings(p).contains(manual_scheme_warning()),
        p.disk.filesystem == Filesystem::Zfs ==> plan_warnings(p).contains(zfs_warning()),
{
    let w = plan_warnings(p);
    if p.disk.filesystem == Filesystem::Zfs {
        assert(w[w.len() - 1] == zfs_warning());
    }
    if p.disk.scheme is Manual {
        let k = w.len() - 1 - if p.disk.filesystem == Filesystem::Zfs { 1int } else { 0int };
        assert(w[k] == manual_scheme_warning());
    }
}

/// Each CachyOS variant names a different kernel package.
pub proof fn law_cachyos_suffixes_distinct(a: CachyVariant, b: CachyVariant)
    requires
        a != b,
    ensures
        spec_attr_suffix(a) != spec_attr_suffix(b),
{
    reveal_strlit("latest");
    reveal_strlit("lts");
    reveal_strlit("bore");
    if spec_attr_suffix(a).len() == spec_attr_suffix(b).len() {
        assert(spec_attr_suffix(a)[1] != spec_attr_suffix(b)[1]);
    }
}

/// Each CachyOS warning names the kernel variant and the substituter; the first is about the
/// environment running the install, the second about the `default` overlay building from source.
pub proof fn law_cachyos_warning_texts(variant: CachyVariant, policy: CachyNixpkgsPolicy, substituter: Seq<char>)
    ensures
        forall|i: int| 0 <= i < cachyos_warnings(variant, policy, substituter).len() ==> contains_text(
            #[trigger] cachyos_warnings(variant, policy, substituter)[i],
            spec_attr_suffix(variant),
        ) && contains_text(cachyos_warnings(variant, policy, substituter)[i], substituter),
        contains_text(cachyos_warnings(variant, policy, substituter)[0], "running the install"@),
        policy == CachyNixpkgsPolicy::SystemNixpkgs ==> contains_text(
            cachyos_warnings(variant, policy, substituter)[1],
            "`default` overlay"@,
        ) && contains_text(cachyos_warnings(variant, policy, substituter)[1], "builds from source"@),
{
    let sfx = spec_attr_suffix(variant);
    let w0 = install_env_warning(variant, substituter);
    let p0 = "CachyOS kernel ("@;
    let p1 = ") needs "@;
    let p2 = " configured in the environment "@;
    let p3 = "running the install"@;
    let p4 = ", not only in the generated system, or the install itself compiles the kernel."@;
    assert(w0 =~= p0 + sfx + (p1 + substituter + p2 + p3 + p4));
    lemma_contains_piece(p0, sfx, p1 + substituter + p2 + p3 + p4);
    assert(w0 =~= (p0 + sfx + p1) + substituter + (p2 + p3 + p4));
    lemma_contains_piece(p0 + sfx + p1, substituter, p2 + p3 + p4);
    assert(w0 =~= (p0 + sfx + p1 + substituter + p2) + p3 + p4);
    lemma_contains_piece(p0 + sfx + p1 + substituter + p2, p3, p4);
    if policy == CachyNixpkgsPolicy::SystemNixpkgs {
        let w1 = compile_warning(variant, substituter);
        let q1 = ") uses the "@;
        let q2 = "`default` overlay"@;
        let q3 = ", so it is built against the system nixpkgs rather than the revision "@;
        let q4 = " was built with. The kernel "@;
        let q5 = "builds from source"@;
        let q6 = " - expect a long first build."@;
        assert(w1 =~= p0 + sfx + (q1 + q2 + q3 + substituter + q4 + q5 + q6));
        lemma_contains_piece(p0, sfx, q1 + q2 + q3 + substituter + q4 + q5 + q6);
        assert(w1 =~= (p0 + sfx + q1) + q2 + (q3 + substituter + q4 + q5 + q6));
        lemma_contains_piece(p0 + sfx + q1, q2, q3 + substituter + q4 + q5 + q6);
        assert(w1 =~= (p0 + sfx + q1 + q2 + q3) + substituter + (q4 + q5 + q6));
        lemma_contains_piece(p0 + sfx + q1 + q2 + q3, substituter, q4 + q5 + q6);
        assert(w1 =~= (p0 + sfx + q1 + q2 + q3 + substituter + q4) + q5 + q6);
        lemma_contains_piece(p0 + sfx + q1 + q2 + q3 + substituter + q4, q5, q6);
    }
    assert forall|i: int| 0 <= i < cachyos_warnings(variant, policy, substituter).len() implies contains_text(
        #[trigger] cachyos_warnings(variant, policy, substituter)[i],
        sfx,
    ) && contains_text(cachyos_warnings(variant, policy, substituter)[i], substituter) by {
        if i == 1 {
            assert(cachyos_warnings(variant, policy, substituter)[1] == compile_warning(variant, substituter));
        }
    }
}

/// `render` answers a disko request from the engine's templates and the request's inputs alone.
pub open spec fn disko_render_deterministic<F: Fn(&Tera, &RenderRequest) -> Result<String, String>>(
    render: F,
    templates: Seq<(String, String)>,
    disk: DiskoConfig,
    legacy_bios: bool,
    esp_mount: Seq<char>,
) -> bool {
    forall|t1: Tera, t2: Tera, r1: RenderRequest, r2: RenderRequest, b1: String, b2: String|
        engine_for(t1, templates) && engine_for(t2, templates) && disko_request(r1, disk, legacy_bios, esp_mount)
            && disko_request(r2, disk, legacy_bios, esp_mount) && #[trigger] render.ensures((&t1, &r1), Ok(b1))
            && #[trigger] render.ensures((&t2, &r2), Ok(b2)) ==> b1@ == b2@
}

/// The disko-config.nix that `generate` writes and the one `generate_disko_config` returns for
/// the plan's disk, `legacy_bios` and `esp_mount` are the same, as long as `render` answers a
/// request from the engine's templates and the request alone.
pub proof fn law_generated_disko_matches_standalone<F: Fn(&Tera, &RenderRequest) -> Result<String, String>>(
    render: F,
    templates: Seq<(String, String)>,
    disk: DiskoConfig,
    legacy_bios: bool,
    esp_mount: Seq<char>,
    in_generate: Seq<char>,
    standalone: Seq<char>,
)
    requires
        disko_render_deterministic(render, templates, disk, legacy_bios, esp_mount),
        disko_rendered(render, templates, disk, legacy_bios, esp_mount, in_generate),
        disko_rendered(render, templates, disk, legacy_bios, esp_mount, standalone),
    ensures
        in_generate == standalone,
{
    let (t1, r1, b1) = choose|t: Tera, req: RenderRequest, b: String|
        engine_for(t, templates) && disko_request(req, disk, legacy_bios, esp_mount)
            && #[trigger] render.ensures((&t, &req), Ok(b)) && in_generate == crate::generate::tidied(b@);
    let (t2, r2, b2) = choose|t: Tera, req: RenderRequest, b: String|
        engine_for(t, templates) && disko_request(req, disk, legacy_bios, esp_mount)
            && #[trigger] render.ensures((&t, &req), Ok(b)) && standalone == crate::generate::tidied(b@);
    assert(b1@ == b2@);
}


/// The plan has an NVIDIA GPU exactly when its GPU list names the proprietary or the open
/// NVIDIA driver.
pub proof fn law_has_nvidia(gpus: Seq<Gpu>)
    ensures
        spec_has_nvidia(gpus) <==> (gpus.contains(Gpu::NvidiaProprietary) || gpus.contains(Gpu::NvidiaOpen)),
        gpus.contains(Gpu::NvidiaProprietary) ==> spec_has_nvidia(gpus),
        gpus.contains(Gpu::NvidiaOpen) ==> spec_has_nvidia(gpus),
{
    if spec_has_nvidia(gpus) {
        let i = choose|i: int| 0 <= i < gpus.len() && (#[trigger] gpus[i] == Gpu::NvidiaProprietary
            || gpus[i] == Gpu::NvidiaOpen);
        assert(gpus.contains(gpus[i]));
    }
    if gpus.contains(Gpu::NvidiaProprietary) {
        let i = choose|i: int| 0 <= i < gpus.len() && gpus[i] == Gpu::NvidiaProprietary;
        assert(gpus[i] == Gpu::NvidiaProprietary);
    }
    if gpus.contains(Gpu::NvidiaOpen) {
        let i = choose|i: int| 0 <= i < gpus.len() && gpus[i] == Gpu::NvidiaOpen;
        assert(gpus[i] == Gpu::NvidiaOpen);
    }
}

/// The values a plan is rendered with: an NVIDIA GPU (proprietary or open driver) is flagged,
/// unfree packages are allowed for it or for all-firmware installs and only then, the open
/// driver is flagged on its own, and a swap file of `n` GiB is `n * 1024` MiB at
/// `/swap/swapfile` on btrfs and `/swapfile` elsewhere.
pub proof fn law_system_values(v: SystemValues, p: BalsaInstallPlan)
    requires
        values_for(v, p),
    ensures
        v.has_nvidia <==> (p.hardware.gpu@.contains(Gpu::NvidiaProprietary) || p.hardware.gpu@.contains(
            Gpu::NvidiaOpen,
        )),
        v.allow_unfree <==> (p.hardware.gpu@.contains(Gpu::NvidiaProprietary) || p.hardware.gpu@.contains(
            Gpu::NvidiaOpen,
        ) || p.hardware.firmware == FirmwareMode::All),
        v.nvidia_open <==> p.hardware.gpu@.contains(Gpu::NvidiaOpen),
        v.swapfile is Some <==> p.disk.swap is File,
        p.disk.swap matches SwapMode::File { size_gib } ==> v.swapfile matches Some(f) && f.mib == size_gib
            * 1024 && (p.disk.filesystem == Filesystem::Btrfs ==> f.path@ == "/swap/swapfile"@) && (
        p.disk.filesystem != Filesystem::Btrfs ==> f.path@ == "/swapfile"@),
        v.login == (match p.login_manager {
            Some(lm) => lm,
            None => spec_default_login_manager(p.desktop),
        }),
{
    law_has_nvidia(p.hardware.gpu@);
}

/// The characters each name check admits: host names take ASCII letters, digits and `-`;
/// user names lower-case ASCII letters, digits, `_` and `-`; LUKS mapper names ASCII letters,
/// digits, `-` and `_`; host ids the hex digits `0-9`, `a-f` and `A-F`.
pub proof fn law_char_classes(c: char)
    ensures
        in_class(CharClass::Hostname, c) <==> (('a' <= c && c <= 'z') || ('A' <= c && c <= 'Z') || ('0' <= c
            && c <= '9') || c == '-'),
        in_class(CharClass::Username, c) <==> (('a' <= c && c <= 'z') || ('0' <= c && c <= '9') || c == '_'
            || c == '-'),
        in_class(CharClass::MapperName, c) <==> (('a' <= c && c <= 'z') || ('A' <= c && c <= 'Z') || ('0'
            <= c && c <= '9') || c == '-' || c == '_'),
        in_class(CharClass::HexDigit, c) <==> (('0' <= c && c <= '9') || ('a' <= c && c <= 'f') || ('A' <= c
            && c <= 'F')),
{
}

/// A host id is accepted exactly when it is 8 characters, each a hex digit of either case; a
/// LUKS mapper name exactly when it is non-empty and made of ASCII letters, digits, `-` and `_`.
pub proof fn law_host_id_and_mapper_name(id: Seq<char>, name: Seq<char>)
    ensures
        host_id_ok(id) <==> (id.len() == 8 && forall|i: int| 0 <= i < id.len() ==> ('0' <= #[trigger] id[i]
            && id[i] <= '9') || ('a' <= id[i] && id[i] <= 'f') || ('A' <= id[i] && id[i] <= 'F')),
        luks_name_ok(name) <==> (name.len() > 0 && forall|i: int| 0 <= i < name.len() ==> ('a'
            <= #[trigger] name[i] && name[i] <= 'z') || ('A' <= name[i] && name[i] <= 'Z') || ('0' <= name[i]
            && name[i] <= '9') || name[i] == '-' || name[i] == '_'),
{
    assert forall|i: int| 0 <= i < id.len() implies (#[trigger] in_class(CharClass::HexDigit, id[i]) <==> (
    ('0' <= id[i] && id[i] <= '9') || ('a' <= id[i] && id[i] <= 'f') || ('A' <= id[i] && id[i] <= 'F'))) by {
        law_char_classes(id[i]);
    }
    assert forall|i: int| 0 <= i < name.len() implies (#[trigger] in_class(CharClass::MapperName, name[i])
        <==> (('a' <= name[i] && name[i] <= 'z') || ('A' <= name[i] && name[i] <= 'Z') || ('0' <= name[i]
        && name[i] <= '9') || name[i] == '-' || name[i] == '_')) by {
        law_char_classes(name[i]);
    }
    if host_id_ok(id) {
        assert forall|i: int| 0 <= i < id.len() implies ('0' <= #[trigger] id[i] && id[i] <= '9') || ('a'
            <= id[i] && id[i] <= 'f') || ('A' <= id[i] && id[i] <= 'F') by {
            assert(in_class(CharClass::HexDigit, id[i]));
        }
    }
    if id.len() == 8 && forall|i: int| 0 <= i < id.len() ==> ('0' <= #[trigger] id[i] && id[i] <= '9') || (
    'a' <= id[i] && id[i] <= 'f') || ('A' <= id[i] && id[i] <= 'F') {
        assert forall|i: int| 0 <= i < id.len() implies #[trigger] in_class(CharClass::HexDigit, id[i]) by {
            assert(('0' <= id[i] && id[i] <= '9') || ('a' <= id[i] && id[i] <= 'f') || ('A' <= id[i] && id[i]
                <= 'F'));
        }
    }
    if luks_name_ok(name) {
        assert forall|i: int| 0 <= i < name.len() implies ('a' <= #[trigger] name[i] && name[i] <= 'z') || (
        'A' <= name[i] && name[i] <= 'Z') || ('0' <= name[i] && name[i] <= '9') || name[i] == '-' || name[i]
            == '_' by {
            assert(in_class(CharClass::MapperName, name[i]));
        }
    }
    if name.len() > 0 && forall|i: int| 0 <= i < name.len() ==> ('a' <= #[trigger] name[i] && name[i] <= 'z')
        || ('A' <= name[i] && name[i] <= 'Z') || ('0' <= name[i] && name[i] <= '9') || name[i] == '-'
        || name[i] == '_' {
        assert forall|i: int| 0 <= i < name.len() implies #[trigger] in_class(CharClass::MapperName, name[i]) by {
            assert(('a' <= name[i] && name[i] <= 'z') || ('A' <= name[i] && name[i] <= 'Z') || ('0' <= name[i]
                && name[i] <= '9') || name[i] == '-' || name[i] == '_');
        }
    }
}

/// Each desktop's login manager when the plan names none: SDDM for Plasma, GDM for GNOME,
/// Pantheon and Budgie, the COSMIC greeter for COSMIC, ReGreet for the tiling window managers,
/// SDDM for the rest.
pub proof fn law_default_login_manager(d: DesktopChoice)
    ensures
        spec_default_login_manager(d) == match d {
            DesktopChoice::Plasma => LoginManager::Sddm,
            DesktopChoice::Gnome | DesktopChoice::Pantheon | DesktopChoice::Budgie => LoginManager::Gdm,
            DesktopChoice::Cosmic => LoginManager::CosmicGreeter,
            DesktopChoice::Niri | DesktopChoice::Mango | DesktopChoice::Hyprland | DesktopChoice::I3
            | DesktopChoice::Sway | DesktopChoice::Bspwm | DesktopChoice::Xmonad | DesktopChoice::Dwm =>
                LoginManager::Regreet,
            DesktopChoice::Xfce | DesktopChoice::Cinnamon | DesktopChoice::Mate | DesktopChoice::Wayfire
            | DesktopChoice::Openbox | DesktopChoice::Lxqt | DesktopChoice::Fluxbox
            | DesktopChoice::Enlightenment | DesktopChoice::Labwc => LoginManager::Sddm,
        },
{
}

/// The tiling window managers are Niri, Mango, Hyprland, i3, Sway, bspwm, XMonad and dwm; the
/// desktops that run on X11 are Xfce, Cinnamon, MATE, Openbox, Fluxbox, Enlightenment,
/// Pantheon, i3, bspwm, XMonad, dwm, Budgie and LXQt.
pub proof fn law_desktop_kinds(d: DesktopChoice)
    ensures
        spec_is_tiling(d) <==> (d is Niri || d is Mango || d is Hyprland || d is I3 || d is Sway || d is Bspwm
            || d is Xmonad || d is Dwm),
        spec_needs_xserver(d) <==> (d is Xfce || d is Cinnamon || d is Mate || d is Openbox || d is Fluxbox
            || d is Enlightenment || d is Pantheon || d is I3 || d is Bspwm || d is Xmonad || d is Dwm
            || d is Budgie || d is Lxqt),
{
}

/// `--swap partition` and `--swap file` need a size and keep the mode asked for with exactly
/// that size; `--swap zram` and `--swap none` take no size and give zram and no swap; any
/// other pairing is refused.
pub proof fn law_resolve_swap(swap: SwapArg, size_gib: Option<u32>, n: u32)
    ensures
        swap_args_error(SwapArg::Partition, Some(n)) is None,
        swap_from_args(SwapArg::Partition, Some(n)) == (SwapMode::Partition { size_gib: n }),
        swap_args_error(SwapArg::File, Some(n)) is None,
        swap_from_args(SwapArg::File, Some(n)) == (SwapMode::File { size_gib: n }),
        swap_args_error(SwapArg::Zram, None) is None,
        swap_from_args(SwapArg::Zram, None) == SwapMode::Zram,
        swap_args_error(SwapArg::Disabled, None) is None,
        swap_from_args(SwapArg::Disabled, None) == SwapMode::Disabled,
        swap_args_error(swap, size_gib) is Some <==> ((swap is Partition || swap is File) == (size_gib is None)),
        swap_args_error(swap, size_gib) is None ==> match swap_from_args(swap, size_gib) {
            SwapMode::Partition { size_gib: k } => swap is Partition && size_gib == Some(k),
            SwapMode::File { size_gib: k } => swap is File && size_gib == Some(k),
            SwapMode::Zram => swap is Zram && size_gib is None,
            SwapMode::Disabled => swap is Disabled && size_gib is None,
        },
{
}

/// Zen, XanMod and CachyOS kernels are built for x86_64 only; the default and LTS kernels are not.
pub proof fn law_kernel_x64_only(k: KernelChoice)
    ensures
        spec_is_x64_only(k) <==> (k is Zen || k is Xanmod || k is CachyOs),
{
}

/// ASCII space, tab, line feed, vertical tab, form feed and carriage return are whitespace; no
/// visible ASCII character is.
pub proof fn law_ascii_whitespace(c: char)
    ensures
        (c == ' ' || c == '\t' || c == '\n' || c == '\u{b}' || c == '\u{c}' || c == '\r') ==> is_whitespace(c),
        ('!' <= c && c <= '~') ==> !is_whitespace(c),
{
}

/// A host name is accepted exactly when it is non-empty and made of ASCII letters, digits and
/// `-`; a user name exactly when it is non-empty and made of lower-case ASCII letters, digits,
/// `_` and `-`.
pub proof fn law_host_and_user_names(h: Seq<char>, u: Seq<char>)
    ensures
        hostname_ok(h) <==> (h.len() > 0 && forall|i: int| 0 <= i < h.len() ==> ('a' <= #[trigger] h[i] && h[i]
            <= 'z') || ('A' <= h[i] && h[i] <= 'Z') || ('0' <= h[i] && h[i] <= '9') || h[i] == '-'),
        username_ok(u) <==> (u.len() > 0 && forall|i: int| 0 <= i < u.len() ==> ('a' <= #[trigger] u[i] && u[i]
            <= 'z') || ('0' <= u[i] && u[i] <= '9') || u[i] == '_' || u[i] == '-'),
{
    if hostname_ok(h) {
        assert forall|i: int| 0 <= i < h.len() implies ('a' <= #[trigger] h[i] && h[i] <= 'z') || ('A' <= h[i]
            && h[i] <= 'Z') || ('0' <= h[i] && h[i] <= '9') || h[i] == '-' by {
            assert(in_class(CharClass::Hostname, h[i]));
        }
    }
    if h.len() > 0 && forall|i: int| 0 <= i < h.len() ==> ('a' <= #[trigger] h[i] && h[i] <= 'z') || ('A'
        <= h[i] && h[i] <= 'Z') || ('0' <= h[i] && h[i] <= '9') || h[i] == '-' {
        assert forall|i: int| 0 <= i < h.len() implies #[trigger] in_class(CharClass::Hostname, h[i]) by {
            assert(('a' <= h[i] && h[i] <= 'z') || ('A' <= h[i] && h[i] <= 'Z') || ('0' <= h[i] && h[i] <= '9')
                || h[i] == '-');
        }
    }
    if username_ok(u) {
        assert forall|i: int| 0 <= i < u.len() implies ('a' <= #[trigger] u[i] && u[i] <= 'z') || ('0' <= u[i]
            && u[i] <= '9') || u[i] == '_' || u[i] == '-' by {
            assert(in_class(CharClass::Username, u[i]));
        }
    }
    if u.len() > 0 && forall|i: int| 0 <= i < u.len() ==> ('a' <= #[trigger] u[i] && u[i] <= 'z') || ('0'
        <= u[i] && u[i] <= '9') || u[i] == '_' || u[i] == '-' {
        assert forall|i: int| 0 <= i < u.len() implies #[trigger] in_class(CharClass::Username, u[i]) by {
            assert(('a' <= u[i] && u[i] <= 'z') || ('0' <= u[i] && u[i] <= '9') || u[i] == '_' || u[i] == '-');
        }
    }
}

/// A disk layout passes validation exactly when a manual devices block has a non-whitespace
/// character, a LUKS mapper name (if any) is acceptable, ZFS carries no swap file, partition
/// and file swap are at least 1 GiB, and the disk is an absolute path.
pub proof fn law_valid_disk(d: DiskoConfig)
    ensures
        disk_errors(d).len() == 0 <==> {
            &&& d.scheme matches PartitionScheme::Manual { devices } ==> exists|i: int|
                0 <= i < devices@.len() && !is_whitespace(#[trigger] devices@[i])
            &&& d.encryption matches Some(e) ==> luks_name_ok(e.luks_name@)
            &&& !(d.filesystem == Filesystem::Zfs && d.swap is File)
            &&& d.swap matches SwapMode::Partition { size_gib } ==> size_gib >= 1
            &&& d.swap matches SwapMode::File { size_gib } ==> size_gib >= 1
            &&& d.disk@.len() > 0 && d.disk@[0] == '/'
        },
{
}

/// A plan passes validation exactly when its kernel suits its arch, its host and user names are
/// acceptable, the primary account has a password hash, an enabled root account has one too,
/// Limine boots only btrfs, a host id (if any) is 8 hex digits, ZFS has a host id, and its disk
/// layout passes validation.
pub proof fn law_valid_plan(p: BalsaInstallPlan)
    ensures
        plan_errors(p).len() == 0 <==> {
            &&& (p.kernel is Zen || p.kernel is Xanmod || p.kernel is CachyOs) ==> p.hardware.arch
                == crate::plan::Arch::X86_64Linux
            &&& hostname_ok(p.network.hostname@)
            &&& username_ok(p.accounts.primary.username@)
            &&& p.accounts.primary.hashed_password@.len() > 0
            &&& p.accounts.root_enabled ==> p.accounts.root_hashed_password is Some
            &&& spec_effective_loader(p.boot.loader, p.boot.dual_boot, p.boot.legacy_bios) == BootLoader::Limine
                ==> p.disk.filesystem == Filesystem::Btrfs
            &&& p.network.host_id matches Some(id) ==> host_id_ok(id@)
            &&& p.disk.filesystem == Filesystem::Zfs ==> p.network.host_id is Some
            &&& disk_errors(p.disk).len() == 0
        },
{
}

/// A CachyOS pick is pinned to the `release` branch of nix-cachyos-kernel, takes the `pinned`
/// overlay for the pinned policy and `default` for the system nixpkgs, uses the package set
/// `linuxPackages-cachyos-latest`, `-lts` or `-bore` for its variant, and passes the cache's
/// substituter and key through unchanged.
pub proof fn law_cachyos_spec(r: CachyosSpec, variant: CachyVariant, policy: CachyNixpkgsPolicy, cache: CachyosCache)
    requires
        spec_matches(r, variant, policy, cache),
    ensures
        r.flake_url@ == "github:xddxdd/nix-cachyos-kernel/release"@,
        r.overlay_attr@ == (if policy == CachyNixpkgsPolicy::Pinned { "pinned"@ } else { "default"@ }),
        r.packages_attr@ == "pkgs.cachyosKernels.linuxPackages-cachyos-"@ + match variant {
            CachyVariant::Latest => "latest"@,
            CachyVariant::Lts => "lts"@,
            CachyVariant::Bore => "bore"@,
        },
        r.substituter@ == cache.substituter@,
        r.trusted_public_key@ == cache.trusted_public_key@,
{
}
} // verus!
