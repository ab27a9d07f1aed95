//! What a CachyOS kernel pick needs: the flake input, overlay and binary cache.
use vstd::prelude::*;
use vstd::string::*;
use crate::plan::{CachyNixpkgsPolicy, CachyVariant, CachyosCache, spec_attr_suffix};
use crate::text::views;

verus! {

/// Flake pin, overlay and substituter must agree or the user compiles a kernel
#[derive(Debug, Clone, PartialEq, Eq)]
pub struct CachyosSpec {
    /// Flake input URL, pinned to the `release` branch per upstream's README.
    pub flake_url: String,
    /// `pinned` or `default`, the two overlays upstream exposes.
    pub overlay_attr: String,
    pub packages_attr: String,
    pub substituter: String,
    pub trusted_public_key: String,
}

pub const FLAKE_URL: &'static str = "github:xddxdd/nix-cachyos-kernel/release";

pub open spec fn spec_overlay_attr(policy: CachyNixpkgsPolicy) -> Seq<char> {
    match policy {
        CachyNixpkgsPolicy::Pinned => "pinned"@,
        CachyNixpkgsPolicy::SystemNixpkgs => "default"@,
    }
}

/// The spec `spec` returns, field by field.
pub open spec fn spec_matches(r: CachyosSpec, variant: CachyVariant, policy: CachyNixpkgsPolicy, cache: CachyosCache) -> bool {
    &&& r.flake_url@ == FLAKE_URL@
    &&& r.overlay_attr@ == spec_overlay_attr(policy)
    &&& r.packages_attr@ == "pkgs.cachyosKernels.linuxPackages-cachyos-"@ + spec_attr_suffix(variant)
    &&& r.substituter@ == cache.substituter@
    &&& r.trusted_public_key@ == cache.trusted_public_key@
}

/// The warning every CachyOS pick gets.
pub open spec fn install_env_warning(variant: CachyVariant, substituter: Seq<char>) -> Seq<char> {
    "CachyOS kernel ("@ + spec_attr_suffix(variant) + ") needs "@ + substituter + " configured in the environment "@
        + "running the install"@ + ", not only in the generated system, or the install itself compiles the kernel."@
}

/// The warning for the `default` overlay, whose kernel is built locally.
pub open spec fn compile_warning(variant: CachyVariant, substituter: Seq<char>) -> Seq<char> {
    "CachyOS kernel ("@ + spec_attr_suffix(variant) + ") uses the "@ + "`default` overlay"@
        + ", so it is built against the system nixpkgs rather than the revision "@ + substituter
        + " was built with. The kernel "@ + "builds from source"@ + " - expect a long first build."@
}

/// The warnings `spec` returns, in order.
pub open spec fn cachyos_warnings(variant: CachyVariant, policy: CachyNixpkgsPolicy, substituter: Seq<char>) -> Seq<Seq<char>> {
    seq![install_env_warning(variant, substituter)] + if policy == CachyNixpkgsPolicy::SystemNixpkgs {
        seq![compile_warning(variant, substituter)]
    } else {
        Seq::empty()
    }
}

/// Returns the spec plus any warnings for `GenerationResult.warnings`.
pub fn spec(variant: CachyVariant, policy: CachyNixpkgsPolicy, cache: &CachyosCache) -> (r: (CachyosSpec, Vec<String>))
    ensures
        spec_matches(r.0, variant, policy, *cache),
        views(r.1@) == cachyos_warnings(variant, policy, cache.substituter@),
{
    let mut warnings: Vec<String> = Vec::new();

    // Lands in the target's nix.conf, not the one the installer builds with
    let mut w = String::from_str("CachyOS kernel (");
    w.append(variant.attr_suffix());
    w.append(") needs ");
    w.append(cache.substituter.as_str());
    w.append(" configured in the environment ");
    w.append("running the install");
    w.append(", not only in the generated system, or the install itself compiles the kernel.");
    warnings.push(w);

    if policy == CachyNixpkgsPolicy::SystemNixpkgs {
        let mut w = String::from_str("CachyOS kernel (");
        w.append(variant.attr_suffix());
        w.append(") uses the ");
        w.append("`default` overlay");
        w.append(", so it is built against the system nixpkgs rather than the revision ");
        w.append(cache.substituter.as_str());
        w.append(" was built with. The kernel ");
        w.append("builds from source");
        w.append(" - expect a long first build.");
        warnings.push(w);
    }
    assert(views(warnings@) =~= cachyos_warnings(variant, policy, cache.substituter@));

    let mut packages_attr = String::from_str("pkgs.cachyosKernels.linuxPackages-cachyos-");
    packages_attr.append(variant.attr_suffix());
    let spec = CachyosSpec {
        flake_url: String::from_str(FLAKE_URL),
        overlay_attr: match policy {
            CachyNixpkgsPolicy::Pinned => String::from_str("pinned"),
            CachyNixpkgsPolicy::SystemNixpkgs => String::from_str("default"),
        },
        packages_attr,
        substituter: cache.substituter.clone(),
        trusted_public_key: cache.trusted_public_key.clone(),
    };
    (spec, warnings)
}

} // verus!
