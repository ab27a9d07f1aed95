use balsa_flakegen::generate::cachyos::{spec, FLAKE_URL};
use balsa_flakegen::plan::{CachyNixpkgsPolicy, CachyVariant, CachyosCache};

#[test]
fn system_nixpkgs_overlay_warns_about_compiling() {
    let (spec, warnings) = spec(
        CachyVariant::Bore,
        CachyNixpkgsPolicy::SystemNixpkgs,
        &CachyosCache::default(),
    );
    assert_eq!(spec.overlay_attr, "default");
    assert_eq!(warnings.len(), 2);
    assert!(warnings[1].contains("builds from source"));
}

#[test]
fn pinned_overlay_only_warns_about_the_install_environment() {
    let (spec, warnings) = spec(
        CachyVariant::Latest,
        CachyNixpkgsPolicy::Pinned,
        &CachyosCache::default(),
    );
    assert_eq!(warnings.len(), 1);
    assert!(warnings[0].contains("running the install"));
    assert_eq!(spec.overlay_attr, "pinned");
    assert!(spec.flake_url.ends_with("/release"));
    assert_eq!(
        spec.packages_attr,
        "pkgs.cachyosKernels.linuxPackages-cachyos-latest"
    );
}

#[test]
fn variant_attrs_match_upstream_names() {
    assert_eq!(CachyVariant::Lts.attr_suffix(), "lts");
    assert_eq!(CachyVariant::Bore.attr_suffix(), "bore");
}

#[test]
fn latest_suffix_and_exact_warning_texts() {
    assert_eq!(CachyVariant::Latest.attr_suffix(), "latest");
    let cache = CachyosCache {
        substituter: "https://cache.example".to_string(),
        trusted_public_key: "example-1:key".to_string(),
    };
    let (spec, warnings) = spec(CachyVariant::Lts, CachyNixpkgsPolicy::SystemNixpkgs, &cache);
    assert_eq!(spec.flake_url, FLAKE_URL);
    assert_eq!(spec.flake_url, "github:xddxdd/nix-cachyos-kernel/release");
    assert_eq!(spec.packages_attr, "pkgs.cachyosKernels.linuxPackages-cachyos-lts");
    assert_eq!(spec.substituter, "https://cache.example");
    assert_eq!(spec.trusted_public_key, "example-1:key");
    assert_eq!(
        warnings,
        vec![
            "CachyOS kernel (lts) needs https://cache.example configured in the environment running the install, not only in the generated system, or the install itself compiles the kernel.".to_string(),
            "CachyOS kernel (lts) uses the `default` overlay, so it is built against the system nixpkgs rather than the revision https://cache.example was built with. The kernel builds from source - expect a long first build.".to_string(),
        ]
    );
}

#[test]
fn default_cache_is_upstreams() {
    let cache = CachyosCache::default();
    assert_eq!(cache.substituter, "https://xddxdd.cachix.org");
    assert_eq!(
        cache.trusted_public_key,
        "xddxdd.cachix.org-1:ay1HJyNDYmlSwj5NXQG065C8LfoqqKaTNCyzeixGjf8="
    );
    assert_eq!(CachyNixpkgsPolicy::default(), CachyNixpkgsPolicy::Pinned);
}
