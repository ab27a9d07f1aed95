use balsa_flakegen::cli::{disko_config_from_args, resolve_swap, FsArg, SwapArg};
use balsa_flakegen::plan::{Filesystem, SwapMode};

#[test]
fn swap_size_goes_with_partition_and_file_only() {
    assert_eq!(resolve_swap(SwapArg::Partition, Some(6)), Ok(SwapMode::Partition { size_gib: 6 }));
    assert_eq!(resolve_swap(SwapArg::File, Some(0)), Ok(SwapMode::File { size_gib: 0 }));
    assert_eq!(resolve_swap(SwapArg::Zram, None), Ok(SwapMode::Zram));
    assert_eq!(resolve_swap(SwapArg::Disabled, None), Ok(SwapMode::Disabled));
    assert!(resolve_swap(SwapArg::Partition, None).unwrap_err().contains("--swap-size-gib is required"));
    assert!(resolve_swap(SwapArg::Zram, Some(4)).unwrap_err().contains("only applies to partition"));
}

#[test]
fn disko_args_make_a_guided_layout() {
    let cfg = disko_config_from_args(
        "/dev/sda".to_string(),
        FsArg::Ext4,
        Some("has space".to_string()),
        SwapMode::Disabled,
    );
    assert_eq!(cfg.filesystem, Filesystem::Ext4);
    assert!(cfg.validate().unwrap_err().iter().any(|e| e.contains("invalid luks_name")));
    let cfg = disko_config_from_args("sda".to_string(), FsArg::Btrfs, None, SwapMode::File { size_gib: 0 });
    let errs = cfg.validate().unwrap_err();
    assert!(errs.iter().any(|e| e.contains("at least 1")));
    assert!(errs.iter().any(|e| e.contains("not an absolute path")));
}
