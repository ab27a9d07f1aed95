//! What the command line's `disko` subcommand decides before it renders.
use vstd::prelude::*;
use vstd::string::*;
use crate::plan::{DiskoConfig, EncryptionConfig, Filesystem, PartitionScheme, SwapMode};

verus! {

/// The filesystems the `disko` subcommand offers.
#[derive(Debug, Clone, Copy, PartialEq, Eq, Structural)]
pub enum FsArg {
    Btrfs,
    Ext4,
}

/// The swap modes the `disko` subcommand offers.
#[derive(Debug, Clone, Copy, PartialEq, Eq, Structural)]
pub enum SwapArg {
    Partition,
    File,
    Zram,
    /// `none` on the command line
    Disabled,
}

/// Why a `--swap` / `--swap-size-gib` pair is refused.
pub open spec fn swap_args_error(swap: SwapArg, size_gib: Option<u32>) -> Option<Seq<char>> {
    match (swap, size_gib) {
        (SwapArg::Partition, None) | (SwapArg::File, None) =>
            Some("--swap-size-gib is required for partition and file swap"@),
        (SwapArg::Zram, Some(_)) | (SwapArg::Disabled, Some(_)) =>
            Some("--swap-size-gib only applies to partition and file swap"@),
        _ => None,
    }
}

/// The swap mode an accepted `--swap` / `--swap-size-gib` pair stands for.
pub open spec fn swap_from_args(swap: SwapArg, size_gib: Option<u32>) -> SwapMode {
    match swap {
        SwapArg::Partition => SwapMode::Partition { size_gib: size_gib->0 },
        SwapArg::File => SwapMode::File { size_gib: size_gib->0 },
        SwapArg::Zram => SwapMode::Zram,
        SwapArg::Disabled => SwapMode::Disabled,
    }
}

/// Combines `--swap` with `--swap-size-gib`, which partition and file swap need and the others refuse.
pub fn resolve_swap(swap: SwapArg, size_gib: Option<u32>) -> (r: Result<SwapMode, String>)
    ensures
        match swap_args_error(swap, size_gib) {
            Some(m) => r matches Err(e) && e@ == m,
            None => r == Ok::<SwapMode, String>(swap_from_args(swap, size_gib)),
        },
{
    match (swap, size_gib) {
        (SwapArg::Partition, Some(size_gib)) => Ok(SwapMode::Partition { size_gib }),
        (SwapArg::File, Some(size_gib)) => Ok(SwapMode::File { size_gib }),
        (SwapArg::Zram, None) => Ok(SwapMode::Zram),
        (SwapArg::Disabled, None) => Ok(SwapMode::Disabled),
        (SwapArg::Partition, None) | (SwapArg::File, None) => {
            Err(String::from_str("--swap-size-gib is required for partition and file swap"))
        },
        (SwapArg::Zram, Some(_)) | (SwapArg::Disabled, Some(_)) => {
            Err(String::from_str("--swap-size-gib only applies to partition and file swap"))
        },
    }
}

/// The disk layout the `disko` subcommand renders: guided partitioning, encrypted under
/// `luks_name` when one is given.
pub fn disko_config_from_args(disk: String, filesystem: FsArg, luks_name: Option<String>, swap: SwapMode) -> (r: DiskoConfig)
    ensures
        r.disk@ == disk@,
        r.scheme is Guided,
        r.filesystem == (match filesystem {
            FsArg::Btrfs => Filesystem::Btrfs,
            FsArg::Ext4 => Filesystem::Ext4,
        }),
        r.swap == swap,
        match luks_name {
            Some(n) => r.encryption matches Some(e) && e.luks_name@ == n@,
            None => r.encryption is None,
        },
{
    DiskoConfig {
        disk,
        scheme: PartitionScheme::Guided,
        filesystem: match filesystem {
            FsArg::Btrfs => Filesystem::Btrfs,
            FsArg::Ext4 => Filesystem::Ext4,
        },
        swap,
        encryption: match luks_name {
            Some(luks_name) => Some(EncryptionConfig { luks_name }),
            None => None,
        },
    }
}

} // verus!
