//! The disk-side recipe builders: the stages that install the filesystem
//! tooling, partition the selected device, build the root-on-ZFS layout
//! under the staging mount root, and bootstrap the base system into it.
//!
//! Each builder bakes the late-bound parameters — above all the selected
//! device identifier — into a fresh `Stage` at construction time; the
//! command lines themselves are opaque recipe data that the sequencer runs
//! in the stated order. What each stage must hold is a named predicate, so
//! the controller can promise the same of the stages it hands out.

use vstd::prelude::*;
use vstd::string::StringExecFns;
use crate::step::literal_step;
use crate::step::templated_step;
use crate::step::templated_step3;
use crate::step::Stage;
use crate::step::Step;

verus! {

/// The tool-install stage: one step whose command is the bootstrap script
/// fetched immediately before execution — a deliberate exception to the
/// fixed-recipe model.
pub open spec fn is_install_tool_stage(stage: Stage, script: Seq<char>) -> bool {
    &&& stage.name@ == "Install-tool"@
    &&& stage.steps@.len() == 1
    &&& stage.steps@[0].label@ == "run-bootstrap-script"@
    &&& stage.steps@[0].command@ == script
}

/// The partition stage for one device: erase it, create the EFI and data
/// partitions, and format the EFI partition — strictly in that order, each
/// command naming the device verbatim.
pub open spec fn is_partition_stage(stage: Stage, drive: Seq<char>) -> bool {
    &&& stage.name@ == "Partition"@
    &&& stage.steps@.len() == 4
    &&& stage.steps@[0].label@ == "erase-device"@
    &&& stage.steps@[0].command@ == "blkdiscard -f /dev/disk/by-id/"@ + drive
    &&& stage.steps@[1].label@ == "efi-partition-create"@
    &&& stage.steps@[1].command@ == "sgdisk -n 1:0:+512M -t 1:EF00 -c 1:EFI /dev/disk/by-id/"@
        + drive
    &&& stage.steps@[2].label@ == "data-partition-create"@
    &&& stage.steps@[2].command@ == "sgdisk -n 2:0:0 -t 2:BF01 -c 2:ZFS /dev/disk/by-id/"@ + drive
    &&& stage.steps@[3].label@ == "efi-format"@
    &&& stage.steps@[3].command@ == "mkfs.vfat -F32 /dev/disk/by-id/"@ + drive + "-part1"@
}

/// The filesystem stage for one device. Its order is load-bearing: pool
/// creation mounts datasets at their native paths, so every dataset is
/// unmounted and the pool exported strictly before the pool is re-imported
/// under the staging mount root and the root dataset mounted.
pub open spec fn is_filesystem_stage(stage: Stage, drive: Seq<char>) -> bool {
    &&& stage.name@ == "Build-filesystem"@
    &&& stage.steps@.len() == 13
    &&& stage.steps@[0].label@ == "pool-create"@
    &&& stage.steps@[0].command@
        == "zpool create -f -o ashift=12 -O canmount=off -O acltype=posixacl -O compression=on -O atime=off -O xattr=sa zroot /dev/disk/by-id/"@
        + drive + "-part2"@
    &&& stage.steps@[1].label@ == "dataset-root-container"@
    &&& stage.steps@[1].command@ == "zfs create -o canmount=off -o mountpoint=none zroot/ROOT"@
    &&& stage.steps@[2].label@ == "dataset-root-default"@
    &&& stage.steps@[2].command@
        == "zfs create -o canmount=noauto -o mountpoint=/ zroot/ROOT/default"@
    &&& stage.steps@[3].label@ == "dataset-data"@
    &&& stage.steps@[3].command@ == "zfs create -o mountpoint=none zroot/data"@
    &&& stage.steps@[4].label@ == "dataset-home"@
    &&& stage.steps@[4].command@ == "zfs create -o mountpoint=/home zroot/data/home"@
    &&& stage.steps@[5].label@ == "unmount-datasets"@
    &&& stage.steps@[5].command@ == "zfs umount -a"@
    &&& stage.steps@[6].label@ == "pool-export"@
    &&& stage.steps@[6].command@ == "zpool export zroot"@
    &&& stage.steps@[7].label@ == "pool-import-staging"@
    &&& stage.steps@[7].command@ == "zpool import -d /dev/disk/by-id -R /mnt zroot"@
    &&& stage.steps@[8].label@ == "mount-root-dataset"@
    &&& stage.steps@[8].command@ == "zfs mount zroot/ROOT/default"@
    &&& stage.steps@[9].label@ == "set-bootfs"@
    &&& stage.steps@[9].command@ == "zpool set bootfs=zroot/ROOT/default zroot"@
    &&& stage.steps@[10].label@ == "make-boot-dir"@
    &&& stage.steps@[10].command@ == "mkdir /mnt/boot"@
    &&& stage.steps@[11].label@ == "mount-efi"@
    &&& stage.steps@[11].command@ == "mount /dev/disk/by-id/"@ + drive + "-part1 /mnt/boot"@
    &&& stage.steps@[12].label@ == "make-etc-dir"@
    &&& stage.steps@[12].command@ == "mkdir /mnt/etc"@
}

/// The base-system stage: generate the filesystem table, install the
/// minimal base system into the staging root, and copy the provisioning
/// tool itself into it so execution can continue after the privileged
/// context switch.
pub open spec fn is_basesystem_stage(stage: Stage) -> bool {
    &&& stage.name@ == "Bootstrap-base"@
    &&& stage.steps@.len() == 3
    &&& stage.steps@[0].label@ == "generate-fstab"@
    &&& stage.steps@[0].command@ == "genfstab -U /mnt >> /mnt/etc/fstab"@
    &&& stage.steps@[1].label@ == "install-base"@
    &&& stage.steps@[1].command@
        == "pacstrap /mnt base base-devel linux linux-firmware neovim networkmanager"@
    &&& stage.steps@[2].label@ == "copy-installer"@
    &&& stage.steps@[2].command@ == "cp install /mnt/install"@
}

/// Builds the stage that installs the filesystem tooling on the live
/// environment from the just-fetched bootstrap script.
pub fn install_tool_stage(script: &str) -> (stage: Stage)
    ensures
        is_install_tool_stage(stage, script@),
{
    let mut steps: Vec<Step> = Vec::new();
    steps.push(literal_step("run-bootstrap-script", script));
    Stage { name: String::from_str("Install-tool"), steps }
}

/// Builds the partition stage for the selected device.
pub fn zfs_partition_drive(drive: &str) -> (stage: Stage)
    ensures
        is_partition_stage(stage, drive@),
{
    let mut steps: Vec<Step> = Vec::new();
    steps.push(templated_step("erase-device", "blkdiscard -f /dev/disk/by-id/", drive));
    steps.push(
        templated_step(
            "efi-partition-create",
            "sgdisk -n 1:0:+512M -t 1:EF00 -c 1:EFI /dev/disk/by-id/",
            drive,
        ),
    );
    steps.push(
        templated_step(
            "data-partition-create",
            "sgdisk -n 2:0:0 -t 2:BF01 -c 2:ZFS /dev/disk/by-id/",
            drive,
        ),
    );
    steps.push(templated_step3("efi-format", "mkfs.vfat -F32 /dev/disk/by-id/", drive, "-part1"));
    Stage { name: String::from_str("Partition"), steps }
}

/// Builds the filesystem stage for the selected device.
pub fn zfs_setup_filesystem(drive: &str) -> (stage: Stage)
    ensures
        is_filesystem_stage(stage, drive@),
{
    let mut steps: Vec<Step> = Vec::new();
    steps.push(
        templated_step3(
            "pool-create",
            "zpool create -f -o ashift=12 -O canmount=off -O acltype=posixacl -O compression=on -O atime=off -O xattr=sa zroot /dev/disk/by-id/",
            drive,
            "-part2",
        ),
    );
    steps.push(
        literal_step(
            "dataset-root-container",
            "zfs create -o canmount=off -o mountpoint=none zroot/ROOT",
        ),
    );
    steps.push(
        literal_step(
            "dataset-root-default",
            "zfs create -o canmount=noauto -o mountpoint=/ zroot/ROOT/default",
        ),
    );
    steps.push(literal_step("dataset-data", "zfs create -o mountpoint=none zroot/data"));
    steps.push(literal_step("dataset-home", "zfs create -o mountpoint=/home zroot/data/home"));
    steps.push(literal_step("unmount-datasets", "zfs umount -a"));
    steps.push(literal_step("pool-export", "zpool export zroot"));
    steps.push(literal_step("pool-import-staging", "zpool import -d /dev/disk/by-id -R /mnt zroot"));
    steps.push(literal_step("mount-root-dataset", "zfs mount zroot/ROOT/default"));
    steps.push(literal_step("set-bootfs", "zpool set bootfs=zroot/ROOT/default zroot"));
    steps.push(literal_step("make-boot-dir", "mkdir /mnt/boot"));
    steps.push(templated_step3("mount-efi", "mount /dev/disk/by-id/", drive, "-part1 /mnt/boot"));
    steps.push(literal_step("make-etc-dir", "mkdir /mnt/etc"));
    Stage { name: String::from_str("Build-filesystem"), steps }
}

/// Builds the base-system stage; it takes no parameter — everything it
/// does happens under the staging mount root.
pub fn zfs_setup_basesystem() -> (stage: Stage)
    ensures
        is_basesystem_stage(stage),
{
    let mut steps: Vec<Step> = Vec::new();
    steps.push(literal_step("generate-fstab", "genfstab -U /mnt >> /mnt/etc/fstab"));
    steps.push(
        literal_step(
            "install-base",
            "pacstrap /mnt base base-devel linux linux-firmware neovim networkmanager",
        ),
    );
    steps.push(literal_step("copy-installer", "cp install /mnt/install"));
    Stage { name: String::from_str("Bootstrap-base"), steps }
}

} // verus!
