use provision::chroot::chroot_install;
use provision::pipeline::menu_choice;
use provision::pipeline::MenuChoice;
use provision::zfs::install_tool_stage;
use provision::zfs::zfs_partition_drive;
use provision::zfs::zfs_setup_basesystem;
use provision::zfs::zfs_setup_filesystem;

fn commands(stage: &provision::step::Stage) -> Vec<String> {
    stage.steps.iter().map(|s| s.command.clone()).collect()
}

fn labels(stage: &provision::step::Stage) -> Vec<String> {
    stage.steps.iter().map(|s| s.label.clone()).collect()
}

#[test]
fn partition_stage_for_sda_in_order() {
    let stage = zfs_partition_drive("sda");
    assert_eq!(stage.name, "Partition");
    assert_eq!(
        labels(&stage),
        vec!["erase-device", "efi-partition-create", "data-partition-create", "efi-format"]
    );
    assert_eq!(
        commands(&stage),
        vec![
            "blkdiscard -f /dev/disk/by-id/sda",
            "sgdisk -n 1:0:+512M -t 1:EF00 -c 1:EFI /dev/disk/by-id/sda",
            "sgdisk -n 2:0:0 -t 2:BF01 -c 2:ZFS /dev/disk/by-id/sda",
            "mkfs.vfat -F32 /dev/disk/by-id/sda-part1",
        ]
    );
    for command in commands(&stage) {
        assert!(command.contains("sda"));
    }
}

#[test]
fn filesystem_stage_for_sda_exports_before_reimporting() {
    let stage = zfs_setup_filesystem("sda");
    assert_eq!(stage.name, "Build-filesystem");
    let cmds = commands(&stage);
    assert_eq!(cmds.len(), 13);
    assert_eq!(cmds[0], "zpool create -f -o ashift=12 -O canmount=off -O acltype=posixacl -O compression=on -O atime=off -O xattr=sa zroot /dev/disk/by-id/sda-part2");
    assert_eq!(cmds[11], "mount /dev/disk/by-id/sda-part1 /mnt/boot");
    // The ordering invariant: every dataset is unmounted and the pool
    // exported strictly before the pool is re-imported at the staging root
    // and the root dataset mounted.
    let unmount = cmds.iter().position(|c| c == "zfs umount -a").unwrap();
    let export = cmds.iter().position(|c| c == "zpool export zroot").unwrap();
    let import = cmds
        .iter()
        .position(|c| c == "zpool import -d /dev/disk/by-id -R /mnt zroot")
        .unwrap();
    let mount_root = cmds.iter().position(|c| c == "zfs mount zroot/ROOT/default").unwrap();
    assert!(unmount < import && unmount < mount_root);
    assert!(export < import && export < mount_root);
    assert!(import < mount_root);
}

#[test]
fn basesystem_stage_commands() {
    let stage = zfs_setup_basesystem();
    assert_eq!(stage.name, "Bootstrap-base");
    assert_eq!(
        commands(&stage),
        vec![
            "genfstab -U /mnt >> /mnt/etc/fstab",
            "pacstrap /mnt base base-devel linux linux-firmware neovim networkmanager",
            "cp install /mnt/install",
        ]
    );
}

#[test]
fn install_tool_stage_runs_the_fetched_script() {
    let stage = install_tool_stage("curl -s https://example.invalid/init | bash");
    assert_eq!(stage.name, "Install-tool");
    assert_eq!(commands(&stage), vec!["curl -s https://example.invalid/init | bash"]);
}

// End to end: the operator picks the in-root entry from the menu with no
// device selected, supplies credentials, and the generated stage contains
// exactly one user-creation step naming "alice" and exactly one
// password-set step carrying "secret" — and no step before the
// user-creation step references "alice".
#[test]
fn chroot_stage_for_alice_from_menu_choice() {
    assert_eq!(menu_choice("2"), MenuChoice::Chroot);
    let stage = chroot_install("alice", "secret", "intel");
    assert_eq!(stage.name, "In-root-configure");
    let cmds = commands(&stage);
    assert_eq!(cmds.len(), 20);

    let create_user = cmds.iter().position(|c| c.contains("useradd")).unwrap();
    assert_eq!(cmds[create_user], "useradd -m -G wheel -s /usr/bin/fish alice");
    let set_password = cmds.iter().position(|c| c.contains("passwd")).unwrap();
    assert_eq!(cmds[set_password], "(echo 'secret'; echo 'secret') | passwd alice");
    assert!(create_user < set_password);

    let user_creation_steps = cmds
        .iter()
        .filter(|c| c.contains("useradd") && c.contains("alice"))
        .count();
    assert_eq!(user_creation_steps, 1);
    let password_set_steps = cmds
        .iter()
        .filter(|c| c.contains("passwd") && c.contains("secret"))
        .count();
    assert_eq!(password_set_steps, 1);
    for c in &cmds[..create_user] {
        assert!(!c.contains("alice"));
    }
}

#[test]
fn chroot_stage_substitutes_the_platform() {
    let stage = chroot_install("alice", "secret", "amd");
    let cmds = commands(&stage);
    assert_eq!(
        cmds[4],
        "pacman -S --noconfirm nfs-utils linux-headers zfs-dkms openssh networkmanager fish git amd-ucode"
    );
    assert!(cmds[10].contains("initrd amd-ucode.img"));
    assert_eq!(cmds[19], "mkinitcpio -P");
}
