//! The in-root configuration recipe: the stage run after the privileged
//! context switch into the staged root. It adds the filesystem tooling's
//! package repository and signing key, upgrades and installs packages for
//! the operator's platform, creates the operator account with the supplied
//! password, configures the boot loader, enables the required services and
//! regenerates the initial RAM filesystem — fail-fast like every stage, so
//! a repository signing failure aborts everything after it.

use vstd::prelude::*;
use vstd::string::StringExecFns;
use crate::step::literal_step;
use crate::step::templated_step;
use crate::step::templated_step3;
use crate::step::Stage;
use crate::step::Step;

verus! {

/// The step that sets the operator account's password: the password is fed
/// twice to the password tool, the account is named at the end.
fn set_password_step(username: &str, password: &str) -> (s: Step)
    ensures
        s.label@ == "set-password"@,
        s.command@ == "(echo '"@ + password@ + "'; echo '"@ + password@ + "') | passwd "@
            + username@,
{
    let mut command = String::from_str("(echo '");
    command.append(password);
    command.append("'; echo '");
    command.append(password);
    command.append("') | passwd ");
    command.append(username);
    Step { label: String::from_str("set-password"), command }
}

/// The in-root configuration stage, templated on the operator's account
/// name, password and hardware platform (the platform names the microcode
/// package and the boot-loader's microcode image). The account-creation and
/// password steps are the only ones naming the account, and each
/// substitutes its parameter exactly once.
pub open spec fn is_chroot_stage(
    stage: Stage,
    username: Seq<char>,
    password: Seq<char>,
    platform: Seq<char>,
) -> bool {
    &&& stage.name@ == "In-root-configure"@
    &&& stage.steps@.len() == 20
    &&& stage.steps@[0].label@ == "add-repo"@
    &&& stage.steps@[0].command@
        == "echo -e '[archzfs]\nServer = https://archzfs.com/$repo/$arch' >>/etc/pacman.conf"@
    &&& stage.steps@[1].label@ == "fetch-repo-key"@
    &&& stage.steps@[1].command@ == "pacman-key -r DDF7DB817396A49B2A2723F7403BD972F75D9D76"@
    &&& stage.steps@[2].label@ == "sign-repo-key"@
    &&& stage.steps@[2].command@
        == "pacman-key --lsign-key DDF7DB817396A49B2A2723F7403BD972F75D9D76"@
    &&& stage.steps@[3].label@ == "upgrade-packages"@
    &&& stage.steps@[3].command@ == "pacman -Syu --noconfirm"@
    &&& stage.steps@[4].label@ == "install-packages"@
    &&& stage.steps@[4].command@
        == "pacman -S --noconfirm nfs-utils linux-headers zfs-dkms openssh networkmanager fish git "@
        + platform + "-ucode"@
    &&& stage.steps@[5].label@ == "create-user"@
    &&& stage.steps@[5].command@ == "useradd -m -G wheel -s /usr/bin/fish "@ + username
    &&& stage.steps@[6].label@ == "set-password"@
    &&& stage.steps@[6].command@ == "(echo '"@ + password + "'; echo '"@ + password
        + "') | passwd "@ + username
    &&& stage.steps@[7].label@ == "pool-cachefile"@
    &&& stage.steps@[7].command@ == "zpool set cachefile=/etc/zfs/zpool.cache zroot"@
    &&& stage.steps@[8].label@ == "install-bootloader"@
    &&& stage.steps@[8].command@ == "bootctl install"@
    &&& stage.steps@[9].label@ == "enable-networkmanager"@
    &&& stage.steps@[9].command@ == "systemctl enable NetworkManager"@
    &&& stage.steps@[10].label@ == "bootloader-entry"@
    &&& stage.steps@[10].command@ == "echo -e 'title Arch Linux\nlinux vmlinuz-linux\ninitrd "@
        + platform
        + "-ucode.img\ninitrd initramfs-linux.img\noptions zfs=zroot/ROOT/default rw' > /boot/loader/entries/arch.conf"@
    &&& stage.steps@[11].label@ == "bootloader-default"@
    &&& stage.steps@[11].command@ == "echo 'default arch' >> /boot/loader/loader.conf"@
    &&& stage.steps@[12].label@ == "sudoers-wheel"@
    &&& stage.steps@[12].command@ == "echo '%wheel ALL=(ALL:ALL) ALL' >> /etc/sudoers"@
    &&& stage.steps@[13].label@ == "enable-zfs-scrub"@
    &&& stage.steps@[13].command@ == "systemctl enable zfs-scrub-weekly@zroot.timer"@
    &&& stage.steps@[14].label@ == "enable-zfs-target"@
    &&& stage.steps@[14].command@ == "systemctl enable zfs.target"@
    &&& stage.steps@[15].label@ == "enable-zfs-import-cache"@
    &&& stage.steps@[15].command@ == "systemctl enable zfs-import-cache"@
    &&& stage.steps@[16].label@ == "enable-zfs-mount"@
    &&& stage.steps@[16].command@ == "systemctl enable zfs-mount"@
    &&& stage.steps@[17].label@ == "generate-hostid"@
    &&& stage.steps@[17].command@ == "zgenhostid $(hostid)"@
    &&& stage.steps@[18].label@ == "initramfs-hooks"@
    &&& stage.steps@[18].command@
        == "sed -i 's/keyboard keymap/keyboard zfs keymap/g' /etc/mkinitcpio.conf"@
    &&& stage.steps@[19].label@ == "generate-initramfs"@
    &&& stage.steps@[19].command@ == "mkinitcpio -P"@
}

/// Builds the in-root configuration stage from the operator's credentials.
pub fn chroot_install(username: &str, password: &str, platform: &str) -> (stage: Stage)
    ensures
        is_chroot_stage(stage, username@, password@, platform@),
{
    let mut steps: Vec<Step> = Vec::new();
    steps.push(
        literal_step(
            "add-repo",
            "echo -e '[archzfs]\nServer = https://archzfs.com/$repo/$arch' >>/etc/pacman.conf",
        ),
    );
    steps.push(
        literal_step("fetch-repo-key", "pacman-key -r DDF7DB817396A49B2A2723F7403BD972F75D9D76"),
    );
    steps.push(
        literal_step(
            "sign-repo-key",
            "pacman-key --lsign-key DDF7DB817396A49B2A2723F7403BD972F75D9D76",
        ),
    );
    steps.push(literal_step("upgrade-packages", "pacman -Syu --noconfirm"));
    steps.push(
        templated_step3(
            "install-packages",
            "pacman -S --noconfirm nfs-utils linux-headers zfs-dkms openssh networkmanager fish git ",
            platform,
            "-ucode",
        ),
    );
    steps.push(templated_step("create-user", "useradd -m -G wheel -s /usr/bin/fish ", username));
    steps.push(set_password_step(username, password));
    steps.push(literal_step("pool-cachefile", "zpool set cachefile=/etc/zfs/zpool.cache zroot"));
    steps.push(literal_step("install-bootloader", "bootctl install"));
    steps.push(literal_step("enable-networkmanager", "systemctl enable NetworkManager"));
    steps.push(
        templated_step3(
            "bootloader-entry",
            "echo -e 'title Arch Linux\nlinux vmlinuz-linux\ninitrd ",
            platform,
            "-ucode.img\ninitrd initramfs-linux.img\noptions zfs=zroot/ROOT/default rw' > /boot/loader/entries/arch.conf",
        ),
    );
    steps.push(
        literal_step("bootloader-default", "echo 'default arch' >> /boot/loader/loader.conf"),
    );
    steps.push(literal_step("sudoers-wheel", "echo '%wheel ALL=(ALL:ALL) ALL' >> /etc/sudoers"));
    steps.push(literal_step("enable-zfs-scrub", "systemctl enable zfs-scrub-weekly@zroot.timer"));
    steps.push(literal_step("enable-zfs-target", "systemctl enable zfs.target"));
    steps.push(literal_step("enable-zfs-import-cache", "systemctl enable zfs-import-cache"));
    steps.push(literal_step("enable-zfs-mount", "systemctl enable zfs-mount"));
    steps.push(literal_step("generate-hostid", "zgenhostid $(hostid)"));
    steps.push(
        literal_step(
            "initramfs-hooks",
            "sed -i 's/keyboard keymap/keyboard zfs keymap/g' /etc/mkinitcpio.conf",
        ),
    );
    steps.push(literal_step("generate-initramfs", "mkinitcpio -P"));
    Stage { name: String::from_str("In-root-configure"), steps }
}

} // verus!
