//! The boot configuration written into the provisioned root: the fstab
//! keyed by probed filesystem UUIDs, the hostname and hosts files, the grub
//! device map and defaults, the bootloader installation commands, and the
//! root password fed to the chrooted password changer.

use vstd::prelude::*;

use rand::Rng;

use crate::cmd::{cmd, cmd_model, concat2, new_args, push_lit, push_string, Cmd, CmdModel};
use crate::flavor::{is_apt_flavor, Flavor};
use crate::step::{Step, StepModel};
use crate::text::{spec_starts_with, uuid_prefix};

verus! {

/// The UUID-probe invocation for one partition device.
pub open spec fn blkid_model(dev: Seq<char>) -> CmdModel {
    cmd_model("blkid"@, seq!["-o"@, "export"@, dev])
}

/// The command that probes a partition device for its filesystem UUID.
pub fn blkid_cmd(dev: &String) -> (c: Cmd)
    ensures
        c@ == blkid_model(dev@),
{
    let mut args = new_args();
    push_lit(&mut args, "-o");
    push_lit(&mut args, "export");
    push_string(&mut args, dev.clone());
    let c = cmd("blkid", args);
    proof {
        assert(c@ =~~= blkid_model(dev@));
    }
    c
}

/// The fstab entry of the root partition.
pub open spec fn fstab_root_line(uuid: Seq<char>) -> Seq<char> {
    uuid + " / ext4 errors=remount-ro 0 1"@
}

/// The fstab entry of the EFI system partition.
pub open spec fn fstab_efi_line(uuid: Seq<char>) -> Seq<char> {
    uuid + " /boot/efi vfat defaults 0 2"@
}

/// The fstab entry of the optional swap partition.
pub open spec fn fstab_swap_line(uuid: Seq<char>) -> Seq<char> {
    uuid + " none swap sw 0 0"@
}

/// The tmpfs entry the Alpine path adds for /tmp; it names no partition.
pub open spec fn fstab_tmpfs_line() -> Seq<char> {
    "tmpfs /tmp tmpfs defaults 0 0"@
}

/// The produced fstab: one entry per persisted partition — root, EFI, and
/// swap iff a swap partition exists — each keyed by its probed UUID, plus
/// the tmpfs entry on the Alpine path.
pub open spec fn fstab_model(
    root_uuid: Seq<char>,
    efi_uuid: Seq<char>,
    swap_uuid: Option<Seq<char>>,
    f: Flavor,
) -> Seq<Seq<char>> {
    seq![fstab_root_line(root_uuid), fstab_efi_line(efi_uuid)] + (match swap_uuid {
        Some(u) => seq![fstab_swap_line(u)],
        None => Seq::<Seq<char>>::empty(),
    }) + (if f == Flavor::Alpine {
        seq![fstab_tmpfs_line()]
    } else {
        Seq::<Seq<char>>::empty()
    })
}

/// The number of persisted partitions an fstab describes.
pub open spec fn persisted_partition_count(swap_uuid: Option<Seq<char>>) -> int {
    2 + (if swap_uuid is Some {
        1int
    } else {
        0int
    })
}

/// The lines of the produced fstab.
pub fn fstab_lines(
    root_uuid: &String,
    efi_uuid: &String,
    swap_uuid: &Option<String>,
    f: Flavor,
) -> (r: Vec<String>)
    ensures
        r.deep_view() == fstab_model(root_uuid@, efi_uuid@, swap_uuid.deep_view(), f),
{
    let mut r: Vec<String> = Vec::new();
    push_string(&mut r, concat2(root_uuid.as_str(), " / ext4 errors=remount-ro 0 1"));
    push_string(&mut r, concat2(efi_uuid.as_str(), " /boot/efi vfat defaults 0 2"));
    match swap_uuid {
        Some(u) => {
            push_string(&mut r, concat2(u.as_str(), " none swap sw 0 0"));
        },
        None => {},
    }
    match f {
        Flavor::Alpine => {
            push_lit(&mut r, "tmpfs /tmp tmpfs defaults 0 0");
        },
        _ => {},
    }
    proof {
        assert(r.deep_view() =~= fstab_model(root_uuid@, efi_uuid@, swap_uuid.deep_view(), f));
    }
    r
}

/// A text that starts with a prefix still starts with it after extension.
proof fn lemma_starts_with_extend(s: Seq<char>, t: Seq<char>, p: Seq<char>)
    requires
        spec_starts_with(s, p),
    ensures
        spec_starts_with(s + t, p),
{
    assert((s + t).take(p.len() as int) =~= s.take(p.len() as int));
}

/// LAW: for every flavor, the produced fstab holds exactly one entry per
/// persisted partition — root, EFI, and swap iff the path created one — and
/// each partition entry is keyed by a UUID beginning with `UUID=`; the
/// Alpine path's one extra line is the tmpfs entry, which names no
/// partition.
pub proof fn lemma_fstab_one_entry_per_partition(
    root_uuid: Seq<char>,
    efi_uuid: Seq<char>,
    swap_uuid: Option<Seq<char>>,
    f: Flavor,
)
    requires
        spec_starts_with(root_uuid, uuid_prefix()),
        spec_starts_with(efi_uuid, uuid_prefix()),
        match swap_uuid {
            Some(u) => spec_starts_with(u, uuid_prefix()),
            None => true,
        },
    ensures
        fstab_model(root_uuid, efi_uuid, swap_uuid, f).len() == persisted_partition_count(
            swap_uuid,
        ) + (if f == Flavor::Alpine {
            1int
        } else {
            0int
        }),
        fstab_model(root_uuid, efi_uuid, swap_uuid, f)[0] == fstab_root_line(root_uuid),
        fstab_model(root_uuid, efi_uuid, swap_uuid, f)[1] == fstab_efi_line(efi_uuid),
        forall|i: int|
            0 <= i < persisted_partition_count(swap_uuid) ==> spec_starts_with(
                #[trigger] fstab_model(root_uuid, efi_uuid, swap_uuid, f)[i],
                uuid_prefix(),
            ),
        f == Flavor::Alpine ==> fstab_model(root_uuid, efi_uuid, swap_uuid, f).last()
            == fstab_tmpfs_line(),
{
    let lines = fstab_model(root_uuid, efi_uuid, swap_uuid, f);
    lemma_starts_with_extend(root_uuid, " / ext4 errors=remount-ro 0 1"@, uuid_prefix());
    lemma_starts_with_extend(efi_uuid, " /boot/efi vfat defaults 0 2"@, uuid_prefix());
    match swap_uuid {
        Some(u) => {
            lemma_starts_with_extend(u, " none swap sw 0 0"@, uuid_prefix());
            assert(lines[2] == fstab_swap_line(u));
        },
        None => {},
    }
}

/// The hostname written into the image; it matches the name the Alpine
/// quick-setup answer file declares.
pub open spec fn hostname_model() -> Seq<Seq<char>> {
    seq!["alpine"@]
}

/// The lines of the hostname file.
pub fn hostname_lines() -> (r: Vec<String>)
    ensures
        r.deep_view() == hostname_model(),
{
    let mut r: Vec<String> = Vec::new();
    push_lit(&mut r, "alpine");
    proof {
        assert(r.deep_view() =~= hostname_model());
    }
    r
}

/// The hosts file written into the image.
pub open spec fn hosts_model() -> Seq<Seq<char>> {
    seq!["127.0.0.1 localhost"@, "127.0.1.1 alpine"@]
}

/// The lines of the hosts file.
pub fn hosts_lines() -> (r: Vec<String>)
    ensures
        r.deep_view() == hosts_model(),
{
    let mut r: Vec<String> = Vec::new();
    push_lit(&mut r, "127.0.0.1 localhost");
    push_lit(&mut r, "127.0.1.1 alpine");
    proof {
        assert(r.deep_view() =~= hosts_model());
    }
    r
}

/// The grub device map: it binds `(hd0)` to the loop device path, and is
/// valid only inside the build environment.
pub open spec fn device_map_model(loop_path: Seq<char>) -> Seq<Seq<char>> {
    seq!["(hd0) "@ + loop_path]
}

/// The lines of the grub device map.
pub fn device_map_lines(loop_path: &String) -> (r: Vec<String>)
    ensures
        r.deep_view() == device_map_model(loop_path@),
{
    let mut r: Vec<String> = Vec::new();
    push_string(&mut r, concat2("(hd0) ", loop_path.as_str()));
    proof {
        assert(r.deep_view() =~= device_map_model(loop_path@));
    }
    r
}

/// The kernel command line of the grub defaults file; it differs by flavor.
pub open spec fn grub_cmdline(f: Flavor) -> Seq<char> {
    if is_apt_flavor(f) {
        "GRUB_CMDLINE_LINUX_DEFAULT=\"quiet splash console=ttyS0,115200 init=/lib/systemd/systemd-bootchart\""@
    } else {
        "GRUB_CMDLINE_LINUX_DEFAULT=\"quiet splash console=ttyS0,115200 rootfstype=ext4 modules=sd-mod,usb-storage,nvme,ext4\""@
    }
}

/// The grub defaults file: the boot device by UUID, the serial terminal,
/// and the flavor's kernel command line.
pub open spec fn grub_defaults_model(root_uuid: Seq<char>, f: Flavor) -> Seq<Seq<char>> {
    seq![
        "GRUB_DEVICE="@ + root_uuid,
        "GRUB_TERMINAL=\"serial console\""@,
        grub_cmdline(f),
    ]
}

/// The lines of the grub defaults file.
pub fn grub_defaults_lines(root_uuid: &String, f: Flavor) -> (r: Vec<String>)
    ensures
        r.deep_view() == grub_defaults_model(root_uuid@, f),
{
    let mut r: Vec<String> = Vec::new();
    push_string(&mut r, concat2("GRUB_DEVICE=", root_uuid.as_str()));
    push_lit(&mut r, "GRUB_TERMINAL=\"serial console\"");
    match f {
        Flavor::Debian | Flavor::Ubuntu => {
            push_lit(
                &mut r,
                "GRUB_CMDLINE_LINUX_DEFAULT=\"quiet splash console=ttyS0,115200 init=/lib/systemd/systemd-bootchart\"",
            );
        },
        Flavor::Alpine => {
            push_lit(
                &mut r,
                "GRUB_CMDLINE_LINUX_DEFAULT=\"quiet splash console=ttyS0,115200 rootfstype=ext4 modules=sd-mod,usb-storage,nvme,ext4\"",
            );
        },
    }
    proof {
        assert(r.deep_view() =~= grub_defaults_model(root_uuid@, f));
    }
    r
}

/// The bootloader installation targeting the EFI system partition and the
/// chroot root.
pub open spec fn grub_install_model(root: Seq<char>, disk: Seq<char>) -> CmdModel {
    cmd_model(
        "grub-install"@,
        seq![
            "--target=x86_64-efi"@,
            "--efi-directory="@ + root + "/boot/efi/"@,
            "--root-directory="@ + root,
            "--no-floppy"@,
            disk,
        ],
    )
}

/// The command that installs the bootloader.
pub fn grub_install_cmd(root: &String, disk: &String) -> (c: Cmd)
    ensures
        c@ == grub_install_model(root@, disk@),
{
    let mut args = new_args();
    push_lit(&mut args, "--target=x86_64-efi");
    let mut efi_dir = concat2("--efi-directory=", root.as_str());
    efi_dir.append("/boot/efi/");
    push_string(&mut args, efi_dir);
    push_string(&mut args, concat2("--root-directory=", root.as_str()));
    push_lit(&mut args, "--no-floppy");
    push_string(&mut args, disk.clone());
    let c = cmd("grub-install", args);
    proof {
        assert(c@ =~~= grub_install_model(root@, disk@));
    }
    c
}

/// The chrooted generation of the final boot menu.
pub open spec fn grub_mkconfig_model(root: Seq<char>) -> CmdModel {
    cmd_model("chroot"@, seq![root, "grub-mkconfig"@, "-o"@, "/boot/grub/grub.cfg"@])
}

/// The command that generates the boot menu inside the chroot.
pub fn grub_mkconfig_cmd(root: &String) -> (c: Cmd)
    ensures
        c@ == grub_mkconfig_model(root@),
{
    let mut args = new_args();
    push_string(&mut args, root.clone());
    push_lit(&mut args, "grub-mkconfig");
    push_lit(&mut args, "-o");
    push_lit(&mut args, "/boot/grub/grub.cfg");
    let c = cmd("chroot", args);
    proof {
        assert(c@ =~~= grub_mkconfig_model(root@));
    }
    c
}

/// The deletion of the now-stale device map, which is invalid outside the
/// build environment.
pub open spec fn remove_device_map_model(root: Seq<char>) -> CmdModel {
    cmd_model("chroot"@, seq![root, "rm"@, "/boot/grub/device.map"@])
}

/// The command that deletes the stale device map.
pub fn remove_device_map_cmd(root: &String) -> (c: Cmd)
    ensures
        c@ == remove_device_map_model(root@),
{
    let mut args = new_args();
    push_string(&mut args, root.clone());
    push_lit(&mut args, "rm");
    push_lit(&mut args, "/boot/grub/device.map");
    let c = cmd("chroot", args);
    proof {
        assert(c@ =~~= remove_device_map_model(root@));
    }
    c
}

/// A character the generated password may hold: an ASCII letter or digit.
pub open spec fn is_password_char(c: char) -> bool {
    ||| 'a' as u32 <= c as u32 <= 'z' as u32
    ||| 'A' as u32 <= c as u32 <= 'Z' as u32
    ||| '0' as u32 <= c as u32 <= '9' as u32
}

/// Relies on rand's Alphanumeric distribution: every sampled byte is an
/// ASCII letter or digit, so sixteen samples give sixteen such characters.
#[verifier::external_body]
fn random_alphanumeric_16() -> (r: String)
    ensures
        r@.len() == 16,
        forall|i: int| 0 <= i < r@.len() ==> is_password_char(#[trigger] r@[i]),
{
    rand::thread_rng().sample_iter(&rand::distributions::Alphanumeric).take(16).map(
        char::from,
    ).collect()
}

/// The root password: the supplied one, or sixteen random alphanumeric
/// characters when none was supplied. Either way the generated form is
/// never empty.
pub fn choose_root_password(supplied: &Option<String>) -> (r: String)
    ensures
        match supplied {
            Some(p) => r@ == p@,
            None => r@.len() == 16 && forall|i: int|
                0 <= i < r@.len() ==> is_password_char(#[trigger] r@[i]),
        },
{
    match supplied {
        Some(p) => p.clone(),
        None => random_alphanumeric_16(),
    }
}

/// The password change: the chrooted interactive password changer, fed the
/// password twice on its stdin.
pub open spec fn passwd_model(root: Seq<char>, pw: Seq<char>) -> StepModel {
    StepModel::PipeStdin { cmd: cmd_model("chroot"@, seq![root, "passwd"@]), lines: seq![pw, pw] }
}

/// The step that sets the root account's password inside the chroot.
pub fn passwd_step(root: &String, password: &String) -> (s: Step)
    ensures
        s@ == passwd_model(root@, password@),
{
    let mut args = new_args();
    push_string(&mut args, root.clone());
    push_lit(&mut args, "passwd");
    let c = cmd("chroot", args);
    let mut lines: Vec<String> = Vec::new();
    push_string(&mut lines, password.clone());
    push_string(&mut lines, password.clone());
    let s = Step::PipeStdin { cmd: c, lines };
    proof {
        assert(s@ =~~= passwd_model(root@, password@));
    }
    s
}

} // verus!
