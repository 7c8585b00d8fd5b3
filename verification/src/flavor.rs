//! The target OS flavors and the flavor-specific installation steps: package
//! repository update, kernel and bootloader installation, the quick-setup
//! answer file and service runlevels of the Alpine path, and the kernel
//! version check that guards the Alpine initramfs rebuild.

use vstd::prelude::*;

use crate::cmd::{cmd, cmd_model, cmd_with_env, env_var, new_args, push_lit, push_string, Cmd,
    CmdModel, EnvVarModel};
use crate::errors::{PipelineError, PipelineErrorModel};

verus! {

/// The target OS family. Fixed at pipeline start; selects package-manager
/// verbs, the kernel package, and the installer sub-procedure.
#[derive(Clone, Copy, Debug, PartialEq, Eq, Structural)]
pub enum Flavor {
    Debian,
    Ubuntu,
    Alpine,
}

/// Debian and Ubuntu share the apt-driven path.
pub open spec fn is_apt_flavor(f: Flavor) -> bool {
    f == Flavor::Debian || f == Flavor::Ubuntu
}

/// The flavor a selector names, if any.
pub open spec fn flavor_of_name(s: Seq<char>) -> Option<Flavor> {
    if s == "debian"@ {
        Some(Flavor::Debian)
    } else if s == "ubuntu"@ {
        Some(Flavor::Ubuntu)
    } else if s == "alpine"@ {
        Some(Flavor::Alpine)
    } else {
        None
    }
}

/// Parses the flavor selector; an unsupported name is rejected before any
/// resource is touched.
pub fn parse_flavor(s: &String) -> (r: Result<Flavor, PipelineError>)
    ensures
        match r {
            Ok(f) => flavor_of_name(s@) == Some(f),
            Err(e) => flavor_of_name(s@) is None && e@ == (PipelineErrorModel::Argument {
                what: "flavor not supported!"@,
            }),
        },
{
    if s.eq(&String::from_str("debian")) {
        Ok(Flavor::Debian)
    } else if s.eq(&String::from_str("ubuntu")) {
        Ok(Flavor::Ubuntu)
    } else if s.eq(&String::from_str("alpine")) {
        Ok(Flavor::Alpine)
    } else {
        Err(PipelineError::Argument { what: "flavor not supported!".to_owned() })
    }
}

/// The kernel package each flavor installs.
pub open spec fn kernel_package_name(f: Flavor) -> Seq<char> {
    match f {
        Flavor::Debian => "linux-image-amd64"@,
        Flavor::Ubuntu => "linux-image-generic"@,
        Flavor::Alpine => "linux-lts"@,
    }
}

/// The kernel package for a flavor.
pub fn kernel_package(f: Flavor) -> (r: String)
    ensures
        r@ == kernel_package_name(f),
{
    match f {
        Flavor::Debian => String::from_str("linux-image-amd64"),
        Flavor::Ubuntu => String::from_str("linux-image-generic"),
        Flavor::Alpine => String::from_str("linux-lts"),
    }
}

/// The chrooted package-index update.
pub open spec fn repo_update_model(f: Flavor, root: Seq<char>) -> CmdModel {
    if is_apt_flavor(f) {
        cmd_model("chroot"@, seq![root, "apt"@, "update"@, "-y"@])
    } else {
        cmd_model("chroot"@, seq![root, "apk"@, "update"@])
    }
}

/// The command that updates the package index inside the chroot.
pub fn repo_update_cmd(f: Flavor, root: &String) -> (c: Cmd)
    ensures
        c@ == repo_update_model(f, root@),
{
    let mut args = new_args();
    push_string(&mut args, root.clone());
    match f {
        Flavor::Debian | Flavor::Ubuntu => {
            push_lit(&mut args, "apt");
            push_lit(&mut args, "update");
            push_lit(&mut args, "-y");
        },
        Flavor::Alpine => {
            push_lit(&mut args, "apk");
            push_lit(&mut args, "update");
        },
    }
    let c = cmd("chroot", args);
    proof {
        assert(c@ =~~= repo_update_model(f, root@));
    }
    c
}

/// The chrooted installation of the kernel, init system, bootloader and
/// initramfs tooling.
pub open spec fn base_install_model(f: Flavor, root: Seq<char>) -> CmdModel {
    if is_apt_flavor(f) {
        cmd_model(
            "chroot"@,
            seq![
                root,
                "apt"@,
                "install"@,
                "-y"@,
                kernel_package_name(f),
                "systemd-sysv"@,
                "grub2-common"@,
                "grub-efi-amd64-bin"@,
                "initramfs-tools"@,
            ],
        )
    } else {
        cmd_model(
            "chroot"@,
            seq![root, "apk"@, "add"@, "grub-efi"@, "mkinitfs"@, "alpine-conf"@, "linux-lts"@],
        )
    }
}

/// The command that installs the kernel and bootloader packages.
pub fn base_install_cmd(f: Flavor, root: &String) -> (c: Cmd)
    ensures
        c@ == base_install_model(f, root@),
{
    let mut args = new_args();
    push_string(&mut args, root.clone());
    match f {
        Flavor::Debian | Flavor::Ubuntu => {
            push_lit(&mut args, "apt");
            push_lit(&mut args, "install");
            push_lit(&mut args, "-y");
            push_string(&mut args, kernel_package(f));
            push_lit(&mut args, "systemd-sysv");
            push_lit(&mut args, "grub2-common");
            push_lit(&mut args, "grub-efi-amd64-bin");
            push_lit(&mut args, "initramfs-tools");
        },
        Flavor::Alpine => {
            push_lit(&mut args, "apk");
            push_lit(&mut args, "add");
            push_lit(&mut args, "grub-efi");
            push_lit(&mut args, "mkinitfs");
            push_lit(&mut args, "alpine-conf");
            push_lit(&mut args, "linux-lts");
        },
    }
    let c = cmd("chroot", args);
    proof {
        assert(c@ =~~= base_install_model(f, root@));
    }
    c
}

/// The chrooted installation of the caller-supplied extra packages: exactly
/// those names, appended to the base install invocation.
pub open spec fn extra_install_model(root: Seq<char>, extras: Seq<Seq<char>>) -> CmdModel {
    cmd_model("chroot"@, seq![root, "apt"@, "install"@, "-y"@] + extras)
}

/// The command that installs the caller-supplied extra package list.
pub fn extra_install_cmd(root: &String, extras: &Vec<String>) -> (c: Cmd)
    ensures
        c@ == extra_install_model(root@, extras.deep_view()),
{
    let mut args = new_args();
    push_string(&mut args, root.clone());
    push_lit(&mut args, "apt");
    push_lit(&mut args, "install");
    push_lit(&mut args, "-y");
    let ghost base = seq![root@, "apt"@, "install"@, "-y"@];
    proof {
        assert(args.deep_view() =~= base + extras.deep_view().take(0));
    }
    let n: usize = extras.len();
    let mut i: usize = 0;
    while i < n
        invariant
            i <= n,
            n == extras@.len(),
            args.deep_view() =~= base + extras.deep_view().take(i as int),
        decreases n - i,
    {
        push_string(&mut args, extras[i].clone());
        proof {
            assert(extras.deep_view().take(i + 1) =~= extras.deep_view().take(i as int).push(
                extras@[i as int]@));
            assert(args.deep_view() =~= base + extras.deep_view().take(i + 1));
        }
        i = i + 1;
    }
    proof {
        assert(extras.deep_view().take(n as int) =~= extras.deep_view());
    }
    let c = cmd("chroot", args);
    proof {
        assert(c@ =~~= extra_install_model(root@, extras.deep_view()));
    }
    c
}

/// The answer file consumed by Alpine's quick-setup tool: keymap, hostname,
/// network interfaces, DNS, timezone, repository mode, and the disk-setup
/// target.
pub open spec fn alpine_answers_model() -> Seq<Seq<char>> {
    seq![
        ""@,
        "KEYMAPOPTS=\"us us\""@,
        "HOSTNAMEOPTS=\"-n alpine\""@,
        "DEVDOPTS=\"mdev\""@,
        "INTERFACESOPTS=\"auto lo"@,
        "iface lo inet loopback"@,
        ""@,
        "auto eth0"@,
        "iface eth0 inet dhcp"@,
        "    hostname alpine"@,
        "\""@,
        "DNSOPTS=\"-d example.com 8.8.8.8\""@,
        "TIMEZONEOPTS=\"-z UTC\""@,
        "APKREPOSOPTS=\"-1\""@,
        "SSHDOPTS=\"-c openssh\""@,
        "NTPOPTS=\"-c openntpd\""@,
        "DISKOPTS=\"-m sys /\""@,
    ]
}

/// The lines of the Alpine answer file.
pub fn alpine_answers_lines() -> (r: Vec<String>)
    ensures
        r.deep_view() == alpine_answers_model(),
{
    let mut r: Vec<String> = Vec::new();
    push_lit(&mut r, "");
    push_lit(&mut r, "KEYMAPOPTS=\"us us\"");
    push_lit(&mut r, "HOSTNAMEOPTS=\"-n alpine\"");
    push_lit(&mut r, "DEVDOPTS=\"mdev\"");
    push_lit(&mut r, "INTERFACESOPTS=\"auto lo");
    push_lit(&mut r, "iface lo inet loopback");
    push_lit(&mut r, "");
    push_lit(&mut r, "auto eth0");
    push_lit(&mut r, "iface eth0 inet dhcp");
    push_lit(&mut r, "    hostname alpine");
    push_lit(&mut r, "\"");
    push_lit(&mut r, "DNSOPTS=\"-d example.com 8.8.8.8\"");
    push_lit(&mut r, "TIMEZONEOPTS=\"-z UTC\"");
    push_lit(&mut r, "APKREPOSOPTS=\"-1\"");
    push_lit(&mut r, "SSHDOPTS=\"-c openssh\"");
    push_lit(&mut r, "NTPOPTS=\"-c openntpd\"");
    push_lit(&mut r, "DISKOPTS=\"-m sys /\"");
    proof {
        assert(r.deep_view() =~= alpine_answers_model());
    }
    r
}

/// The quick-setup invocation: run inside the chroot against the answer
/// file, with the environment selecting EFI mode.
pub open spec fn setup_alpine_model(root: Seq<char>) -> CmdModel {
    CmdModel {
        program: "chroot"@,
        args: seq![root, "setup-alpine"@, "-q"@, "-f"@, "/answers"@],
        env: seq![EnvVarModel { name: "USE_EFI"@, value: "1"@ }],
    }
}

/// The command that runs Alpine's quick-setup tool.
pub fn setup_alpine_cmd(root: &String) -> (c: Cmd)
    ensures
        c@ == setup_alpine_model(root@),
{
    let mut args = new_args();
    push_string(&mut args, root.clone());
    push_lit(&mut args, "setup-alpine");
    push_lit(&mut args, "-q");
    push_lit(&mut args, "-f");
    push_lit(&mut args, "/answers");
    let mut env: Vec<crate::cmd::EnvVar> = Vec::new();
    env.push(env_var("USE_EFI", "1"));
    let c = cmd_with_env("chroot", args, env);
    proof {
        assert(c@.env =~= seq![EnvVarModel { name: "USE_EFI"@, value: "1"@ }]);
        assert(c@ =~~= setup_alpine_model(root@));
    }
    c
}

/// The removal of the consumed answer file.
pub open spec fn remove_answers_model(root: Seq<char>) -> CmdModel {
    cmd_model("chroot"@, seq![root, "rm"@, "/answers"@])
}

/// The command that removes the consumed answer file.
pub fn remove_answers_cmd(root: &String) -> (c: Cmd)
    ensures
        c@ == remove_answers_model(root@),
{
    let mut args = new_args();
    push_string(&mut args, root.clone());
    push_lit(&mut args, "rm");
    push_lit(&mut args, "/answers");
    let c = cmd("chroot", args);
    proof {
        assert(c@ =~~= remove_answers_model(root@));
    }
    c
}

/// The read-back of the installed-package list inside the chroot.
pub open spec fn installed_query_model(root: Seq<char>) -> CmdModel {
    cmd_model("chroot"@, seq![root, "apk"@, "info"@])
}

/// The command that lists the installed packages inside the chroot.
pub fn installed_query_cmd(root: &String) -> (c: Cmd)
    ensures
        c@ == installed_query_model(root@),
{
    let mut args = new_args();
    push_string(&mut args, root.clone());
    push_lit(&mut args, "apk");
    push_lit(&mut args, "info");
    let c = cmd("chroot", args);
    proof {
        assert(c@ =~~= installed_query_model(root@));
    }
    c
}

/// The packages the Alpine path declares; the installed-package read-back
/// must find every one of them.
pub open spec fn alpine_declared_model() -> Seq<Seq<char>> {
    seq!["grub-efi"@, "mkinitfs"@, "alpine-conf"@, "linux-lts"@]
}

/// The packages the Alpine path declares.
pub fn alpine_declared_packages() -> (r: Vec<String>)
    ensures
        r.deep_view() == alpine_declared_model(),
{
    let mut r: Vec<String> = Vec::new();
    push_lit(&mut r, "grub-efi");
    push_lit(&mut r, "mkinitfs");
    push_lit(&mut r, "alpine-conf");
    push_lit(&mut r, "linux-lts");
    proof {
        assert(r.deep_view() =~= alpine_declared_model());
    }
    r
}

/// The background services the quick-setup tool starts; they hold open file
/// descriptors under the bind-mounted device tree and must be stopped before
/// teardown unmounts it.
pub open spec fn guard_services_model() -> Seq<Seq<char>> {
    seq!["crond"@, "acpid"@]
}

/// The services the Alpine teardown guard stops.
pub fn guard_services() -> (r: Vec<String>)
    ensures
        r.deep_view() == guard_services_model(),
{
    let mut r: Vec<String> = Vec::new();
    push_lit(&mut r, "crond");
    push_lit(&mut r, "acpid");
    proof {
        assert(r.deep_view() =~= guard_services_model());
    }
    r
}

/// Every name in `xs` occurs in `ys`.
pub open spec fn all_contained(xs: Seq<Seq<char>>, ys: Seq<Seq<char>>) -> bool {
    forall|i: int| 0 <= i < xs.len() ==> ys.contains(#[trigger] xs[i])
}

/// Whether every declared package occurs in the installed-package list the
/// chroot reported back.
pub fn packages_persisted(declared: &Vec<String>, installed: &Vec<String>) -> (b: bool)
    ensures
        b == all_contained(declared.deep_view(), installed.deep_view()),
{
    let n: usize = declared.len();
    let mut i: usize = 0;
    while i < n
        invariant
            i <= n,
            n == declared@.len(),
            forall|j: int| 0 <= j < i ==> installed.deep_view().contains(
                #[trigger] declared.deep_view()[j],
            ),
        decreases n - i,
    {
        if !crate::text::contains_string(installed, &declared[i]) {
            proof {
                assert(!installed.deep_view().contains(declared.deep_view()[i as int]));
            }
            return false;
        }
        i = i + 1;
    }
    true
}

/// The kernel version the initramfs is rebuilt for: the name of the single
/// kernel-module directory. Zero or several directories is a fatal
/// precondition violation, not a retryable failure.
pub fn select_kernel_version(dirs: &Vec<String>) -> (r: Result<String, PipelineError>)
    ensures
        dirs@.len() == 1 ==> r is Ok && r->Ok_0@ == dirs.deep_view()[0],
        dirs@.len() != 1 ==> r is Err && r->Err_0@ == (PipelineErrorModel::Precondition {
            what: "incorrect number of kernel vers"@,
        }),
{
    if dirs.len() == 1 {
        Ok(dirs[0].clone())
    } else {
        Err(PipelineError::Precondition { what: "incorrect number of kernel vers".to_owned() })
    }
}

/// The initramfs rebuild of the apt path.
pub open spec fn update_initramfs_model(root: Seq<char>) -> CmdModel {
    cmd_model("chroot"@, seq![root, "update-initramfs"@, "-u"@])
}

/// The command that rebuilds the initramfs on the apt path.
pub fn update_initramfs_cmd(root: &String) -> (c: Cmd)
    ensures
        c@ == update_initramfs_model(root@),
{
    let mut args = new_args();
    push_string(&mut args, root.clone());
    push_lit(&mut args, "update-initramfs");
    push_lit(&mut args, "-u");
    let c = cmd("chroot", args);
    proof {
        assert(c@ =~~= update_initramfs_model(root@));
    }
    c
}

/// The initramfs rebuild of the Alpine path, for the one detected kernel
/// version.
pub open spec fn mkinitfs_model(root: Seq<char>, kver: Seq<char>) -> CmdModel {
    cmd_model(
        "chroot"@,
        seq![root, "mkinitfs"@, "-c"@, "/etc/mkinitfs/mkinitfs.conf"@, "-b"@, "/"@, kver],
    )
}

/// The command that rebuilds the Alpine initramfs.
pub fn mkinitfs_cmd(root: &String, kver: &String) -> (c: Cmd)
    ensures
        c@ == mkinitfs_model(root@, kver@),
{
    let mut args = new_args();
    push_string(&mut args, root.clone());
    push_lit(&mut args, "mkinitfs");
    push_lit(&mut args, "-c");
    push_lit(&mut args, "/etc/mkinitfs/mkinitfs.conf");
    push_lit(&mut args, "-b");
    push_lit(&mut args, "/");
    push_string(&mut args, kver.clone());
    let c = cmd("chroot", args);
    proof {
        assert(c@ =~~= mkinitfs_model(root@, kver@));
    }
    c
}

/// The edit that opens a login console on the serial line of an Alpine
/// image.
pub open spec fn inittab_serial_model(root: Seq<char>) -> CmdModel {
    cmd_model(
        "chroot"@,
        seq![root, "sed"@, "-i"@, "-e"@, "s/^#ttyS0/ttyS0/g"@, "/etc/inittab"@],
    )
}

/// The command that enables the serial login console in the Alpine inittab.
pub fn inittab_serial_cmd(root: &String) -> (c: Cmd)
    ensures
        c@ == inittab_serial_model(root@),
{
    let mut args = new_args();
    push_string(&mut args, root.clone());
    push_lit(&mut args, "sed");
    push_lit(&mut args, "-i");
    push_lit(&mut args, "-e");
    push_lit(&mut args, "s/^#ttyS0/ttyS0/g");
    push_lit(&mut args, "/etc/inittab");
    let c = cmd("chroot", args);
    proof {
        assert(c@ =~~= inittab_serial_model(root@));
    }
    c
}

/// One service registration into a fixed runlevel.
pub open spec fn rc_add_model(root: Seq<char>, svc: Seq<char>, level: Seq<char>) -> CmdModel {
    cmd_model("chroot"@, seq![root, "rc-update"@, "add"@, svc, level])
}

fn rc_add_cmd(root: &String, svc: &str, level: &str) -> (c: Cmd)
    ensures
        c@ == rc_add_model(root@, svc@, level@),
{
    let mut args = new_args();
    push_string(&mut args, root.clone());
    push_lit(&mut args, "rc-update");
    push_lit(&mut args, "add");
    push_lit(&mut args, svc);
    push_lit(&mut args, level);
    let c = cmd("chroot", args);
    proof {
        assert(c@ =~~= rc_add_model(root@, svc@, level@));
    }
    c
}

/// The explicit runlevel table of the Alpine path: system services
/// registered into the boot, sysinit, default and shutdown runlevels, which
/// corrects upstream defaults that would start some daemons at the wrong
/// phase.
pub open spec fn alpine_runlevel_model(root: Seq<char>) -> Seq<CmdModel> {
    seq![
        rc_add_model(root, "devfs"@, "sysinit"@),
        rc_add_model(root, "dmesg"@, "sysinit"@),
        rc_add_model(root, "mdev"@, "sysinit"@),
        rc_add_model(root, "hwdrivers"@, "sysinit"@),
        rc_add_model(root, "modules"@, "boot"@),
        rc_add_model(root, "sysctl"@, "boot"@),
        rc_add_model(root, "hostname"@, "boot"@),
        rc_add_model(root, "bootmisc"@, "boot"@),
        rc_add_model(root, "syslog"@, "boot"@),
        rc_add_model(root, "networking"@, "default"@),
        rc_add_model(root, "crond"@, "default"@),
        rc_add_model(root, "acpid"@, "default"@),
        rc_add_model(root, "mount-ro"@, "shutdown"@),
        rc_add_model(root, "killprocs"@, "shutdown"@),
        rc_add_model(root, "savecache"@, "shutdown"@),
    ]
}

/// The commands that register the Alpine services into their runlevels.
pub fn alpine_runlevel_cmds(root: &String) -> (r: Vec<Cmd>)
    ensures
        r.deep_view() == alpine_runlevel_model(root@),
{
    let mut r: Vec<Cmd> = Vec::new();
    r.push(rc_add_cmd(root, "devfs", "sysinit"));
    r.push(rc_add_cmd(root, "dmesg", "sysinit"));
    r.push(rc_add_cmd(root, "mdev", "sysinit"));
    r.push(rc_add_cmd(root, "hwdrivers", "sysinit"));
    r.push(rc_add_cmd(root, "modules", "boot"));
    r.push(rc_add_cmd(root, "sysctl", "boot"));
    r.push(rc_add_cmd(root, "hostname", "boot"));
    r.push(rc_add_cmd(root, "bootmisc", "boot"));
    r.push(rc_add_cmd(root, "syslog", "boot"));
    r.push(rc_add_cmd(root, "networking", "default"));
    r.push(rc_add_cmd(root, "crond", "default"));
    r.push(rc_add_cmd(root, "acpid", "default"));
    r.push(rc_add_cmd(root, "mount-ro", "shutdown"));
    r.push(rc_add_cmd(root, "killprocs", "shutdown"));
    r.push(rc_add_cmd(root, "savecache", "shutdown"));
    proof {
        assert(r.deep_view() =~~= alpine_runlevel_model(root@));
    }
    r
}

} // verus!
