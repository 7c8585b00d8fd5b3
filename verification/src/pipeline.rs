//! The provisioning pipeline as a state machine. Each phase emits a batch
//! of steps as plain values; where a step reports back (the chosen loop
//! device, a probed UUID, the installed-package list, the kernel-module
//! directories), the machine consumes the captured output and decides the
//! next batch. A thin driver performs the steps in order and hands the
//! captured outputs back.
//!
//! Resources are acquired in a fixed order — the loop device, the root
//! mount, the EFI mount, the three bind mounts, and on the Alpine path the
//! service guard — and the closing batch releases them in exact reverse
//! order before the finished image is copied out.

use vstd::prelude::*;

use crate::bootconfig::{blkid_cmd, blkid_model, choose_root_password, device_map_lines,
    device_map_model, fstab_lines, fstab_model, grub_defaults_lines, grub_defaults_model,
    grub_install_cmd, grub_install_model, grub_mkconfig_cmd, grub_mkconfig_model, hostname_lines,
    hostname_model, hosts_lines, hosts_model, is_password_char, passwd_model, passwd_step,
    remove_device_map_cmd, remove_device_map_model};
use crate::cmd::{cmd, cmd_model, concat2, new_args, push_lit, push_string, Cmd, CmdModel};
use crate::devices::{bind_mount_cmds_model, create_disk_steps_model, img_path_model,
    mount_cmds_model, LoopbackDisk, Mount, MAX_DISK_SIZE_GB};
use crate::errors::{PipelineError, PipelineErrorModel};
use crate::flavor::{all_contained, alpine_answers_lines, alpine_answers_model,
    alpine_declared_model, alpine_declared_packages, alpine_runlevel_cmds, alpine_runlevel_model,
    base_install_cmd, base_install_model, extra_install_cmd, extra_install_model, guard_services,
    guard_services_model, inittab_serial_cmd, inittab_serial_model, installed_query_cmd,
    installed_query_model, is_apt_flavor, mkinitfs_cmd, mkinitfs_model, packages_persisted,
    remove_answers_cmd, remove_answers_model, repo_update_cmd, repo_update_model,
    setup_alpine_cmd, setup_alpine_model, update_initramfs_cmd, update_initramfs_model, Flavor};
use crate::partition::{format_cmd, format_model, gpt_layout, gpt_scheme, partition_cmds,
    partition_device_model, partition_device_path, partition_plan, FsKind};
use crate::resources::{teardown_trace, ResourceStack};
use crate::step::{Resource, ResourceModel, Step, StepModel};
use crate::text::{blkid_uuid_field, decoded_output, line_split, spec_starts_with, uuid_prefix};
use crate::unpack::{container_export_cmds, container_export_model, copy_resolv_model,
    copy_resolv_step, fresh_container_name, tar_extract_cmd, tar_extract_model};

verus! {

/// The pipeline's immutable input, fixed before any resource is touched.
#[derive(Debug)]
pub struct Config {
    /// The container image reference whose filesystem becomes the root.
    pub image_name: String,
    /// Where the finished disk image is copied.
    pub output_file: String,
    /// The blank disk's size in binary gigabytes.
    pub disk_size_gb: u64,
    /// The root password, or none to generate one.
    pub root_passwd: Option<String>,
    /// Extra packages installed on the apt path.
    pub extra_packages: Vec<String>,
    /// The target OS family.
    pub flavor: Flavor,
    /// The private working directory holding the backing file, the mounted
    /// tree and the export archive.
    pub working_dir: String,
}

/// The mathematical value of a configuration.
#[verifier::ext_equal]
pub struct ConfigModel {
    pub image_name: Seq<char>,
    pub output_file: Seq<char>,
    pub disk_size_gb: u64,
    pub root_passwd: Option<Seq<char>>,
    pub extra_packages: Seq<Seq<char>>,
    pub flavor: Flavor,
    pub working_dir: Seq<char>,
}

impl View for Config {
    type V = ConfigModel;

    open spec fn view(&self) -> ConfigModel {
        ConfigModel {
            image_name: self.image_name@,
            output_file: self.output_file@,
            disk_size_gb: self.disk_size_gb,
            root_passwd: self.root_passwd.deep_view(),
            extra_packages: self.extra_packages.deep_view(),
            flavor: self.flavor,
            working_dir: self.working_dir@,
        }
    }
}

/// A well-formed configuration: the disk size is at least one gigabyte and
/// its byte length fits the backing file's length field.
pub open spec fn config_wf(c: ConfigModel) -> bool {
    1 <= c.disk_size_gb <= MAX_DISK_SIZE_GB
}

/// Where the root partition is mounted.
pub open spec fn mount_root_model(c: ConfigModel) -> Seq<char> {
    c.working_dir + "/mnt"@
}

/// Where the EFI system partition is mounted, under the root mount.
pub open spec fn efi_mount_model(c: ConfigModel) -> Seq<char> {
    mount_root_model(c) + "/boot/efi"@
}

/// Where the container export archive is written.
pub open spec fn export_path_model(c: ConfigModel) -> Seq<char> {
    c.working_dir + "/export.tar"@
}

fn mount_root_string(c: &Config) -> (r: String)
    ensures
        r@ == mount_root_model(c@),
{
    concat2(c.working_dir.as_str(), "/mnt")
}

/// The creation of a directory and any missing parents.
pub open spec fn mkdir_p_model(dest: Seq<char>) -> CmdModel {
    cmd_model("mkdir"@, seq!["-p"@, dest])
}

fn mkdir_p_cmd(dest: String) -> (c: Cmd)
    ensures
        c@ == mkdir_p_model(dest@),
{
    let mut args = new_args();
    push_lit(&mut args, "-p");
    push_string(&mut args, dest);
    let c = cmd("mkdir", args);
    proof {
        assert(c@ =~~= mkdir_p_model(c@.args[1]));
    }
    c
}

/// The display of a written file back to the operator.
pub open spec fn cat_model(path: Seq<char>) -> CmdModel {
    cmd_model("cat"@, seq![path])
}

fn cat_cmd(path: String) -> (c: Cmd)
    ensures
        c@ == cat_model(path@),
{
    let mut args = new_args();
    push_string(&mut args, path);
    let c = cmd("cat", args);
    proof {
        assert(c@ =~~= cat_model(c@.args[0]));
    }
    c
}

/// A command wrapped as a run step.
pub open spec fn run_step(c: CmdModel) -> StepModel {
    StepModel::Run(c)
}

fn push_run_cmd(out: &mut Vec<Step>, c: Cmd)
    ensures
        final(out).deep_view() == old(out).deep_view().push(run_step(c@)),
{
    out.push(Step::Run(c));
    proof {
        assert(out.deep_view() =~= old(out).deep_view().push(run_step(c@)));
    }
}

fn push_step(out: &mut Vec<Step>, s: Step)
    ensures
        final(out).deep_view() == old(out).deep_view().push(s@),
{
    out.push(s);
    proof {
        assert(out.deep_view() =~= old(out).deep_view().push(s@));
    }
}

/// Appends every command as a run step, in order.
fn push_runs(out: &mut Vec<Step>, cmds: Vec<Cmd>)
    ensures
        final(out).deep_view() == old(out).deep_view() + cmds.deep_view().map_values(
            |c: CmdModel| run_step(c),
        ),
{
    let ghost cv = cmds.deep_view();
    let mut cmds = cmds;
    let mut rev: Vec<Cmd> = Vec::new();
    while cmds.len() > 0
        invariant
            cmds@.len() + rev@.len() == cv.len(),
            forall|j: int| 0 <= j < cmds@.len() ==> (#[trigger] cmds@[j]).deep_view() == cv[j],
            forall|j: int|
                0 <= j < rev@.len() ==> (#[trigger] rev@[j]).deep_view() == cv[cv.len() - 1 - j],
        decreases cmds@.len(),
    {
        let ghost k = cmds@.len() as int;
        let ghost prevv = cmds@;
        let c = cmds.pop().unwrap();
        proof {
            assert(cmds@ =~= prevv.subrange(0, k - 1));
            assert(c == prevv[k - 1]);
            assert(c.deep_view() == cv[k - 1]);
        }
        let ghost rv = rev@;
        rev.push(c);
        proof {
            assert(rev@ =~= rv.push(c));
        }
    }
    let ghost out0 = out.deep_view();
    while rev.len() > 0
        invariant
            rev@.len() <= cv.len(),
            forall|j: int|
                0 <= j < rev@.len() ==> (#[trigger] rev@[j]).deep_view() == cv[cv.len() - 1 - j],
            out.deep_view() =~= out0 + cv.take(cv.len() - rev@.len()).map_values(
                |c: CmdModel| run_step(c),
            ),
        decreases rev@.len(),
    {
        let ghost k = cv.len() - rev@.len();
        let ghost prevv = rev@;
        let c = rev.pop().unwrap();
        proof {
            assert(rev@ =~= prevv.subrange(0, prevv.len() - 1));
            assert(c == prevv[prevv.len() - 1]);
            assert(c.deep_view() == cv[k]);
        }
        push_run_cmd(out, c);
        proof {
            assert(cv.take(k + 1) =~= cv.take(k).push(cv[k]));
            assert(out.deep_view() =~= out0 + cv.take(k + 1).map_values(
                |c: CmdModel| run_step(c),
            ));
        }
    }
    proof {
        assert(cv.take(cv.len() as int) =~= cv);
        assert(out.deep_view() =~= out0 + cv.map_values(|c: CmdModel| run_step(c)));
    }
}

/// The opening batch: announce the run, create the blank backing file, and
/// attach it to the next free loop device, capturing the chosen path.
pub open spec fn begin_steps_model(c: ConfigModel) -> Seq<StepModel> {
    seq![
        StepModel::Print {
            text: "Creating a bootable image "@ + c.output_file + " out of "@ + c.image_name,
        },
    ] + create_disk_steps_model(c.working_dir, c.disk_size_gb)
}

fn begin_steps(c: &Config) -> (out: Vec<Step>)
    requires
        config_wf(c@),
    ensures
        out.deep_view() == begin_steps_model(c@),
{
    let mut out: Vec<Step> = Vec::new();
    let mut text = concat2("Creating a bootable image ", c.output_file.as_str());
    text.append(" out of ");
    text.append(c.image_name.as_str());
    push_step(&mut out, Step::Print { text });
    let mut disk = LoopbackDisk::create_steps(&c.working_dir, c.disk_size_gb);
    let ghost d = disk.deep_view();
    let ghost out0 = out.deep_view();
    out.append(&mut disk);
    proof {
        assert(out.deep_view() =~= out0 + d);
        assert(out.deep_view() =~~= begin_steps_model(c@));
    }
    out
}

/// The flavor-specific tail of the provisioning batch: the package
/// installation, and the first capture the next phase waits for. The apt
/// path installs the base packages and the caller's extra packages, then
/// probes the root partition's UUID. The Alpine path installs its
/// packages, writes and consumes the quick-setup answer file, records the
/// guard over the services the setup tool started, and reads back the
/// installed-package list.
pub open spec fn install_tail_model(c: ConfigModel, lp: Seq<char>) -> Seq<StepModel> {
    let root = mount_root_model(c);
    if is_apt_flavor(c.flavor) {
        seq![run_step(base_install_model(c.flavor, root))] + (if c.extra_packages.len() == 0 {
            Seq::<StepModel>::empty()
        } else {
            seq![run_step(extra_install_model(root, c.extra_packages))]
        }) + seq![StepModel::RunCapture(blkid_model(partition_device_model(lp, 3)))]
    } else {
        seq![
            run_step(base_install_model(c.flavor, root)),
            StepModel::WriteFile { path: root + "/answers"@, lines: alpine_answers_model() },
            run_step(setup_alpine_model(root)),
            run_step(remove_answers_model(root)),
            StepModel::Acquire(
                ResourceModel::ServiceGuard { root, services: guard_services_model() },
            ),
            StepModel::RunCapture(installed_query_model(root)),
        ]
    }
}

fn install_tail_steps(c: &Config, lp: &String) -> (out: Vec<Step>)
    ensures
        out.deep_view() == install_tail_model(c@, lp@),
{
    let root = mount_root_string(c);
    let mut out: Vec<Step> = Vec::new();
    push_run_cmd(&mut out, base_install_cmd(c.flavor, &root));
    match c.flavor {
        Flavor::Debian | Flavor::Ubuntu => {
            if c.extra_packages.len() > 0 {
                push_run_cmd(&mut out, extra_install_cmd(&root, &c.extra_packages));
            }
            let p3 = partition_device_path(lp, 3);
            push_step(&mut out, Step::RunCapture(blkid_cmd(&p3)));
        },
        Flavor::Alpine => {
            push_step(
                &mut out,
                Step::WriteFile {
                    path: concat2(root.as_str(), "/answers"),
                    lines: alpine_answers_lines(),
                },
            );
            push_run_cmd(&mut out, setup_alpine_cmd(&root));
            push_run_cmd(&mut out, remove_answers_cmd(&root));
            push_step(
                &mut out,
                Step::Acquire(
                    Resource::ServiceGuard { root: root.clone(), services: guard_services() },
                ),
            );
            push_step(&mut out, Step::RunCapture(installed_query_cmd(&root)));
        },
    }
    proof {
        assert(out.deep_view() =~~= install_tail_model(c@, lp@));
    }
    out
}

/// The provisioning batch, emitted once the loop device is known: record
/// the attachment, partition and re-scan the disk, format and mount the
/// root and EFI partitions, unpack the container export into the root,
/// copy the resolver configuration, bind-mount the device, process and
/// sysfs trees, update the package index, and run the flavor's
/// installation tail.
pub open spec fn provision_steps_model(c: ConfigModel, lp: Seq<char>, cn: Seq<char>) -> Seq<
    StepModel,
> {
    let root = mount_root_model(c);
    let efi = efi_mount_model(c);
    let p2 = partition_device_model(lp, 2);
    let p3 = partition_device_model(lp, 3);
    seq![
        StepModel::Acquire(ResourceModel::LoopDevice { path: lp }),
        StepModel::Print { text: "> Main disk at "@ + lp },
    ] + partition_plan(gpt_scheme(), lp).map_values(|c: CmdModel| run_step(c)) + seq![
        run_step(format_model(FsKind::Vfat32, p2)),
        run_step(format_model(FsKind::Ext4, p3)),
    ] + mount_cmds_model(p3, root).map_values(|c: CmdModel| run_step(c)) + seq![
        StepModel::Acquire(ResourceModel::MountPoint { dest: root }),
    ] + mount_cmds_model(p2, efi).map_values(|c: CmdModel| run_step(c)) + seq![
        StepModel::Acquire(ResourceModel::MountPoint { dest: efi }),
        run_step(mkdir_p_model(root + "/boot/efi/EFI/BOOT/"@)),
    ] + container_export_model(c.image_name, cn, export_path_model(c)).map_values(
        |c: CmdModel| run_step(c),
    ) + seq![
        run_step(tar_extract_model(root, export_path_model(c))),
        copy_resolv_model(root),
    ] + bind_mount_cmds_model("/dev"@, root + "/dev"@).map_values(|c: CmdModel| run_step(c))
        + seq![StepModel::Acquire(ResourceModel::BindMount { dest: root + "/dev"@ })]
        + bind_mount_cmds_model("/proc"@, root + "/proc"@).map_values(|c: CmdModel| run_step(c))
        + seq![StepModel::Acquire(ResourceModel::BindMount { dest: root + "/proc"@ })]
        + bind_mount_cmds_model("/sys"@, root + "/sys"@).map_values(|c: CmdModel| run_step(c))
        + seq![
        StepModel::Acquire(ResourceModel::BindMount { dest: root + "/sys"@ }),
        run_step(repo_update_model(c.flavor, root)),
    ] + install_tail_model(c, lp)
}

#[verifier::rlimit(100)]
fn provision_steps(c: &Config, lp: &String, cn: &String) -> (out: Vec<Step>)
    ensures
        out.deep_view() == provision_steps_model(c@, lp@, cn@),
{
    let root = mount_root_string(c);
    let efi = concat2(root.as_str(), "/boot/efi");
    let p2 = partition_device_path(lp, 2);
    let p3 = partition_device_path(lp, 3);
    let export_path = concat2(c.working_dir.as_str(), "/export.tar");
    let mut out: Vec<Step> = Vec::new();
    push_step(&mut out, Step::Acquire(Resource::LoopDevice { path: lp.clone() }));
    push_step(&mut out, Step::Print { text: concat2("> Main disk at ", lp.as_str()) });
    let layout = gpt_layout();
    push_runs(&mut out, partition_cmds(&layout, lp));
    push_run_cmd(&mut out, format_cmd(FsKind::Vfat32, &p2));
    push_run_cmd(&mut out, format_cmd(FsKind::Ext4, &p3));
    let (_root_mount, root_cmds) = Mount::new(p3.clone(), root.clone());
    push_runs(&mut out, root_cmds);
    push_step(&mut out, Step::Acquire(Resource::MountPoint { dest: root.clone() }));
    let (_efi_mount, efi_cmds) = Mount::new(p2.clone(), efi.clone());
    push_runs(&mut out, efi_cmds);
    push_step(&mut out, Step::Acquire(Resource::MountPoint { dest: efi.clone() }));
    push_run_cmd(&mut out, mkdir_p_cmd(concat2(root.as_str(), "/boot/efi/EFI/BOOT/")));
    push_runs(&mut out, container_export_cmds(&c.image_name, cn, &export_path));
    push_run_cmd(&mut out, tar_extract_cmd(&root, &export_path));
    push_step(&mut out, copy_resolv_step(&root));
    let dev_dest = concat2(root.as_str(), "/dev");
    let (_b1, dev_cmds) = Mount::bind(String::from_str("/dev"), dev_dest.clone());
    push_runs(&mut out, dev_cmds);
    push_step(&mut out, Step::Acquire(Resource::BindMount { dest: dev_dest }));
    let proc_dest = concat2(root.as_str(), "/proc");
    let (_b2, proc_cmds) = Mount::bind(String::from_str("/proc"), proc_dest.clone());
    push_runs(&mut out, proc_cmds);
    push_step(&mut out, Step::Acquire(Resource::BindMount { dest: proc_dest }));
    let sys_dest = concat2(root.as_str(), "/sys");
    let (_b3, sys_cmds) = Mount::bind(String::from_str("/sys"), sys_dest.clone());
    push_runs(&mut out, sys_cmds);
    push_step(&mut out, Step::Acquire(Resource::BindMount { dest: sys_dest }));
    push_run_cmd(&mut out, repo_update_cmd(c.flavor, &root));
    let mut tail = install_tail_steps(c, lp);
    let ghost t = tail.deep_view();
    let ghost out0 = out.deep_view();
    out.append(&mut tail);
    proof {
        assert(out.deep_view() =~= out0 + t);
        assert(out.deep_view() =~~= provision_steps_model(c@, lp@, cn@));
    }
    out
}


/// The resources a run holds once provisioning is complete, in acquisition
/// order: the loop device first, then the root mount, the EFI mount, the
/// three bind mounts, and on the Alpine path the service guard.
pub open spec fn pipeline_resources(c: ConfigModel, lp: Seq<char>) -> Seq<ResourceModel> {
    let root = mount_root_model(c);
    seq![
        ResourceModel::LoopDevice { path: lp },
        ResourceModel::MountPoint { dest: root },
        ResourceModel::MountPoint { dest: efi_mount_model(c) },
        ResourceModel::BindMount { dest: root + "/dev"@ },
        ResourceModel::BindMount { dest: root + "/proc"@ },
        ResourceModel::BindMount { dest: root + "/sys"@ },
    ] + (if is_apt_flavor(c.flavor) {
        Seq::<ResourceModel>::empty()
    } else {
        seq![
            ResourceModel::ServiceGuard { root, services: guard_services_model() },
        ]
    })
}

/// The closing batch: announce and set the root password, release every
/// held resource in exact reverse order of acquisition, and copy the
/// finished image to the caller's output path.
pub open spec fn closing_steps_model(c: ConfigModel, lp: Seq<char>, pw: Seq<char>) -> Seq<
    StepModel,
> {
    seq![
        StepModel::Print { text: "> set root password as "@ + pw },
        passwd_model(mount_root_model(c), pw),
    ] + teardown_trace(pipeline_resources(c, lp)) + seq![
        StepModel::CopyFile { src: img_path_model(c.working_dir), dest: c.output_file },
        StepModel::Print { text: "> wrote "@ + c.output_file },
    ]
}

fn closing_steps(c: &Config, pw: &String, stack: &mut ResourceStack) -> (out: Vec<Step>)
    ensures
        out.deep_view() == seq![
            StepModel::Print { text: "> set root password as "@ + pw@ },
            passwd_model(mount_root_model(c@), pw@),
        ] + teardown_trace(old(stack)@) + seq![
            StepModel::CopyFile { src: img_path_model(c@.working_dir), dest: c@.output_file },
            StepModel::Print { text: "> wrote "@ + c@.output_file },
        ],
        final(stack)@ == Seq::<ResourceModel>::empty(),
{
    let root = mount_root_string(c);
    let mut out: Vec<Step> = Vec::new();
    push_step(
        &mut out,
        Step::Print { text: concat2("> set root password as ", pw.as_str()) },
    );
    push_step(&mut out, passwd_step(&root, pw));
    let mut teardown = stack.teardown_steps();
    let ghost t = teardown.deep_view();
    let ghost out0 = out.deep_view();
    out.append(&mut teardown);
    proof {
        assert(out.deep_view() =~= out0 + t);
    }
    let img = concat2(c.working_dir.as_str(), "/output.img");
    push_step(&mut out, Step::CopyFile { src: img, dest: c.output_file.clone() });
    push_step(&mut out, Step::Print { text: concat2("> wrote ", c.output_file.as_str()) });
    proof {
        assert(out.deep_view() =~~= seq![
            StepModel::Print { text: "> set root password as "@ + pw@ },
            passwd_model(mount_root_model(c@), pw@),
        ] + teardown_trace(old(stack)@) + seq![
            StepModel::CopyFile { src: img_path_model(c@.working_dir), dest: c@.output_file },
            StepModel::Print { text: "> wrote "@ + c@.output_file },
        ]);
    }
    out
}

/// The boot configuration written once both filesystem UUIDs are known:
/// the fstab, the grub device map and defaults, the hostname and hosts
/// files, the bootloader installation, the boot menu, and the removal of
/// the stale device map.
pub open spec fn bootconfig_core_model(
    c: ConfigModel,
    lp: Seq<char>,
    root_uuid: Seq<char>,
    efi_uuid: Seq<char>,
) -> Seq<StepModel> {
    let root = mount_root_model(c);
    seq![
        StepModel::WriteFile {
            path: root + "/etc/fstab"@,
            lines: fstab_model(root_uuid, efi_uuid, None, c.flavor),
        },
        run_step(cat_model(root + "/etc/fstab"@)),
        run_step(mkdir_p_model(root + "/boot/grub/"@)),
        StepModel::WriteFile { path: root + "/boot/grub/device.map"@, lines: device_map_model(lp) },
        run_step(mkdir_p_model(root + "/etc/default/"@)),
        StepModel::WriteFile {
            path: root + "/etc/default/grub"@,
            lines: grub_defaults_model(root_uuid, c.flavor),
        },
        StepModel::WriteFile { path: root + "/etc/hostname"@, lines: hostname_model() },
        StepModel::WriteFile { path: root + "/etc/hosts"@, lines: hosts_model() },
        run_step(grub_install_model(root, lp)),
        run_step(grub_mkconfig_model(root)),
        run_step(remove_device_map_model(root)),
    ]
}

#[verifier::rlimit(50)]
fn bootconfig_core_steps(c: &Config, lp: &String, root_uuid: &String, efi_uuid: &String) -> (out:
    Vec<Step>)
    ensures
        out.deep_view() == bootconfig_core_model(c@, lp@, root_uuid@, efi_uuid@),
{
    let root = mount_root_string(c);
    let mut out: Vec<Step> = Vec::new();
    push_step(
        &mut out,
        Step::WriteFile {
            path: concat2(root.as_str(), "/etc/fstab"),
            lines: fstab_lines(root_uuid, efi_uuid, &None, c.flavor),
        },
    );
    push_run_cmd(&mut out, cat_cmd(concat2(root.as_str(), "/etc/fstab")));
    push_run_cmd(&mut out, mkdir_p_cmd(concat2(root.as_str(), "/boot/grub/")));
    push_step(
        &mut out,
        Step::WriteFile {
            path: concat2(root.as_str(), "/boot/grub/device.map"),
            lines: device_map_lines(lp),
        },
    );
    push_run_cmd(&mut out, mkdir_p_cmd(concat2(root.as_str(), "/etc/default/")));
    push_step(
        &mut out,
        Step::WriteFile {
            path: concat2(root.as_str(), "/etc/default/grub"),
            lines: grub_defaults_lines(root_uuid, c.flavor),
        },
    );
    push_step(
        &mut out,
        Step::WriteFile { path: concat2(root.as_str(), "/etc/hostname"), lines: hostname_lines() },
    );
    push_step(
        &mut out,
        Step::WriteFile { path: concat2(root.as_str(), "/etc/hosts"), lines: hosts_lines() },
    );
    push_run_cmd(&mut out, grub_install_cmd(&root, lp));
    push_run_cmd(&mut out, grub_mkconfig_cmd(&root));
    push_run_cmd(&mut out, remove_device_map_cmd(&root));
    proof {
        assert(Option::<String>::None.deep_view() is None);
        assert(out.deep_view() =~~= bootconfig_core_model(c@, lp@, root_uuid@, efi_uuid@));
    }
    out
}

/// The Alpine finishing batch, once the single kernel version is known:
/// rebuild the initramfs for it, open the serial login console, register
/// the services into their runlevels, and close the run.
pub open spec fn kernel_steps_model(
    c: ConfigModel,
    lp: Seq<char>,
    kver: Seq<char>,
    pw: Seq<char>,
) -> Seq<StepModel> {
    let root = mount_root_model(c);
    seq![
        run_step(mkinitfs_model(root, kver)),
        run_step(inittab_serial_model(root)),
    ] + alpine_runlevel_model(root).map_values(|cm: CmdModel| run_step(cm)) + closing_steps_model(
        c,
        lp,
        pw,
    )
}

/// The pipeline's phases. A phase that awaits something names what the
/// driver hands back next.
#[derive(Clone, Copy, Debug, PartialEq, Eq, Structural)]
pub enum Phase {
    /// Nothing has happened yet.
    Start,
    /// The attach command's captured output is awaited.
    AwaitLoopPath,
    /// The chroot's installed-package list is awaited (Alpine only).
    AwaitInstalledPackages,
    /// The root partition's UUID probe is awaited.
    AwaitRootUuid,
    /// The EFI partition's UUID probe is awaited.
    AwaitEfiUuid,
    /// The kernel-module directory listing is awaited (Alpine only).
    AwaitKernelModules,
    /// The run is complete.
    Done,
}

/// What the driver hands back to the machine.
#[derive(Debug)]
pub enum Event {
    /// Start the run.
    Begin,
    /// The captured stdout of the last capture step.
    Output(Vec<u8>),
    /// The entry names of the listed directory.
    Entries(Vec<String>),
}

/// The mathematical value of an event.
#[verifier::ext_equal]
pub enum EventModel {
    Begin,
    Output(Seq<u8>),
    Entries(Seq<Seq<char>>),
}

impl View for Event {
    type V = EventModel;

    open spec fn view(&self) -> EventModel {
        match self {
            Event::Begin => EventModel::Begin,
            Event::Output(bytes) => EventModel::Output(bytes@),
            Event::Entries(names) => EventModel::Entries(names.deep_view()),
        }
    }
}

/// The mathematical value of the machine: its input, its phase, the
/// resources it holds, and what it has parsed so far.
#[verifier::ext_equal]
pub struct PipelineModel {
    pub cfg: ConfigModel,
    pub phase: Phase,
    pub held: Seq<ResourceModel>,
    pub container_name: Seq<char>,
    pub password: Seq<char>,
    pub loop_path: Option<Seq<char>>,
    pub root_uuid: Option<Seq<char>>,
}

/// A well-formed machine: the configuration is valid, and the held
/// resources and parsed values match the phase.
pub open spec fn pipeline_wf(m: PipelineModel) -> bool {
    &&& config_wf(m.cfg)
    &&& match m.phase {
        Phase::Start | Phase::AwaitLoopPath => m.held == Seq::<ResourceModel>::empty()
            && m.loop_path is None && m.root_uuid is None,
        Phase::AwaitInstalledPackages => m.cfg.flavor == Flavor::Alpine && m.loop_path is Some
            && m.root_uuid is None && m.held == pipeline_resources(m.cfg, m.loop_path->0),
        Phase::AwaitRootUuid => m.loop_path is Some && m.root_uuid is None && m.held
            == pipeline_resources(m.cfg, m.loop_path->0),
        Phase::AwaitEfiUuid => m.loop_path is Some && m.root_uuid is Some && m.held
            == pipeline_resources(m.cfg, m.loop_path->0),
        Phase::AwaitKernelModules => m.cfg.flavor == Flavor::Alpine && m.loop_path is Some
            && m.held == pipeline_resources(m.cfg, m.loop_path->0),
        Phase::Done => m.held == Seq::<ResourceModel>::empty(),
    }
}

/// The machine's full transition relation: for a phase and the event it
/// awaits, the next state and the emitted batch; for a rejected input or an
/// unexpected event, the failure.
pub open spec fn advance_spec(m: PipelineModel, ev: EventModel) -> Result<
    (PipelineModel, Seq<StepModel>),
    PipelineErrorModel,
> {
    match (m.phase, ev) {
        (Phase::Start, EventModel::Begin) => Ok(
            (PipelineModel { phase: Phase::AwaitLoopPath, ..m }, begin_steps_model(m.cfg)),
        ),
        (Phase::AwaitLoopPath, EventModel::Output(bytes)) => {
            let lp = decoded_output(bytes);
            if lp.len() == 0 {
                Err(
                    PipelineErrorModel::ResourceAcquisition {
                        what: "no loop device path in the attach report"@,
                    },
                )
            } else {
                Ok(
                    (
                        PipelineModel {
                            phase: if is_apt_flavor(m.cfg.flavor) {
                                Phase::AwaitRootUuid
                            } else {
                                Phase::AwaitInstalledPackages
                            },
                            held: pipeline_resources(m.cfg, lp),
                            loop_path: Some(lp),
                            ..m
                        },
                        provision_steps_model(m.cfg, lp, m.container_name),
                    ),
                )
            }
        },
        (Phase::AwaitInstalledPackages, EventModel::Output(bytes)) => {
            if all_contained(alpine_declared_model(), line_split(decoded_output(bytes))) {
                Ok(
                    (
                        PipelineModel { phase: Phase::AwaitRootUuid, ..m },
                        seq![
                            StepModel::RunCapture(
                                blkid_model(partition_device_model(m.loop_path->0, 3)),
                            ),
                        ],
                    ),
                )
            } else {
                Err(PipelineErrorModel::Precondition { what: "declared packages did not persist"@ })
            }
        },
        (Phase::AwaitRootUuid, EventModel::Output(bytes)) => {
            let u = blkid_uuid_field(bytes);
            if spec_starts_with(u, uuid_prefix()) {
                Ok(
                    (
                        PipelineModel { phase: Phase::AwaitEfiUuid, root_uuid: Some(u), ..m },
                        seq![
                            StepModel::RunCapture(
                                blkid_model(partition_device_model(m.loop_path->0, 2)),
                            ),
                        ],
                    ),
                )
            } else {
                Err(
                    PipelineErrorModel::Precondition {
                        what: "no UUID field in the probe report"@,
                    },
                )
            }
        },
        (Phase::AwaitEfiUuid, EventModel::Output(bytes)) => {
            let u = blkid_uuid_field(bytes);
            if spec_starts_with(u, uuid_prefix()) {
                if is_apt_flavor(m.cfg.flavor) {
                    Ok(
                        (
                            PipelineModel {
                                phase: Phase::Done,
                                held: Seq::<ResourceModel>::empty(),
                                ..m
                            },
                            bootconfig_core_model(m.cfg, m.loop_path->0, m.root_uuid->0, u) + seq![
                                run_step(update_initramfs_model(mount_root_model(m.cfg))),
                            ] + closing_steps_model(m.cfg, m.loop_path->0, m.password),
                        ),
                    )
                } else {
                    Ok(
                        (
                            PipelineModel { phase: Phase::AwaitKernelModules, ..m },
                            bootconfig_core_model(m.cfg, m.loop_path->0, m.root_uuid->0, u) + seq![
                                StepModel::ListDir {
                                    path: mount_root_model(m.cfg) + "/lib/modules/"@,
                                },
                            ],
                        ),
                    )
                }
            } else {
                Err(
                    PipelineErrorModel::Precondition {
                        what: "no UUID field in the probe report"@,
                    },
                )
            }
        },
        (Phase::AwaitKernelModules, EventModel::Entries(names)) => {
            if names.len() == 1 {
                Ok(
                    (
                        PipelineModel {
                            phase: Phase::Done,
                            held: Seq::<ResourceModel>::empty(),
                            ..m
                        },
                        kernel_steps_model(m.cfg, m.loop_path->0, names[0], m.password),
                    ),
                )
            } else {
                Err(PipelineErrorModel::Precondition { what: "incorrect number of kernel vers"@ })
            }
        },
        (_, _) => Err(
            PipelineErrorModel::Precondition { what: "unexpected event for this phase"@ },
        ),
    }
}


/// The pipeline machine. A driver creates it, then repeatedly calls
/// `advance`: first with the start event, then with whatever the batch's
/// last capture or listing step reported, until the phase is done or a
/// failure aborts the run.
#[derive(Debug)]
pub struct Pipeline {
    cfg: Config,
    phase: Phase,
    stack: ResourceStack,
    container_name: String,
    password: String,
    loop_path: Option<String>,
    root_uuid: Option<String>,
}

impl View for Pipeline {
    type V = PipelineModel;

    closed spec fn view(&self) -> PipelineModel {
        PipelineModel {
            cfg: self.cfg@,
            phase: self.phase,
            held: self.stack@,
            container_name: self.container_name@,
            password: self.password@,
            loop_path: self.loop_path.deep_view(),
            root_uuid: self.root_uuid.deep_view(),
        }
    }
}

impl Pipeline {
    /// The phase the machine is in.
    pub fn phase(&self) -> (p: Phase)
        ensures
            p == self@.phase,
    {
        self.phase
    }

    /// A fresh machine over a validated configuration: a malformed disk
    /// size is rejected before any resource is touched. The throwaway
    /// container's name and the root password are fixed here; a password
    /// is generated when none was supplied.
    pub fn new(cfg: Config) -> (r: Result<Pipeline, PipelineError>)
        ensures
            match r {
                Ok(p) => {
                    &&& config_wf(cfg@)
                    &&& pipeline_wf(p@)
                    &&& p@.cfg == cfg@
                    &&& p@.phase == Phase::Start
                    &&& p@.container_name.len() == 36
                    &&& match cfg@.root_passwd {
                        Some(pw) => p@.password == pw,
                        None => p@.password.len() == 16 && forall|i: int|
                            0 <= i < p@.password.len() ==> is_password_char(
                                #[trigger] p@.password[i],
                            ),
                    }
                },
                Err(e) => !config_wf(cfg@) && e@ == (PipelineErrorModel::Argument {
                    what: "disk size out of range"@,
                }),
            },
    {
        if cfg.disk_size_gb < 1 || cfg.disk_size_gb > MAX_DISK_SIZE_GB {
            return Err(PipelineError::Argument { what: "disk size out of range".to_owned() });
        }
        let container_name = fresh_container_name();
        let password = choose_root_password(&cfg.root_passwd);
        let p = Pipeline {
            cfg,
            phase: Phase::Start,
            stack: ResourceStack::new(),
            container_name,
            password,
            loop_path: None,
            root_uuid: None,
        };
        proof {
            assert(p@.held =~= Seq::<ResourceModel>::empty());
        }
        Ok(p)
    }

    /// Best-effort cleanup for an aborted run: the steps that release
    /// whatever is still held, in exact reverse order of acquisition, after
    /// which the machine is finished. A mid-pipeline abort would otherwise
    /// leak mounts and the loop device; a driver may run these steps
    /// instead, without changing what a successful run does.
    pub fn abort_steps(&mut self) -> (out: Vec<Step>)
        ensures
            out.deep_view() == crate::resources::teardown_trace(old(self)@.held),
            final(self)@ == (PipelineModel {
                phase: Phase::Done,
                held: Seq::<ResourceModel>::empty(),
                ..old(self)@
            }),
            pipeline_wf(old(self)@) ==> pipeline_wf(final(self)@),
    {
        let out = self.stack.teardown_steps();
        self.phase = Phase::Done;
        proof {
            assert(self@ =~~= (PipelineModel {
                phase: Phase::Done,
                held: Seq::<ResourceModel>::empty(),
                ..old(self)@
            }));
        }
        out
    }

    /// One transition of the machine: exactly the transition relation's
    /// verdict on the current state and the event. On success the steps of
    /// the next batch are handed back for the driver to perform in order;
    /// on failure the machine is unchanged and the run is aborted.
    #[verifier::rlimit(100)]
    pub fn advance(&mut self, ev: Event) -> (r: Result<Vec<Step>, PipelineError>)
        requires
            pipeline_wf(old(self)@),
        ensures
            pipeline_wf(final(self)@),
            match r {
                Ok(steps) => advance_spec(old(self)@, ev@) matches Ok(p) && final(self)@ == p.0
                    && steps.deep_view() == p.1,
                Err(e) => advance_spec(old(self)@, ev@) matches Err(em) && e@ == em && final(self)@
                    == old(self)@,
            },
    {
        match (self.phase, ev) {
            (Phase::Start, Event::Begin) => {
                let steps = begin_steps(&self.cfg);
                self.phase = Phase::AwaitLoopPath;
                proof {
                    assert(self@ =~~= advance_spec(old(self)@, ev@)->Ok_0.0);
                }
                Ok(steps)
            },
            (Phase::AwaitLoopPath, Event::Output(bytes)) => {
                let lp = crate::text::output_stdout_string(&bytes);
                if lp.as_str().unicode_len() == 0 {
                    return Err(
                        PipelineError::ResourceAcquisition {
                            what: "no loop device path in the attach report".to_owned(),
                        },
                    );
                }
                let steps = provision_steps(&self.cfg, &lp, &self.container_name);
                let root = mount_root_string(&self.cfg);
                let efi = concat2(root.as_str(), "/boot/efi");
                self.stack.acquire(Resource::LoopDevice { path: lp.clone() });
                self.stack.acquire(Resource::MountPoint { dest: root.clone() });
                self.stack.acquire(Resource::MountPoint { dest: efi });
                self.stack.acquire(Resource::BindMount { dest: concat2(root.as_str(), "/dev") });
                self.stack.acquire(Resource::BindMount { dest: concat2(root.as_str(), "/proc") });
                self.stack.acquire(Resource::BindMount { dest: concat2(root.as_str(), "/sys") });
                match self.cfg.flavor {
                    Flavor::Alpine => {
                        self.stack.acquire(
                            Resource::ServiceGuard { root, services: guard_services() },
                        );
                        self.phase = Phase::AwaitInstalledPackages;
                    },
                    _ => {
                        self.phase = Phase::AwaitRootUuid;
                    },
                }
                self.loop_path = Some(lp);
                proof {
                    assert(self@.held =~~= pipeline_resources(self@.cfg, self@.loop_path->0));
                    assert(self@ =~~= advance_spec(old(self)@, ev@)->Ok_0.0);
                }
                Ok(steps)
            },
            (Phase::AwaitInstalledPackages, Event::Output(bytes)) => {
                let text = crate::text::output_stdout_string(&bytes);
                let lines = crate::text::split_lines(&text);
                let declared = alpine_declared_packages();
                if !packages_persisted(&declared, &lines) {
                    return Err(
                        PipelineError::Precondition {
                            what: "declared packages did not persist".to_owned(),
                        },
                    );
                }
                let lp = self.loop_path.as_ref().unwrap();
                let p3 = partition_device_path(lp, 3);
                let mut steps: Vec<Step> = Vec::new();
                push_step(&mut steps, Step::RunCapture(blkid_cmd(&p3)));
                self.phase = Phase::AwaitRootUuid;
                proof {
                    assert(steps.deep_view() =~~= advance_spec(old(self)@, ev@)->Ok_0.1);
                    assert(self@ =~~= advance_spec(old(self)@, ev@)->Ok_0.0);
                }
                Ok(steps)
            },
            (Phase::AwaitRootUuid, Event::Output(bytes)) => {
                let u = crate::text::parse_blkid_uuid(&bytes);
                if !crate::text::starts_with_uuid(&u) {
                    return Err(
                        PipelineError::Precondition {
                            what: "no UUID field in the probe report".to_owned(),
                        },
                    );
                }
                let lp = self.loop_path.as_ref().unwrap();
                let p2 = partition_device_path(lp, 2);
                let mut steps: Vec<Step> = Vec::new();
                push_step(&mut steps, Step::RunCapture(blkid_cmd(&p2)));
                self.root_uuid = Some(u);
                self.phase = Phase::AwaitEfiUuid;
                proof {
                    assert(steps.deep_view() =~~= advance_spec(old(self)@, ev@)->Ok_0.1);
                    assert(self@ =~~= advance_spec(old(self)@, ev@)->Ok_0.0);
                }
                Ok(steps)
            },
            (Phase::AwaitEfiUuid, Event::Output(bytes)) => {
                let u = crate::text::parse_blkid_uuid(&bytes);
                if !crate::text::starts_with_uuid(&u) {
                    return Err(
                        PipelineError::Precondition {
                            what: "no UUID field in the probe report".to_owned(),
                        },
                    );
                }
                let lp = self.loop_path.as_ref().unwrap().clone();
                let root_uuid = self.root_uuid.as_ref().unwrap().clone();
                let mut steps = bootconfig_core_steps(&self.cfg, &lp, &root_uuid, &u);
                match self.cfg.flavor {
                    Flavor::Debian | Flavor::Ubuntu => {
                        let root = mount_root_string(&self.cfg);
                        push_run_cmd(&mut steps, update_initramfs_cmd(&root));
                        let mut closing = closing_steps(&self.cfg, &self.password, &mut self.stack);
                        let ghost cl = closing.deep_view();
                        let ghost s0 = steps.deep_view();
                        steps.append(&mut closing);
                        self.phase = Phase::Done;
                        proof {
                            assert(steps.deep_view() =~= s0 + cl);
                            assert(steps.deep_view() =~~= advance_spec(old(self)@, ev@)->Ok_0.1);
                            assert(self@ =~~= advance_spec(old(self)@, ev@)->Ok_0.0);
                        }
                        Ok(steps)
                    },
                    Flavor::Alpine => {
                        let root = mount_root_string(&self.cfg);
                        push_step(
                            &mut steps,
                            Step::ListDir { path: concat2(root.as_str(), "/lib/modules/") },
                        );
                        self.phase = Phase::AwaitKernelModules;
                        proof {
                            assert(steps.deep_view() =~~= advance_spec(old(self)@, ev@)->Ok_0.1);
                            assert(self@ =~~= advance_spec(old(self)@, ev@)->Ok_0.0);
                        }
                        Ok(steps)
                    },
                }
            },
            (Phase::AwaitKernelModules, Event::Entries(names)) => {
                match crate::flavor::select_kernel_version(&names) {
                    Err(e) => {
                        proof {
                            assert(names.deep_view().len() != 1);
                        }
                        Err(e)
                    },
                    Ok(kver) => {
                        let root = mount_root_string(&self.cfg);
                        let mut steps: Vec<Step> = Vec::new();
                        push_run_cmd(&mut steps, mkinitfs_cmd(&root, &kver));
                        push_run_cmd(&mut steps, inittab_serial_cmd(&root));
                        push_runs(&mut steps, alpine_runlevel_cmds(&root));
                        let mut closing = closing_steps(&self.cfg, &self.password, &mut self.stack);
                        let ghost cl = closing.deep_view();
                        let ghost s0 = steps.deep_view();
                        steps.append(&mut closing);
                        self.phase = Phase::Done;
                        proof {
                            assert(steps.deep_view() =~= s0 + cl);
                            assert(steps.deep_view() =~~= advance_spec(old(self)@, ev@)->Ok_0.1);
                            assert(self@ =~~= advance_spec(old(self)@, ev@)->Ok_0.0);
                        }
                        Ok(steps)
                    },
                }
            },
            (_, _) => Err(
                PipelineError::Precondition { what: "unexpected event for this phase".to_owned() },
            ),
        }
    }
}


} // verus!
