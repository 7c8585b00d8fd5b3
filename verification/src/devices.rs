//! The owned device and mount handles: a loop device parsed from the attach
//! command's report, mount handles that owe a reverse-order unmount, and the
//! backing disk before and after partitioning. Each constructor hands back
//! the commands that perform the acquisition; a driver outside the library
//! runs them.

use vstd::prelude::*;

use crate::cmd::{cmd, cmd_model, new_args, push_lit, push_string, Cmd, CmdModel};
use crate::errors::{PipelineError, PipelineErrorModel};
use crate::partition::{gpt_layout, gpt_scheme, partition_cmds, partition_plan};
use crate::step::{Step, StepModel};
use crate::text::decoded_output;

verus! {

/// One binary gigabyte.
pub const GIB: u64 = 0x40000000;

/// The largest disk size whose byte length fits the backing file's length
/// field.
pub const MAX_DISK_SIZE_GB: u64 = 17179869183;

/// The command that binds the next free loop device to a backing file and
/// reports the chosen device path.
pub open spec fn attach_model(source_path: Seq<char>) -> CmdModel {
    cmd_model("losetup"@, seq!["--show"@, "--find"@, source_path])
}

/// The command that releases a loop device binding.
pub open spec fn detach_model(path: Seq<char>) -> CmdModel {
    cmd_model("losetup"@, seq!["-d"@, path])
}

/// A kernel loop device bound to a backing file. It owes exactly one
/// detach, and only after every mount under the device is unmounted.
#[derive(Debug)]
pub struct LoopbackDevice {
    path: String,
}

impl View for LoopbackDevice {
    type V = Seq<char>;

    closed spec fn view(&self) -> Seq<char> {
        self.path@
    }
}

impl LoopbackDevice {
    /// The command whose captured output names the bound device.
    pub fn attach_cmd(source_path: &String) -> (c: Cmd)
        ensures
            c@ == attach_model(source_path@),
    {
        let mut args = new_args();
        push_lit(&mut args, "--show");
        push_lit(&mut args, "--find");
        push_string(&mut args, source_path.clone());
        let c = cmd("losetup", args);
        proof {
            assert(c@ =~~= attach_model(source_path@));
        }
        c
    }

    /// The device parsed from the attach command's captured stdout;
    /// rejected when no device path can be parsed from it.
    pub fn new(attach_stdout: &Vec<u8>) -> (r: Result<LoopbackDevice, PipelineError>)
        ensures
            decoded_output(attach_stdout@).len() > 0 ==> r is Ok && r->Ok_0@ == decoded_output(
                attach_stdout@,
            ),
            decoded_output(attach_stdout@).len() == 0 ==> r is Err && r->Err_0@
                == (PipelineErrorModel::ResourceAcquisition {
                what: "no loop device path in the attach report"@,
            }),
    {
        let path = crate::text::output_stdout_string(attach_stdout);
        if path.as_str().unicode_len() == 0 {
            Err(
                PipelineError::ResourceAcquisition {
                    what: "no loop device path in the attach report".to_owned(),
                },
            )
        } else {
            Ok(LoopbackDevice { path })
        }
    }

    /// The bound device's path.
    pub fn path(&self) -> (r: String)
        ensures
            r@ == self@,
    {
        self.path.clone()
    }

    /// The command that releases the binding.
    pub fn detach_cmd(&self) -> (c: Cmd)
        ensures
            c@ == detach_model(self@),
    {
        let mut args = new_args();
        push_lit(&mut args, "-d");
        push_string(&mut args, self.path.clone());
        let c = cmd("losetup", args);
        proof {
            assert(c@ =~~= detach_model(self@));
        }
        c
    }
}

/// The commands that create a destination directory and mount a source on
/// it.
pub open spec fn mount_cmds_model(source: Seq<char>, dest: Seq<char>) -> Seq<CmdModel> {
    seq![
        cmd_model("mkdir"@, seq!["-p"@, dest]),
        cmd_model("mount"@, seq![source, dest]),
    ]
}

/// The commands that create a destination directory and bind-mount a source
/// on it.
pub open spec fn bind_mount_cmds_model(source: Seq<char>, dest: Seq<char>) -> Seq<CmdModel> {
    seq![
        cmd_model("mkdir"@, seq!["-p"@, dest]),
        cmd_model("mount"@, seq!["--bind"@, source, dest]),
    ]
}

/// The commands that release a mount: an explicit filesystem sync, then the
/// unmount.
pub open spec fn umount_cmds_model(dest: Seq<char>) -> Seq<CmdModel> {
    seq![
        cmd_model("sync"@, Seq::<Seq<char>>::empty()),
        cmd_model("umount"@, seq![dest]),
    ]
}

/// A mount handle. Handles must be released in strict reverse order of
/// creation, and a sync runs immediately before each unmount.
#[derive(Debug)]
pub struct Mount {
    dest: String,
}

impl View for Mount {
    type V = Seq<char>;

    closed spec fn view(&self) -> Seq<char> {
        self.dest@
    }
}

impl Mount {
    /// A normal mount: the handle, and the commands that create the
    /// destination directory and perform the mount.
    pub fn new(source: String, dest: String) -> (r: (Mount, Vec<Cmd>))
        ensures
            r.0@ == dest@,
            r.1.deep_view() == mount_cmds_model(source@, dest@),
    {
        let mut cmds: Vec<Cmd> = Vec::new();
        let mut args = new_args();
        push_lit(&mut args, "-p");
        push_string(&mut args, dest.clone());
        cmds.push(cmd("mkdir", args));
        let mut margs = new_args();
        push_string(&mut margs, source);
        push_string(&mut margs, dest.clone());
        cmds.push(cmd("mount", margs));
        proof {
            assert(cmds.deep_view() =~~= mount_cmds_model(source@, dest@));
        }
        (Mount { dest }, cmds)
    }

    /// A bind mount: the same contract with bind semantics.
    pub fn bind(source: String, dest: String) -> (r: (Mount, Vec<Cmd>))
        ensures
            r.0@ == dest@,
            r.1.deep_view() == bind_mount_cmds_model(source@, dest@),
    {
        let mut cmds: Vec<Cmd> = Vec::new();
        let mut args = new_args();
        push_lit(&mut args, "-p");
        push_string(&mut args, dest.clone());
        cmds.push(cmd("mkdir", args));
        let mut margs = new_args();
        push_lit(&mut margs, "--bind");
        push_string(&mut margs, source);
        push_string(&mut margs, dest.clone());
        cmds.push(cmd("mount", margs));
        proof {
            assert(cmds.deep_view() =~~= bind_mount_cmds_model(source@, dest@));
        }
        (Mount { dest }, cmds)
    }

    /// The mount's destination path.
    pub fn dest(&self) -> (r: String)
        ensures
            r@ == self@,
    {
        self.dest.clone()
    }

    /// The commands that release the mount.
    pub fn release_cmds(&self) -> (r: Vec<Cmd>)
        ensures
            r.deep_view() == umount_cmds_model(self@),
    {
        let mut cmds: Vec<Cmd> = Vec::new();
        cmds.push(cmd("sync", new_args()));
        let mut args = new_args();
        push_string(&mut args, self.dest.clone());
        cmds.push(cmd("umount", args));
        proof {
            assert(cmds.deep_view() =~~= umount_cmds_model(self@));
        }
        cmds
    }
}

/// The mathematical value of a backing disk: where it lives, its size, and
/// the loop device it is attached through.
#[verifier::ext_equal]
pub struct LoopbackDiskModel {
    pub working_dir: Seq<char>,
    pub img_path: Seq<char>,
    pub device_path: Seq<char>,
    pub size_in_gb: u64,
}

/// The backing image's path inside a working directory.
pub open spec fn img_path_model(working_dir: Seq<char>) -> Seq<char> {
    working_dir + "/output.img"@
}

/// The steps that create a blank backing file of the given size and attach
/// it to the next free loop device.
pub open spec fn create_disk_steps_model(working_dir: Seq<char>, size_in_gb: u64) -> Seq<
    StepModel,
> {
    seq![
        StepModel::CreateSparseFile {
            path: img_path_model(working_dir),
            size_bytes: (size_in_gb * GIB) as u64,
        },
        StepModel::RunCapture(attach_model(img_path_model(working_dir))),
    ]
}

/// A fixed-size sparse backing file attached to a loop device.
#[derive(Debug)]
pub struct LoopbackDisk {
    working_dir: String,
    img_path: String,
    root_device: LoopbackDevice,
    size_in_gb: u64,
}

impl View for LoopbackDisk {
    type V = LoopbackDiskModel;

    closed spec fn view(&self) -> LoopbackDiskModel {
        LoopbackDiskModel {
            working_dir: self.working_dir@,
            img_path: self.img_path@,
            device_path: self.root_device@,
            size_in_gb: self.size_in_gb,
        }
    }
}

impl LoopbackDisk {
    /// The steps that create and attach the backing file.
    pub fn create_steps(working_dir: &String, size_in_gb: u64) -> (r: Vec<Step>)
        requires
            size_in_gb <= MAX_DISK_SIZE_GB,
        ensures
            r.deep_view() == create_disk_steps_model(working_dir@, size_in_gb),
    {
        let img_path = crate::cmd::concat2(working_dir.as_str(), "/output.img");
        let mut r: Vec<Step> = Vec::new();
        r.push(Step::CreateSparseFile { path: img_path.clone(), size_bytes: size_in_gb * GIB });
        r.push(Step::RunCapture(LoopbackDevice::attach_cmd(&img_path)));
        proof {
            assert(r.deep_view() =~~= create_disk_steps_model(working_dir@, size_in_gb));
        }
        r
    }

    /// The disk handle, from the working directory, the requested size, and
    /// the attach command's captured stdout.
    pub fn new(working_dir: String, size_in_gb: u64, attach_stdout: &Vec<u8>) -> (r: Result<
        LoopbackDisk,
        PipelineError,
    >)
        ensures
            decoded_output(attach_stdout@).len() > 0 ==> r is Ok && r->Ok_0@
                == (LoopbackDiskModel {
                working_dir: working_dir@,
                img_path: img_path_model(working_dir@),
                device_path: decoded_output(attach_stdout@),
                size_in_gb,
            }),
            decoded_output(attach_stdout@).len() == 0 ==> r is Err && r->Err_0@
                == (PipelineErrorModel::ResourceAcquisition {
                what: "no loop device path in the attach report"@,
            }),
    {
        let img_path = crate::cmd::concat2(working_dir.as_str(), "/output.img");
        match LoopbackDevice::new(attach_stdout) {
            Ok(root_device) => Ok(
                LoopbackDisk { working_dir, img_path, root_device, size_in_gb },
            ),
            Err(e) => Err(e),
        }
    }

    /// The attached loop device's path.
    pub fn path(&self) -> (r: String)
        ensures
            r@ == self@.device_path,
    {
        self.root_device.path()
    }

    /// The backing file's path.
    pub fn img_path(&self) -> (r: String)
        ensures
            r@ == self@.img_path,
    {
        self.img_path.clone()
    }

    /// The working directory the backing file lives in.
    pub fn working_dir(&self) -> (r: String)
        ensures
            r@ == self@.working_dir,
    {
        self.working_dir.clone()
    }
}

/// A backing disk whose partition table has been applied. Applied exactly
/// once; immutable thereafter except for the kernel's re-scan.
#[derive(Debug)]
pub struct PartitionedLoopbackDisk {
    loopback_disk: LoopbackDisk,
}

impl View for PartitionedLoopbackDisk {
    type V = LoopbackDiskModel;

    closed spec fn view(&self) -> LoopbackDiskModel {
        self.loopback_disk@
    }
}

impl PartitionedLoopbackDisk {
    /// Consumes a blank disk; hands back the partitioned-disk handle and the
    /// commands that apply the fixed partition scheme to it and force the
    /// kernel to re-read the table.
    pub fn from(loopback_disk: LoopbackDisk) -> (r: (PartitionedLoopbackDisk, Vec<Cmd>))
        ensures
            r.0@ == loopback_disk@,
            r.1.deep_view() == partition_plan(gpt_scheme(), loopback_disk@.device_path),
    {
        let layout = gpt_layout();
        let device = loopback_disk.path();
        let cmds = partition_cmds(&layout, &device);
        (PartitionedLoopbackDisk { loopback_disk }, cmds)
    }

    /// The attached loop device's path.
    pub fn path(&self) -> (r: String)
        ensures
            r@ == self@.device_path,
    {
        self.loopback_disk.path()
    }

    /// The working directory the backing file lives in.
    pub fn working_dir(&self) -> (r: String)
        ensures
            r@ == self@.working_dir,
    {
        self.loopback_disk.working_dir()
    }

    /// The backing file's path.
    pub fn img_path(&self) -> (r: String)
        ensures
            r@ == self@.img_path,
    {
        self.loopback_disk.img_path()
    }
}

} // verus!
