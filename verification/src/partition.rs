//! The GPT partition layout and the commands that apply it: the fixed
//! BIOS-boot / EFI-system / root scheme (with room for an optional trailing
//! swap partition in the model), the per-partition table-edit invocations,
//! the kernel re-scan, the formatters, and the derived partition device
//! paths.
//!
//! A failure while applying partition `k` aborts the pipeline; the state for
//! partitions `1..k-1` is left applied, with no automatic rollback.

use vstd::prelude::*;

use crate::cmd::{cmd, cmd_model, new_args, push_lit, push_string, Cmd, CmdModel};
use crate::text::{dec_digits, u64_to_string};

verus! {

/// One partition of the layout: its index, its sector region (a last sector
/// of zero extends to the end of the disk), and the type code and label
/// handed to the table editor.
#[derive(Debug)]
pub struct Partition {
    pub index: u64,
    pub first_sector: u64,
    pub last_sector: u64,
    pub type_code: Option<String>,
    pub label: Option<String>,
}

/// The mathematical value of a partition.
#[verifier::ext_equal]
pub struct PartitionModel {
    pub index: u64,
    pub first_sector: u64,
    pub last_sector: u64,
    pub type_code: Option<Seq<char>>,
    pub label: Option<Seq<char>>,
}

impl View for Partition {
    type V = PartitionModel;

    open spec fn view(&self) -> PartitionModel {
        PartitionModel {
            index: self.index,
            first_sector: self.first_sector,
            last_sector: self.last_sector,
            type_code: self.type_code.deep_view(),
            label: self.label.deep_view(),
        }
    }
}

impl DeepView for Partition {
    type V = PartitionModel;

    open spec fn deep_view(&self) -> PartitionModel {
        self.view()
    }
}

/// A well-formed layout: indices count from one in order, the first region
/// starts at sector 2048, regions are non-empty and adjacent, and only the
/// last partition may extend to the end of the disk.
pub open spec fn layout_wf(ps: Seq<PartitionModel>) -> bool {
    &&& ps.len() >= 1
    &&& forall|i: int| 0 <= i < ps.len() ==> (#[trigger] ps[i]).index == i + 1
    &&& ps[0].first_sector == 2048
    &&& forall|i: int| 0 <= i < ps.len() ==> ((#[trigger] ps[i]).last_sector == 0 ==> i == ps.len() - 1)
    &&& forall|i: int|
        0 <= i < ps.len() ==> ((#[trigger] ps[i]).last_sector != 0 ==> ps[i].first_sector
            <= ps[i].last_sector)
    &&& forall|i: int|
        0 <= i < ps.len() - 1 ==> (#[trigger] ps[i + 1]).first_sector == ps[i].last_sector + 1
}

/// The BIOS boot partition: sectors 2048 to 4095, no filesystem.
pub open spec fn bios_boot_model() -> PartitionModel {
    PartitionModel {
        index: 1,
        first_sector: 2048,
        last_sector: 4095,
        type_code: Some("ef02"@),
        label: Some("\"BIOS Boot Partition\""@),
    }
}

/// The EFI system partition: sectors 4096 to 413695.
pub open spec fn efi_system_model() -> PartitionModel {
    PartitionModel {
        index: 2,
        first_sector: 4096,
        last_sector: 413695,
        type_code: Some("ef00"@),
        label: Some("\"EFI System Partition\""@),
    }
}

/// The root partition: sector 413696 to the end of the disk.
pub open spec fn root_partition_model() -> PartitionModel {
    PartitionModel { index: 3, first_sector: 413696, last_sector: 0, type_code: None, label: None }
}

/// The fixed scheme applied to every disk.
pub open spec fn gpt_scheme() -> Seq<PartitionModel> {
    seq![bios_boot_model(), efi_system_model(), root_partition_model()]
}

/// The fixed scheme is well formed.
pub proof fn lemma_gpt_scheme_wf()
    ensures
        layout_wf(gpt_scheme()),
{
}

/// The layout applied to a disk, exactly once.
#[derive(Debug)]
pub struct PartitionLayout {
    pub parts: Vec<Partition>,
}

impl View for PartitionLayout {
    type V = Seq<PartitionModel>;

    open spec fn view(&self) -> Seq<PartitionModel> {
        self.parts.deep_view()
    }
}

/// The fixed three-partition layout.
pub fn gpt_layout() -> (l: PartitionLayout)
    ensures
        l@ == gpt_scheme(),
        layout_wf(l@),
{
    let mut parts: Vec<Partition> = Vec::new();
    parts.push(
        Partition {
            index: 1,
            first_sector: 2048,
            last_sector: 4095,
            type_code: Some(String::from_str("ef02")),
            label: Some(String::from_str("\"BIOS Boot Partition\"")),
        },
    );
    parts.push(
        Partition {
            index: 2,
            first_sector: 4096,
            last_sector: 413695,
            type_code: Some(String::from_str("ef00")),
            label: Some(String::from_str("\"EFI System Partition\"")),
        },
    );
    parts.push(
        Partition { index: 3, first_sector: 413696, last_sector: 0, type_code: None, label: None },
    );
    let l = PartitionLayout { parts };
    proof {
        assert(l@ =~~= gpt_scheme());
        lemma_gpt_scheme_wf();
    }
    l
}

/// The geometry argument of one table-edit invocation:
/// `index:first:last`, with an empty last field for a partition that
/// extends to the end of the disk.
pub open spec fn geometry_arg(p: PartitionModel) -> Seq<char> {
    dec_digits(p.index as nat) + ":"@ + dec_digits(p.first_sector as nat) + ":"@ + (
    if p.last_sector == 0 {
        Seq::<char>::empty()
    } else {
        dec_digits(p.last_sector as nat)
    })
}

/// An argument of the form `index:value`.
pub open spec fn index_prefixed(index: u64, v: Seq<char>) -> Seq<char> {
    dec_digits(index as nat) + ":"@ + v
}

/// The table-edit invocation that creates one partition.
pub open spec fn sgdisk_model(p: PartitionModel, disk: Seq<char>) -> CmdModel {
    cmd_model(
        "sgdisk"@,
        seq!["-n"@, geometry_arg(p)] + (match p.label {
            Some(l) => seq!["-c"@, index_prefixed(p.index, l)],
            None => Seq::<Seq<char>>::empty(),
        }) + (match p.type_code {
            Some(t) => seq!["-t"@, index_prefixed(p.index, t)],
            None => Seq::<Seq<char>>::empty(),
        }) + seq![disk],
    )
}

/// The full partitioning plan: one table-edit invocation per partition, in
/// order, then the forced kernel re-read of the table.
pub open spec fn partition_plan(ps: Seq<PartitionModel>, disk: Seq<char>) -> Seq<CmdModel> {
    ps.map_values(|p: PartitionModel| sgdisk_model(p, disk)).push(
        cmd_model("partprobe"@, seq![disk]),
    )
}

fn geometry_arg_string(p: &Partition) -> (r: String)
    ensures
        r@ == geometry_arg(p@),
{
    let mut s = u64_to_string(p.index);
    s.append(":");
    s.append(u64_to_string(p.first_sector).as_str());
    s.append(":");
    if p.last_sector != 0 {
        s.append(u64_to_string(p.last_sector).as_str());
    }
    s
}

fn index_prefixed_string(index: u64, v: &String) -> (r: String)
    ensures
        r@ == index_prefixed(index, v@),
{
    let mut s = u64_to_string(index);
    s.append(":");
    s.append(v.as_str());
    s
}

/// The table-edit command for one partition of the layout.
pub fn sgdisk_cmd(p: &Partition, disk: &String) -> (c: Cmd)
    ensures
        c@ == sgdisk_model(p@, disk@),
{
    let mut args = new_args();
    push_lit(&mut args, "-n");
    push_string(&mut args, geometry_arg_string(p));
    match &p.label {
        Some(l) => {
            push_lit(&mut args, "-c");
            push_string(&mut args, index_prefixed_string(p.index, l));
        },
        None => {},
    }
    match &p.type_code {
        Some(t) => {
            push_lit(&mut args, "-t");
            push_string(&mut args, index_prefixed_string(p.index, t));
        },
        None => {},
    }
    push_string(&mut args, disk.clone());
    let c = cmd("sgdisk", args);
    proof {
        assert(c@ =~~= sgdisk_model(p@, disk@));
    }
    c
}

/// The commands that apply a layout to a disk.
pub fn partition_cmds(layout: &PartitionLayout, disk: &String) -> (r: Vec<Cmd>)
    ensures
        r.deep_view() == partition_plan(layout@, disk@),
{
    let mut r: Vec<Cmd> = Vec::new();
    let n: usize = layout.parts.len();
    let mut i: usize = 0;
    while i < n
        invariant
            i <= n,
            n == layout.parts@.len(),
            r.deep_view() =~~= layout@.take(i as int).map_values(
                |p: PartitionModel| sgdisk_model(p, disk@),
            ),
        decreases n - i,
    {
        let c = sgdisk_cmd(&layout.parts[i], disk);
        let ghost cm = c@;
        let ghost r0 = r.deep_view();
        r.push(c);
        proof {
            assert(r.deep_view() =~~= r0.push(cm));
            assert(layout@.take(i + 1) =~= layout@.take(i as int).push(layout.parts@[i as int]@));
            assert(r.deep_view() =~~= layout@.take(i + 1).map_values(
                |p: PartitionModel| sgdisk_model(p, disk@),
            ));
        }
        i = i + 1;
    }
    proof {
        assert(layout@.take(n as int) =~= layout@);
    }
    let mut args = new_args();
    push_string(&mut args, disk.clone());
    r.push(cmd("partprobe", args));
    proof {
        assert(r.deep_view() =~~= partition_plan(layout@, disk@));
    }
    r
}

/// The filesystems the formatter writes.
#[derive(Clone, Copy, Debug, PartialEq, Eq, Structural)]
pub enum FsKind {
    /// FAT32, for the EFI system partition.
    Vfat32,
    /// ext4, for the root partition.
    Ext4,
    /// Swap space, for the optional swap partition.
    Swap,
}

/// The formatter invocation for one partition device.
pub open spec fn format_model(k: FsKind, dev: Seq<char>) -> CmdModel {
    match k {
        FsKind::Vfat32 => cmd_model("mkfs.vfat"@, seq!["-F"@, "32"@, dev]),
        FsKind::Ext4 => cmd_model("mkfs.ext4"@, seq![dev]),
        FsKind::Swap => cmd_model("mkswap"@, seq![dev]),
    }
}

/// The command that formats one partition device.
pub fn format_cmd(k: FsKind, dev: &String) -> (c: Cmd)
    ensures
        c@ == format_model(k, dev@),
{
    let mut args = new_args();
    match k {
        FsKind::Vfat32 => {
            push_lit(&mut args, "-F");
            push_lit(&mut args, "32");
            push_string(&mut args, dev.clone());
            let c = cmd("mkfs.vfat", args);
            proof {
                assert(c@ =~~= format_model(k, dev@));
            }
            c
        },
        FsKind::Ext4 => {
            push_string(&mut args, dev.clone());
            let c = cmd("mkfs.ext4", args);
            proof {
                assert(c@ =~~= format_model(k, dev@));
            }
            c
        },
        FsKind::Swap => {
            push_string(&mut args, dev.clone());
            let c = cmd("mkswap", args);
            proof {
                assert(c@ =~~= format_model(k, dev@));
            }
            c
        },
    }
}

/// The device path of one partition of an attached disk: the loop device
/// path with `p` and the partition index appended.
pub open spec fn partition_device_model(loop_path: Seq<char>, index: u64) -> Seq<char> {
    loop_path + "p"@ + dec_digits(index as nat)
}

/// The derived device path of one partition.
pub fn partition_device_path(loop_path: &String, index: u64) -> (r: String)
    ensures
        r@ == partition_device_model(loop_path@, index),
{
    let mut s = loop_path.clone();
    s.append("p");
    s.append(u64_to_string(index).as_str());
    s
}

} // verus!
