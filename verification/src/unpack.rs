//! The container unpack: exporting a named container's filesystem through
//! the container engine, extracting the archive into the mounted root with
//! sparse-file awareness, and copying the host's resolver configuration into
//! the new root. The pipeline consumes the exported tree; it neither
//! creates nor validates the archive.

use vstd::prelude::*;

use crate::cmd::{cmd, cmd_model, concat2, new_args, push_lit, push_string, Cmd, CmdModel};
use crate::step::StepModel;

verus! {

/// A character a fresh container name may hold: lowercase hex or a hyphen.
pub open spec fn is_uuid_char(c: char) -> bool {
    ||| '0' as u32 <= c as u32 <= '9' as u32
    ||| 'a' as u32 <= c as u32 <= 'f' as u32
    ||| c == '-'
}

/// Relies on uuid's version-4 generation and rendering: a fresh random
/// identifier printed as 36 hyphenated lowercase hex characters.
#[verifier::external_body]
pub fn fresh_container_name() -> (r: String)
    ensures
        r@.len() == 36,
        forall|i: int| 0 <= i < r@.len() ==> is_uuid_char(#[trigger] r@[i]),
{
    uuid::Uuid::new_v4().to_string()
}

/// The run of a throwaway container under the fresh name.
pub open spec fn docker_run_model(name: Seq<char>, image: Seq<char>) -> CmdModel {
    cmd_model("docker"@, seq!["run"@, "-d"@, "--entrypoint=/bin/sh"@, "--name"@, name, image])
}

/// The export of the container's filesystem to the archive path.
pub open spec fn docker_export_model(export_path: Seq<char>, name: Seq<char>) -> CmdModel {
    cmd_model("docker"@, seq!["export"@, "-o"@, export_path, name])
}

/// The stop of the throwaway container.
pub open spec fn docker_stop_model(name: Seq<char>) -> CmdModel {
    cmd_model("docker"@, seq!["stop"@, name])
}

/// The removal of the throwaway container.
pub open spec fn docker_rm_model(name: Seq<char>) -> CmdModel {
    cmd_model("docker"@, seq!["rm"@, name])
}

/// The container-export plan: run, export, stop, remove.
pub open spec fn container_export_model(
    image: Seq<char>,
    name: Seq<char>,
    export_path: Seq<char>,
) -> Seq<CmdModel> {
    seq![
        docker_run_model(name, image),
        docker_export_model(export_path, name),
        docker_stop_model(name),
        docker_rm_model(name),
    ]
}

/// The commands that export the named image's filesystem to the archive
/// path through a throwaway container.
pub fn container_export_cmds(image: &String, name: &String, export_path: &String) -> (r: Vec<
    Cmd,
>)
    ensures
        r.deep_view() == container_export_model(image@, name@, export_path@),
{
    let mut r: Vec<Cmd> = Vec::new();
    let mut a1 = new_args();
    push_lit(&mut a1, "run");
    push_lit(&mut a1, "-d");
    push_lit(&mut a1, "--entrypoint=/bin/sh");
    push_lit(&mut a1, "--name");
    push_string(&mut a1, name.clone());
    push_string(&mut a1, image.clone());
    r.push(cmd("docker", a1));
    let mut a2 = new_args();
    push_lit(&mut a2, "export");
    push_lit(&mut a2, "-o");
    push_string(&mut a2, export_path.clone());
    push_string(&mut a2, name.clone());
    r.push(cmd("docker", a2));
    let mut a3 = new_args();
    push_lit(&mut a3, "stop");
    push_string(&mut a3, name.clone());
    r.push(cmd("docker", a3));
    let mut a4 = new_args();
    push_lit(&mut a4, "rm");
    push_string(&mut a4, name.clone());
    r.push(cmd("docker", a4));
    proof {
        assert(r.deep_view() =~~= container_export_model(image@, name@, export_path@));
    }
    r
}

/// The sparse-aware extraction of the archive into the mounted root.
pub open spec fn tar_extract_model(dest: Seq<char>, export_path: Seq<char>) -> CmdModel {
    cmd_model("tar"@, seq!["--sparse"@, "-C"@, dest, "-xf"@, export_path])
}

/// The command that extracts the exported archive into the mounted root.
pub fn tar_extract_cmd(dest: &String, export_path: &String) -> (c: Cmd)
    ensures
        c@ == tar_extract_model(dest@, export_path@),
{
    let mut args = new_args();
    push_lit(&mut args, "--sparse");
    push_lit(&mut args, "-C");
    push_string(&mut args, dest.clone());
    push_lit(&mut args, "-xf");
    push_string(&mut args, export_path.clone());
    let c = cmd("tar", args);
    proof {
        assert(c@ =~~= tar_extract_model(dest@, export_path@));
    }
    c
}

/// The copy of the host's resolver configuration into the new root, so
/// chrooted package managers can resolve network addresses.
pub open spec fn copy_resolv_model(root: Seq<char>) -> StepModel {
    StepModel::CopyFile { src: "/etc/resolv.conf"@, dest: root + "/etc/resolv.conf"@ }
}

/// The step that copies the host's resolver configuration into the root.
pub fn copy_resolv_step(root: &String) -> (s: crate::step::Step)
    ensures
        s@ == copy_resolv_model(root@),
{
    let s = crate::step::Step::CopyFile {
        src: String::from_str("/etc/resolv.conf"),
        dest: concat2(root.as_str(), "/etc/resolv.conf"),
    };
    proof {
        assert(s@ =~~= copy_resolv_model(root@));
    }
    s
}

/// The names of `existing` that the archive does not carry, in order.
pub open spec fn names_kept(existing: Seq<Seq<char>>, archive: Seq<Seq<char>>) -> Seq<Seq<char>>
    decreases existing.len(),
{
    if existing.len() == 0 {
        Seq::<Seq<char>>::empty()
    } else {
        names_kept(existing.drop_last(), archive) + (if archive.contains(existing.last()) {
            Seq::<Seq<char>>::empty()
        } else {
            seq![existing.last()]
        })
    }
}

/// The model of the extraction's effect on the root's top-level entries:
/// the archive's entries, each overwriting an existing entry of the same
/// name in place, followed by whatever the root held that the archive does
/// not carry.
pub open spec fn unpacked_entries(
    existing: Seq<Seq<char>>,
    archive: Seq<Seq<char>>,
) -> Seq<Seq<char>> {
    archive + names_kept(existing, archive)
}

/// The root's top-level entry names after the archive is unpacked over it.
pub fn unpacked_entry_names(existing: &Vec<String>, archive: &Vec<String>) -> (r: Vec<String>)
    ensures
        r.deep_view() == unpacked_entries(existing.deep_view(), archive.deep_view()),
{
    let mut r: Vec<String> = Vec::new();
    let n: usize = archive.len();
    let mut i: usize = 0;
    while i < n
        invariant
            i <= n,
            n == archive@.len(),
            r.deep_view() =~= archive.deep_view().take(i as int),
        decreases n - i,
    {
        push_string(&mut r, archive[i].clone());
        proof {
            assert(archive.deep_view().take(i + 1) =~= archive.deep_view().take(i as int).push(
                archive@[i as int]@));
        }
        i = i + 1;
    }
    proof {
        assert(archive.deep_view().take(n as int) =~= archive.deep_view());
    }
    let m: usize = existing.len();
    let mut j: usize = 0;
    while j < m
        invariant
            j <= m,
            m == existing@.len(),
            r.deep_view() =~= archive.deep_view() + names_kept(
                existing.deep_view().take(j as int),
                archive.deep_view(),
            ),
        decreases m - j,
    {
        let ghost before = existing.deep_view().take(j as int);
        proof {
            assert(existing.deep_view().take(j + 1).drop_last() =~= before);
            assert(existing.deep_view().take(j + 1).last() == existing.deep_view()[j as int]);
        }
        if !crate::text::contains_string(archive, &existing[j]) {
            push_string(&mut r, existing[j].clone());
        }
        proof {
            assert(r.deep_view() =~= archive.deep_view() + names_kept(
                existing.deep_view().take(j + 1),
                archive.deep_view(),
            ));
        }
        j = j + 1;
    }
    proof {
        assert(existing.deep_view().take(m as int) =~= existing.deep_view());
    }
    r
}

proof fn lemma_names_kept_empty(existing: Seq<Seq<char>>, archive: Seq<Seq<char>>)
    requires
        forall|i: int| 0 <= i < existing.len() ==> archive.contains(#[trigger] existing[i]),
    ensures
        names_kept(existing, archive) == Seq::<Seq<char>>::empty(),
    decreases existing.len(),
{
    if existing.len() > 0 {
        assert(forall|i: int|
            0 <= i < existing.drop_last().len() ==> existing.drop_last()[i] == existing[i]);
        lemma_names_kept_empty(existing.drop_last(), archive);
        assert(archive.contains(existing[existing.len() - 1]));
        assert(names_kept(existing, archive) =~= Seq::<Seq<char>>::empty());
    }
}

/// LAW: a content-preserving round trip. Unpacking an archive of N
/// top-level entries into a root whose entries all occur in the archive
/// leaves the root with exactly the archive's N entries.
pub proof fn lemma_unpack_round_trip(existing: Seq<Seq<char>>, archive: Seq<Seq<char>>)
    requires
        forall|i: int| 0 <= i < existing.len() ==> archive.contains(#[trigger] existing[i]),
    ensures
        unpacked_entries(existing, archive) == archive,
        unpacked_entries(existing, archive).len() == archive.len(),
{
    lemma_names_kept_empty(existing, archive);
    assert(unpacked_entries(existing, archive) =~= archive);
}

} // verus!
