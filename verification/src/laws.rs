//! The pipeline-wide ownership laws, stated over the step trace of a whole
//! successful run: the concatenation of every batch the machine emits, from
//! the opening print to the final copy of the image.

use vstd::prelude::*;

use crate::bootconfig::blkid_model;
use crate::cmd::CmdModel;
use crate::flavor::is_apt_flavor;
use crate::partition::partition_device_model;
use crate::pipeline::{advance_spec, begin_steps_model, bootconfig_core_model,
    closing_steps_model, install_tail_model, mount_root_model, pipeline_resources,
    provision_steps_model, run_step, ConfigModel, EventModel, Phase, PipelineModel};
use crate::resources::{lemma_detach_with_tail, lemma_run_with_tail, teardown_trace};
use crate::step::{acquires_of, active_of, is_acquire_step, is_loop_resource, is_mount_resource,
    is_prefix_of, is_release_step, lemma_markers_concat, lemma_markers_singleton,
    lemma_no_markers_records, lemma_no_releases_of, marker_resource, no_markers, releases_of,
    stack_ok, ResourceModel, StepModel};

verus! {

/// The step trace of one successful run: the opening batch, the
/// provisioning batch, the captures the machine waits on, the boot
/// configuration, the flavor's initramfs work, and the closing batch with
/// its teardown. `kver` is the Alpine path's detected kernel version;
/// `root_uuid` and `efi_uuid` are the probed filesystem UUIDs.
pub open spec fn run_trace_model(
    c: ConfigModel,
    cn: Seq<char>,
    pw: Seq<char>,
    lp: Seq<char>,
    root_uuid: Seq<char>,
    efi_uuid: Seq<char>,
    kver: Seq<char>,
) -> Seq<StepModel> {
    begin_steps_model(c) + provision_steps_model(c, lp, cn) + (if is_apt_flavor(c.flavor) {
        Seq::<StepModel>::empty()
    } else {
        seq![StepModel::RunCapture(blkid_model(partition_device_model(lp, 3)))]
    }) + seq![StepModel::RunCapture(blkid_model(partition_device_model(lp, 2)))]
        + bootconfig_core_model(c, lp, root_uuid, efi_uuid) + (if is_apt_flavor(c.flavor) {
        seq![run_step(crate::flavor::update_initramfs_model(mount_root_model(c)))]
    } else {
        seq![
            StepModel::ListDir { path: mount_root_model(c) + "/lib/modules/"@ },
            run_step(crate::flavor::mkinitfs_model(mount_root_model(c), kver)),
            run_step(crate::flavor::inittab_serial_model(mount_root_model(c))),
        ] + crate::flavor::alpine_runlevel_model(mount_root_model(c)).map_values(
            |cm: CmdModel| run_step(cm),
        )
    }) + closing_steps_model(c, lp, pw)
}

/// Marker-freedom carries over concatenation.
proof fn lemma_no_markers_concat(a: Seq<StepModel>, b: Seq<StepModel>)
    requires
        no_markers(a),
        no_markers(b),
    ensures
        no_markers(a + b),
{
    assert forall|i: int| 0 <= i < (a + b).len() implies !is_acquire_step(#[trigger] (a + b)[i])
        && !is_release_step((a + b)[i]) by {
        if i < a.len() {
            assert((a + b)[i] == a[i]);
        } else {
            assert((a + b)[i] == b[i - a.len()]);
        }
    }
}

/// A chunk of plain command runs carries no ownership markers.
proof fn lemma_runs_chunk(cs: Seq<CmdModel>)
    ensures
        no_markers(cs.map_values(|c: CmdModel| run_step(c))),
        acquires_of(cs.map_values(|c: CmdModel| run_step(c))) == Seq::<ResourceModel>::empty(),
        releases_of(cs.map_values(|c: CmdModel| run_step(c))) == Seq::<ResourceModel>::empty(),
{
    let u = cs.map_values(|c: CmdModel| run_step(c));
    assert forall|i: int| 0 <= i < u.len() implies !is_acquire_step(#[trigger] u[i])
        && !is_release_step(u[i]) by {
        assert(u[i] == run_step(cs[i]));
    }
    lemma_no_markers_records(u);
}

/// What the flavor's installation tail records: nothing on the apt path,
/// the service guard on the Alpine path.
proof fn lemma_install_tail_markers(c: ConfigModel, lp: Seq<char>)
    ensures
        releases_of(install_tail_model(c, lp)) == Seq::<ResourceModel>::empty(),
        acquires_of(install_tail_model(c, lp)) == (if is_apt_flavor(c.flavor) {
            Seq::<ResourceModel>::empty()
        } else {
            seq![
                ResourceModel::ServiceGuard {
                    root: mount_root_model(c),
                    services: crate::flavor::guard_services_model(),
                },
            ]
        }),
{
    let t = install_tail_model(c, lp);
    if is_apt_flavor(c.flavor) {
        assert(no_markers(t));
        lemma_no_markers_records(t);
        assert(acquires_of(t) =~= Seq::<ResourceModel>::empty());
    } else {
        let root = mount_root_model(c);
        let guard = ResourceModel::ServiceGuard {
            root,
            services: crate::flavor::guard_services_model(),
        };
        let head = seq![
            run_step(crate::flavor::base_install_model(c.flavor, root)),
            StepModel::WriteFile { path: root + "/answers"@, lines: crate::flavor::alpine_answers_model() },
            run_step(crate::flavor::setup_alpine_model(root)),
            run_step(crate::flavor::remove_answers_model(root)),
        ];
        let mid = seq![StepModel::Acquire(guard)];
        let last = seq![StepModel::RunCapture(crate::flavor::installed_query_model(root))];
        assert(t =~= head + mid + last);
        assert(no_markers(head));
        assert(no_markers(last));
        lemma_no_markers_records(head);
        lemma_no_markers_records(last);
        lemma_markers_singleton(StepModel::Acquire(guard));
        lemma_markers_concat(head, mid);
        lemma_markers_concat(head + mid, last);
        assert(acquires_of(t) =~= seq![guard]);
        assert(releases_of(t) =~= Seq::<ResourceModel>::empty());
    }
}

/// What the provisioning batch records: the canonical resource order, and
/// no release.
proof fn lemma_provision_markers(c: ConfigModel, lp: Seq<char>, cn: Seq<char>)
    ensures
        acquires_of(provision_steps_model(c, lp, cn)) == pipeline_resources(c, lp),
        releases_of(provision_steps_model(c, lp, cn)) == Seq::<ResourceModel>::empty(),
{
    let root = mount_root_model(c);
    let efi = crate::pipeline::efi_mount_model(c);
    let p2 = partition_device_model(lp, 2);
    let p3 = partition_device_model(lp, 3);
    let g1 = seq![
        StepModel::Acquire(ResourceModel::LoopDevice { path: lp }),
        StepModel::Print { text: "> Main disk at "@ + lp },
    ];
    let g2 = crate::partition::partition_plan(crate::partition::gpt_scheme(), lp).map_values(
        |cm: CmdModel| run_step(cm),
    );
    let g3 = seq![
        run_step(crate::partition::format_model(crate::partition::FsKind::Vfat32, p2)),
        run_step(crate::partition::format_model(crate::partition::FsKind::Ext4, p3)),
    ];
    let g4 = crate::devices::mount_cmds_model(p3, root).map_values(|cm: CmdModel| run_step(cm));
    let g5 = seq![StepModel::Acquire(ResourceModel::MountPoint { dest: root })];
    let g6 = crate::devices::mount_cmds_model(p2, efi).map_values(|cm: CmdModel| run_step(cm));
    let g7 = seq![
        StepModel::Acquire(ResourceModel::MountPoint { dest: efi }),
        run_step(crate::pipeline::mkdir_p_model(root + "/boot/efi/EFI/BOOT/"@)),
    ];
    let g8 = crate::unpack::container_export_model(
        c.image_name,
        cn,
        crate::pipeline::export_path_model(c),
    ).map_values(|cm: CmdModel| run_step(cm));
    let g9 = seq![
        run_step(crate::unpack::tar_extract_model(root, crate::pipeline::export_path_model(c))),
        crate::unpack::copy_resolv_model(root),
    ];
    let g10 = crate::devices::bind_mount_cmds_model("/dev"@, root + "/dev"@).map_values(
        |cm: CmdModel| run_step(cm),
    );
    let g11 = seq![StepModel::Acquire(ResourceModel::BindMount { dest: root + "/dev"@ })];
    let g12 = crate::devices::bind_mount_cmds_model("/proc"@, root + "/proc"@).map_values(
        |cm: CmdModel| run_step(cm),
    );
    let g13 = seq![StepModel::Acquire(ResourceModel::BindMount { dest: root + "/proc"@ })];
    let g14 = crate::devices::bind_mount_cmds_model("/sys"@, root + "/sys"@).map_values(
        |cm: CmdModel| run_step(cm),
    );
    let g15 = seq![
        StepModel::Acquire(ResourceModel::BindMount { dest: root + "/sys"@ }),
        run_step(crate::flavor::repo_update_model(c.flavor, root)),
    ];
    let g16 = install_tail_model(c, lp);
    let p = provision_steps_model(c, lp, cn);
    assert(p == g1 + g2 + g3 + g4 + g5 + g6 + g7 + g8 + g9 + g10 + g11 + g12 + g13 + g14 + g15
        + g16);
    assert(no_markers(seq![StepModel::Print { text: "> Main disk at "@ + lp }]));
    lemma_markers_singleton(StepModel::Acquire(ResourceModel::LoopDevice { path: lp }));
    lemma_markers_singleton(StepModel::Print { text: "> Main disk at "@ + lp });
    assert(g1 =~= seq![StepModel::Acquire(ResourceModel::LoopDevice { path: lp })] + seq![
        StepModel::Print { text: "> Main disk at "@ + lp },
    ]);
    lemma_markers_concat(
        seq![StepModel::Acquire(ResourceModel::LoopDevice { path: lp })],
        seq![StepModel::Print { text: "> Main disk at "@ + lp }],
    );
    lemma_runs_chunk(crate::partition::partition_plan(crate::partition::gpt_scheme(), lp));
    assert(no_markers(g3));
    lemma_no_markers_records(g3);
    lemma_runs_chunk(crate::devices::mount_cmds_model(p3, root));
    lemma_markers_singleton(g5[0]);
    assert(g5 =~= seq![g5[0]]);
    lemma_runs_chunk(crate::devices::mount_cmds_model(p2, efi));
    assert(g7 =~= seq![g7[0]] + seq![g7[1]]);
    lemma_markers_singleton(g7[0]);
    lemma_markers_singleton(g7[1]);
    lemma_markers_concat(seq![g7[0]], seq![g7[1]]);
    lemma_runs_chunk(
        crate::unpack::container_export_model(c.image_name, cn, crate::pipeline::export_path_model(c)),
    );
    assert(no_markers(g9));
    lemma_no_markers_records(g9);
    lemma_runs_chunk(crate::devices::bind_mount_cmds_model("/dev"@, root + "/dev"@));
    assert(g11 =~= seq![g11[0]]);
    lemma_markers_singleton(g11[0]);
    lemma_runs_chunk(crate::devices::bind_mount_cmds_model("/proc"@, root + "/proc"@));
    assert(g13 =~= seq![g13[0]]);
    lemma_markers_singleton(g13[0]);
    lemma_runs_chunk(crate::devices::bind_mount_cmds_model("/sys"@, root + "/sys"@));
    assert(g15 =~= seq![g15[0]] + seq![g15[1]]);
    lemma_markers_singleton(g15[0]);
    lemma_markers_singleton(g15[1]);
    lemma_markers_concat(seq![g15[0]], seq![g15[1]]);
    lemma_install_tail_markers(c, lp);
    lemma_markers_concat(g1, g2);
    lemma_markers_concat(g1 + g2, g3);
    lemma_markers_concat(g1 + g2 + g3, g4);
    lemma_markers_concat(g1 + g2 + g3 + g4, g5);
    lemma_markers_concat(g1 + g2 + g3 + g4 + g5, g6);
    lemma_markers_concat(g1 + g2 + g3 + g4 + g5 + g6, g7);
    lemma_markers_concat(g1 + g2 + g3 + g4 + g5 + g6 + g7, g8);
    lemma_markers_concat(g1 + g2 + g3 + g4 + g5 + g6 + g7 + g8, g9);
    lemma_markers_concat(g1 + g2 + g3 + g4 + g5 + g6 + g7 + g8 + g9, g10);
    lemma_markers_concat(g1 + g2 + g3 + g4 + g5 + g6 + g7 + g8 + g9 + g10, g11);
    lemma_markers_concat(g1 + g2 + g3 + g4 + g5 + g6 + g7 + g8 + g9 + g10 + g11, g12);
    lemma_markers_concat(g1 + g2 + g3 + g4 + g5 + g6 + g7 + g8 + g9 + g10 + g11 + g12, g13);
    lemma_markers_concat(g1 + g2 + g3 + g4 + g5 + g6 + g7 + g8 + g9 + g10 + g11 + g12 + g13, g14);
    lemma_markers_concat(
        g1 + g2 + g3 + g4 + g5 + g6 + g7 + g8 + g9 + g10 + g11 + g12 + g13 + g14,
        g15,
    );
    lemma_markers_concat(
        g1 + g2 + g3 + g4 + g5 + g6 + g7 + g8 + g9 + g10 + g11 + g12 + g13 + g14 + g15,
        g16,
    );
    assert(acquires_of(p) =~= pipeline_resources(c, lp));
    assert(releases_of(p) =~= Seq::<ResourceModel>::empty());
}

/// LAW: over the trace of any successful run — any configuration, any
/// captured tool output — the resources are acquired in the canonical
/// order; the teardown releases them in the exact reverse of that order;
/// nothing is held at the end; at every instant the held resources are a
/// prefix of the acquisition order; and the release of the loop device is
/// recorded only when no mount of any kind is still held.
pub proof fn lemma_run_trace_discipline(
    c: ConfigModel,
    cn: Seq<char>,
    pw: Seq<char>,
    lp: Seq<char>,
    root_uuid: Seq<char>,
    efi_uuid: Seq<char>,
    kver: Seq<char>,
)
    ensures
        acquires_of(run_trace_model(c, cn, pw, lp, root_uuid, efi_uuid, kver))
            == pipeline_resources(c, lp),
        releases_of(run_trace_model(c, cn, pw, lp, root_uuid, efi_uuid, kver))
            == pipeline_resources(c, lp).reverse(),
        stack_ok(run_trace_model(c, cn, pw, lp, root_uuid, efi_uuid, kver)),
        active_of(run_trace_model(c, cn, pw, lp, root_uuid, efi_uuid, kver)) == Seq::<
            ResourceModel,
        >::empty(),
        forall|i: int|
            0 <= i <= run_trace_model(c, cn, pw, lp, root_uuid, efi_uuid, kver).len()
                ==> is_prefix_of(
                active_of(
                    #[trigger] run_trace_model(c, cn, pw, lp, root_uuid, efi_uuid, kver).take(i),
                ),
                pipeline_resources(c, lp),
            ),
        forall|i: int|
            0 <= i < run_trace_model(c, cn, pw, lp, root_uuid, efi_uuid, kver).len()
                && is_release_step(
                #[trigger] run_trace_model(c, cn, pw, lp, root_uuid, efi_uuid, kver)[i],
            ) && is_loop_resource(
                marker_resource(run_trace_model(c, cn, pw, lp, root_uuid, efi_uuid, kver)[i]),
            ) ==> forall|k: int|
                0 <= k < active_of(
                    run_trace_model(c, cn, pw, lp, root_uuid, efi_uuid, kver).take(i),
                ).len() ==> !is_mount_resource(
                    #[trigger] active_of(
                        run_trace_model(c, cn, pw, lp, root_uuid, efi_uuid, kver).take(i),
                    )[k],
                ),
{
    let rs = pipeline_resources(c, lp);
    let root = mount_root_model(c);
    let full = run_trace_model(c, cn, pw, lp, root_uuid, efi_uuid, kver);
    let t1 = begin_steps_model(c);
    let t2 = provision_steps_model(c, lp, cn);
    let t3 = if is_apt_flavor(c.flavor) {
        Seq::<StepModel>::empty()
    } else {
        seq![StepModel::RunCapture(blkid_model(partition_device_model(lp, 3)))]
    };
    let t4 = seq![StepModel::RunCapture(blkid_model(partition_device_model(lp, 2)))];
    let t5 = bootconfig_core_model(c, lp, root_uuid, efi_uuid);
    let t6 = if is_apt_flavor(c.flavor) {
        seq![run_step(crate::flavor::update_initramfs_model(root))]
    } else {
        seq![
            StepModel::ListDir { path: root + "/lib/modules/"@ },
            run_step(crate::flavor::mkinitfs_model(root, kver)),
            run_step(crate::flavor::inittab_serial_model(root)),
        ] + crate::flavor::alpine_runlevel_model(root).map_values(|cm: CmdModel| run_step(cm))
    };
    let pre = seq![
        StepModel::Print { text: "> set root password as "@ + pw },
        crate::bootconfig::passwd_model(root, pw),
    ];
    let tail = seq![
        StepModel::CopyFile {
            src: crate::devices::img_path_model(c.working_dir),
            dest: c.output_file,
        },
        StepModel::Print { text: "> wrote "@ + c.output_file },
    ];
    let setup = t1 + t2 + t3 + t4 + t5 + t6 + pre;
    assert(closing_steps_model(c, lp, pw) == pre + teardown_trace(rs) + tail);
    assert(full =~= setup + teardown_trace(rs) + tail);
    assert(no_markers(t1));
    lemma_no_markers_records(t1);
    lemma_provision_markers(c, lp, cn);
    assert(no_markers(t3)) by {
        if !is_apt_flavor(c.flavor) {
            assert(forall|i: int| 0 <= i < t3.len() ==> #[trigger] t3[i] == t3[0]);
        }
    }
    lemma_no_markers_records(t3);
    assert(no_markers(t4));
    lemma_no_markers_records(t4);
    assert(no_markers(t5));
    lemma_no_markers_records(t5);
    assert(no_markers(t6)) by {
        if is_apt_flavor(c.flavor) {
        } else {
            let h = seq![
                StepModel::ListDir { path: root + "/lib/modules/"@ },
                run_step(crate::flavor::mkinitfs_model(root, kver)),
                run_step(crate::flavor::inittab_serial_model(root)),
            ];
            let rl = crate::flavor::alpine_runlevel_model(root).map_values(
                |cm: CmdModel| run_step(cm),
            );
            assert(no_markers(h));
            lemma_runs_chunk(crate::flavor::alpine_runlevel_model(root));
            lemma_no_markers_concat(h, rl);
        }
    }
    lemma_no_markers_records(t6);
    assert(no_markers(pre));
    lemma_no_markers_records(pre);
    assert(no_markers(tail));
    lemma_markers_concat(t1, t2);
    lemma_markers_concat(t1 + t2, t3);
    lemma_markers_concat(t1 + t2 + t3, t4);
    lemma_markers_concat(t1 + t2 + t3 + t4, t5);
    lemma_markers_concat(t1 + t2 + t3 + t4 + t5, t6);
    lemma_markers_concat(t1 + t2 + t3 + t4 + t5 + t6, pre);
    assert(acquires_of(setup) =~= rs);
    assert(releases_of(setup) =~= Seq::<ResourceModel>::empty());
    lemma_no_releases_of(setup);
    lemma_run_with_tail(setup, tail);
    assert(rs.len() > 0 && is_loop_resource(rs[0]));
    assert(forall|k: int| 1 <= k < rs.len() ==> !is_loop_resource(#[trigger] rs[k]));
    lemma_detach_with_tail(setup, tail);
    assert(full == setup + teardown_trace(acquires_of(setup)) + tail);
}


/// The steps a machine run emits over a sequence of events, if every
/// transition succeeds.
pub open spec fn machine_run_steps(m: PipelineModel, evs: Seq<EventModel>) -> Option<
    Seq<StepModel>,
>
    decreases evs.len(),
{
    if evs.len() == 0 {
        Some(Seq::<StepModel>::empty())
    } else {
        match advance_spec(m, evs[0]) {
            Ok(p) => match machine_run_steps(p.0, evs.drop_first()) {
                Some(rest) => Some(p.1 + rest),
                None => None,
            },
            Err(_) => None,
        }
    }
}

/// The events of one successful run: the start, the attach report, on the
/// Alpine path the installed-package read-back, the two UUID probes, and on
/// the Alpine path the kernel-module listing.
pub open spec fn run_events(
    f: crate::flavor::Flavor,
    attach_out: Seq<u8>,
    pkgs_out: Seq<u8>,
    root_out: Seq<u8>,
    efi_out: Seq<u8>,
    kdirs: Seq<Seq<char>>,
) -> Seq<EventModel> {
    if is_apt_flavor(f) {
        seq![
            EventModel::Begin,
            EventModel::Output(attach_out),
            EventModel::Output(root_out),
            EventModel::Output(efi_out),
        ]
    } else {
        seq![
            EventModel::Begin,
            EventModel::Output(attach_out),
            EventModel::Output(pkgs_out),
            EventModel::Output(root_out),
            EventModel::Output(efi_out),
            EventModel::Entries(kdirs),
        ]
    }
}

/// LAW: a run of the machine in which every capture succeeds emits exactly
/// the run trace, so every property of the run trace — the acquisition
/// order, the reverse-order teardown, the detach-after-unmounts rule — is a
/// property of what the machine tells its driver to do.
#[verifier::rlimit(100)]
pub proof fn lemma_machine_emits_run_trace(
    m0: PipelineModel,
    attach_out: Seq<u8>,
    pkgs_out: Seq<u8>,
    root_out: Seq<u8>,
    efi_out: Seq<u8>,
    kdirs: Seq<Seq<char>>,
)
    requires
        m0.phase == Phase::Start,
        crate::text::decoded_output(attach_out).len() > 0,
        !is_apt_flavor(m0.cfg.flavor) ==> crate::flavor::all_contained(
            crate::flavor::alpine_declared_model(),
            crate::text::line_split(crate::text::decoded_output(pkgs_out)),
        ),
        crate::text::spec_starts_with(
            crate::text::blkid_uuid_field(root_out),
            crate::text::uuid_prefix(),
        ),
        crate::text::spec_starts_with(
            crate::text::blkid_uuid_field(efi_out),
            crate::text::uuid_prefix(),
        ),
        !is_apt_flavor(m0.cfg.flavor) ==> kdirs.len() == 1,
    ensures
        machine_run_steps(
            m0,
            run_events(m0.cfg.flavor, attach_out, pkgs_out, root_out, efi_out, kdirs),
        ) == Some(
            run_trace_model(
                m0.cfg,
                m0.container_name,
                m0.password,
                crate::text::decoded_output(attach_out),
                crate::text::blkid_uuid_field(root_out),
                crate::text::blkid_uuid_field(efi_out),
                if kdirs.len() == 1 {
                    kdirs[0]
                } else {
                    Seq::<char>::empty()
                },
            ),
        ),
{
    let c = m0.cfg;
    let lp = crate::text::decoded_output(attach_out);
    let ru = crate::text::blkid_uuid_field(root_out);
    let eu = crate::text::blkid_uuid_field(efi_out);
    let kver = if kdirs.len() == 1 {
        kdirs[0]
    } else {
        Seq::<char>::empty()
    };
    let evs = run_events(c.flavor, attach_out, pkgs_out, root_out, efi_out, kdirs);
    let m1 = advance_spec(m0, EventModel::Begin)->Ok_0.0;
    let s1 = advance_spec(m0, EventModel::Begin)->Ok_0.1;
    let m2 = advance_spec(m1, EventModel::Output(attach_out))->Ok_0.0;
    let s2 = advance_spec(m1, EventModel::Output(attach_out))->Ok_0.1;
    assert(s1 == begin_steps_model(c));
    assert(s2 == provision_steps_model(c, lp, m0.container_name));
    if is_apt_flavor(c.flavor) {
        let m3 = advance_spec(m2, EventModel::Output(root_out))->Ok_0.0;
        let s3 = advance_spec(m2, EventModel::Output(root_out))->Ok_0.1;
        let m4 = advance_spec(m3, EventModel::Output(efi_out))->Ok_0.0;
        let s4 = advance_spec(m3, EventModel::Output(efi_out))->Ok_0.1;
        assert(machine_run_steps(m4, evs.skip(4)) == Some(Seq::<StepModel>::empty()));
        assert(evs.skip(3).drop_first() =~= evs.skip(4));
        assert(evs.skip(3)[0] == EventModel::Output(efi_out));
        assert(machine_run_steps(m3, evs.skip(3)) == Some(s4 + Seq::<StepModel>::empty()));
        assert(evs.skip(2).drop_first() =~= evs.skip(3));
        assert(evs.skip(2)[0] == EventModel::Output(root_out));
        assert(machine_run_steps(m2, evs.skip(2)) == Some(s3 + (s4 + Seq::<StepModel>::empty())));
        assert(evs.skip(1).drop_first() =~= evs.skip(2));
        assert(evs.skip(1)[0] == EventModel::Output(attach_out));
        assert(machine_run_steps(m1, evs.skip(1)) == Some(
            s2 + (s3 + (s4 + Seq::<StepModel>::empty())),
        ));
        assert(evs.drop_first() =~= evs.skip(1));
        assert(evs[0] == EventModel::Begin);
        assert(machine_run_steps(m0, evs) == Some(
            s1 + (s2 + (s3 + (s4 + Seq::<StepModel>::empty()))),
        ));
        assert(s1 + (s2 + (s3 + (s4 + Seq::<StepModel>::empty()))) =~= run_trace_model(
            c,
            m0.container_name,
            m0.password,
            lp,
            ru,
            eu,
            kver,
        ));
    } else {
        let m3 = advance_spec(m2, EventModel::Output(pkgs_out))->Ok_0.0;
        let s3 = advance_spec(m2, EventModel::Output(pkgs_out))->Ok_0.1;
        let m4 = advance_spec(m3, EventModel::Output(root_out))->Ok_0.0;
        let s4 = advance_spec(m3, EventModel::Output(root_out))->Ok_0.1;
        let m5 = advance_spec(m4, EventModel::Output(efi_out))->Ok_0.0;
        let s5 = advance_spec(m4, EventModel::Output(efi_out))->Ok_0.1;
        let m6 = advance_spec(m5, EventModel::Entries(kdirs))->Ok_0.0;
        let s6 = advance_spec(m5, EventModel::Entries(kdirs))->Ok_0.1;
        assert(machine_run_steps(m6, evs.skip(6)) == Some(Seq::<StepModel>::empty()));
        assert(evs.skip(5).drop_first() =~= evs.skip(6));
        assert(evs.skip(5)[0] == EventModel::Entries(kdirs));
        assert(machine_run_steps(m5, evs.skip(5)) == Some(s6 + Seq::<StepModel>::empty()));
        assert(evs.skip(4).drop_first() =~= evs.skip(5));
        assert(evs.skip(4)[0] == EventModel::Output(efi_out));
        assert(machine_run_steps(m4, evs.skip(4)) == Some(s5 + (s6 + Seq::<StepModel>::empty())));
        assert(evs.skip(3).drop_first() =~= evs.skip(4));
        assert(evs.skip(3)[0] == EventModel::Output(root_out));
        assert(machine_run_steps(m3, evs.skip(3)) == Some(
            s4 + (s5 + (s6 + Seq::<StepModel>::empty())),
        ));
        assert(evs.skip(2).drop_first() =~= evs.skip(3));
        assert(evs.skip(2)[0] == EventModel::Output(pkgs_out));
        assert(machine_run_steps(m2, evs.skip(2)) == Some(
            s3 + (s4 + (s5 + (s6 + Seq::<StepModel>::empty()))),
        ));
        assert(evs.skip(1).drop_first() =~= evs.skip(2));
        assert(evs.skip(1)[0] == EventModel::Output(attach_out));
        assert(machine_run_steps(m1, evs.skip(1)) == Some(
            s2 + (s3 + (s4 + (s5 + (s6 + Seq::<StepModel>::empty())))),
        ));
        assert(evs.drop_first() =~= evs.skip(1));
        assert(evs[0] == EventModel::Begin);
        assert(machine_run_steps(m0, evs) == Some(
            s1 + (s2 + (s3 + (s4 + (s5 + (s6 + Seq::<StepModel>::empty()))))),
        ));
        assert(s1 + (s2 + (s3 + (s4 + (s5 + (s6 + Seq::<StepModel>::empty()))))) =~= run_trace_model(
            c,
            m0.container_name,
            m0.password,
            lp,
            ru,
            eu,
            kver,
        ));
    }
}

} // verus!
