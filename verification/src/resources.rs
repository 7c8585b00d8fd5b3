//! The ownership stack: acquired resources in acquisition order, and the
//! teardown plan that releases them in exact reverse order.
//!
//! Teardown runs a sync before each unmount, stops guarded services before
//! the bind mounts they hold open, and detaches the loop device only once
//! every mount under it has been released. The lemmas here prove that a run
//! shaped as an acquisition phase followed by this teardown keeps the stack
//! discipline at every instant.

use vstd::prelude::*;

use crate::cmd::{cmd, cmd_model, new_args, push_lit, push_string, Cmd, CmdModel};
use crate::step::{
    acquires_of, active_of, is_acquire_step, is_loop_resource, is_mount_resource, is_prefix_of,
    is_release_step, lemma_acquires_of_prefix, lemma_active_without_releases,
    lemma_extend_no_markers, lemma_stack_ok_prefix, marker_resource,
    no_markers, releases_of, stack_ok, Resource, ResourceModel, Step, StepModel,
};

verus! {

/// The command that stops one guarded service inside the target root.
pub open spec fn service_stop_cmd(root: Seq<char>, svc: Seq<char>) -> CmdModel {
    cmd_model("chroot"@, seq![root, "rc-service"@, svc, "stop"@])
}

/// A sync followed by the unmount of a destination.
pub open spec fn sync_umount_cmds(dest: Seq<char>) -> Seq<CmdModel> {
    seq![
        cmd_model("sync"@, Seq::<Seq<char>>::empty()),
        cmd_model("umount"@, seq![dest]),
    ]
}

/// The commands that release one resource.
pub open spec fn release_cmds(r: ResourceModel) -> Seq<CmdModel> {
    match r {
        ResourceModel::LoopDevice { path } => seq![cmd_model("losetup"@, seq!["-d"@, path])],
        ResourceModel::MountPoint { dest } => sync_umount_cmds(dest),
        ResourceModel::BindMount { dest } => sync_umount_cmds(dest),
        ResourceModel::ServiceGuard { root, services } => services.map_values(
            |s: Seq<char>| service_stop_cmd(root, s),
        ),
    }
}

/// The steps that release one resource: its release commands, then the
/// record that it is no longer held.
pub open spec fn release_batch(r: ResourceModel) -> Seq<StepModel> {
    release_cmds(r).map_values(|c: CmdModel| StepModel::Run(c)).push(StepModel::Release(r))
}

/// The teardown of a held-resource stack: every resource released, most
/// recently acquired first.
pub open spec fn teardown_trace(rs: Seq<ResourceModel>) -> Seq<StepModel>
    decreases rs.len(),
{
    if rs.len() == 0 {
        Seq::<StepModel>::empty()
    } else {
        release_batch(rs.last()) + teardown_trace(rs.drop_last())
    }
}

fn push_run(out: &mut Vec<Step>, c: Cmd)
    ensures
        final(out).deep_view() == old(out).deep_view().push(StepModel::Run(c@)),
{
    out.push(Step::Run(c));
    proof {
        assert(out.deep_view() =~= old(out).deep_view().push(StepModel::Run(c@)));
    }
}

/// The steps that release one resource.
fn release_steps(r: Resource) -> (out: Vec<Step>)
    ensures
        out.deep_view() == release_batch(r@),
{
    let ghost rv = r@;
    let mut out: Vec<Step> = Vec::new();
    match &r {
        Resource::LoopDevice { path } => {
            let mut args = new_args();
            push_lit(&mut args, "-d");
            push_string(&mut args, path.clone());
            let c = cmd("losetup", args);
            out.push(Step::Run(c));
        },
        Resource::MountPoint { dest } => {
            out.push(Step::Run(cmd("sync", new_args())));
            let mut args = new_args();
            push_string(&mut args, dest.clone());
            out.push(Step::Run(cmd("umount", args)));
        },
        Resource::BindMount { dest } => {
            out.push(Step::Run(cmd("sync", new_args())));
            let mut args = new_args();
            push_string(&mut args, dest.clone());
            out.push(Step::Run(cmd("umount", args)));
        },
        Resource::ServiceGuard { root, services } => {
            let n: usize = services.len();
            let mut i: usize = 0;
            while i < n
                invariant
                    i <= n,
                    n == services@.len(),
                    out.deep_view() =~~= services.deep_view().take(i as int).map_values(
                        |s: Seq<char>| StepModel::Run(service_stop_cmd(root@, s)),
                    ),
                decreases n - i,
            {
                let mut args = new_args();
                push_string(&mut args, root.clone());
                push_lit(&mut args, "rc-service");
                push_string(&mut args, services[i].clone());
                push_lit(&mut args, "stop");
                push_run(&mut out, cmd("chroot", args));
                proof {
                    assert(services.deep_view().take(i + 1) =~= services.deep_view().take(
                        i as int,
                    ).push(services@[i as int]@));
                    assert(out.deep_view() =~~= services.deep_view().take(i + 1).map_values(
                        |s: Seq<char>| StepModel::Run(service_stop_cmd(root@, s)),
                    ));
                }
                i = i + 1;
            }
            proof {
                assert(services.deep_view().take(n as int) =~= services.deep_view());
            }
        },
    }
    proof {
        assert(out.deep_view() =~~= release_cmds(rv).map_values(|c: CmdModel| StepModel::Run(c)));
    }
    out.push(Step::Release(r));
    proof {
        assert(out.deep_view() =~~= release_batch(rv));
    }
    out
}

/// The resources the pipeline holds, in acquisition order.
#[derive(Debug)]
pub struct ResourceStack {
    pub items: Vec<Resource>,
}

impl View for ResourceStack {
    type V = Seq<ResourceModel>;

    open spec fn view(&self) -> Seq<ResourceModel> {
        self.items.deep_view()
    }
}

impl ResourceStack {
    /// An empty stack: nothing is held.
    pub fn new() -> (r: ResourceStack)
        ensures
            r@ == Seq::<ResourceModel>::empty(),
    {
        let r = ResourceStack { items: Vec::new() };
        proof {
            assert(r@ =~= Seq::<ResourceModel>::empty());
        }
        r
    }

    /// Records a newly acquired resource on top of the stack.
    pub fn acquire(&mut self, r: Resource)
        ensures
            final(self)@ == old(self)@.push(r@),
    {
        self.items.push(r);
        proof {
            assert(self@ =~= old(self)@.push(self.items@[self.items@.len() - 1]@));
        }
    }

    /// The number of resources held.
    pub fn len(&self) -> (n: usize)
        ensures
            n == self@.len(),
    {
        self.items.len()
    }

    /// The steps that release everything held, in exact reverse order of
    /// acquisition; the stack is emptied.
    pub fn teardown_steps(&mut self) -> (out: Vec<Step>)
        ensures
            out.deep_view() == teardown_trace(old(self)@),
            final(self)@ == Seq::<ResourceModel>::empty(),
    {
        let ghost rs = self@;
        let mut out: Vec<Step> = Vec::new();
        proof {
            assert(rs.take(rs.len() as int) =~= rs);
            assert(out.deep_view() + teardown_trace(rs.take(rs.len() as int)) =~= teardown_trace(
                rs,
            ));
        }
        while self.items.len() > 0
            invariant
                self.items@.len() <= rs.len(),
                self.items.deep_view() =~= rs.take(self.items@.len() as int),
                teardown_trace(rs) =~= out.deep_view() + teardown_trace(
                    rs.take(self.items@.len() as int),
                ),
            decreases self.items@.len(),
        {
            let ghost j = self.items@.len() as int;
            let popped = self.items.pop();
            let r = popped.unwrap();
            proof {
                assert(r@ == rs.take(j).last());
                assert(self.items.deep_view() =~= rs.take(j - 1));
                assert(rs.take(j).drop_last() =~= rs.take(j - 1));
            }
            let mut batch = release_steps(r);
            let ghost out0 = out.deep_view();
            let ghost b = batch.deep_view();
            out.append(&mut batch);
            proof {
                assert(out.deep_view() =~= out0 + b);
                assert(teardown_trace(rs.take(j)) =~= release_batch(rs.take(j).last())
                    + teardown_trace(rs.take(j - 1)));
                assert(teardown_trace(rs) =~= out.deep_view() + teardown_trace(
                    rs.take(j - 1),
                ));
            }
        }
        proof {
            assert(rs.take(0) =~= Seq::<ResourceModel>::empty());
            assert(teardown_trace(rs) =~= out.deep_view());
            assert(self@ =~= Seq::<ResourceModel>::empty());
        }
        out
    }
}

/// The release commands of a resource carry no ownership markers; the
/// release batch is those commands followed by the one release marker.
proof fn lemma_release_batch_shape(r: ResourceModel)
    ensures
        no_markers(release_cmds(r).map_values(|c: CmdModel| StepModel::Run(c))),
        release_batch(r) == release_cmds(r).map_values(|c: CmdModel| StepModel::Run(c)) + seq![
            StepModel::Release(r),
        ],
{
    let runs = release_cmds(r).map_values(|c: CmdModel| StepModel::Run(c));
    assert forall|i: int| 0 <= i < runs.len() implies !is_acquire_step(#[trigger] runs[i])
        && !is_release_step(runs[i]) by {
        assert(runs[i] == StepModel::Run(release_cmds(r)[i]));
    }
    assert(release_batch(r) =~= runs + seq![StepModel::Release(r)]);
}

/// Tearing down the held stack releases every resource, most recently
/// acquired first, and keeps the stack discipline throughout.
pub proof fn lemma_teardown(t: Seq<StepModel>, rs: Seq<ResourceModel>)
    requires
        stack_ok(t),
        active_of(t) == rs,
    ensures
        stack_ok(t + teardown_trace(rs)),
        active_of(t + teardown_trace(rs)) == Seq::<ResourceModel>::empty(),
        releases_of(t + teardown_trace(rs)) == releases_of(t) + rs.reverse(),
        acquires_of(t + teardown_trace(rs)) == acquires_of(t),
    decreases rs.len(),
{
    if rs.len() == 0 {
        assert(t + teardown_trace(rs) =~= t);
        assert(releases_of(t) + rs.reverse() =~= releases_of(t));
    } else {
        let r = rs.last();
        let runs = release_cmds(r).map_values(|c: CmdModel| StepModel::Run(c));
        lemma_release_batch_shape(r);
        lemma_extend_no_markers(t, runs);
        let t1 = t + runs;
        let t2 = t1 + seq![StepModel::Release(r)];
        assert(t2.drop_last() =~= t1);
        assert(t2.last() == StepModel::Release(r));
        assert(active_of(t2) == rs.drop_last());
        assert(stack_ok(t2));
        assert(releases_of(t2) =~= releases_of(t).push(r));
        assert(acquires_of(t2) == acquires_of(t));
        lemma_teardown(t2, rs.drop_last());
        assert(t + teardown_trace(rs) =~= t2 + teardown_trace(rs.drop_last()));
        assert(releases_of(t).push(r) + rs.drop_last().reverse() =~= releases_of(t)
            + rs.reverse()) by {
            assert(rs.reverse() =~= seq![r] + rs.drop_last().reverse());
        }
    }
}

/// At every instant of a teardown, the resources still held are a prefix of
/// the stack being torn down.
pub proof fn lemma_teardown_active_prefix(t: Seq<StepModel>, rs: Seq<ResourceModel>)
    requires
        stack_ok(t),
        active_of(t) == rs,
    ensures
        forall|j: int|
            0 <= j <= teardown_trace(rs).len() ==> is_prefix_of(
                active_of(t + #[trigger] teardown_trace(rs).take(j)),
                rs,
            ),
    decreases rs.len(),
{
    if rs.len() == 0 {
        assert forall|j: int| 0 <= j <= teardown_trace(rs).len() implies is_prefix_of(
            active_of(t + #[trigger] teardown_trace(rs).take(j)),
            rs,
        ) by {
            assert(t + teardown_trace(rs).take(j) =~= t);
            assert(rs.take(0) =~= rs);
        }
    } else {
        let r = rs.last();
        let runs = release_cmds(r).map_values(|c: CmdModel| StepModel::Run(c));
        lemma_release_batch_shape(r);
        lemma_extend_no_markers(t, runs);
        let batch = release_batch(r);
        let t1 = t + runs;
        let t2 = t1 + seq![StepModel::Release(r)];
        assert(t2.drop_last() =~= t1);
        assert(active_of(t2) == rs.drop_last());
        assert(stack_ok(t2));
        lemma_teardown_active_prefix(t2, rs.drop_last());
        assert forall|j: int| 0 <= j <= teardown_trace(rs).len() implies is_prefix_of(
            active_of(t + #[trigger] teardown_trace(rs).take(j)),
            rs,
        ) by {
            if j < batch.len() {
                // still inside the release commands of the top resource
                assert(teardown_trace(rs).take(j) =~= runs.take(j));
                assert(no_markers(runs.take(j))) by {
                    assert(forall|k: int| 0 <= k < j ==> runs.take(j)[k] == runs[k]);
                }
                lemma_extend_no_markers(t, runs.take(j));
                assert(active_of(t + runs.take(j)) == rs);
                assert(rs =~= rs.take(rs.len() as int));
            } else {
                // the top resource is released; the rest is the smaller teardown
                let j2 = j - batch.len();
                assert(teardown_trace(rs).take(j) =~= batch + teardown_trace(
                    rs.drop_last(),
                ).take(j2));
                assert(t + teardown_trace(rs).take(j) =~= t2 + teardown_trace(
                    rs.drop_last(),
                ).take(j2));
                assert(is_prefix_of(
                    active_of(t2 + teardown_trace(rs.drop_last()).take(j2)),
                    rs.drop_last(),
                ));
                let a = active_of(t2 + teardown_trace(rs.drop_last()).take(j2));
                assert(a =~= rs.take(a.len() as int)) by {
                    assert(forall|k: int|
                        0 <= k < rs.drop_last().len() ==> rs.drop_last()[k] == rs[k]);
                }
            }
        }
    }
}

/// A full provisioning run: an acquisition phase that never releases,
/// followed by the teardown of everything acquired.
pub open spec fn bracketed_run(setup: Seq<StepModel>) -> Seq<StepModel> {
    setup + teardown_trace(acquires_of(setup))
}

/// LAW: in a run shaped as acquisition followed by teardown, the teardown
/// releases exactly the acquired resources in exact reverse order of
/// acquisition, nothing is held at the end, and at every instant the held
/// resources are a prefix of the acquisition order.
pub proof fn lemma_run_stack_discipline(setup: Seq<StepModel>)
    requires
        forall|i: int| 0 <= i < setup.len() ==> !is_release_step(#[trigger] setup[i]),
    ensures
        stack_ok(bracketed_run(setup)),
        releases_of(bracketed_run(setup)) == acquires_of(setup).reverse(),
        acquires_of(bracketed_run(setup)) == acquires_of(setup),
        active_of(bracketed_run(setup)) == Seq::<ResourceModel>::empty(),
        forall|i: int|
            0 <= i <= bracketed_run(setup).len() ==> is_prefix_of(
                active_of(#[trigger] bracketed_run(setup).take(i)),
                acquires_of(setup),
            ),
{
    let rs = acquires_of(setup);
    let full = bracketed_run(setup);
    lemma_active_without_releases(setup);
    lemma_teardown(setup, rs);
    assert(releases_of(full) =~= rs.reverse());
    lemma_teardown_active_prefix(setup, rs);
    assert forall|i: int| 0 <= i <= full.len() implies is_prefix_of(
        active_of(#[trigger] full.take(i)),
        rs,
    ) by {
        if i <= setup.len() {
            assert(full.take(i) =~= setup.take(i));
            assert(forall|k: int| 0 <= k < i ==> setup.take(i)[k] == setup[k]);
            lemma_active_without_releases(setup.take(i));
            lemma_acquires_of_prefix(setup, i);
        } else {
            let j = i - setup.len();
            assert(full.take(i) =~= setup + teardown_trace(rs).take(j));
        }
    }
}

/// LAW: in such a run, whenever the release of a loop device is recorded,
/// no mount of any kind is still held: every mount under the device was
/// released first. This requires only that the loop device was acquired
/// before everything else, as the pipeline does.
pub proof fn lemma_detach_only_after_unmounts(setup: Seq<StepModel>)
    requires
        forall|i: int| 0 <= i < setup.len() ==> !is_release_step(#[trigger] setup[i]),
        acquires_of(setup).len() > 0,
        is_loop_resource(acquires_of(setup)[0]),
        forall|k: int|
            1 <= k < acquires_of(setup).len() ==> !is_loop_resource(
                #[trigger] acquires_of(setup)[k],
            ),
    ensures
        forall|i: int|
            0 <= i < bracketed_run(setup).len() && is_release_step(
                #[trigger] bracketed_run(setup)[i],
            ) && is_loop_resource(marker_resource(bracketed_run(setup)[i])) ==> forall|k: int|
                0 <= k < active_of(bracketed_run(setup).take(i)).len() ==> !is_mount_resource(
                    #[trigger] active_of(bracketed_run(setup).take(i))[k],
                ),
{
    let rs = acquires_of(setup);
    let full = bracketed_run(setup);
    lemma_run_stack_discipline(setup);
    assert forall|i: int|
        0 <= i < full.len() && is_release_step(#[trigger] full[i]) && is_loop_resource(
            marker_resource(full[i]),
        ) implies forall|k: int|
        0 <= k < active_of(full.take(i)).len() ==> !is_mount_resource(
            #[trigger] active_of(full.take(i))[k],
        ) by {
        lemma_stack_ok_prefix(full, i + 1);
        let a = active_of(full.take(i));
        assert(full.take(i + 1).drop_last() =~= full.take(i));
        assert(full.take(i + 1).last() == full[i]);
        // the stack discipline: the released loop device is the top of the stack
        assert(a.len() > 0 && a.last() == marker_resource(full[i]));
        // the held resources are a prefix of the acquisition order
        assert(is_prefix_of(a, rs));
        assert(a.last() == rs[a.len() - 1]);
        // only the first acquired resource is a loop device
        assert(a.len() == 1);
        assert forall|k: int| 0 <= k < a.len() implies !is_mount_resource(#[trigger] a[k]) by {
            assert(a[0] == rs[0]);
        }
    }
}


/// LAW, with a coda: a run shaped as acquisition, full teardown, and a
/// marker-free closing part keeps every guarantee of the bracketed run.
pub proof fn lemma_run_with_tail(setup: Seq<StepModel>, tail: Seq<StepModel>)
    requires
        forall|i: int| 0 <= i < setup.len() ==> !is_release_step(#[trigger] setup[i]),
        no_markers(tail),
    ensures
        stack_ok(setup + teardown_trace(acquires_of(setup)) + tail),
        releases_of(setup + teardown_trace(acquires_of(setup)) + tail) == acquires_of(
            setup,
        ).reverse(),
        acquires_of(setup + teardown_trace(acquires_of(setup)) + tail) == acquires_of(setup),
        active_of(setup + teardown_trace(acquires_of(setup)) + tail) == Seq::<
            ResourceModel,
        >::empty(),
        forall|i: int|
            0 <= i <= (setup + teardown_trace(acquires_of(setup)) + tail).len() ==> is_prefix_of(
                active_of(#[trigger] (setup + teardown_trace(acquires_of(setup)) + tail).take(i)),
                acquires_of(setup),
            ),
{
    let rs = acquires_of(setup);
    let bracket = bracketed_run(setup);
    let full = setup + teardown_trace(rs) + tail;
    lemma_run_stack_discipline(setup);
    lemma_extend_no_markers(bracket, tail);
    assert(full =~= bracket + tail);
    assert forall|i: int| 0 <= i <= full.len() implies is_prefix_of(
        active_of(#[trigger] full.take(i)),
        rs,
    ) by {
        if i <= bracket.len() {
            assert(full.take(i) =~= bracket.take(i));
        } else {
            let j = i - bracket.len();
            assert(full.take(i) =~= bracket + tail.take(j));
            assert(no_markers(tail.take(j))) by {
                assert(forall|k: int| 0 <= k < j ==> tail.take(j)[k] == #[trigger] tail[k]);
            }
            lemma_extend_no_markers(bracket, tail.take(j));
            assert(active_of(bracket) =~= rs.take(0));
        }
    }
}

/// LAW, with a coda: the detach of the loop device still comes only after
/// every mount's release when a marker-free closing part follows the
/// teardown.
pub proof fn lemma_detach_with_tail(setup: Seq<StepModel>, tail: Seq<StepModel>)
    requires
        forall|i: int| 0 <= i < setup.len() ==> !is_release_step(#[trigger] setup[i]),
        no_markers(tail),
        acquires_of(setup).len() > 0,
        is_loop_resource(acquires_of(setup)[0]),
        forall|k: int|
            1 <= k < acquires_of(setup).len() ==> !is_loop_resource(
                #[trigger] acquires_of(setup)[k],
            ),
    ensures
        forall|i: int|
            0 <= i < (setup + teardown_trace(acquires_of(setup)) + tail).len() && is_release_step(
                #[trigger] (setup + teardown_trace(acquires_of(setup)) + tail)[i],
            ) && is_loop_resource(
                marker_resource((setup + teardown_trace(acquires_of(setup)) + tail)[i]),
            ) ==> forall|k: int|
                0 <= k < active_of(
                    (setup + teardown_trace(acquires_of(setup)) + tail).take(i),
                ).len() ==> !is_mount_resource(
                    #[trigger] active_of(
                        (setup + teardown_trace(acquires_of(setup)) + tail).take(i),
                    )[k],
                ),
{
    let rs = acquires_of(setup);
    let bracket = bracketed_run(setup);
    let full = setup + teardown_trace(rs) + tail;
    lemma_detach_only_after_unmounts(setup);
    assert(full =~= bracket + tail);
    assert forall|i: int|
        0 <= i < full.len() && is_release_step(#[trigger] full[i]) && is_loop_resource(
            marker_resource(full[i]),
        ) implies forall|k: int|
        0 <= k < active_of(full.take(i)).len() ==> !is_mount_resource(
            #[trigger] active_of(full.take(i))[k],
        ) by {
        if i < bracket.len() {
            assert(full[i] == bracket[i]);
            assert(full.take(i) =~= bracket.take(i));
        } else {
            let j = i - bracket.len();
            assert(full[i] == tail[j]);
            assert(!is_release_step(tail[j]));
        }
    }
}

} // verus!
