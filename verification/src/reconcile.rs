//! The reconciler: one poll tick computes, for every source, whether the
//! current time of day falls in any of its windows, and converges the source
//! by activating or deactivating it. The filesystem work each decision entails
//! is returned as a [`LinkAction`] for the caller to carry out.

use vstd::prelude::*;
use crate::config::Config;
use crate::source::{
    Source, spec_activate_plan, spec_deactivate_plan, str_views,
};
use crate::time::{ActiveInterval, TimeOfDay, Timestamp};

verus! {

/// Whether any of a source's windows contains the time `now` (seconds since
/// midnight): the wanted activation state.
pub open spec fn spec_wanted(intervals: Seq<ActiveInterval>, now: int) -> bool {
    exists|i: int| 0 <= i < intervals.len() && (#[trigger] intervals[i]).contains(now)
}

/// OR the membership tests of a source's windows: should it be active at `now`?
pub fn wanted_active(intervals: &Vec<ActiveInterval>, now: &TimeOfDay) -> (r: bool)
    requires
        now.wf(),
        forall|i: int| 0 <= i < intervals@.len() ==> (#[trigger] intervals@[i]).wf(),
    ensures
        r == spec_wanted(intervals@, now.seconds as int),
{
    let mut r = false;
    let mut i: usize = 0;
    while i < intervals.len()
        invariant
            i <= intervals@.len(),
            now.wf(),
            forall|j: int| 0 <= j < intervals@.len() ==> (#[trigger] intervals@[j]).wf(),
            r == exists|j: int| 0 <= j < i && (#[trigger] intervals@[j]).contains(now.seconds as int),
        decreases intervals@.len() - i,
    {
        let iv = &intervals[i];
        if Timestamp::between(&iv.start, &iv.end, now) {
            r = true;
        }
        i += 1;
    }
    r
}

/// The filesystem work one tick decided for one source: link names to create
/// in the active directory, or link names to remove from it.
#[derive(Debug)]
pub enum LinkAction {
    Create(Vec<String>),
    Remove(Vec<String>),
}

impl LinkAction {
    pub open spec fn is_create(self) -> bool {
        self is Create
    }

    /// The link names the action carries.
    pub open spec fn names(self) -> Seq<Seq<char>> {
        match self {
            LinkAction::Create(v) => str_views(v@),
            LinkAction::Remove(v) => str_views(v@),
        }
    }
}

/// One reconciliation pass: for every source, decide the wanted state from its
/// windows and `now`, then converge by activating (a creation action) or
/// deactivating (a removal action). `files[i]` holds the backing files of
/// source `i` as currently enumerated; sources already in the wanted state get
/// an empty action.
pub fn tick(config: &mut Config, now: &TimeOfDay, files: &Vec<Vec<String>>) -> (actions: Vec<
    LinkAction,
>)
    requires
        old(config).wf(),
        now.wf(),
        files@.len() == old(config).source@.len(),
    ensures
        final(config).update_interval == old(config).update_interval,
        final(config).active_directory == old(config).active_directory,
        final(config).source@.len() == old(config).source@.len(),
        final(config).wf(),
        actions@.len() == old(config).source@.len(),
        forall|i: int|
            0 <= i < final(config).source@.len() ==> {
                &&& (#[trigger] final(config).source@[i]).name == old(config).source@[i].name
                &&& final(config).source@[i].directory == old(config).source@[i].directory
                &&& final(config).source@[i].interval == old(config).source@[i].interval
                &&& final(config).source@[i].active == spec_wanted(
                    old(config).source@[i].interval@,
                    now.seconds as int,
                )
            },
        forall|i: int|
            0 <= i < actions@.len() ==> {
                &&& (#[trigger] actions@[i]).is_create() == spec_wanted(
                    old(config).source@[i].interval@,
                    now.seconds as int,
                )
                &&& actions@[i].names() == (if spec_wanted(
                    old(config).source@[i].interval@,
                    now.seconds as int,
                ) {
                    spec_activate_plan(
                        old(config).source@[i].active,
                        old(config).source@[i].name@,
                        str_views(files@[i]@),
                    )
                } else {
                    spec_deactivate_plan(
                        old(config).source@[i].active,
                        old(config).source@[i].name@,
                        str_views(files@[i]@),
                    )
                })
            },
{
    let mut actions: Vec<LinkAction> = Vec::new();
    let mut i: usize = 0;
    while i < config.source.len()
        invariant
            i <= old(config).source@.len(),
            config.source@.len() == old(config).source@.len(),
            files@.len() == old(config).source@.len(),
            now.wf(),
            old(config).wf(),
            config.update_interval == old(config).update_interval,
            config.active_directory == old(config).active_directory,
            actions@.len() == i,
            forall|j: int|
                i <= j < config.source@.len() ==> #[trigger] config.source@[j] == old(
                    config,
                ).source@[j],
            forall|j: int|
                0 <= j < i ==> {
                    &&& (#[trigger] config.source@[j]).name == old(config).source@[j].name
                    &&& config.source@[j].directory == old(config).source@[j].directory
                    &&& config.source@[j].interval == old(config).source@[j].interval
                    &&& config.source@[j].active == spec_wanted(
                        old(config).source@[j].interval@,
                        now.seconds as int,
                    )
                },
            forall|j: int|
                0 <= j < i ==> {
                    &&& (#[trigger] actions@[j]).is_create() == spec_wanted(
                        old(config).source@[j].interval@,
                        now.seconds as int,
                    )
                    &&& actions@[j].names() == (if spec_wanted(
                        old(config).source@[j].interval@,
                        now.seconds as int,
                    ) {
                        spec_activate_plan(
                            old(config).source@[j].active,
                            old(config).source@[j].name@,
                            str_views(files@[j]@),
                        )
                    } else {
                        spec_deactivate_plan(
                            old(config).source@[j].active,
                            old(config).source@[j].name@,
                            str_views(files@[j]@),
                        )
                    })
                },
        decreases config.source@.len() - i,
    {
        let ghost pre = config.source@;
        let mut src = config.source.remove(i);
        assert(src.wf());
        let wanted = wanted_active(&src.interval, now);
        let action = if wanted {
            LinkAction::Create(Source::activate(&mut src, &files[i]))
        } else {
            LinkAction::Remove(Source::deactivate(&mut src, &files[i]))
        };
        let ghost converged = src;
        let ghost actions_pre = actions@;
        config.source.insert(i, src);
        proof {
            assert(config.source@ =~= pre.update(i as int, converged));
        }
        actions.push(action);
        proof {
            assert(forall|j: int| 0 <= j < i ==> #[trigger] config.source@[j] == pre[j]);
            assert(forall|j: int| 0 <= j < i ==> #[trigger] actions@[j] == actions_pre[j]);
        }
        i += 1;
    }
    actions
}

} // verus!
