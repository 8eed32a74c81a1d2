//! The declarative policy: the poll period, the shared active directory, and
//! the sources it governs, together with the whole-config mirror pass that
//! re-derives every source's activation state after a load or reload.

use vstd::prelude::*;
use crate::source::{Source, any_linked, spec_mirror_plan, str_views};

verus! {

/// The whole configuration, replaced wholesale on every reload; freshly loaded
/// sources carry no activation memory and must be mirrored from disk.
#[derive(Debug)]
pub struct Config {
    /// Poll period in seconds.
    pub update_interval: u64,
    /// The shared directory all sources' symlinks are placed in.
    pub active_directory: Option<String>,
    /// The governed sources, in document order.
    pub source: Vec<Source>,
}

impl Config {
    /// Every source's window boundaries are valid times of day.
    pub open spec fn wf(self) -> bool {
        forall|i: int| 0 <= i < self.source@.len() ==> (#[trigger] self.source@[i]).wf()
    }
}

/// What a probe of the filesystem found for one source: the backing files and,
/// aligned index by index, whether each file's link currently exists in the
/// active directory. An unreadable backing directory probes as no files at
/// all, degrading the source safely toward inactive.
#[derive(Debug)]
pub struct SourceProbe {
    pub files: Vec<String>,
    pub linked: Vec<bool>,
}

impl SourceProbe {
    pub open spec fn wf(self) -> bool {
        self.files@.len() == self.linked@.len()
    }
}

impl Config {
    /// Re-derive every source's logical state from the probes, one per source
    /// in order. Returns, per source, the link names the caller must create to
    /// self-heal a partially linked source; the other plans are empty.
    pub fn mirror_fs_state(this: &mut Self, probes: &Vec<SourceProbe>) -> (plans: Vec<Vec<String>>)
        requires
            probes@.len() == old(this).source@.len(),
            forall|i: int| 0 <= i < probes@.len() ==> (#[trigger] probes@[i]).wf(),
        ensures
            final(this).update_interval == old(this).update_interval,
            final(this).active_directory == old(this).active_directory,
            final(this).source@.len() == old(this).source@.len(),
            plans@.len() == old(this).source@.len(),
            forall|i: int|
                0 <= i < final(this).source@.len() ==> {
                    &&& (#[trigger] final(this).source@[i]).name == old(this).source@[i].name
                    &&& final(this).source@[i].directory == old(this).source@[i].directory
                    &&& final(this).source@[i].interval == old(this).source@[i].interval
                    &&& final(this).source@[i].active == any_linked(probes@[i].linked@)
                },
            forall|i: int|
                0 <= i < plans@.len() ==> str_views((#[trigger] plans@[i])@) == spec_mirror_plan(
                    old(this).source@[i].active,
                    old(this).source@[i].name@,
                    str_views(probes@[i].files@),
                    probes@[i].linked@,
                ),
    {
        let mut plans: Vec<Vec<String>> = Vec::new();
        let mut i: usize = 0;
        while i < this.source.len()
            invariant
                i <= old(this).source@.len(),
                this.source@.len() == old(this).source@.len(),
                probes@.len() == old(this).source@.len(),
                forall|j: int| 0 <= j < probes@.len() ==> (#[trigger] probes@[j]).wf(),
                this.update_interval == old(this).update_interval,
                this.active_directory == old(this).active_directory,
                plans@.len() == i,
                forall|j: int|
                    i <= j < this.source@.len() ==> #[trigger] this.source@[j] == old(
                        this,
                    ).source@[j],
                forall|j: int|
                    0 <= j < i ==> {
                        &&& (#[trigger] this.source@[j]).name == old(this).source@[j].name
                        &&& this.source@[j].directory == old(this).source@[j].directory
                        &&& this.source@[j].interval == old(this).source@[j].interval
                        &&& this.source@[j].active == any_linked(probes@[j].linked@)
                    },
                forall|j: int|
                    0 <= j < i ==> str_views((#[trigger] plans@[j])@) == spec_mirror_plan(
                        old(this).source@[j].active,
                        old(this).source@[j].name@,
                        str_views(probes@[j].files@),
                        probes@[j].linked@,
                    ),
            decreases this.source@.len() - i,
        {
            let ghost pre = this.source@;
            let mut src = this.source.remove(i);
            let probe = &probes[i];
            let (_state, plan) = Source::mirror_fs_state(&mut src, &probe.files, &probe.linked);
            let ghost healed = src;
            let ghost plans_pre = plans@;
            this.source.insert(i, src);
            proof {
                assert(this.source@ =~= pre.update(i as int, healed));
            }
            plans.push(plan);
            proof {
                assert(forall|j: int| 0 <= j < i ==> #[trigger] this.source@[j] == pre[j]);
                assert(forall|j: int| 0 <= j < i ==> #[trigger] plans@[j] == plans_pre[j]);
            }
            i += 1;
        }
        plans
    }
}

} // verus!
