//! One source's activation state machine: the deterministic link-name scheme,
//! the idempotent activate/deactivate operations, and the mirror pass that
//! re-derives logical state from what is on disk.
//!
//! The functions here plan filesystem work rather than perform it: they return
//! the link names the caller must create or remove in the active directory.
//! The sets of names are modelled by [`apply_creates`] and [`apply_removes`].

use vstd::prelude::*;
use crate::time::ActiveInterval;

verus! {

/// The symlink name a source exposes one backing file under:
/// the source's name, an underscore, and the file's name.
pub open spec fn spec_link_name(source_name: Seq<char>, file_name: Seq<char>) -> Seq<char> {
    source_name + seq!['_'] + file_name
}

/// The views of a sequence of strings.
pub open spec fn str_views(names: Seq<String>) -> Seq<Seq<char>> {
    names.map_values(|s: String| s@)
}

/// The link names for a source's backing files, in enumeration order.
pub open spec fn spec_link_names(source_name: Seq<char>, files: Seq<Seq<char>>) -> Seq<Seq<char>> {
    files.map_values(|f: Seq<char>| spec_link_name(source_name, f))
}

/// Build the symlink name for one backing file: `{source_name}_{file_name}`.
/// The scheme does not escape separators inside the file name.
pub fn link_name(source_name: &str, file_name: &str) -> (r: String)
    ensures
        r@ == spec_link_name(source_name@, file_name@),
{
    proof {
        reveal_strlit("_");
        assert("_"@ =~= seq!['_']);
    }
    let mut r = String::from_str(source_name);
    r.append("_");
    r.append(file_name);
    proof {
        assert(r@ =~= spec_link_name(source_name@, file_name@));
    }
    r
}

/// A named directory of files subject to time-windowed exposure.
#[derive(Debug)]
pub struct Source {
    /// Unique identity, used as the link-name prefix.
    pub name: String,
    /// Path of the backing content directory.
    pub directory: String,
    /// The daily windows during which the source should be active; OR-ed.
    pub interval: Vec<ActiveInterval>,
    /// Transient logical state: whether the source is currently materialized.
    pub active: bool,
}

impl Source {
    /// All configured window boundaries are valid times of day.
    pub open spec fn wf(self) -> bool {
        forall|i: int| 0 <= i < self.interval@.len() ==> (#[trigger] self.interval@[i]).wf()
    }
}

/// The names `activate` asks the caller to create: every backing file's link
/// when the source was not yet active, nothing when it already was.
pub open spec fn spec_activate_plan(active: bool, name: Seq<char>, files: Seq<Seq<char>>) -> Seq<
    Seq<char>,
> {
    if active {
        Seq::empty()
    } else {
        spec_link_names(name, files)
    }
}

/// The names `deactivate` asks the caller to remove: every backing file's link
/// when the source was active, nothing when it already was inactive.
pub open spec fn spec_deactivate_plan(active: bool, name: Seq<char>, files: Seq<Seq<char>>) -> Seq<
    Seq<char>,
> {
    if active {
        spec_link_names(name, files)
    } else {
        Seq::empty()
    }
}

impl Source {
    /// Whether the source is logically active.
    pub fn is_active(this: &Self) -> (r: bool)
        ensures
            r == this.active,
    {
        this.active
    }

    /// Materialize the source: unless it is already active, plan one link per
    /// backing file for the caller to create (existing links are recreated
    /// best-effort and left alone by the caller). The source counts as active
    /// afterward regardless of individual link failures.
    pub fn activate(this: &mut Self, files: &Vec<String>) -> (to_create: Vec<String>)
        ensures
            final(this).active,
            final(this).name == old(this).name,
            final(this).directory == old(this).directory,
            final(this).interval == old(this).interval,
            str_views(to_create@) == spec_activate_plan(
                old(this).active,
                old(this).name@,
                str_views(files@),
            ),
    {
        if Self::is_active(this) {
            let to_create: Vec<String> = Vec::new();
            proof {
                assert(str_views(to_create@) =~= Seq::<Seq<char>>::empty());
            }
            return to_create;
        }
        let ghost plan = spec_link_names(this.name@, str_views(files@));
        let mut to_create: Vec<String> = Vec::new();
        let mut i: usize = 0;
        while i < files.len()
            invariant
                i <= files@.len(),
                to_create@.len() == i,
                plan == spec_link_names(this.name@, str_views(files@)),
                forall|k: int| 0 <= k < i ==> (#[trigger] to_create@[k])@ == plan[k],
            decreases files@.len() - i,
        {
            proof {
                assert(str_views(files@)[i as int] == files@[i as int]@);
                assert(plan[i as int] == spec_link_name(this.name@, files@[i as int]@));
            }
            let ln = link_name(this.name.as_str(), files[i].as_str());
            to_create.push(ln);
            i += 1;
        }
        this.active = true;
        proof {
            assert forall|k: int| 0 <= k < plan.len() implies str_views(to_create@)[k] == plan[k] by {
                assert(to_create@[k]@ == plan[k]);
            }
            assert(str_views(to_create@) =~= plan);
        }
        to_create
    }

    /// Demote the source: unless it is already inactive, plan one link per
    /// backing file for the caller to remove (absent links are skipped
    /// best-effort by the caller). The source counts as inactive afterward
    /// regardless of individual removal failures.
    pub fn deactivate(this: &mut Self, files: &Vec<String>) -> (to_remove: Vec<String>)
        ensures
            !final(this).active,
            final(this).name == old(this).name,
            final(this).directory == old(this).directory,
            final(this).interval == old(this).interval,
            str_views(to_remove@) == spec_deactivate_plan(
                old(this).active,
                old(this).name@,
                str_views(files@),
            ),
    {
        if !Self::is_active(this) {
            let to_remove: Vec<String> = Vec::new();
            proof {
                assert(str_views(to_remove@) =~= Seq::<Seq<char>>::empty());
            }
            return to_remove;
        }
        let ghost plan = spec_link_names(this.name@, str_views(files@));
        let mut to_remove: Vec<String> = Vec::new();
        let mut i: usize = 0;
        while i < files.len()
            invariant
                i <= files@.len(),
                to_remove@.len() == i,
                plan == spec_link_names(this.name@, str_views(files@)),
                forall|k: int| 0 <= k < i ==> (#[trigger] to_remove@[k])@ == plan[k],
            decreases files@.len() - i,
        {
            proof {
                assert(str_views(files@)[i as int] == files@[i as int]@);
                assert(plan[i as int] == spec_link_name(this.name@, files@[i as int]@));
            }
            let ln = link_name(this.name.as_str(), files[i].as_str());
            to_remove.push(ln);
            i += 1;
        }
        this.active = false;
        proof {
            assert forall|k: int| 0 <= k < plan.len() implies str_views(to_remove@)[k] == plan[k] by {
                assert(to_remove@[k]@ == plan[k]);
            }
            assert(str_views(to_remove@) =~= plan);
        }
        to_remove
    }

    /// Re-derive the source's logical state from disk: `linked[i]` says
    /// whether the link for `files[i]` currently exists in the active
    /// directory. A partially linked source (some links but not all) is a
    /// crash or tampering leftover and self-heals: the returned plan holds the
    /// names the caller must create to complete it. With no links (or no
    /// files) the source is inactive; with all links present it is active.
    pub fn mirror_fs_state(this: &mut Self, files: &Vec<String>, linked: &Vec<bool>) -> (r: (
        LinkState,
        Vec<String>,
    ))
        requires
            files@.len() == linked@.len(),
        ensures
            final(this).name == old(this).name,
            final(this).directory == old(this).directory,
            final(this).interval == old(this).interval,
            final(this).active == any_linked(linked@),
            r.0 == spec_classify(linked@),
            str_views(r.1@) == spec_mirror_plan(
                old(this).active,
                old(this).name@,
                str_views(files@),
                linked@,
            ),
    {
        let mut partially_active = false;
        let mut fully_active = true;
        let mut i: usize = 0;
        while i < linked.len()
            invariant
                i <= linked@.len(),
                partially_active == exists|j: int| 0 <= j < i && linked@[j],
                fully_active == forall|j: int| 0 <= j < i ==> linked@[j],
            decreases linked@.len() - i,
        {
            if linked[i] {
                partially_active = true;
            }
            if !linked[i] {
                fully_active = false;
            }
            i += 1;
        }
        let state = if !partially_active {
            LinkState::Inactive
        } else if fully_active {
            LinkState::Active
        } else {
            LinkState::PartiallyActive
        };
        let to_create = if partially_active && !fully_active {
            Self::activate(this, files)
        } else {
            let empty: Vec<String> = Vec::new();
            proof {
                assert(str_views(empty@) =~= Seq::<Seq<char>>::empty());
            }
            empty
        };
        this.active = partially_active;
        (state, to_create)
    }
}

/// The classification `mirror_fs_state` derives from disk. `PartiallyActive`
/// is transient: it immediately self-heals to full activation and is never a
/// rest state.
#[derive(Clone, Copy, Debug, PartialEq, Eq, Structural)]
pub enum LinkState {
    Inactive,
    PartiallyActive,
    Active,
}

/// Whether any of the probed links exists.
pub open spec fn any_linked(linked: Seq<bool>) -> bool {
    exists|i: int| 0 <= i < linked.len() && linked[i]
}

/// Whether every probed link exists (vacuously true of no files).
pub open spec fn all_linked(linked: Seq<bool>) -> bool {
    forall|i: int| 0 <= i < linked.len() ==> linked[i]
}

/// Classify a probe: no links (or no files) is inactive, all links is active,
/// anything in between is partial.
pub open spec fn spec_classify(linked: Seq<bool>) -> LinkState {
    if !any_linked(linked) {
        LinkState::Inactive
    } else if all_linked(linked) {
        LinkState::Active
    } else {
        LinkState::PartiallyActive
    }
}

/// The names `mirror_fs_state` asks the caller to create: the self-healing
/// activation plan when the probe is partial, nothing otherwise.
pub open spec fn spec_mirror_plan(
    active: bool,
    name: Seq<char>,
    files: Seq<Seq<char>>,
    linked: Seq<bool>,
) -> Seq<Seq<char>> {
    if spec_classify(linked) is PartiallyActive {
        spec_activate_plan(active, name, files)
    } else {
        Seq::empty()
    }
}

/// The set of link names a source with the given name and backing files owns
/// in the active directory.
pub open spec fn spec_link_name_set(name: Seq<char>, files: Seq<Seq<char>>) -> Set<Seq<char>> {
    spec_link_names(name, files).to_set()
}

/// The links present in the active directory after a creation plan is carried
/// out: creating a link that already exists fails and is skipped, so the
/// outcome is the union.
pub open spec fn apply_creates(links: Set<Seq<char>>, plan: Seq<Seq<char>>) -> Set<Seq<char>> {
    links + plan.to_set()
}

/// The links present after a removal plan is carried out: removing an absent
/// link fails and is skipped, so the outcome is the difference.
pub open spec fn apply_removes(links: Set<Seq<char>>, plan: Seq<Seq<char>>) -> Set<Seq<char>> {
    links.difference(plan.to_set())
}

/// Law: `activate` is idempotent. The first call leaves the source active, so
/// the second call plans nothing, and carrying both plans out yields the same
/// link set as carrying out the first alone.
pub proof fn lemma_activate_idempotent(
    links: Set<Seq<char>>,
    active: bool,
    name: Seq<char>,
    files: Seq<Seq<char>>,
)
    ensures
        spec_activate_plan(true, name, files) == Seq::<Seq<char>>::empty(),
        apply_creates(
            apply_creates(links, spec_activate_plan(active, name, files)),
            spec_activate_plan(true, name, files),
        ) == apply_creates(links, spec_activate_plan(active, name, files)),
{
    let once = apply_creates(links, spec_activate_plan(active, name, files));
    assert(Seq::<Seq<char>>::empty().to_set() =~= Set::<Seq<char>>::empty());
    assert(apply_creates(once, spec_activate_plan(true, name, files)) =~= once);
}

/// Law: `deactivate` after `activate` plans the removal of exactly the names
/// the activation planned, and carrying both out leaves the active directory
/// free of the source's links — and unchanged, if it held none of them before.
pub proof fn lemma_deactivate_undoes_activate(
    links: Set<Seq<char>>,
    name: Seq<char>,
    files: Seq<Seq<char>>,
)
    ensures
        spec_deactivate_plan(true, name, files) == spec_activate_plan(false, name, files),
        apply_removes(
            apply_creates(links, spec_activate_plan(false, name, files)),
            spec_deactivate_plan(true, name, files),
        ) == links.difference(spec_link_name_set(name, files)),
        links.disjoint(spec_link_name_set(name, files)) ==> apply_removes(
            apply_creates(links, spec_activate_plan(false, name, files)),
            spec_deactivate_plan(true, name, files),
        ) == links,
        forall|l: Seq<char>|
            spec_link_name_set(name, files).contains(l) ==> !apply_removes(
                apply_creates(links, spec_activate_plan(false, name, files)),
                spec_deactivate_plan(true, name, files),
            ).contains(l),
{
    let owned = spec_link_name_set(name, files);
    assert(apply_removes(
        apply_creates(links, spec_activate_plan(false, name, files)),
        spec_deactivate_plan(true, name, files),
    ) =~= links.difference(owned));
    if links.disjoint(owned) {
        assert(links.difference(owned) =~= links);
    }
}

/// Law: a source none of whose links exist is classified `Inactive` and the
/// mirror pass plans no link creation, however many backing files there are.
pub proof fn lemma_mirror_none_linked(
    active: bool,
    name: Seq<char>,
    files: Seq<Seq<char>>,
    linked: Seq<bool>,
)
    requires
        linked.len() == files.len(),
        forall|i: int| 0 <= i < linked.len() ==> !(#[trigger] linked[i]),
    ensures
        !any_linked(linked),
        spec_classify(linked) == LinkState::Inactive,
        spec_mirror_plan(active, name, files, linked) == Seq::<Seq<char>>::empty(),
{
}

} // verus!
