//! The rendering pipeline: an ordered sequence of layers (render passes)
//! and a mapping from name to render target.
//!
//! The target store is kept as a vector of name/target entries with unique
//! names; its mathematical model is the finite map from names to targets,
//! given by [`target_map`]. The pipeline is mutated only through
//! whole-sequence layer replacement and incremental target-map edits, both
//! performed by the owning device.

use vstd::prelude::*;

verus! {

/// One render pass: the name of the target it draws into and the opaque
/// handles of the draw passes the downstream renderer runs for it.
#[derive(Clone, PartialEq, Debug)]
pub struct Layer {
    pub target: String,
    pub passes: Vec<u64>,
}

/// Opaque description of a render target's attachments; created by the
/// engine around this layer and only stored and looked up here.
#[derive(Clone, Copy, PartialEq, Eq, Debug)]
pub struct Target {
    pub handle: u64,
}

/// One named target in the pipeline's target store.
#[derive(Clone, PartialEq, Debug)]
pub struct TargetEntry {
    pub name: String,
    pub target: Target,
}

/// The finite map modeled by a sequence of target entries: later entries
/// win, which coincides with plain lookup whenever names are unique.
pub open spec fn target_map(s: Seq<TargetEntry>) -> Map<Seq<char>, Target>
    decreases s.len(),
{
    if s.len() == 0 {
        Map::empty()
    } else {
        target_map(s.drop_last()).insert(s.last().name@, s.last().target)
    }
}

/// Unique names: no two entries of the store carry the same name.
pub open spec fn unique_names(s: Seq<TargetEntry>) -> bool {
    forall|i: int, j: int| 0 <= i < j < s.len() ==> s[i].name@ != s[j].name@
}

/// The ordered render passes plus the named output targets a backend
/// executes each frame.
#[derive(Clone, PartialEq, Debug)]
pub struct Pipeline {
    pub layers: Vec<Layer>,
    pub targets: Vec<TargetEntry>,
}

impl Pipeline {
    /// Well-formedness: target names are unique, so the entry vector is a
    /// faithful representation of the name-to-target map.
    pub open spec fn wf(&self) -> bool {
        unique_names(self.targets@)
    }

    /// The name-to-target map this pipeline holds.
    pub open spec fn targets_map(&self) -> Map<Seq<char>, Target> {
        target_map(self.targets@)
    }

    /// The same pipeline with the layer sequence replaced.
    pub open spec fn with_layers(self, layers: Vec<Layer>) -> Pipeline {
        Pipeline { layers, targets: self.targets }
    }

    /// An empty pipeline: no layers, no targets.
    pub fn new() -> (p: Pipeline)
        ensures
            p.wf(),
            p.layers@ == Seq::<Layer>::empty(),
            p.targets_map() == Map::<Seq<char>, Target>::empty(),
    {
        let p = Pipeline { layers: Vec::new(), targets: Vec::new() };
        proof {
            assert(p.targets_map() =~= Map::<Seq<char>, Target>::empty());
        }
        p
    }
}

/// A name that occurs in no entry of the store is not in its map.
pub proof fn lemma_target_map_absent(s: Seq<TargetEntry>, n: Seq<char>)
    requires
        forall|i: int| 0 <= i < s.len() ==> s[i].name@ != n,
    ensures
        !target_map(s).contains_key(n),
    decreases s.len(),
{
    if s.len() > 0 {
        lemma_target_map_absent(s.drop_last(), n);
    }
}

/// Removing the entry that carries a name removes exactly that name from
/// the map, provided names are unique.
pub proof fn lemma_target_map_remove(s: Seq<TargetEntry>, i: int)
    requires
        0 <= i < s.len(),
        unique_names(s),
    ensures
        target_map(s.remove(i)) == target_map(s).remove(s[i].name@),
    decreases s.len(),
{
    let n = s[i].name@;
    if i == s.len() - 1 {
        assert(s.remove(i) =~= s.drop_last());
        assert(forall|j: int| 0 <= j < s.drop_last().len() ==> s.drop_last()[j].name@ != n);
        lemma_target_map_absent(s.drop_last(), n);
        assert(target_map(s.drop_last()).insert(n, s.last().target).remove(n) =~= target_map(
            s.drop_last(),
        ));
    } else {
        let dl = s.drop_last();
        assert(s.remove(i).drop_last() =~= dl.remove(i));
        assert(s.remove(i).last() == s.last());
        assert(unique_names(dl));
        lemma_target_map_remove(dl, i);
        assert(s.last().name@ != n);
        assert(target_map(dl).remove(n).insert(s.last().name@, s.last().target) =~= target_map(
            dl,
        ).insert(s.last().name@, s.last().target).remove(n));
    }
}

/// Adding a name and then deleting it leaves the name absent from the
/// target map, whatever the map held before.
pub proof fn lemma_add_then_delete_absent(m: Map<Seq<char>, Target>, n: Seq<char>, t: Target)
    ensures
        !m.insert(n, t).remove(n).contains_key(n),
{
}

/// Deleting a name that is absent leaves the target map unchanged.
pub proof fn lemma_delete_absent_is_noop(m: Map<Seq<char>, Target>, n: Seq<char>)
    requires
        !m.contains_key(n),
    ensures
        m.remove(n) == m,
{
    assert(m.remove(n) =~= m);
}

} // verus!
