//! The per-frame scene-assembly model: which fragments a world yields.
//!
//! Assembly joins the renderable store with the transform store by entity
//! identity, in renderable-store order. For each joined entity, either all
//! three resource handles (mesh, ambient texture, diffuse texture) carry
//! the active hardware tag and one whole fragment is emitted, or any single
//! mismatch skips the entity entirely — no partial fragment ever appears.
//! The functions here are the mathematical model that the device's render
//! operation is proved against.

use vstd::prelude::*;
use crate::renderer::Fragment;
use crate::resources::{MeshInner, Renderable, TextureInner};
use crate::world::{LocalTransform, RenderableEntry, TransformEntry};

verus! {

/// The transform joined to an entity: the first entry of the transform
/// store that carries the entity, if any.
pub open spec fn transform_for(ts: Seq<TransformEntry>, entity: u64) -> Option<LocalTransform>
    decreases ts.len(),
{
    if ts.len() == 0 {
        None
    } else if ts[0].entity == entity {
        Some(ts[0].transform)
    } else {
        transform_for(ts.drop_first(), entity)
    }
}

/// The fragment a joined entity yields: one whole fragment when the mesh
/// and both textures carry the hardware tag, and nothing otherwise.
pub open spec fn fragment_for(r: Renderable, t: LocalTransform) -> Option<Fragment> {
    match (r.mesh.mesh_inner, r.ka.texture_inner, r.kd.texture_inner) {
        (
            MeshInner::OpenGL { buffer, slice },
            TextureInner::OpenGL { texture: ka },
            TextureInner::OpenGL { texture: kd },
        ) => Some(Fragment { transform: t.matrix, buffer, slice, ka, kd }),
        _ => None,
    }
}

/// The fragments assembled from a world's stores, in join-iteration order:
/// renderable-store order, restricted to entities that have a transform and
/// whose handles all match the hardware backend.
pub open spec fn assembled_fragments(
    rs: Seq<RenderableEntry>,
    ts: Seq<TransformEntry>,
) -> Seq<Fragment>
    decreases rs.len(),
{
    if rs.len() == 0 {
        Seq::empty()
    } else {
        let pre = assembled_fragments(rs.drop_last(), ts);
        match transform_for(ts, rs.last().entity) {
            Some(t) => match fragment_for(rs.last().renderable, t) {
                Some(f) => pre.push(f),
                None => pre,
            },
            None => pre,
        }
    }
}

/// How many entities of the join are skipped for a resource tag mismatch:
/// entities that have a transform but whose mesh or textures carry another
/// backend's tag.
pub open spec fn skipped_count(rs: Seq<RenderableEntry>, ts: Seq<TransformEntry>) -> nat
    decreases rs.len(),
{
    if rs.len() == 0 {
        0
    } else {
        skipped_count(rs.drop_last(), ts) + match transform_for(ts, rs.last().entity) {
            Some(t) => if fragment_for(rs.last().renderable, t) is None {
                1nat
            } else {
                0nat
            },
            None => 0nat,
        }
    }
}

/// How many entities the join visits: renderable-store entries whose entity
/// also has a transform.
pub open spec fn joined_count(rs: Seq<RenderableEntry>, ts: Seq<TransformEntry>) -> nat
    decreases rs.len(),
{
    if rs.len() == 0 {
        0
    } else {
        joined_count(rs.drop_last(), ts) + if transform_for(ts, rs.last().entity) is Some {
            1nat
        } else {
            0nat
        }
    }
}

/// Fragment accounting: of the entities the join visits, every one either
/// contributes exactly one fragment or is counted skipped — with `N` joined
/// entities of which `K` have fully matching handles, the scene holds
/// exactly `K` fragments and `N - K` are skipped.
pub proof fn lemma_fragment_accounting(rs: Seq<RenderableEntry>, ts: Seq<TransformEntry>)
    ensures
        assembled_fragments(rs, ts).len() + skipped_count(rs, ts) == joined_count(rs, ts),
    decreases rs.len(),
{
    if rs.len() > 0 {
        lemma_fragment_accounting(rs.drop_last(), ts);
    }
}

/// Look an entity's transform up in the transform store.
pub fn find_transform(ts: &Vec<TransformEntry>, entity: u64) -> (r: Option<LocalTransform>)
    ensures
        r == transform_for(ts@, entity),
{
    let mut i: usize = 0;
    proof {
        assert(ts@.skip(0) =~= ts@);
    }
    while i < ts.len()
        invariant
            0 <= i <= ts@.len(),
            transform_for(ts@, entity) == transform_for(ts@.skip(i as int), entity),
        decreases ts@.len() - i,
    {
        proof {
            assert(ts@.skip(i as int)[0] == ts@[i as int]);
            assert(ts@.skip(i as int).drop_first() =~= ts@.skip(i as int + 1));
        }
        if ts[i].entity == entity {
            return Some(ts[i].transform);
        }
        i = i + 1;
    }
    None
}

} // verus!
