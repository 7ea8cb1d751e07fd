//! The graphics device: one owned backend variant behind a single
//! backend-agnostic operation set.
//!
//! `GfxDevice` owns exactly one `GfxDeviceInner` for the lifetime of the
//! graphics subsystem. Every operation is total over the closed variant set
//! {hardware OpenGL, stub native Direct3D, null}: the hardware variant does
//! the real work, the null variant is a true no-op, and the stub variant
//! answers with a typed `UnimplementedBackend` error rather than corrupting
//! state. Each operation's contract is a transition relation with one case
//! per backend tag that pins the final device state exactly, so an
//! operation can never read or write state that belongs to an inactive
//! backend.

use vstd::prelude::*;
use vstd::string::StringExecFns;
use crate::assembly::{assembled_fragments, find_transform, skipped_count};
use crate::event::{EngineEvent, WindowEvent};
use crate::pipeline::{
    lemma_target_map_absent, lemma_target_map_remove, target_map, Layer, Pipeline, Target,
    TargetEntry,
};
use crate::renderer::{Device, Fragment, Light, Renderer, Scene};
use crate::resources::{MeshInner, TextureInner};
use crate::world::World;

verus! {

/// Model of the windowing collaborator the hardware backend draws into.
/// The embedding that owns the real window mirrors its state here: the
/// current drawable size, the raw events that arrived since the last poll,
/// and whether the surface can currently present a frame.
#[derive(Clone, PartialEq, Debug)]
pub struct Window {
    /// Current drawable size, refreshed from the real window on resize.
    pub size: Option<(u32, u32)>,
    /// Raw events in arrival order, not yet drained by `poll_events`.
    pub pending_events: Vec<WindowEvent>,
    /// Whether a buffer swap would currently succeed.
    pub presentable: bool,
}

/// A device-level failure, surfaced as a value so the frame-loop owner can
/// choose retry, fallback or shutdown.
#[derive(Clone, Copy, PartialEq, Eq, Debug)]
pub enum DeviceError {
    /// A declared-but-unimplemented backend path was exercised.
    UnimplementedBackend,
    /// The window refused the buffer swap that presents a frame.
    PresentationFailure,
}

/// The closed set of backend variants, each holding that backend's full
/// device state. Operations on one variant touch only that variant's
/// fields; the other variants' state does not even coexist with it.
#[derive(Clone, PartialEq, Debug)]
pub enum GfxDeviceInner {
    /// The hardware-accelerated backend: window, low-level device handle,
    /// downstream renderer, and the active pipeline.
    OpenGL { window: Window, device: Device, renderer: Renderer, pipeline: Pipeline },
    /// The stub native backend: declared, carrying no state yet.
    Direct3D {},
    /// The no-op backend for headless and test use.
    Null,
}

impl GfxDeviceInner {
    /// Well-formedness: the active pipeline's target names are unique.
    pub open spec fn wf(&self) -> bool {
        match self {
            GfxDeviceInner::OpenGL { pipeline, .. } => pipeline.wf(),
            _ => true,
        }
    }
}

/// Per-frame accounting returned by a successful render: how many
/// fragments reached the renderer, and how many joined entities were
/// skipped because a mesh or texture handle carried another backend's tag.
#[derive(Clone, Copy, PartialEq, Eq, Debug)]
pub struct FrameStats {
    pub fragments: usize,
    pub skipped: usize,
}

/// The backend-agnostic graphics device: owns exactly one backend variant
/// and all resources behind it.
pub struct GfxDevice {
    pub gfx_device_inner: GfxDeviceInner,
}

impl GfxDevice {
    /// Well-formedness of the owned variant.
    pub open spec fn wf(&self) -> bool {
        self.gfx_device_inner.wf()
    }

    /// Transition relation of `set_pipeline`: the stub and null variants
    /// are left exactly as they were, and on the hardware variant only the
    /// layer sequence of the pipeline is replaced.
    pub open spec fn set_pipeline_post(
        pre: GfxDevice,
        post: GfxDevice,
        layers: Vec<Layer>,
        r: Result<(), DeviceError>,
    ) -> bool {
        match pre.gfx_device_inner {
            GfxDeviceInner::Null => post == pre && r == Ok::<(), DeviceError>(()),
            GfxDeviceInner::Direct3D {} => post == pre && r == Err::<(), DeviceError>(
                DeviceError::UnimplementedBackend,
            ),
            GfxDeviceInner::OpenGL { window, device, renderer, pipeline } => {
                &&& r == Ok::<(), DeviceError>(())
                &&& post.gfx_device_inner == (GfxDeviceInner::OpenGL {
                    window,
                    device,
                    renderer,
                    pipeline: Pipeline { layers, targets: pipeline.targets },
                })
            },
        }
    }

    /// Transition relation of `add_target`: on the hardware variant the
    /// target map gains (or overwrites) the name, and nothing else of the
    /// device changes.
    pub open spec fn add_target_post(
        pre: GfxDevice,
        post: GfxDevice,
        target: Target,
        name: Seq<char>,
        r: Result<(), DeviceError>,
    ) -> bool {
        match pre.gfx_device_inner {
            GfxDeviceInner::Null => post == pre && r == Ok::<(), DeviceError>(()),
            GfxDeviceInner::Direct3D {} => post == pre && r == Err::<(), DeviceError>(
                DeviceError::UnimplementedBackend,
            ),
            GfxDeviceInner::OpenGL { window, device, renderer, pipeline } => {
                &&& r == Ok::<(), DeviceError>(())
                &&& post.gfx_device_inner is OpenGL
                &&& post.gfx_device_inner->window == window
                &&& post.gfx_device_inner->device == device
                &&& post.gfx_device_inner->renderer == renderer
                &&& post.gfx_device_inner->pipeline.layers == pipeline.layers
                &&& post.gfx_device_inner->pipeline.targets_map() == pipeline.targets_map().insert(
                    name,
                    target,
                )
            },
        }
    }

    /// Transition relation of `delete_target`: on the hardware variant the
    /// name leaves the target map, nothing else of the device changes, and
    /// deleting an absent name leaves the device exactly as it was.
    pub open spec fn delete_target_post(
        pre: GfxDevice,
        post: GfxDevice,
        name: Seq<char>,
        r: Result<(), DeviceError>,
    ) -> bool {
        match pre.gfx_device_inner {
            GfxDeviceInner::Null => post == pre && r == Ok::<(), DeviceError>(()),
            GfxDeviceInner::Direct3D {} => post == pre && r == Err::<(), DeviceError>(
                DeviceError::UnimplementedBackend,
            ),
            GfxDeviceInner::OpenGL { window, device, renderer, pipeline } => {
                &&& r == Ok::<(), DeviceError>(())
                &&& post.gfx_device_inner is OpenGL
                &&& post.gfx_device_inner->window == window
                &&& post.gfx_device_inner->device == device
                &&& post.gfx_device_inner->renderer == renderer
                &&& post.gfx_device_inner->pipeline.layers == pipeline.layers
                &&& post.gfx_device_inner->pipeline.targets_map() == pipeline.targets_map().remove(
                    name,
                )
                &&& !pipeline.targets_map().contains_key(name) ==> post == pre
            },
        }
    }

    /// Transition relation of `poll_events`: the null variant yields an
    /// empty sequence whatever its state, the stub variant answers with a
    /// typed error, and the hardware variant drains its window's pending
    /// events and returns each one wrapped, in arrival order.
    pub open spec fn poll_events_post(
        pre: GfxDevice,
        post: GfxDevice,
        r: Result<Vec<EngineEvent>, DeviceError>,
    ) -> bool {
        match pre.gfx_device_inner {
            GfxDeviceInner::Null => post == pre && (r matches Ok(evs) && evs@ == Seq::<
                EngineEvent,
            >::empty()),
            GfxDeviceInner::Direct3D {} => post == pre && r == Err::<Vec<EngineEvent>, DeviceError>(
                DeviceError::UnimplementedBackend,
            ),
            GfxDeviceInner::OpenGL { window, device, renderer, pipeline } => {
                &&& r matches Ok(evs) && evs@.len() == window.pending_events@.len() && (forall|
                    i: int,
                |
                    0 <= i < evs@.len() ==> evs@[i].payload == window.pending_events@[i])
                &&& post.gfx_device_inner is OpenGL
                &&& post.gfx_device_inner->window.size == window.size
                &&& post.gfx_device_inner->window.presentable == window.presentable
                &&& post.gfx_device_inner->window.pending_events@ == Seq::<WindowEvent>::empty()
                &&& post.gfx_device_inner->device == device
                &&& post.gfx_device_inner->renderer == renderer
                &&& post.gfx_device_inner->pipeline == pipeline
            },
        }
    }

    /// Transition relation of `render_world`: the null variant performs no
    /// observable mutation and returns normally, the stub variant answers
    /// with a typed error, and the hardware variant submits to its renderer
    /// exactly the scene assembled from the world — the camera snapshot,
    /// the fragments of the join in join-iteration order, and every light
    /// in storage order — then presents, failing exactly when the window
    /// cannot present.
    pub open spec fn render_world_post(
        pre: GfxDevice,
        post: GfxDevice,
        w: World,
        r: Result<FrameStats, DeviceError>,
    ) -> bool {
        match pre.gfx_device_inner {
            GfxDeviceInner::Null => post == pre && r == Ok::<FrameStats, DeviceError>(
                (FrameStats { fragments: 0, skipped: 0 }),
            ),
            GfxDeviceInner::Direct3D {} => post == pre && r == Err::<FrameStats, DeviceError>(
                DeviceError::UnimplementedBackend,
            ),
            GfxDeviceInner::OpenGL { window, device, renderer, pipeline } => {
                &&& post.gfx_device_inner is OpenGL
                &&& post.gfx_device_inner->window == window
                &&& post.gfx_device_inner->device == device
                &&& post.gfx_device_inner->pipeline == pipeline
                &&& post.gfx_device_inner->renderer.last_scene matches Some(scene)
                    && scene.camera == w.camera && scene.fragments@ == assembled_fragments(
                    w.renderables@,
                    w.transforms@,
                ) && scene.lights@ == w.lights@
                &&& window.presentable ==> (r matches Ok(st) && st.fragments
                    == assembled_fragments(w.renderables@, w.transforms@).len() && st.skipped
                    == skipped_count(w.renderables@, w.transforms@))
                &&& !window.presentable ==> r == Err::<FrameStats, DeviceError>(
                    DeviceError::PresentationFailure,
                )
            },
        }
    }

    /// Wrap a backend variant chosen and built by external initialization.
    pub fn new(gfx_device_inner: GfxDeviceInner) -> (d: GfxDevice)
        ensures
            d.gfx_device_inner == gfx_device_inner,
    {
        GfxDevice { gfx_device_inner }
    }

    /// Current drawable size, queried live on every call (never cached):
    /// the hardware window's size as it stands, and nothing where no window
    /// exists (null and stub variants).
    pub fn get_dimensions(&self) -> (r: Option<(u32, u32)>)
        ensures
            self.gfx_device_inner matches GfxDeviceInner::OpenGL { window, .. } ==> r
                == window.size,
            !(self.gfx_device_inner is OpenGL) ==> r is None,
    {
        match &self.gfx_device_inner {
            GfxDeviceInner::OpenGL { window, .. } => window.size,
            GfxDeviceInner::Direct3D {} => None,
            GfxDeviceInner::Null => None,
        }
    }

    /// Replace the active backend's layer sequence wholesale — the old
    /// sequence is discarded, never appended to.
    pub fn set_pipeline(&mut self, pipeline: Vec<Layer>) -> (r: Result<(), DeviceError>)
        requires
            old(self).wf(),
        ensures
            final(self).wf(),
            GfxDevice::set_pipeline_post(*old(self), *final(self), pipeline, r),
    {
        let mut inner = GfxDeviceInner::Null;
        core::mem::swap(&mut inner, &mut self.gfx_device_inner);
        match inner {
            GfxDeviceInner::OpenGL { window, device, renderer, pipeline: mut active } => {
                active.layers = pipeline;
                self.gfx_device_inner = GfxDeviceInner::OpenGL {
                    window,
                    device,
                    renderer,
                    pipeline: active,
                };
                Ok(())
            },
            GfxDeviceInner::Direct3D {} => {
                self.gfx_device_inner = GfxDeviceInner::Direct3D {};
                Err(DeviceError::UnimplementedBackend)
            },
            GfxDeviceInner::Null => Ok(()),
        }
    }

    /// Add a named rendering target to the active pipeline, overwriting any
    /// target already stored under the name.
    pub fn add_target(&mut self, target: Target, name: &str) -> (r: Result<(), DeviceError>)
        requires
            old(self).wf(),
        ensures
            final(self).wf(),
            GfxDevice::add_target_post(*old(self), *final(self), target, name@, r),
    {
        let mut inner = GfxDeviceInner::Null;
        core::mem::swap(&mut inner, &mut self.gfx_device_inner);
        match inner {
            GfxDeviceInner::OpenGL { window, device, renderer, pipeline: mut active } => {
                let key = String::from_str(name);
                let ghost pre = active.targets@;
                remove_target_entry(&mut active.targets, &key);
                let ghost trimmed = active.targets@;
                active.targets.push(TargetEntry { name: key, target });
                proof {
                    assert(active.targets@.drop_last() =~= trimmed);
                    assert(target_map(active.targets@) == target_map(trimmed).insert(
                        name@,
                        target,
                    ));
                    assert(target_map(pre).remove(name@).insert(name@, target) =~= target_map(
                        pre,
                    ).insert(name@, target));
                }
                self.gfx_device_inner = GfxDeviceInner::OpenGL {
                    window,
                    device,
                    renderer,
                    pipeline: active,
                };
                Ok(())
            },
            GfxDeviceInner::Direct3D {} => {
                self.gfx_device_inner = GfxDeviceInner::Direct3D {};
                Err(DeviceError::UnimplementedBackend)
            },
            GfxDeviceInner::Null => Ok(()),
        }
    }

    /// Gather the world into a scene and submit it: snapshot the camera,
    /// join renderables with transforms by entity, emit one whole fragment
    /// per fully matching entity (skipping, never partially emitting, any
    /// entity with a mismatched handle), append every light, submit, and
    /// present. The null backend does nothing and returns normally; the
    /// stub backend answers with a typed error.
    pub fn render_world(&mut self, world: &mut World) -> (r: Result<FrameStats, DeviceError>)
        requires
            old(self).wf(),
        ensures
            final(self).wf(),
            *final(world) == *old(world),
            GfxDevice::render_world_post(*old(self), *final(self), *old(world), r),
    {
        let mut inner = GfxDeviceInner::Null;
        core::mem::swap(&mut inner, &mut self.gfx_device_inner);
        match inner {
            GfxDeviceInner::OpenGL { window, mut device, mut renderer, pipeline } => {
                let camera = world.camera;
                let mut scene = Scene::new(camera);
                let mut skipped: usize = 0;
                let ghost rs = world.renderables@;
                let ghost ts = world.transforms@;
                let mut i: usize = 0;
                while i < world.renderables.len()
                    invariant
                        *world == *old(world),
                        rs == world.renderables@,
                        ts == world.transforms@,
                        0 <= i <= rs.len(),
                        skipped <= i,
                        scene.camera == world.camera,
                        scene.fragments@ == assembled_fragments(rs.take(i as int), ts),
                        scene.lights@ == Seq::<Light>::empty(),
                        skipped == skipped_count(rs.take(i as int), ts),
                    decreases rs.len() - i,
                {
                    proof {
                        assert(rs.take(i as int + 1).drop_last() =~= rs.take(i as int));
                        assert(rs.take(i as int + 1).last() == rs[i as int]);
                    }
                    let entity = world.renderables[i].entity;
                    match find_transform(&world.transforms, entity) {
                        Some(t) => {
                            let rend = world.renderables[i].renderable;
                            match rend.mesh.mesh_inner {
                                MeshInner::OpenGL { buffer, slice } => {
                                    match rend.ka.texture_inner {
                                        TextureInner::OpenGL { texture: ka } => {
                                            match rend.kd.texture_inner {
                                                TextureInner::OpenGL { texture: kd } => {
                                                    let fragment = Fragment {
                                                        transform: t.matrix,
                                                        buffer,
                                                        slice,
                                                        ka,
                                                        kd,
                                                    };
                                                    scene.fragments.push(fragment);
                                                },
                                                _ => {
                                                    skipped = skipped + 1;
                                                },
                                            }
                                        },
                                        _ => {
                                            skipped = skipped + 1;
                                        },
                                    }
                                },
                                _ => {
                                    skipped = skipped + 1;
                                },
                            }
                        },
                        None => {},
                    }
                    i = i + 1;
                }
                proof {
                    assert(rs.take(rs.len() as int) =~= rs);
                }
                let ghost ls = world.lights@;
                let mut j: usize = 0;
                while j < world.lights.len()
                    invariant
                        *world == *old(world),
                        rs == world.renderables@,
                        ts == world.transforms@,
                        ls == world.lights@,
                        0 <= j <= ls.len(),
                        scene.camera == world.camera,
                        scene.fragments@ == assembled_fragments(rs, ts),
                        skipped == skipped_count(rs, ts),
                        skipped <= usize::MAX,
                        scene.lights@ == ls.take(j as int),
                    decreases ls.len() - j,
                {
                    proof {
                        assert(ls.take(j as int + 1) =~= ls.take(j as int).push(ls[j as int]));
                    }
                    scene.lights.push(world.lights[j]);
                    j = j + 1;
                }
                proof {
                    assert(ls.take(ls.len() as int) =~= ls);
                }
                let frag_count: usize = scene.fragments.len();
                renderer.submit(&pipeline, scene, &mut device);
                let presented = window.presentable;
                self.gfx_device_inner = GfxDeviceInner::OpenGL {
                    window,
                    device,
                    renderer,
                    pipeline,
                };
                if presented {
                    Ok(FrameStats { fragments: frag_count, skipped })
                } else {
                    Err(DeviceError::PresentationFailure)
                }
            },
            GfxDeviceInner::Direct3D {} => {
                self.gfx_device_inner = GfxDeviceInner::Direct3D {};
                Err(DeviceError::UnimplementedBackend)
            },
            GfxDeviceInner::Null => Ok(FrameStats { fragments: 0, skipped: 0 }),
        }
    }

    /// Drain the pending window events and return each wrapped as an
    /// engine-level event, in arrival order. The null backend always
    /// returns an empty sequence regardless of prior state; the stub
    /// backend answers with a typed error.
    pub fn poll_events(&mut self) -> (r: Result<Vec<EngineEvent>, DeviceError>)
        requires
            old(self).wf(),
        ensures
            final(self).wf(),
            GfxDevice::poll_events_post(*old(self), *final(self), r),
    {
        let mut inner = GfxDeviceInner::Null;
        core::mem::swap(&mut inner, &mut self.gfx_device_inner);
        match inner {
            GfxDeviceInner::OpenGL { window, device, renderer, pipeline } => {
                let Window { size, pending_events, presentable } = window;
                let mut events: Vec<EngineEvent> = Vec::new();
                let mut i: usize = 0;
                while i < pending_events.len()
                    invariant
                        0 <= i <= pending_events@.len(),
                        events@.len() == i,
                        forall|k: int| 0 <= k < i ==> events@[k].payload == pending_events@[k],
                    decreases pending_events@.len() - i,
                {
                    let event = EngineEvent::new(pending_events[i]);
                    events.push(event);
                    i = i + 1;
                }
                self.gfx_device_inner = GfxDeviceInner::OpenGL {
                    window: Window { size, pending_events: Vec::new(), presentable },
                    device,
                    renderer,
                    pipeline,
                };
                Ok(events)
            },
            GfxDeviceInner::Direct3D {} => {
                self.gfx_device_inner = GfxDeviceInner::Direct3D {};
                Err(DeviceError::UnimplementedBackend)
            },
            GfxDeviceInner::Null => Ok(Vec::new()),
        }
    }

    /// Delete a named rendering target from the active pipeline. Deleting a
    /// name that is absent is a no-op, not an error.
    pub fn delete_target(&mut self, name: &str) -> (r: Result<(), DeviceError>)
        requires
            old(self).wf(),
        ensures
            final(self).wf(),
            GfxDevice::delete_target_post(*old(self), *final(self), name@, r),
    {
        let mut inner = GfxDeviceInner::Null;
        core::mem::swap(&mut inner, &mut self.gfx_device_inner);
        match inner {
            GfxDeviceInner::OpenGL { window, device, renderer, pipeline: mut active } => {
                let key = String::from_str(name);
                let ghost pre = active.targets@;
                let found = remove_target_entry(&mut active.targets, &key);
                proof {
                    if !found {
                        assert(target_map(pre).remove(name@) =~= target_map(pre));
                    }
                }
                self.gfx_device_inner = GfxDeviceInner::OpenGL {
                    window,
                    device,
                    renderer,
                    pipeline: active,
                };
                Ok(())
            },
            GfxDeviceInner::Direct3D {} => {
                self.gfx_device_inner = GfxDeviceInner::Direct3D {};
                Err(DeviceError::UnimplementedBackend)
            },
            GfxDeviceInner::Null => Ok(()),
        }
    }
}

/// Remove the entry that carries a target name from a well-formed target
/// store, if the name is stored; afterwards the name is absent, the store
/// is still well formed, and its map has lost exactly that name.
fn remove_target_entry(targets: &mut Vec<TargetEntry>, key: &String) -> (found: bool)
    requires
        crate::pipeline::unique_names(old(targets)@),
    ensures
        crate::pipeline::unique_names(final(targets)@),
        forall|j: int| 0 <= j < final(targets)@.len() ==> final(targets)@[j].name@ != key@,
        target_map(final(targets)@) == target_map(old(targets)@).remove(key@),
        found == target_map(old(targets)@).contains_key(key@),
        !found ==> *final(targets) == *old(targets),
{
    let ghost pre = targets@;
    let mut i: usize = 0;
    while i < targets.len()
        invariant
            0 <= i <= targets@.len(),
            *targets == *old(targets),
            pre == old(targets)@,
            crate::pipeline::unique_names(pre),
            forall|j: int| 0 <= j < i ==> targets@[j].name@ != key@,
        decreases targets@.len() - i,
    {
        if targets[i].name == *key {
            targets.remove(i);
            proof {
                lemma_target_map_remove(pre, i as int);
                assert(target_map(pre).contains_key(key@)) by {
                    lemma_target_map_contains(pre, i as int);
                }
                assert forall|a: int, b: int|
                    0 <= a < b < targets@.len() implies targets@[a].name@ != targets@[b].name@ by {
                    assert(targets@[a] == if a < i { pre[a] } else { pre[a + 1] });
                    assert(targets@[b] == if b < i { pre[b] } else { pre[b + 1] });
                }
                assert forall|j: int| 0 <= j < targets@.len() implies targets@[j].name@
                    != key@ by {
                    assert(targets@[j] == if j < i { pre[j] } else { pre[j + 1] });
                }
            }
            return true;
        }
        i = i + 1;
    }
    proof {
        lemma_target_map_absent(pre, key@);
        assert(target_map(pre).remove(key@) =~= target_map(pre));
    }
    false
}

/// A name stored at some entry of the store is in its map.
proof fn lemma_target_map_contains(s: Seq<TargetEntry>, i: int)
    requires
        0 <= i < s.len(),
    ensures
        target_map(s).contains_key(s[i].name@),
    decreases s.len(),
{
    if i < s.len() - 1 {
        lemma_target_map_contains(s.drop_last(), i);
    }
}

} // verus!
