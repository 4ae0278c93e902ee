//! Extraction of camera settings into a render-side uniform buffer.
//!
//! Once per frame the settings of every camera entity are copied out of the
//! simulation state, serialized, and uploaded into one uniform buffer, each
//! camera at its own offset. This states the contract that upload must
//! meet: every camera keeps its own entity key, its own disjoint region of
//! the buffer, and exactly its own serialized bytes — two cameras can never
//! contaminate one another's intensity or matrix values.

use vstd::prelude::*;

use vstd::arithmetic::mul::lemma_mul_inequality;

use crate::settings::SettingsRecord;
use crate::uniform::UniformLayout;
use crate::uniform::lemma_uniform_round_trip;
use crate::uniform::parse_uniform;
use crate::uniform::uniform_bytes;
use crate::uniform::uniform_size;
use crate::uniform::uniform_size_bytes;

verus! {

/// One camera entity's settings, as read from the simulation state. The
/// entity is the host's stable identifier.
#[derive(Clone, Copy, PartialEq, Eq, Structural, Debug)]
pub struct CameraSettings {
    pub entity: u64,
    pub settings: SettingsRecord,
}

/// Where one camera's serialized settings sit in the shared uniform buffer.
#[derive(Clone, Copy, PartialEq, Eq, Structural, Debug)]
pub struct UniformBinding {
    pub entity: u64,
    pub offset: usize,
    pub size: usize,
}

/// The uploaded frame data: one byte buffer and one binding per camera, in
/// the cameras' order.
pub struct ExtractedUniforms {
    pub buffer: Vec<u8>,
    pub bindings: Vec<UniformBinding>,
}

/// Binding `i` belongs to camera `i`: same entity, a region of the layout's
/// size at offset `i * size`, holding exactly that camera's serialized
/// settings.
pub open spec fn slot_correct(
    buffer: Seq<u8>,
    bindings: Seq<UniformBinding>,
    cameras: Seq<CameraSettings>,
    layout: UniformLayout,
    i: int,
) -> bool {
    let b = bindings[i];
    &&& b.entity == cameras[i].entity
    &&& b.size == uniform_size(layout)
    &&& b.offset == i * uniform_size(layout)
    &&& b.offset + b.size <= buffer.len()
    &&& buffer.subrange(b.offset as int, b.offset + b.size) == uniform_bytes(
        cameras[i].settings,
        layout,
    )
}

/// A camera's region of the uploaded buffer reads back as exactly that
/// camera's settings: what the simulation wrote is what the shader's side
/// of the layout decodes.
pub proof fn lemma_region_reads_back(
    buffer: Seq<u8>,
    bindings: Seq<UniformBinding>,
    cameras: Seq<CameraSettings>,
    layout: UniformLayout,
    i: int,
) -> (b: UniformBinding)
    requires
        0 <= i < cameras.len(),
        0 <= i < bindings.len(),
        slot_correct(buffer, bindings, cameras, layout, i),
    ensures
        b == bindings[i],
        parse_uniform(buffer.subrange(b.offset as int, b.offset + b.size), layout) == Some(
            cameras[i].settings,
        ),
{
    lemma_uniform_round_trip(cameras[i].settings, layout);
    bindings[i]
}

/// Serializes every camera's settings into one uniform buffer, one binding
/// per camera. Each binding carries its camera's entity and exactly its
/// camera's bytes, and the bindings' regions are pairwise disjoint, so
/// distinct cameras draw with distinct, independent uniform data.
pub fn extract_uniforms(cameras: &Vec<CameraSettings>, layout: UniformLayout) -> (r:
    ExtractedUniforms)
    requires
        cameras@.len() * uniform_size(layout) <= usize::MAX,
    ensures
        r.bindings@.len() == cameras@.len(),
        r.buffer@.len() == cameras@.len() * uniform_size(layout),
        forall|i: int|
            0 <= i < cameras@.len() ==> slot_correct(r.buffer@, r.bindings@, cameras@, layout, i),
        forall|i: int, j: int|
            0 <= i < j < cameras@.len() ==> r.bindings@[i].offset + r.bindings@[i].size
                <= r.bindings@[j].offset,
{
    let size: usize = uniform_size_bytes(layout);
    let mut buffer: Vec<u8> = Vec::new();
    let mut bindings: Vec<UniformBinding> = Vec::new();
    let mut i: usize = 0;
    while i < cameras.len()
        invariant
            i <= cameras@.len(),
            size == uniform_size(layout),
            cameras@.len() * uniform_size(layout) <= usize::MAX,
            bindings@.len() == i,
            buffer@.len() == i * uniform_size(layout),
            forall|j: int| 0 <= j < i ==> slot_correct(buffer@, bindings@, cameras@, layout, j),
        decreases cameras@.len() - i,
    {
        let ghost buffer0 = buffer@;
        let ghost bindings0 = bindings@;
        let cam = cameras[i];
        proof {
            lemma_mul_inequality(i as int + 1, cameras@.len() as int, uniform_size(layout) as int);
            assert((i as int + 1) * (uniform_size(layout) as int) == i as int * (uniform_size(
                layout,
            ) as int) + uniform_size(layout) as int) by (nonlinear_arith);
        }
        let offset: usize = buffer.len();
        let mut chunk = cam.settings.to_uniform_bytes(layout);
        let ghost chunk0 = chunk@;
        buffer.append(&mut chunk);
        bindings.push(UniformBinding { entity: cam.entity, offset, size });
        proof {
            assert forall|j: int|
                0 <= j < i + 1 implies slot_correct(
                buffer@,
                bindings@,
                cameras@,
                layout,
                j,
            ) by {
                if j < i {
                    let b = bindings0[j];
                    assert(slot_correct(buffer0, bindings0, cameras@, layout, j));
                    assert(bindings@[j] == b);
                    assert(buffer@.subrange(b.offset as int, b.offset + b.size) =~= buffer0
                        .subrange(b.offset as int, b.offset + b.size));
                } else {
                    assert(buffer@.subrange(offset as int, offset + size) =~= chunk0);
                }
            }
        }
        i += 1;
    }
    proof {
        assert forall|i: int, j: int|
            0 <= i < j < cameras@.len() implies bindings@[i].offset + bindings@[i].size
            <= bindings@[j].offset by {
            assert(slot_correct(buffer@, bindings@, cameras@, layout, i));
            assert(slot_correct(buffer@, bindings@, cameras@, layout, j));
            lemma_mul_inequality(i + 1, j, uniform_size(layout) as int);
            assert((i + 1) * (uniform_size(layout) as int) == i * (uniform_size(layout) as int)
                + uniform_size(layout) as int) by (nonlinear_arith);
        }
    }
    ExtractedUniforms { buffer, bindings }
}

} // verus!
