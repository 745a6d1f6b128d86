//! Reading what the overlay library hands back after its layout pass: the
//! textures it wants uploaded and freed, and the texture of each
//! tessellated batch. Only the ids are read; the image data stays where
//! it is.

use vstd::prelude::*;
use crate::overlay::{DrawBatch, GuiFrameOutput};
use crate::texture::TextureId;

verus! {

/// `egui::TexturesDelta`, carried through as it is: nothing inside it is
/// seen here but through the names below.
#[verifier::external_type_specification]
#[verifier::external_body]
pub struct ExTexturesDelta(egui::TexturesDelta);

/// `egui::ClippedPrimitive`, carried through as it is: nothing inside it
/// is seen here but through the name below.
#[verifier::external_type_specification]
#[verifier::external_body]
pub struct ExClippedPrimitive(egui::ClippedPrimitive);

/// The ids of the textures that a delta sets, in the order of its `set`
/// list.
pub uninterp spec fn delta_uploads(delta: egui::TexturesDelta) -> Seq<TextureId>;

/// The ids of the textures that a delta frees, in the order of its `free`
/// list.
pub uninterp spec fn delta_frees(delta: egui::TexturesDelta) -> Seq<TextureId>;

/// The batch that a clipped primitive is: the texture of its mesh, or no
/// texture where it is a paint callback.
pub uninterp spec fn primitive_batch(primitive: egui::ClippedPrimitive) -> DrawBatch;

/// The length of the `set` list of `egui::TexturesDelta`.
#[verifier::external_body]
fn delta_upload_count(delta: &egui::TexturesDelta) -> (n: usize)
    ensures
        n == delta_uploads(*delta).len(),
{
    delta.set.len()
}

/// The id in the entry at `i` of the `set` list of `egui::TexturesDelta`,
/// variant for variant of `egui::TextureId`.
#[verifier::external_body]
fn delta_upload_id(delta: &egui::TexturesDelta, i: usize) -> (id: TextureId)
    requires
        i < delta_uploads(*delta).len(),
    ensures
        id == delta_uploads(*delta)[i as int],
{
    match delta.set[i].0 {
        egui::TextureId::Managed(n) => TextureId::Managed(n),
        egui::TextureId::User(n) => TextureId::User(n),
    }
}

/// The length of the `free` list of `egui::TexturesDelta`.
#[verifier::external_body]
fn delta_free_count(delta: &egui::TexturesDelta) -> (n: usize)
    ensures
        n == delta_frees(*delta).len(),
{
    delta.free.len()
}

/// The id at `i` of the `free` list of `egui::TexturesDelta`, variant for
/// variant of `egui::TextureId`.
#[verifier::external_body]
fn delta_free_id(delta: &egui::TexturesDelta, i: usize) -> (id: TextureId)
    requires
        i < delta_frees(*delta).len(),
    ensures
        id == delta_frees(*delta)[i as int],
{
    match delta.free[i] {
        egui::TextureId::Managed(n) => TextureId::Managed(n),
        egui::TextureId::User(n) => TextureId::User(n),
    }
}

/// The `texture_id` of the mesh of an `egui::ClippedPrimitive`, variant
/// for variant of `egui::TextureId`; none for a paint callback.
#[verifier::external_body]
fn primitive_texture(primitive: &egui::ClippedPrimitive) -> (batch: DrawBatch)
    ensures
        batch == primitive_batch(*primitive),
{
    match &primitive.primitive {
        egui::epaint::Primitive::Mesh(mesh) => match mesh.texture_id {
            egui::TextureId::Managed(n) => DrawBatch { texture: Some(TextureId::Managed(n)) },
            egui::TextureId::User(n) => DrawBatch { texture: Some(TextureId::User(n)) },
        },
        egui::epaint::Primitive::Callback(_) => DrawBatch { texture: None },
    }
}

/// The batches of a list of clipped primitives, one for one.
pub open spec fn batches_of(primitives: Seq<egui::ClippedPrimitive>) -> Seq<DrawBatch> {
    Seq::new(primitives.len(), |i: int| primitive_batch(primitives[i]))
}

/// What a frame of the overlay asks of the GPU, read from the texture
/// delta of its layout pass and from its tessellated primitives: every
/// upload, every free and every batch, in the order in which they stand.
pub fn read_frame_output(
    delta: &egui::TexturesDelta,
    primitives: &Vec<egui::ClippedPrimitive>,
) -> (output: GuiFrameOutput)
    ensures
        output.texture_uploads@ == delta_uploads(*delta),
        output.texture_frees@ == delta_frees(*delta),
        output.primitives@ == batches_of(primitives@),
{
    let mut texture_uploads: Vec<TextureId> = Vec::new();
    let upload_count = delta_upload_count(delta);
    let mut i: usize = 0;
    while i < upload_count
        invariant
            i <= upload_count,
            upload_count == delta_uploads(*delta).len(),
            texture_uploads@ == delta_uploads(*delta).take(i as int),
        decreases upload_count - i,
    {
        texture_uploads.push(delta_upload_id(delta, i));
        i += 1;
        assert(texture_uploads@ =~= delta_uploads(*delta).take(i as int));
    }
    assert(texture_uploads@ =~= delta_uploads(*delta));

    let mut texture_frees: Vec<TextureId> = Vec::new();
    let free_count = delta_free_count(delta);
    let mut j: usize = 0;
    while j < free_count
        invariant
            j <= free_count,
            free_count == delta_frees(*delta).len(),
            texture_frees@ == delta_frees(*delta).take(j as int),
        decreases free_count - j,
    {
        texture_frees.push(delta_free_id(delta, j));
        j += 1;
        assert(texture_frees@ =~= delta_frees(*delta).take(j as int));
    }
    assert(texture_frees@ =~= delta_frees(*delta));

    let mut batches: Vec<DrawBatch> = Vec::new();
    let mut k: usize = 0;
    while k < primitives.len()
        invariant
            k <= primitives.len(),
            batches@ == batches_of(primitives@).take(k as int),
        decreases primitives.len() - k,
    {
        batches.push(primitive_texture(&primitives[k]));
        k += 1;
        assert(batches@ =~= batches_of(primitives@).take(k as int));
    }
    assert(batches@ =~= batches_of(primitives@));

    GuiFrameOutput { primitives: batches, texture_uploads, texture_frees }
}

} // verus!
