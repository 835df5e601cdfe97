//! The texture-array renderer: a pipeline with a declared maximum number of
//! texture/sampler array slots, a bind group holding a concrete texture
//! list, and replaceable vertex and index buffers.
//!
//! The GPU objects live with the driver; the renderer's verified state is
//! the bookkeeping the draw logic depends on: the declared slot maximum,
//! the bound texture count, the buffer contents and the index format.

use crate::order::{BuildStage, BuilderOrderChecker};
use vstd::pervasive::unreached;
use vstd::prelude::*;

verus! {

/// Construction stages of the renderer, in build order.
#[derive(Clone, Copy, Debug, PartialEq, Eq, Structural)]
pub enum TextureRendererBuildOrder {
    BaseAndWindow,
    CreatePipeline,
    CreateBindGroup,
}

impl BuildStage for TextureRendererBuildOrder {
    open spec fn ord(&self) -> int {
        match self {
            TextureRendererBuildOrder::BaseAndWindow => 0,
            TextureRendererBuildOrder::CreatePipeline => 1,
            TextureRendererBuildOrder::CreateBindGroup => 2,
        }
    }

    fn ordinal(&self) -> (r: u64) {
        match self {
            TextureRendererBuildOrder::BaseAndWindow => 0,
            TextureRendererBuildOrder::CreatePipeline => 1,
            TextureRendererBuildOrder::CreateBindGroup => 2,
        }
    }
}

/// Width of the indices in the index buffer.
#[derive(Clone, Copy, Debug, PartialEq, Eq, Structural)]
pub enum IndexFormat {
    Uint16,
    Uint32,
}

/// Why binding a texture list into the pipeline's array slots was refused.
#[derive(Clone, Copy, Debug, PartialEq, Eq, Structural)]
pub enum RendererBuildError {
    /// The texture list is longer than the pipeline's declared maximum
    /// number of array slots.
    TooManyTextures { declared_max: u32, given: usize },
}

/// One recorded render pass, as plain values: a single indexed draw over
/// the whole current index buffer, one instance, and the texture bind
/// group at a zero dynamic offset.
#[derive(Clone, Copy, Debug, PartialEq, Eq, Structural)]
pub struct DrawCall {
    pub first_index: u32,
    pub index_count: u32,
    pub base_vertex: i32,
    pub first_instance: u32,
    pub instance_count: u32,
    pub bind_group_dynamic_offset: u32,
}

/// The finished renderer, re-issued once per frame.
pub struct TextureRenderer {
    vertex_count: usize,
    indices: Vec<u16>,
    index_format: IndexFormat,
    index_count: u32,
    bound_texture_count: usize,
    pipeline_max_textures: u32,
}

/// Builds a `TextureRenderer`: pipeline, then buffers and bind group, the
/// ordered steps gated by the order tracker.
pub struct TextureRendererBuilder {
    pipeline_max_textures: Option<u32>,
    bound_texture_count: Option<usize>,
    vertex_count: Option<usize>,
    index_buffer: Option<Vec<u16>>,
    index_format: Option<IndexFormat>,
    stage: BuilderOrderChecker<TextureRendererBuildOrder>,
}

impl TextureRendererBuilder {
    /// Ordinal of the construction stage most recently completed.
    pub closed spec fn stage_ord(&self) -> int {
        self.stage.current_stage().ord()
    }

    /// The pipeline's declared maximum number of texture array slots, if
    /// the pipeline step has run.
    pub closed spec fn pipeline_max_model(&self) -> Option<u32> {
        self.pipeline_max_textures
    }

    pub open spec fn has_pipeline(&self) -> bool {
        self.pipeline_max_model() is Some
    }

    /// The declared slot maximum; meaningful only once the pipeline step
    /// has run.
    pub open spec fn pipeline_max_spec(&self) -> u32 {
        match self.pipeline_max_model() {
            Some(m) => m,
            None => 0,
        }
    }

    /// The number of textures bound into the array slots, if the bind-group
    /// step has run.
    pub closed spec fn bound_count_model(&self) -> Option<usize> {
        self.bound_texture_count
    }

    pub open spec fn has_bind_group(&self) -> bool {
        self.bound_count_model() is Some
    }

    /// The number of vertices in the vertex buffer, if it exists.
    pub closed spec fn vertex_count_model(&self) -> Option<usize> {
        self.vertex_count
    }

    pub open spec fn has_vertex_buffer(&self) -> bool {
        self.vertex_count_model() is Some
    }

    /// The contents of the index buffer, if it exists.
    pub closed spec fn index_buffer_model(&self) -> Option<Seq<u16>> {
        match self.index_buffer {
            Some(b) => Some(b@),
            None => None,
        }
    }

    pub open spec fn has_index_buffer(&self) -> bool {
        self.index_buffer_model() is Some
    }

    /// The chosen index format, if one was set.
    pub closed spec fn index_format_model(&self) -> Option<IndexFormat> {
        self.index_format
    }

    /// Construction state and stage agree, and the builder's buffers are
    /// the empty allocations its buffer steps make.
    pub open spec fn wf(&self) -> bool {
        &&& 0 <= self.stage_ord() <= 2
        &&& (self.has_pipeline() <==> self.stage_ord() >= 1)
        &&& (self.has_bind_group() <==> self.stage_ord() >= 2)
        &&& (self.index_buffer_model() matches Some(b) ==> b.len() == 0)
        &&& (self.bound_count_model() matches Some(n) ==> n <= self.pipeline_max_spec() as usize)
    }

    pub open spec fn can_create_pipeline(&self) -> bool {
        self.stage_ord() < 1
    }

    pub open spec fn can_create_bind_group(&self) -> bool {
        self.stage_ord() < 2 && self.has_pipeline()
    }

    pub open spec fn can_build(&self) -> bool {
        &&& self.has_pipeline()
        &&& self.has_bind_group()
        &&& self.has_vertex_buffer()
        &&& self.has_index_buffer()
    }

    /// Compiles the shader pair and builds the pipeline, whose bind-group
    /// layout declares `max_texture_count` texture/sampler array slots plus
    /// one dynamically-offset uniform buffer.
    pub fn create_pipeline(self, max_texture_count: u32) -> (r: Self)
        requires
            self.wf(),
            self.can_create_pipeline(),
        ensures
            r.wf(),
            r.stage_ord() == 1,
            r.pipeline_max_model() == Some(max_texture_count),
            !r.has_bind_group(),
            r.vertex_count_model() == self.vertex_count_model(),
            r.index_buffer_model() == self.index_buffer_model(),
            r.index_format_model() == self.index_format_model(),
    {
        let TextureRendererBuilder {
            pipeline_max_textures: _,
            bound_texture_count,
            vertex_count,
            index_buffer,
            index_format,
            mut stage,
        } = self;
        stage.check_and_change(TextureRendererBuildOrder::CreatePipeline);
        TextureRendererBuilder {
            pipeline_max_textures: Some(max_texture_count),
            bound_texture_count,
            vertex_count,
            index_buffer,
            index_format,
            stage,
        }
    }

    /// Allocates the (empty) vertex buffer.
    pub fn create_vertex_buffer(self) -> (r: Self)
        requires
            self.wf(),
        ensures
            r.wf(),
            r.stage_ord() == self.stage_ord(),
            r.pipeline_max_model() == self.pipeline_max_model(),
            r.bound_count_model() == self.bound_count_model(),
            r.vertex_count_model() == Some(0usize),
            r.index_buffer_model() == self.index_buffer_model(),
            r.index_format_model() == self.index_format_model(),
    {
        let TextureRendererBuilder {
            pipeline_max_textures,
            bound_texture_count,
            vertex_count: _,
            index_buffer,
            index_format,
            stage,
        } = self;
        TextureRendererBuilder {
            pipeline_max_textures,
            bound_texture_count,
            vertex_count: Some(0),
            index_buffer,
            index_format,
            stage,
        }
    }

    /// Allocates the (empty) index buffer.
    pub fn create_index_buffer(self) -> (r: Self)
        requires
            self.wf(),
        ensures
            r.wf(),
            r.stage_ord() == self.stage_ord(),
            r.pipeline_max_model() == self.pipeline_max_model(),
            r.bound_count_model() == self.bound_count_model(),
            r.vertex_count_model() == self.vertex_count_model(),
            r.index_buffer_model() == Some(Seq::<u16>::empty()),
            r.index_format_model() == self.index_format_model(),
    {
        let TextureRendererBuilder {
            pipeline_max_textures,
            bound_texture_count,
            vertex_count,
            index_buffer: _,
            index_format,
            stage,
        } = self;
        let empty: Vec<u16> = Vec::new();
        TextureRendererBuilder {
            pipeline_max_textures,
            bound_texture_count,
            vertex_count,
            index_buffer: Some(empty),
            index_format,
            stage,
        }
    }

    /// Chooses the width of the indices in the index buffer.  The buffer
    /// replacement API hands over sixteen-bit values; under the
    /// thirty-two-bit format the driver reads the same bytes as
    /// thirty-two-bit indices, so that format is for callers who supply
    /// byte-compatible contents.
    pub fn set_index_format(self, index_format: IndexFormat) -> (r: Self)
        requires
            self.wf(),
        ensures
            r.wf(),
            r.stage_ord() == self.stage_ord(),
            r.pipeline_max_model() == self.pipeline_max_model(),
            r.bound_count_model() == self.bound_count_model(),
            r.vertex_count_model() == self.vertex_count_model(),
            r.index_buffer_model() == self.index_buffer_model(),
            r.index_format_model() == Some(index_format),
    {
        let TextureRendererBuilder {
            pipeline_max_textures,
            bound_texture_count,
            vertex_count,
            index_buffer,
            index_format: _,
            stage,
        } = self;
        TextureRendererBuilder {
            pipeline_max_textures,
            bound_texture_count,
            vertex_count,
            index_buffer,
            index_format: Some(index_format),
            stage,
        }
    }

    /// Binds a concrete list of `texture_count` textures into the
    /// pipeline's array slots, making them visible to the shader.  A list
    /// longer than the declared slot maximum fails here, at bind-group
    /// construction, and leaves no bind group behind.
    pub fn create_bind_group(self, texture_count: usize) -> (r: Result<
        Self,
        RendererBuildError,
    >)
        requires
            self.wf(),
            self.can_create_bind_group(),
        ensures
            texture_count <= self.pipeline_max_spec() as usize ==> (r matches Ok(b) && {
                &&& b.wf()
                &&& b.stage_ord() == 2
                &&& b.pipeline_max_model() == self.pipeline_max_model()
                &&& b.bound_count_model() == Some(texture_count)
                &&& b.vertex_count_model() == self.vertex_count_model()
                &&& b.index_buffer_model() == self.index_buffer_model()
                &&& b.index_format_model() == self.index_format_model()
            }),
            texture_count > self.pipeline_max_spec() as usize ==> r == Err::<
                Self,
                RendererBuildError,
            >(
                RendererBuildError::TooManyTextures {
                    declared_max: self.pipeline_max_spec(),
                    given: texture_count,
                },
            ),
    {
        let TextureRendererBuilder {
            pipeline_max_textures,
            bound_texture_count: _,
            vertex_count,
            index_buffer,
            index_format,
            mut stage,
        } = self;
        let declared_max: u32 = match pipeline_max_textures {
            Some(m) => m,
            None => unreached(),
        };
        if texture_count > declared_max as usize {
            return Err(RendererBuildError::TooManyTextures { declared_max, given: texture_count });
        }
        stage.check_and_change(TextureRendererBuildOrder::CreateBindGroup);
        Ok(
            TextureRendererBuilder {
                pipeline_max_textures,
                bound_texture_count: Some(texture_count),
                vertex_count,
                index_buffer,
                index_format,
                stage,
            },
        )
    }

    /// Finalizes into a renderer.  Pipeline, bind group and both buffers
    /// must be present.  The finished renderer carries the index format the
    /// builder fixed — sixteen-bit when none was fixed — and starts with an
    /// index count of zero.
    pub fn build(self) -> (r: TextureRenderer)
        requires
            self.wf(),
            self.can_build(),
        ensures
            r.wf(),
            r.vertex_count_spec() == match self.vertex_count_model() {
                Some(n) => n,
                None => 0usize,
            },
            Some(r.indices_spec()) == self.index_buffer_model(),
            r.index_count_spec() == 0,
            r.index_format_spec() == match self.index_format_model() {
                Some(f) => f,
                None => IndexFormat::Uint16,
            },
            Some(r.bound_texture_count_spec()) == self.bound_count_model(),
            Some(r.pipeline_max_spec()) == self.pipeline_max_model(),
    {
        let TextureRendererBuilder {
            pipeline_max_textures,
            bound_texture_count,
            vertex_count,
            index_buffer,
            index_format,
            stage: _,
        } = self;
        let pipeline_max_textures: u32 = match pipeline_max_textures {
            Some(m) => m,
            None => unreached(),
        };
        let bound_texture_count: usize = match bound_texture_count {
            Some(n) => n,
            None => unreached(),
        };
        let vertex_count: usize = match vertex_count {
            Some(n) => n,
            None => unreached(),
        };
        let indices: Vec<u16> = match index_buffer {
            Some(b) => b,
            None => unreached(),
        };
        let index_format: IndexFormat = match index_format {
            Some(f) => f,
            None => IndexFormat::Uint16,
        };
        TextureRenderer {
            vertex_count,
            indices,
            index_format,
            index_count: 0,
            bound_texture_count,
            pipeline_max_textures,
        }
    }
}

impl TextureRenderer {
    /// The number of vertices in the vertex buffer.
    pub closed spec fn vertex_count_spec(&self) -> usize {
        self.vertex_count
    }

    /// The contents of the index buffer.
    pub closed spec fn indices_spec(&self) -> Seq<u16> {
        self.indices@
    }

    /// The width of the indices in the index buffer.
    pub closed spec fn index_format_spec(&self) -> IndexFormat {
        self.index_format
    }

    /// The number of indices the next draw covers.
    pub closed spec fn index_count_spec(&self) -> u32 {
        self.index_count
    }

    /// The number of textures bound into the array slots.
    pub closed spec fn bound_texture_count_spec(&self) -> usize {
        self.bound_texture_count
    }

    /// The pipeline's declared maximum number of texture array slots.
    pub closed spec fn pipeline_max_spec(&self) -> u32 {
        self.pipeline_max_textures
    }

    /// The renderer's bookkeeping is consistent: the reported index count
    /// is the index buffer's length, and the bound texture list respects
    /// the pipeline's declared maximum.
    pub open spec fn wf(&self) -> bool {
        &&& self.index_count_spec() as int == self.indices_spec().len()
        &&& self.bound_texture_count_spec() as int <= self.pipeline_max_spec() as int
    }

    /// Starts the staged construction of a renderer for a context and a
    /// window.
    pub fn init() -> (r: TextureRendererBuilder)
        ensures
            r.wf(),
            r.stage_ord() == 0,
            !r.has_pipeline(),
            !r.has_bind_group(),
            !r.has_vertex_buffer(),
            !r.has_index_buffer(),
            r.index_format_model() is None,
    {
        TextureRendererBuilder {
            pipeline_max_textures: None,
            bound_texture_count: None,
            vertex_count: None,
            index_buffer: None,
            index_format: None,
            stage: BuilderOrderChecker::new(TextureRendererBuildOrder::BaseAndWindow),
        }
    }

    /// Replaces the whole vertex buffer: the old buffer is discarded and a
    /// new one is allocated, sized exactly to the `vertex_count` vertices
    /// handed over.
    pub fn modify_vertex_buffer(&mut self, vertex_count: usize)
        requires
            old(self).wf(),
        ensures
            final(self).wf(),
            final(self).vertex_count_spec() == vertex_count,
            final(self).indices_spec() == old(self).indices_spec(),
            final(self).index_format_spec() == old(self).index_format_spec(),
            final(self).index_count_spec() == old(self).index_count_spec(),
            final(self).bound_texture_count_spec() == old(self).bound_texture_count_spec(),
            final(self).pipeline_max_spec() == old(self).pipeline_max_spec(),
    {
        self.vertex_count = vertex_count;
    }

    /// Replaces the whole index buffer: the old buffer is discarded and a
    /// new one is allocated holding exactly `indices`, and the index count
    /// becomes their number.
    pub fn modify_index_buffer(&mut self, indices: Vec<u16>)
        requires
            old(self).wf(),
            indices@.len() <= u32::MAX,
        ensures
            final(self).wf(),
            final(self).vertex_count_spec() == old(self).vertex_count_spec(),
            final(self).indices_spec() == indices@,
            final(self).index_format_spec() == old(self).index_format_spec(),
            final(self).index_count_spec() == indices@.len(),
            final(self).bound_texture_count_spec() == old(self).bound_texture_count_spec(),
            final(self).pipeline_max_spec() == old(self).pipeline_max_spec(),
    {
        self.index_count = indices.len() as u32;
        self.indices = indices;
    }

    /// Reports the number of indices the next draw will cover.
    pub fn index_count(&self) -> (r: u32)
        ensures
            r == self.index_count_spec(),
    {
        self.index_count
    }

    /// Reports the width of the indices the next draw reads.
    pub fn index_format(&self) -> (r: IndexFormat)
        ensures
            r == self.index_format_spec(),
    {
        self.index_format
    }

    /// Describes the single render pass that one render call records and
    /// submits: bind pipeline, buffers and the texture bind group at a zero
    /// dynamic offset, then one indexed draw covering the full current
    /// index buffer, for one instance.
    pub fn draw_call(&self) -> (r: DrawCall)
        ensures
            r == (DrawCall {
                first_index: 0,
                index_count: self.index_count_spec(),
                base_vertex: 0,
                first_instance: 0,
                instance_count: 1,
                bind_group_dynamic_offset: 0,
            }),
    {
        DrawCall {
            first_index: 0,
            index_count: self.index_count,
            base_vertex: 0,
            first_instance: 0,
            instance_count: 1,
            bind_group_dynamic_offset: 0,
        }
    }

    /// Number of whole triangles one draw covers: each consecutive triple
    /// of indices forms one.
    pub open spec fn triangles_drawn(&self) -> int {
        self.index_count_spec() as int / 3
    }

    /// Returns the number of whole triangles one draw covers.
    pub fn triangle_count(&self) -> (r: u32)
        ensures
            r as int == self.triangles_drawn(),
    {
        self.index_count / 3
    }

    /// Every index points at an existing vertex.
    pub open spec fn indices_in_bounds(&self) -> bool {
        forall|k: int|
            0 <= k < self.indices_spec().len() ==> ((#[trigger] self.indices_spec()[k]) as int) < (
            self.vertex_count_spec() as int)
    }

    /// Checks that every index points at an existing vertex, so a draw
    /// reads only real vertex data.
    pub fn valid_geometry(&self) -> (r: bool)
        ensures
            r == self.indices_in_bounds(),
    {
        let mut k: usize = 0;
        while k < self.indices.len()
            invariant
                k <= self.indices@.len(),
                forall|j: int|
                    0 <= j < k ==> ((#[trigger] self.indices@[j]) as int) < (
                    self.vertex_count as int),
            decreases self.indices@.len() - k,
        {
            if !((self.indices[k] as usize) < self.vertex_count) {
                proof {
                    assert(!(((self.indices_spec()[k as int]) as int) < (self.vertex_count_spec()
                        as int)));
                }
                return false;
            }
            k += 1;
        }
        true
    }
}

} // verus!
