//! The 2D renderer: one camera fixed at construction, one static index
//! list, and one frame plan per draw call.
//!
//! The renderer itself owns no GPU handles; it decides what each frame's
//! render pass records. The GPU boundary executes a [`FramePlan`] verbatim:
//! clear to the plan's color, bind the camera uniform, upload the vertex
//! data and issue one indexed draw over the plan's indices.

use vstd::prelude::*;

use crate::camera::CameraUniform;
use crate::geometry::{quad_indices, spec_quad_indices, Rgba, Shape2D, Vertex};

verus! {

/// Everything one frame's render pass records.
pub struct FramePlan {
    /// The color the frame is cleared to before the draw.
    pub clear_color: Rgba,
    /// The camera uniform bound for the draw.
    pub camera: CameraUniform,
    /// The vertex data uploaded for the draw.
    pub vertices: Vec<Vertex>,
    /// The index list of the indexed draw.
    pub indices: Vec<u16>,
}

/// The fixed clear color: magenta. Each channel is the bit pattern of a
/// 32-bit float, one (0x3F80_0000) for red, blue and alpha, zero for green.
pub open spec fn spec_clear_color() -> Rgba {
    Rgba { r: 0x3F80_0000, g: 0, b: 0x3F80_0000, a: 0x3F80_0000 }
}

/// The fixed clear color of every frame.
pub fn clear_color() -> (color: Rgba)
    ensures
        color == spec_clear_color(),
{
    Rgba { r: 0x3F80_0000, g: 0, b: 0x3F80_0000, a: 0x3F80_0000 }
}

/// A renderer: the camera uniform computed once at construction, the size
/// the surface was last configured to, and the static index list shared by
/// every quad draw.
pub struct Renderer2D {
    camera: CameraUniform,
    surface_width: u32,
    surface_height: u32,
    index_buffer: Vec<u16>,
}

impl Renderer2D {
    /// The camera uniform the renderer was constructed with.
    pub closed spec fn spec_camera(self) -> CameraUniform {
        self.camera
    }

    /// The width the surface was last configured to.
    pub closed spec fn spec_surface_width(self) -> u32 {
        self.surface_width
    }

    /// The height the surface was last configured to.
    pub closed spec fn spec_surface_height(self) -> u32 {
        self.surface_height
    }

    /// The contents of the static index buffer.
    pub closed spec fn spec_index_buffer(self) -> Seq<u16> {
        self.index_buffer@
    }

    /// A well-formed renderer: the static index buffer holds exactly the
    /// quad index list.
    pub open spec fn wf(self) -> bool {
        self.spec_index_buffer() == spec_quad_indices()
    }

    /// Construct a renderer for a surface of the given size. The camera
    /// uniform is computed from that size, once, by the floating-point math
    /// at the GPU boundary and handed in here; the renderer never changes
    /// it afterwards.
    pub fn new(width: u32, height: u32, camera: CameraUniform) -> (renderer: Renderer2D)
        ensures
            renderer.wf(),
            renderer.spec_camera() == camera,
            renderer.spec_surface_width() == width,
            renderer.spec_surface_height() == height,
    {
        Renderer2D { camera, surface_width: width, surface_height: height, index_buffer: quad_indices() }
    }

    /// The camera uniform, as fixed at construction.
    pub fn camera(&self) -> (camera: CameraUniform)
        ensures
            camera == self.spec_camera(),
    {
        self.camera
    }

    /// Record the new surface size after the surface was lost or resized.
    /// Only the configured size changes: the camera uniform is never
    /// recomputed, whatever size the surface takes.
    pub fn resize(&mut self, width: u32, height: u32)
        requires
            old(self).wf(),
        ensures
            final(self).wf(),
            final(self).spec_surface_width() == width,
            final(self).spec_surface_height() == height,
            final(self).spec_camera() == old(self).spec_camera(),
    {
        self.surface_width = width;
        self.surface_height = height;
    }

    /// Plan one frame that draws exactly the given shape: clear to the
    /// fixed color, bind the camera fixed at construction, upload the
    /// shape's four vertices and draw the two quad triangles.
    pub fn draw(&self, shape: Shape2D) -> (plan: FramePlan)
        requires
            self.wf(),
            shape.wf(),
        ensures
            plan.vertices@ == shape.spec_vertices(),
            plan.indices@ == spec_quad_indices(),
            plan.camera == self.spec_camera(),
            plan.clear_color == spec_clear_color(),
    {
        let vertices = shape.vertices();
        let indices = self.index_buffer.clone();
        FramePlan { clear_color: clear_color(), camera: self.camera, vertices, indices }
    }
}

/// The camera uniform is fixed at construction: any two frames planned by
/// the same renderer carry the same camera, whatever shapes they draw and
/// however the surface was resized between them.
pub proof fn law_camera_never_recomputed(
    renderer: Renderer2D,
    first: FramePlan,
    second: FramePlan,
)
    requires
        first.camera == renderer.spec_camera(),
        second.camera == renderer.spec_camera(),
    ensures
        first.camera == second.camera,
{
}

} // verus!
