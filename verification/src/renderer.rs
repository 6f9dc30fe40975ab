use vstd::prelude::*;
use crate::cube::cube_position_spec;
use crate::cube::cube_index_spec;
use crate::cube::cube_positions;
use crate::cube::cube_indices;

verus! {

/// Size in bytes of the uniform buffer: one 4x4 matrix of 4-byte scalars,
/// the minimum binding size the bind-group layout declares.
pub const UNIFORM_BYTE_COUNT: usize = 64;

/// The mesh and uniform data the renderer uploads once at initialization.
/// Immutable after creation: nothing in the library hands out a mutable view
/// of a bundle.
pub struct ResourceBundle {
    /// Vertex coordinates, in half-units (see `cube_position_spec`).
    pub vertex_data: Vec<i32>,
    /// Index list: 36 entries naming vertices 0 to 7.
    pub index_data: Vec<u32>,
    /// The 64 bytes of the precomputed transform matrix, as uploaded.
    pub uniform_bytes: Vec<u8>,
    /// How many indices one draw call covers.
    pub index_count: usize,
}

/// The renderer's resources are either all absent or all present: drawing
/// requires the `Ready` state, which only initialization produces.
pub enum RenderState {
    Uninitialized,
    Ready(ResourceBundle),
}

/// The renderer's logical state: the surface configuration's size and the
/// uploaded resources. The GPU handles themselves live with the caller that
/// owns the device; this state decides what is uploaded and what every draw
/// call submits.
pub struct Renderer {
    /// Width the surface was configured with, in pixels.
    pub surface_width: u32,
    /// Height the surface was configured with, in pixels.
    pub surface_height: u32,
    pub state: RenderState,
}

/// Outcome of one attempt to acquire the next swapchain image.
#[derive(Clone, Copy, PartialEq, Eq, Structural, Debug)]
pub enum AcquireOutcome {
    Acquired,
    Lost,
}

/// What to do after the first acquisition attempt.
#[derive(Clone, Copy, PartialEq, Eq, Structural, Debug)]
pub enum AcquirePlan {
    /// The image is in hand: record and submit the frame.
    Proceed,
    /// The surface is stale: reconfigure it with the stored configuration
    /// and try to acquire once more.
    ReconfigureAndRetry,
}

/// What to do after the retry that follows a reconfigure. There is no
/// second retry: this type has no variant that reconfigures again, so a
/// retry loop cannot arise.
#[derive(Clone, Copy, PartialEq, Eq, Structural, Debug)]
pub enum RetryPlan {
    /// The retry acquired the image: record and submit the frame.
    Proceed,
    /// The retry failed too: a fatal environment error.
    Fatal,
}

/// How a whole draw attempt resolves, given the outcome of the first
/// acquisition and, where that was lost, of the retry.
#[derive(Clone, Copy, PartialEq, Eq, Structural, Debug)]
pub enum DrawResolution {
    /// The frame renders, after `reconfigures` surface reconfigurations.
    Render { reconfigures: u32 },
    /// Both acquisitions were lost: fatal termination.
    Fatal,
}

/// The fixed color the render pass clears to, in thousandths per channel
/// (the rendered channel is the entry divided by 1000).
#[derive(Clone, Copy, PartialEq, Eq, Structural, Debug)]
pub struct ClearColor {
    pub r_milli: u32,
    pub g_milli: u32,
    pub b_milli: u32,
    pub a_milli: u32,
}

/// Everything one frame's render pass submits: the clear color and the
/// parameters of the single indexed draw call.
#[derive(Clone, Copy, PartialEq, Eq, Structural, Debug)]
pub struct DrawCommands {
    pub clear_color: ClearColor,
    /// First index of the draw range.
    pub first_index: u32,
    /// Number of indices the draw covers: the whole index buffer.
    pub index_count: u32,
    /// Added to each index before vertex lookup.
    pub base_vertex: i32,
    pub first_instance: u32,
    /// The cube is drawn as a single instance.
    pub instance_count: u32,
}

pub open spec fn acquire_plan_spec(first: AcquireOutcome) -> AcquirePlan {
    match first {
        AcquireOutcome::Acquired => AcquirePlan::Proceed,
        AcquireOutcome::Lost => AcquirePlan::ReconfigureAndRetry,
    }
}

pub open spec fn retry_plan_spec(retry: AcquireOutcome) -> RetryPlan {
    match retry {
        AcquireOutcome::Acquired => RetryPlan::Proceed,
        AcquireOutcome::Lost => RetryPlan::Fatal,
    }
}

/// How a draw attempt resolves when the first acquisition came out `first`
/// and, if that was lost, the retry came out `retry`.
pub open spec fn resolution_spec(first: AcquireOutcome, retry: AcquireOutcome) -> DrawResolution {
    match first {
        AcquireOutcome::Acquired => DrawResolution::Render { reconfigures: 0 },
        AcquireOutcome::Lost => match retry {
            AcquireOutcome::Acquired => DrawResolution::Render { reconfigures: 1 },
            AcquireOutcome::Lost => DrawResolution::Fatal,
        },
    }
}

/// Decides what follows the first acquisition attempt of a frame.
pub fn plan_acquire(first: AcquireOutcome) -> (r: AcquirePlan)
    ensures
        r == acquire_plan_spec(first),
{
    match first {
        AcquireOutcome::Acquired => AcquirePlan::Proceed,
        AcquireOutcome::Lost => AcquirePlan::ReconfigureAndRetry,
    }
}

/// Decides what follows the one retry after a reconfigure.
pub fn plan_retry(retry: AcquireOutcome) -> (r: RetryPlan)
    ensures
        r == retry_plan_spec(retry),
{
    match retry {
        AcquireOutcome::Acquired => RetryPlan::Proceed,
        AcquireOutcome::Lost => RetryPlan::Fatal,
    }
}

/// On surface acquisition failure exactly one reconfigure-and-retry happens
/// before either success or fatal termination, and a successful first
/// acquisition reconfigures nothing: whatever the outcomes, a frame never
/// reconfigures more than once.
pub proof fn lemma_single_reconfigure(first: AcquireOutcome, retry: AcquireOutcome)
    ensures
        resolution_spec(first, retry) matches DrawResolution::Render { reconfigures }
            ==> reconfigures <= 1,
        first is Acquired ==> resolution_spec(first, retry)
            == (DrawResolution::Render { reconfigures: 0u32 }),
        first is Lost ==> acquire_plan_spec(first) is ReconfigureAndRetry,
        resolution_spec(first, retry) is Fatal <==> (first is Lost && retry is Lost),
{
}

impl Renderer {
    /// The renderer's invariant: once the state is `Ready`, the bundle holds
    /// exactly the cube mesh, a full 64-byte uniform, and an index count
    /// that matches the index buffer.
    pub open spec fn inv(self) -> bool {
        match self.state {
            RenderState::Uninitialized => true,
            RenderState::Ready(b) => {
                &&& b.vertex_data@ == cube_position_spec()
                &&& b.index_data@ == cube_index_spec()
                &&& b.uniform_bytes@.len() == UNIFORM_BYTE_COUNT
                &&& b.index_count == b.index_data@.len()
            },
        }
    }

    /// A new renderer for a surface configured at the given size, with no
    /// resources uploaded yet. Device, queue and surface acquisition are the
    /// caller's: they involve no decision this library makes.
    pub fn new(surface_width: u32, surface_height: u32) -> (r: Renderer)
        ensures
            r.inv(),
            r.state is Uninitialized,
            r.surface_width == surface_width,
            r.surface_height == surface_height,
    {
        Renderer { surface_width, surface_height, state: RenderState::Uninitialized }
    }

    /// Uploads the fixed cube mesh and the given 64-byte uniform matrix,
    /// moving the renderer to `Ready`. Calling it again replaces the prior
    /// resources with the same mesh and the new uniform.
    pub fn init_cube(&mut self, uniform_bytes: Vec<u8>)
        requires
            uniform_bytes@.len() == UNIFORM_BYTE_COUNT,
        ensures
            final(self).inv(),
            final(self).surface_width == old(self).surface_width,
            final(self).surface_height == old(self).surface_height,
            final(self).state matches RenderState::Ready(b) && {
                &&& b.vertex_data@ == cube_position_spec()
                &&& b.index_data@ == cube_index_spec()
                &&& b.uniform_bytes@ == uniform_bytes@
                &&& b.index_count == 36
            },
    {
        let vertex_data = cube_positions();
        let index_data = cube_indices();
        let index_count = index_data.len();
        self.state = RenderState::Ready(ResourceBundle {
            vertex_data,
            index_data,
            uniform_bytes,
            index_count,
        });
    }

    /// The commands one frame submits: clear to the fixed color, then one
    /// indexed draw of the whole index buffer as a single instance. Borrows
    /// the renderer immutably: a draw can never change what was uploaded.
    pub fn draw_cube(&self) -> (r: DrawCommands)
        requires
            self.inv(),
            self.state is Ready,
        ensures
            r == (DrawCommands {
                clear_color: ClearColor {
                    r_milli: 100u32,
                    g_milli: 100u32,
                    b_milli: 600u32,
                    a_milli: 1000u32,
                },
                first_index: 0u32,
                index_count: 36u32,
                base_vertex: 0i32,
                first_instance: 0u32,
                instance_count: 1u32,
            }),
    {
        let index_count: u32 = match &self.state {
            RenderState::Ready(b) => b.index_count as u32,
            RenderState::Uninitialized => 0,
        };
        DrawCommands {
            clear_color: ClearColor { r_milli: 100, g_milli: 100, b_milli: 600, a_milli: 1000 },
            first_index: 0,
            index_count,
            base_vertex: 0,
            first_instance: 0,
            instance_count: 1,
        }
    }
}

/// The buffers a ready renderer holds are static: whatever stands in the
/// `Ready` state is exactly the fixed cube mesh, and `draw_cube` borrows the
/// renderer immutably, so initialization followed by any number of draws
/// leaves vertex and index contents what initialization stored.
pub proof fn lemma_buffers_static(r: Renderer)
    requires
        r.inv(),
        r.state is Ready,
    ensures
        r.state matches RenderState::Ready(b) && {
            &&& b.vertex_data@ == cube_position_spec()
            &&& b.index_data@ == cube_index_spec()
            &&& b.index_count == 36
        },
{
}

} // verus!
