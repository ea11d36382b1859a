//! One frame of draw data, as the UI layer hands it over.

use crate::float_bits::FloatBits;
use crate::textures::TextureId;
use crate::vertex::{DrawIdx, DrawVert};
use vstd::prelude::*;

verus! {

/// The largest count that the device's draw parameters can take: the vertices
/// of a frame, its indices, and the elements of its commands may each number
/// no more.
pub const MAX_COUNT: usize = 0x7fff_ffff;

/// A draw command.
#[derive(Clone, Copy, Debug, PartialEq, Eq)]
pub enum DrawCommand {
    /// Draw `count` indices as triangles, clipped to `clip_rect` (left, top,
    /// right, bottom, in the frame's coordinates), with the named texture.
    Elements { count: usize, clip_rect: [FloatBits; 4], texture_id: TextureId },
    /// Apply the renderer's fixed render state again.
    ResetRenderState,
    /// Call back into code of the host's.
    RawCallback,
}

/// A draw list: vertices, indices into them, and the commands that draw them.
#[derive(Clone, Debug, PartialEq, Eq)]
pub struct DrawList {
    pub vertices: Vec<DrawVert>,
    pub indices: Vec<DrawIdx>,
    pub commands: Vec<DrawCommand>,
}

/// What a draw list holds.
pub struct DrawListView {
    pub vertices: Seq<DrawVert>,
    pub indices: Seq<DrawIdx>,
    pub commands: Seq<DrawCommand>,
}

impl View for DrawList {
    type V = DrawListView;

    open spec fn view(&self) -> DrawListView {
        DrawListView { vertices: self.vertices@, indices: self.indices@, commands: self.commands@ }
    }
}

/// What a frame holds.
pub struct FrameView {
    pub display_pos: [FloatBits; 2],
    pub display_size: [FloatBits; 2],
    pub framebuffer_scale: [FloatBits; 2],
    pub lists: Seq<DrawListView>,
}

/// The number of indices that a command draws.
pub open spec fn element_count(command: DrawCommand) -> nat {
    match command {
        DrawCommand::Elements { count, .. } => count as nat,
        _ => 0,
    }
}

/// The indices drawn by the first `n` commands.
pub open spec fn elements_in(commands: Seq<DrawCommand>, n: int) -> nat
    decreases n,
{
    if n <= 0 {
        0
    } else {
        elements_in(commands, n - 1) + element_count(commands[n - 1])
    }
}

/// The vertices of the first `n` lists.
pub open spec fn vertices_before(lists: Seq<DrawListView>, n: int) -> nat
    decreases n,
{
    if n <= 0 {
        0
    } else {
        vertices_before(lists, n - 1) + lists[n - 1].vertices.len()
    }
}

/// The indices of the first `n` lists.
pub open spec fn indices_before(lists: Seq<DrawListView>, n: int) -> nat
    decreases n,
{
    if n <= 0 {
        0
    } else {
        indices_before(lists, n - 1) + lists[n - 1].indices.len()
    }
}

/// The indices drawn by the commands of the first `n` lists.
pub open spec fn elements_before(lists: Seq<DrawListView>, n: int) -> nat
    decreases n,
{
    if n <= 0 {
        0
    } else {
        elements_before(lists, n - 1) + elements_in(
            lists[n - 1].commands,
            lists[n - 1].commands.len() as int,
        )
    }
}

impl FrameView {
    /// The vertices of all lists together.
    pub open spec fn total_vtx_count(self) -> nat {
        vertices_before(self.lists, self.lists.len() as int)
    }

    /// The indices of all lists together.
    pub open spec fn total_idx_count(self) -> nat {
        indices_before(self.lists, self.lists.len() as int)
    }

    /// The indices drawn by all commands together.
    pub open spec fn total_elements(self) -> nat {
        elements_before(self.lists, self.lists.len() as int)
    }

    /// The counts are such that the device's draw parameters can take them.
    pub open spec fn drawable(self) -> bool {
        &&& self.total_vtx_count() <= MAX_COUNT
        &&& self.total_idx_count() <= MAX_COUNT
        &&& self.total_elements() <= MAX_COUNT
    }

    /// One of the display's two dimensions is below zero.
    pub open spec fn collapsed(self) -> bool {
        self.display_size[0].below_zero() || self.display_size[1].below_zero()
    }
}

/// The views of draw lists.
pub open spec fn list_views(lists: Seq<DrawList>) -> Seq<DrawListView> {
    Seq::new(lists.len(), |i: int| lists[i]@)
}

/// More lists hold no fewer vertices.
pub proof fn lemma_vertices_monotonic(lists: Seq<DrawListView>, i: int, j: int)
    requires
        i <= j,
    ensures
        vertices_before(lists, i) <= vertices_before(lists, j),
    decreases j - i,
{
    if i < j {
        lemma_vertices_monotonic(lists, i, j - 1);
    }
}

/// More lists hold no fewer indices.
pub proof fn lemma_indices_monotonic(lists: Seq<DrawListView>, i: int, j: int)
    requires
        i <= j,
    ensures
        indices_before(lists, i) <= indices_before(lists, j),
    decreases j - i,
{
    if i < j {
        lemma_indices_monotonic(lists, i, j - 1);
    }
}

/// The commands of more lists draw no fewer elements.
pub proof fn lemma_elements_monotonic(lists: Seq<DrawListView>, i: int, j: int)
    requires
        i <= j,
    ensures
        elements_before(lists, i) <= elements_before(lists, j),
    decreases j - i,
{
    if i < j {
        lemma_elements_monotonic(lists, i, j - 1);
    }
}

/// More commands draw no fewer elements.
pub proof fn lemma_elements_in_monotonic(commands: Seq<DrawCommand>, i: int, j: int)
    requires
        i <= j,
    ensures
        elements_in(commands, i) <= elements_in(commands, j),
    decreases j - i,
{
    if i < j {
        lemma_elements_in_monotonic(commands, i, j - 1);
    }
}

/// The draw data of one frame. Only frames whose counts the device's draw
/// parameters can take exist: see [`FrameDrawData::new`].
#[derive(Debug, PartialEq, Eq)]
pub struct FrameDrawData {
    display_pos: [FloatBits; 2],
    display_size: [FloatBits; 2],
    framebuffer_scale: [FloatBits; 2],
    lists: Vec<DrawList>,
    total_vtx_count: usize,
    total_idx_count: usize,
}

/// The elements of all commands of a list, or `None` where they number more
/// than [`MAX_COUNT`].
fn count_elements(commands: &Vec<DrawCommand>) -> (total: Option<usize>)
    ensures
        total is Some <==> elements_in(commands@, commands@.len() as int) <= MAX_COUNT,
        total is Some ==> total->0 == elements_in(commands@, commands@.len() as int),
{
    let mut total: usize = 0;
    let mut i: usize = 0;
    while i < commands.len()
        invariant
            i <= commands.len(),
            total == elements_in(commands@, i as int),
            total <= MAX_COUNT,
        decreases commands.len() - i,
    {
        let count: usize = match commands[i] {
            DrawCommand::Elements { count, .. } => count,
            _ => 0,
        };
        if count > MAX_COUNT - total {
            proof {
                lemma_elements_in_monotonic(commands@, i + 1, commands@.len() as int);
            }
            return None;
        }
        total = total + count;
        i = i + 1;
    }
    Some(total)
}

impl View for FrameDrawData {
    type V = FrameView;

    closed spec fn view(&self) -> FrameView {
        FrameView {
            display_pos: self.display_pos,
            display_size: self.display_size,
            framebuffer_scale: self.framebuffer_scale,
            lists: list_views(self.lists@),
        }
    }
}

impl FrameDrawData {
    /// The invariant of every frame: it is drawable, and its total counts are
    /// those of its lists.
    #[verifier::type_invariant]
    pub closed spec fn wf(&self) -> bool {
        &&& self@.drawable()
        &&& self.total_vtx_count == self@.total_vtx_count()
        &&& self.total_idx_count == self@.total_idx_count()
    }

    /// Puts a frame together. The result is `None` exactly where the frame's
    /// vertices, its indices or the elements of its commands number more than
    /// [`MAX_COUNT`].
    pub fn new(
        display_pos: [FloatBits; 2],
        display_size: [FloatBits; 2],
        framebuffer_scale: [FloatBits; 2],
        lists: Vec<DrawList>,
    ) -> (frame: Option<FrameDrawData>)
        ensures
            frame is Some <==> (FrameView {
                display_pos,
                display_size,
                framebuffer_scale,
                lists: list_views(lists@),
            }).drawable(),
            frame is Some ==> frame->0.wf(),
            frame is Some ==> frame->0@ == (FrameView {
                display_pos,
                display_size,
                framebuffer_scale,
                lists: list_views(lists@),
            }),
    {
        let ghost views = list_views(lists@);
        let mut vertices: usize = 0;
        let mut indices: usize = 0;
        let mut elements: usize = 0;
        let mut i: usize = 0;
        while i < lists.len()
            invariant
                i <= lists.len(),
                views == list_views(lists@),
                vertices == vertices_before(views, i as int),
                indices == indices_before(views, i as int),
                elements == elements_before(views, i as int),
                vertices <= MAX_COUNT,
                indices <= MAX_COUNT,
                elements <= MAX_COUNT,
            decreases lists.len() - i,
        {
            let list = &lists[i];
            assert(views[i as int] == list@);
            proof {
                lemma_vertices_monotonic(views, i + 1, views.len() as int);
                lemma_indices_monotonic(views, i + 1, views.len() as int);
                lemma_elements_monotonic(views, i + 1, views.len() as int);
            }
            if list.vertices.len() > MAX_COUNT - vertices {
                return None;
            }
            if list.indices.len() > MAX_COUNT - indices {
                return None;
            }
            let drawn = match count_elements(&list.commands) {
                Some(drawn) => drawn,
                None => {
                    return None;
                },
            };
            if drawn > MAX_COUNT - elements {
                return None;
            }
            vertices = vertices + list.vertices.len();
            indices = indices + list.indices.len();
            elements = elements + drawn;
            i = i + 1;
        }
        Some(
            FrameDrawData {
                display_pos,
                display_size,
                framebuffer_scale,
                lists,
                total_vtx_count: vertices,
                total_idx_count: indices,
            },
        )
    }

    /// The upper left corner of what the frame shows.
    pub fn display_pos(&self) -> (pos: [FloatBits; 2])
        ensures
            pos == self@.display_pos,
    {
        self.display_pos
    }

    /// The size of what the frame shows.
    pub fn display_size(&self) -> (size: [FloatBits; 2])
        ensures
            size == self@.display_size,
    {
        self.display_size
    }

    /// The number of pixels for each unit of the display size.
    pub fn framebuffer_scale(&self) -> (scale: [FloatBits; 2])
        ensures
            scale == self@.framebuffer_scale,
    {
        self.framebuffer_scale
    }

    /// The draw lists, in order.
    pub fn draw_lists(&self) -> (lists: &Vec<DrawList>)
        ensures
            list_views(lists@) == self@.lists,
            self.wf(),
            self@.drawable(),
    {
        proof {
            use_type_invariant(self);
        }
        &self.lists
    }

    /// The vertices of all draw lists together.
    pub fn total_vtx_count(&self) -> (count: usize)
        ensures
            count == self@.total_vtx_count(),
            count <= MAX_COUNT,
    {
        proof {
            use_type_invariant(self);
        }
        self.total_vtx_count
    }

    /// The indices of all draw lists together.
    pub fn total_idx_count(&self) -> (count: usize)
        ensures
            count == self@.total_idx_count(),
            count <= MAX_COUNT,
    {
        proof {
            use_type_invariant(self);
        }
        self.total_idx_count
    }

    /// Whether one of the display's dimensions is below zero.
    pub fn is_collapsed(&self) -> (collapsed: bool)
        ensures
            collapsed == self@.collapsed(),
    {
        self.display_size[0].is_negative() || self.display_size[1].is_negative()
    }
}

} // verus!
