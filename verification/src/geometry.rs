//! The geometry of a frame, as it is written into the device's buffers.
//!
//! The vertices of all draw lists are written one list after the other, each
//! converted to the device's format; the indices likewise, as they are.

use crate::draw_data::{
    indices_before, list_views, vertices_before, DrawListView, FrameDrawData, FrameView,
};
use crate::vertex::{device_vertex, CustomVertex, DrawIdx, DrawVert};
use vstd::prelude::*;

verus! {

/// The vertices of a list in the device's format.
pub open spec fn converted(vertices: Seq<DrawVert>) -> Seq<CustomVertex> {
    Seq::new(vertices.len(), |i: int| device_vertex(vertices[i]))
}

/// The device vertices of the first `n` lists, in order.
pub open spec fn vertices_of(lists: Seq<DrawListView>, n: int) -> Seq<CustomVertex>
    decreases n,
{
    if n <= 0 {
        Seq::empty()
    } else {
        vertices_of(lists, n - 1) + converted(lists[n - 1].vertices)
    }
}

/// The indices of the first `n` lists, in order.
pub open spec fn indices_of(lists: Seq<DrawListView>, n: int) -> Seq<DrawIdx>
    decreases n,
{
    if n <= 0 {
        Seq::empty()
    } else {
        indices_of(lists, n - 1) + lists[n - 1].indices
    }
}

impl FrameView {
    /// What is written into the vertex buffer.
    pub open spec fn device_vertices(self) -> Seq<CustomVertex> {
        vertices_of(self.lists, self.lists.len() as int)
    }

    /// What is written into the index buffer.
    pub open spec fn device_indices(self) -> Seq<DrawIdx> {
        indices_of(self.lists, self.lists.len() as int)
    }
}

/// The vertices of the first `n` lists are as many as the lists hold, and
/// vertex `i` of list `list` stands where the vertices of the lists before
/// it end, `i` places on, converted.
pub proof fn lemma_vertices_in_place(lists: Seq<DrawListView>, n: int, list: int, i: int)
    requires
        0 <= list < n,
        0 <= i < lists[list].vertices.len(),
    ensures
        vertices_of(lists, n).len() == vertices_before(lists, n),
        vertices_before(lists, list) + i < vertices_before(lists, n),
        vertices_of(lists, n)[vertices_before(lists, list) + i] == device_vertex(
            lists[list].vertices[i],
        ),
    decreases n,
{
    lemma_vertices_len(lists, n - 1);
    if list < n - 1 {
        lemma_vertices_in_place(lists, n - 1, list, i);
    }
}

/// The vertices of the first `n` lists are as many as the lists hold.
pub proof fn lemma_vertices_len(lists: Seq<DrawListView>, n: int)
    ensures
        vertices_of(lists, n).len() == vertices_before(lists, n),
    decreases n,
{
    if n > 0 {
        lemma_vertices_len(lists, n - 1);
    }
}

/// The indices of the first `n` lists are as many as the lists hold.
pub proof fn lemma_indices_len(lists: Seq<DrawListView>, n: int)
    ensures
        indices_of(lists, n).len() == indices_before(lists, n),
    decreases n,
{
    if n > 0 {
        lemma_indices_len(lists, n - 1);
    }
}

/// Index `i` of list `list` stands where the indices of the lists before it
/// end, `i` places on, unchanged.
pub proof fn lemma_indices_in_place(lists: Seq<DrawListView>, n: int, list: int, i: int)
    requires
        0 <= list < n,
        0 <= i < lists[list].indices.len(),
    ensures
        indices_of(lists, n).len() == indices_before(lists, n),
        indices_before(lists, list) + i < indices_before(lists, n),
        indices_of(lists, n)[indices_before(lists, list) + i] == lists[list].indices[i],
    decreases n,
{
    lemma_indices_len(lists, n - 1);
    if list < n - 1 {
        lemma_indices_in_place(lists, n - 1, list, i);
    }
}

impl FrameDrawData {
    /// The frame's vertices as the vertex buffer takes them: as many as the
    /// frame counts, list after list, each in the device's format.
    pub fn device_vertices(&self) -> (vertices: Vec<CustomVertex>)
        ensures
            vertices@ == self@.device_vertices(),
            vertices@.len() == self@.total_vtx_count(),
    {
        let lists = self.draw_lists();
        let ghost views = self@.lists;
        let mut vertices: Vec<CustomVertex> = Vec::new();
        let mut l: usize = 0;
        while l < lists.len()
            invariant
                l <= lists.len(),
                views == list_views(lists@),
                vertices@ == vertices_of(views, l as int),
            decreases lists.len() - l,
        {
            let list = &lists[l];
            let ghost done = vertices@;
            assert(views[l as int] == list@);
            let mut i: usize = 0;
            while i < list.vertices.len()
                invariant
                    i <= list.vertices.len(),
                    vertices@ == done + converted(list.vertices@).subrange(0, i as int),
                decreases list.vertices.len() - i,
            {
                vertices.push(CustomVertex::from_draw_vert(&list.vertices[i]));
                i = i + 1;
            }
            assert(converted(list.vertices@).subrange(0, i as int) == converted(list.vertices@));
            l = l + 1;
        }
        proof {
            lemma_vertices_len(views, views.len() as int);
        }
        vertices
    }

    /// The frame's indices as the index buffer takes them: as many as the
    /// frame counts, list after list, unchanged.
    pub fn device_indices(&self) -> (indices: Vec<DrawIdx>)
        ensures
            indices@ == self@.device_indices(),
            indices@.len() == self@.total_idx_count(),
    {
        let lists = self.draw_lists();
        let ghost views = self@.lists;
        let mut indices: Vec<DrawIdx> = Vec::new();
        let mut l: usize = 0;
        while l < lists.len()
            invariant
                l <= lists.len(),
                views == list_views(lists@),
                indices@ == indices_of(views, l as int),
            decreases lists.len() - l,
        {
            let list = &lists[l];
            let ghost done = indices@;
            assert(views[l as int] == list@);
            let mut i: usize = 0;
            while i < list.indices.len()
                invariant
                    i <= list.indices.len(),
                    indices@ == done + list.indices@.subrange(0, i as int),
                decreases list.indices.len() - i,
            {
                indices.push(list.indices[i]);
                i = i + 1;
            }
            assert(list.indices@.subrange(0, i as int) == list.indices@);
            l = l + 1;
        }
        proof {
            lemma_indices_len(views, views.len() as int);
        }
        indices
    }
}

} // verus!
