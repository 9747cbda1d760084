//! The output of one tessellation: vertices, and indices that name them three
//! by three.
//!
//! The width of the indices is chosen when the output is made and stays. It
//! bounds the number of vertices: one more than fits is refused, and nothing
//! is ever wrapped or cut to make it fit.

use vstd::prelude::*;
use crate::vertex::Vertex;

verus! {

/// The width of the indices of a mesh.
#[derive(Clone, Copy, Debug, PartialEq, Eq, Structural)]
pub enum IndexWidth {
    Sixteen,
    ThirtyTwo,
}

impl IndexWidth {
    /// The largest number of vertices that a mesh with indices of this width
    /// may have: the largest value of an index.
    pub open spec fn capacity(self) -> nat {
        match self {
            IndexWidth::Sixteen => 65_535,
            IndexWidth::ThirtyTwo => 4_294_967_295,
        }
    }

    /// Whether a mesh of `count` vertices fits indices of this width.
    pub open spec fn holds(self, count: nat) -> bool {
        count <= self.capacity()
    }

    /// Computes `capacity`.
    pub fn max_vertices(self) -> (r: u32)
        ensures
            r == self.capacity(),
    {
        match self {
            IndexWidth::Sixteen => 65_535,
            IndexWidth::ThirtyTwo => 4_294_967_295,
        }
    }
}

/// Why a vertex or a triangle was refused.
#[derive(Clone, Copy, Debug, PartialEq, Eq, Structural)]
pub enum GeometryBuilderError {
    /// A triangle named a vertex that the current geometry does not have.
    InvalidVertex,
    /// One more vertex would not fit the width of the indices.
    TooManyVertices,
}

impl GeometryBuilderError {
    /// The error in words.
    pub fn message(self) -> (r: String)
        ensures
            self is InvalidVertex ==> r@ == "Invalid vertex"@,
            self is TooManyVertices ==> r@ == "Too many vertices"@,
    {
        match self {
            GeometryBuilderError::InvalidVertex => "Invalid vertex".to_owned(),
            GeometryBuilderError::TooManyVertices => "Too many vertices".to_owned(),
        }
    }
}

/// What a `GeometryOutput` holds.
#[verifier::ext_equal]
pub struct Geometry {
    /// The width of the indices.
    pub width: IndexWidth,
    /// The vertices, in the order in which they were added.
    pub vertices: Seq<Vertex>,
    /// The indices, three for each triangle.
    pub indices: Seq<u32>,
    /// The number of vertices that were there when the current geometry began.
    pub first_vertex: nat,
    /// The number of indices that were there when the current geometry began.
    pub first_index: nat,
}

impl Geometry {
    /// Whether the mesh can be drawn as it stands: the vertices fit the width
    /// of the indices, the indices come in threes, each names a vertex, and
    /// what was there before the current geometry began is a mesh of its own.
    pub open spec fn sound(self) -> bool {
        &&& self.width.holds(self.vertices.len())
        &&& self.indices.len() % 3 == 0
        &&& self.first_vertex <= self.vertices.len()
        &&& self.first_index <= self.indices.len()
        &&& self.first_index % 3 == 0
        &&& forall|i: int| 0 <= i < self.indices.len() ==> #[trigger] self.indices[i] < self.vertices.len()
        &&& forall|i: int| 0 <= i < self.first_index ==> #[trigger] self.indices[i] < self.first_vertex
    }

    /// Whether `id` names a vertex of the current geometry.
    pub open spec fn names_vertex(self, id: u32) -> bool {
        self.first_vertex <= id < self.vertices.len()
    }

    /// The number of triangles.
    pub open spec fn triangles(self) -> nat {
        self.indices.len() / 3
    }
}

/// The vertex and index buffers of one tessellation. The mesh it holds is
/// sound at every moment.
#[derive(Debug)]
pub struct GeometryOutput {
    width: IndexWidth,
    vertices: Vec<Vertex>,
    indices: Vec<u32>,
    first_vertex: usize,
    first_index: usize,
}

impl View for GeometryOutput {
    type V = Geometry;

    closed spec fn view(&self) -> Geometry {
        Geometry {
            width: self.width,
            vertices: self.vertices@,
            indices: self.indices@,
            first_vertex: self.first_vertex as nat,
            first_index: self.first_index as nat,
        }
    }
}

impl GeometryOutput {
    #[verifier::type_invariant]
    spec fn inv(self) -> bool {
        self@.sound()
    }

    /// An empty output for indices of the given width.
    pub fn new(width: IndexWidth) -> (r: GeometryOutput)
        ensures
            r@ == (Geometry {
                width,
                vertices: Seq::empty(),
                indices: Seq::empty(),
                first_vertex: 0,
                first_index: 0,
            }),
            r@.sound(),
    {
        GeometryOutput {
            width,
            vertices: Vec::new(),
            indices: Vec::new(),
            first_vertex: 0,
            first_index: 0,
        }
    }

    /// The width of the indices.
    pub fn index_width(&self) -> (r: IndexWidth)
        ensures
            r == self@.width,
    {
        self.width
    }

    /// The number of vertices. It fits the width of the indices, and the
    /// mesh is sound.
    pub fn vertex_count(&self) -> (r: u32)
        ensures
            r == self@.vertices.len(),
            self@.sound(),
    {
        proof {
            use_type_invariant(self);
        }
        let n: usize = self.vertices.len();
        n as u32
    }

    /// The number of indices, three for each triangle.
    pub fn index_count(&self) -> (r: usize)
        ensures
            r == self@.indices.len(),
            r % 3 == 0,
    {
        proof {
            use_type_invariant(self);
        }
        self.indices.len()
    }

    /// The number of triangles.
    pub fn triangle_count(&self) -> (r: usize)
        ensures
            r == self@.triangles(),
    {
        self.indices.len() / 3
    }

    /// The vertex with the given number.
    pub fn vertex(&self, id: u32) -> (r: Vertex)
        requires
            id < self@.vertices.len(),
        ensures
            r == self@.vertices[id as int],
    {
        self.vertices[id as usize]
    }

    /// The index at the given place. It names a vertex.
    pub fn index(&self, at: usize) -> (r: u32)
        requires
            at < self@.indices.len(),
        ensures
            r == self@.indices[at as int],
            r < self@.vertices.len(),
    {
        proof {
            use_type_invariant(self);
        }
        self.indices[at]
    }

    /// The indices as sixteen-bit numbers, if that is the width of the
    /// indices. Each index keeps its value.
    pub fn narrow_indices(&self) -> (r: Option<Vec<u16>>)
        ensures
            r is Some <==> self@.width is Sixteen,
            r matches Some(narrow) ==> narrow@.len() == self@.indices.len() && forall|i: int|
                0 <= i < narrow@.len() ==> #[trigger] narrow@[i] == self@.indices[i],
    {
        proof {
            use_type_invariant(self);
        }
        match self.width {
            IndexWidth::ThirtyTwo => None,
            IndexWidth::Sixteen => {
                let n: usize = self.indices.len();
                let mut narrow: Vec<u16> = Vec::new();
                let mut i: usize = 0;
                while i < n
                    invariant
                        n == self.indices@.len(),
                        i <= n,
                        narrow@.len() == i,
                        self.vertices@.len() <= 65_535,
                        forall|j: int|
                            0 <= j < n ==> #[trigger] self.indices@[j] < self.vertices@.len(),
                        forall|j: int| 0 <= j < i ==> #[trigger] narrow@[j] == self.indices@[j],
                    decreases n - i,
                {
                    let index: u32 = self.indices[i];
                    narrow.push(index as u16);
                    i = i + 1;
                }
                Some(narrow)
            },
        }
    }

    /// Begins a geometry: what is added from now on is what `abort_geometry`
    /// takes away again.
    pub fn begin_geometry(&mut self)
        ensures
            final(self)@ == (Geometry {
                first_vertex: old(self)@.vertices.len(),
                first_index: old(self)@.indices.len(),
                ..old(self)@
            }),
            final(self)@.sound(),
    {
        proof {
            use_type_invariant(&*self);
        }
        let mut taken: GeometryOutput = GeometryOutput::new(self.width);
        std::mem::swap(self, &mut taken);
        let GeometryOutput { width, vertices, indices, first_vertex, first_index } = taken;
        let first_vertex: usize = vertices.len();
        let first_index: usize = indices.len();
        *self = GeometryOutput { width, vertices, indices, first_vertex, first_index };
    }

    /// Adds a vertex and returns its number, which is the number of vertices
    /// that were there before. If the vertex would be one more than the width
    /// of the indices allows, it is refused and nothing changes.
    pub fn add_vertex(&mut self, vertex: Vertex) -> (r: Result<u32, GeometryBuilderError>)
        ensures
            old(self)@.vertices.len() < old(self)@.width.capacity() ==> r == Ok::<
                u32,
                GeometryBuilderError,
            >(old(self)@.vertices.len() as u32) && final(self)@ == (Geometry {
                vertices: old(self)@.vertices.push(vertex),
                ..old(self)@
            }),
            old(self)@.vertices.len() >= old(self)@.width.capacity() ==> r == Err::<
                u32,
                GeometryBuilderError,
            >(GeometryBuilderError::TooManyVertices) && final(self)@ == old(self)@,
            final(self)@.sound(),
    {
        proof {
            use_type_invariant(&*self);
        }
        let count: usize = self.vertices.len();
        if count >= self.width.max_vertices() as usize {
            return Err(GeometryBuilderError::TooManyVertices);
        }
        let mut taken: GeometryOutput = GeometryOutput::new(self.width);
        std::mem::swap(self, &mut taken);
        let GeometryOutput { width, vertices, indices, first_vertex, first_index } = taken;
        let mut vertices: Vec<Vertex> = vertices;
        vertices.push(vertex);
        *self = GeometryOutput { width, vertices, indices, first_vertex, first_index };
        Ok(count as u32)
    }

    /// Adds the triangle with corners `a`, `b` and `c`. Each of them has to
    /// name a vertex that was added since the geometry began; otherwise the
    /// triangle is refused and nothing changes.
    pub fn add_triangle(&mut self, a: u32, b: u32, c: u32) -> (r: Result<(), GeometryBuilderError>)
        ensures
            old(self)@.names_vertex(a) && old(self)@.names_vertex(b) && old(self)@.names_vertex(c)
                ==> r == Ok::<(), GeometryBuilderError>(()) && final(self)@ == (Geometry {
                indices: old(self)@.indices + seq![a, b, c],
                ..old(self)@
            }),
            !(old(self)@.names_vertex(a) && old(self)@.names_vertex(b) && old(self)@.names_vertex(
                c,
            )) ==> r == Err::<(), GeometryBuilderError>(GeometryBuilderError::InvalidVertex)
                && final(self)@ == old(self)@,
            final(self)@.sound(),
    {
        proof {
            use_type_invariant(&*self);
        }
        if !(self.holds_vertex(a) && self.holds_vertex(b) && self.holds_vertex(c)) {
            return Err(GeometryBuilderError::InvalidVertex);
        }
        let mut taken: GeometryOutput = GeometryOutput::new(self.width);
        std::mem::swap(self, &mut taken);
        let GeometryOutput { width, vertices, indices, first_vertex, first_index } = taken;
        let mut indices: Vec<u32> = indices;
        let ghost before = indices@;
        indices.push(a);
        indices.push(b);
        indices.push(c);
        proof {
            assert(indices@ =~= before + seq![a, b, c]);
        }
        *self = GeometryOutput { width, vertices, indices, first_vertex, first_index };
        Ok(())
    }

    /// Whether `id` names a vertex of the current geometry.
    pub fn holds_vertex(&self, id: u32) -> (r: bool)
        ensures
            r == self@.names_vertex(id),
    {
        self.first_vertex <= id as usize && (id as usize) < self.vertices.len()
    }

    /// Gives up the current geometry: takes away every vertex and every index
    /// that was added since it began.
    pub fn abort_geometry(&mut self)
        ensures
            final(self)@ == (Geometry {
                vertices: old(self)@.vertices.take(old(self)@.first_vertex as int),
                indices: old(self)@.indices.take(old(self)@.first_index as int),
                ..old(self)@
            }),
            final(self)@.sound(),
    {
        proof {
            use_type_invariant(&*self);
        }
        let mut taken: GeometryOutput = GeometryOutput::new(self.width);
        std::mem::swap(self, &mut taken);
        let GeometryOutput { width, vertices, indices, first_vertex, first_index } = taken;
        let mut vertices: Vec<Vertex> = vertices;
        let mut indices: Vec<u32> = indices;
        vertices.truncate(first_vertex);
        indices.truncate(first_index);
        *self = GeometryOutput { width, vertices, indices, first_vertex, first_index };
    }
}

/// A mesh of more than 65,535 vertices does not fit sixteen-bit indices, and
/// fits thirty-two-bit ones as long as it has no more than 4,294,967,295.
pub proof fn law_wide_indices_hold_what_narrow_ones_refuse(count: nat)
    requires
        65_535 < count <= 4_294_967_295,
    ensures
        !IndexWidth::Sixteen.holds(count),
        IndexWidth::ThirtyTwo.holds(count),
{
}

} // verus!
