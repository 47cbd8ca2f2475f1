//! How a mesh's arrays are laid out in GPU buffers.
//!
//! The vertex buffer holds every position component followed by every normal
//! component; the index buffer holds the triangle indices as 32-bit unsigned
//! integers.
use vstd::prelude::*;

verus! {

/// Bytes in one vertex component (a single-precision number).
pub const COMPONENT_BYTES: usize = 4;

/// Bytes in one index (an unsigned 32-bit integer).
pub const INDEX_BYTES: usize = 4;

/// Components in one position or one normal.
pub const COMPONENTS_PER_VERTEX: i32 = 3;

/// The attribute slot the vertex shader reads positions from.
pub const POSITION_LOCATION: u32 = 0;

/// The attribute slot the vertex shader reads normals from.
pub const NORMAL_LOCATION: u32 = 1;

/// Where one vertex attribute is found in the vertex buffer.
#[derive(Debug, Clone, Copy, PartialEq, Eq, Structural)]
pub struct AttributeLayout {
    /// The shader's attribute slot.
    pub location: u32,
    /// Components per vertex.
    pub components: i32,
    /// Bytes from one vertex's attribute to the next one's.
    pub stride: i32,
    /// Bytes from the start of the buffer to the first vertex's attribute.
    pub offset: usize,
}

/// Sizes and attribute pointers for uploading one mesh.
#[derive(Debug, Clone, Copy, PartialEq, Eq, Structural)]
pub struct MeshLayout {
    /// Bytes in the vertex buffer.
    pub vertex_bytes: isize,
    /// Bytes in the index buffer.
    pub index_bytes: isize,
    /// Where positions are read from.
    pub position: AttributeLayout,
    /// Where normals are read from.
    pub normal: AttributeLayout,
}

/// The layout of a mesh with the given numbers of position components,
/// normal components and indices, as ints.
pub open spec fn spec_mesh_layout(positions: int, normals: int, indices: int) -> MeshLayout {
    MeshLayout {
        vertex_bytes: ((positions + normals) * COMPONENT_BYTES) as isize,
        index_bytes: (indices * INDEX_BYTES) as isize,
        position: AttributeLayout {
            location: POSITION_LOCATION,
            components: COMPONENTS_PER_VERTEX,
            stride: (COMPONENTS_PER_VERTEX * COMPONENT_BYTES) as i32,
            offset: 0,
        },
        normal: AttributeLayout {
            location: NORMAL_LOCATION,
            components: COMPONENTS_PER_VERTEX,
            stride: (COMPONENTS_PER_VERTEX * COMPONENT_BYTES) as i32,
            offset: (positions * COMPONENT_BYTES) as usize,
        },
    }
}

/// Whether buffers of that many components and indices can be described to
/// the driver, whose sizes are signed.
pub open spec fn layout_fits(positions: int, normals: int, indices: int) -> bool {
    &&& (positions + normals) * COMPONENT_BYTES <= isize::MAX
    &&& indices * INDEX_BYTES <= isize::MAX
}

/// Whether every vertex has a whole position and a normal of its own: as
/// many normal components as position components, three to a vertex.
pub open spec fn attributes_match(positions: int, normals: int) -> bool {
    positions == normals && positions % COMPONENTS_PER_VERTEX as int == 0
}

/// Computes the buffer sizes and attribute pointers for a mesh with
/// `positions` position components, `normals` normal components and
/// `indices` indices. `None` where the normals do not match the positions
/// one vertex to one (so that an attribute would be read past the end of the
/// vertex buffer), or where a buffer size would not fit in `isize`.
pub fn mesh_layout(positions: usize, normals: usize, indices: usize) -> (r: Option<MeshLayout>)
    ensures
        r is Some <==> attributes_match(positions as int, normals as int) && layout_fits(
            positions as int,
            normals as int,
            indices as int,
        ),
        r matches Some(layout) ==> layout == spec_mesh_layout(
            positions as int,
            normals as int,
            indices as int,
        ),
{
    if positions != normals || positions % (COMPONENTS_PER_VERTEX as usize) != 0 {
        return None;
    }
    let components = match positions.checked_add(normals) {
        Some(n) => n,
        None => return None,
    };
    let vertex_bytes = match components.checked_mul(COMPONENT_BYTES) {
        Some(n) => n,
        None => return None,
    };
    let index_bytes = match indices.checked_mul(INDEX_BYTES) {
        Some(n) => n,
        None => return None,
    };
    if vertex_bytes > isize::MAX as usize || index_bytes > isize::MAX as usize {
        return None;
    }
    let stride: i32 = COMPONENTS_PER_VERTEX * (COMPONENT_BYTES as i32);
    Some(
        MeshLayout {
            vertex_bytes: vertex_bytes as isize,
            index_bytes: index_bytes as isize,
            position: AttributeLayout {
                location: POSITION_LOCATION,
                components: COMPONENTS_PER_VERTEX,
                stride,
                offset: 0,
            },
            normal: AttributeLayout {
                location: NORMAL_LOCATION,
                components: COMPONENTS_PER_VERTEX,
                stride,
                // no overflow: positions <= positions + normals
                offset: positions * COMPONENT_BYTES,
            },
        },
    )
}

/// Joins a mesh's position components and normal components into the
/// contents of its vertex buffer: all positions first, then all normals.
pub fn vertex_data<T>(positions: Vec<T>, normals: Vec<T>) -> (r: Vec<T>)
    ensures
        r@ == positions@ + normals@,
{
    let mut data = positions;
    let mut rest = normals;
    data.append(&mut rest);
    data
}

} // verus!
