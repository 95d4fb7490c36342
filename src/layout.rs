use vstd::prelude::*;

verus! {

/// Bytes taken by one single-precision component of a vertex attribute.
pub const COMPONENT_BYTES: usize = 4;

/// Components of a vertex position (x, y).
pub const POSITION_COMPONENTS: usize = 2;

/// Components of a vertex color (red, green, blue, alpha).
pub const COLOR_COMPONENTS: usize = 4;

/// Components of one vertex record: its position followed by its color.
pub const VERTEX_COMPONENTS: usize = POSITION_COMPONENTS + COLOR_COMPONENTS;

/// Vertices of the single triangle that is drawn.
pub const TRIANGLE_VERTICES: usize = 3;

/// Byte distance between the starts of two consecutive vertex records.
pub open spec fn spec_stride() -> int {
    (POSITION_COMPONENTS + COLOR_COMPONENTS) * COMPONENT_BYTES
}

/// Where one vertex attribute lies inside a vertex record.
#[derive(Clone, Copy, Debug, PartialEq, Eq, Structural)]
pub struct AttributeLayout {
    /// Number of single-precision components the attribute reads.
    pub components: usize,
    /// Byte offset of the attribute from the start of the record.
    pub offset: usize,
    /// Byte distance between two consecutive records.
    pub stride: usize,
}

/// Byte distance between the starts of two consecutive vertex records.
pub fn stride() -> (r: usize)
    ensures
        r == spec_stride(),
        r == 24,
{
    VERTEX_COMPONENTS * COMPONENT_BYTES
}

/// The position attribute: the first two components of each record.
pub fn position_attribute() -> (r: AttributeLayout)
    ensures
        r.components == POSITION_COMPONENTS,
        r.offset == 0,
        r.stride == spec_stride(),
{
    AttributeLayout { components: POSITION_COMPONENTS, offset: 0, stride: stride() }
}

/// The color attribute: the four components that follow the position.
pub fn color_attribute() -> (r: AttributeLayout)
    ensures
        r.components == COLOR_COMPONENTS,
        r.offset == POSITION_COMPONENTS * COMPONENT_BYTES,
        r.offset == 8,
        r.stride == spec_stride(),
{
    AttributeLayout {
        components: COLOR_COMPONENTS,
        offset: POSITION_COMPONENTS * COMPONENT_BYTES,
        stride: stride(),
    }
}

/// Bytes of a buffer that holds `vertices` consecutive vertex records,
/// or `None` where that size does not fit in a `usize`.
pub fn buffer_bytes(vertices: usize) -> (r: Option<usize>)
    ensures
        vertices * spec_stride() <= usize::MAX ==> r == Some((vertices * spec_stride()) as usize),
        vertices * spec_stride() > usize::MAX ==> r is None,
{
    let s = stride();
    if vertices <= usize::MAX / s {
        assert(vertices * s <= usize::MAX) by (nonlinear_arith)
            requires
                vertices <= usize::MAX / s,
                s > 0,
        ;
        Some(vertices * s)
    } else {
        assert(vertices * s > usize::MAX) by (nonlinear_arith)
            requires
                vertices > usize::MAX / s,
                s > 0,
        ;
        None
    }
}

} // verus!
