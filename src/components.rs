use vstd::prelude::*;

verus! {

/// Bit pattern of the single-precision value `1.0`.
pub const ONE_F32_BITS: u32 = 0x3f80_0000;

/// Position of a flat node; `x` and `y` are `f32` bit patterns.
#[derive(Copy, Clone, Debug, PartialEq, Eq, Structural)]
pub struct Position2D {
    pub x: u32,
    pub y: u32,
}

impl Default for Position2D {
    fn default() -> (r: Self)
        ensures
            r.x == 0 && r.y == 0,
    {
        Position2D { x: 0, y: 0 }
    }
}

/// Drawing order of a flat node, absolute or relative to its parent.
#[derive(Copy, Clone, Debug, PartialEq, Eq, Structural)]
pub struct ZIndex {
    pub value: i64,
    pub is_relative: bool,
}

impl Default for ZIndex {
    fn default() -> (r: Self)
        ensures
            r.value == 0 && !r.is_relative,
    {
        ZIndex { value: 0, is_relative: false }
    }
}

/// Scale of a flat node; `x` and `y` are `f32` bit patterns.
#[derive(Copy, Clone, Debug, PartialEq, Eq, Structural)]
pub struct Scale2D {
    pub x: u32,
    pub y: u32,
}

impl Default for Scale2D {
    fn default() -> (r: Self)
        ensures
            r.x == ONE_F32_BITS && r.y == ONE_F32_BITS,
    {
        Scale2D { x: ONE_F32_BITS, y: ONE_F32_BITS }
    }
}

/// Rotation of a flat node in radians, as an `f64` bit pattern.
#[derive(Copy, Clone, Debug, PartialEq, Eq, Structural)]
pub struct Rotation2D(pub u64);

impl Default for Rotation2D {
    fn default() -> (r: Self)
        ensures
            r.0 == 0,
    {
        Rotation2D(0)
    }
}

/// Position of a volumetric node; the coordinates are `f32` bit patterns.
#[derive(Copy, Clone, Debug, PartialEq, Eq, Structural)]
pub struct Position3D {
    pub x: u32,
    pub y: u32,
    pub z: u32,
}

impl Default for Position3D {
    fn default() -> (r: Self)
        ensures
            r.x == 0 && r.y == 0 && r.z == 0,
    {
        Position3D { x: 0, y: 0, z: 0 }
    }
}

/// Scale of a volumetric node; the factors are `f32` bit patterns.
#[derive(Copy, Clone, Debug, PartialEq, Eq, Structural)]
pub struct Scale3D {
    pub x: u32,
    pub y: u32,
    pub z: u32,
}

impl Default for Scale3D {
    fn default() -> (r: Self)
        ensures
            r.x == ONE_F32_BITS && r.y == ONE_F32_BITS && r.z == ONE_F32_BITS,
    {
        Scale3D { x: ONE_F32_BITS, y: ONE_F32_BITS, z: ONE_F32_BITS }
    }
}

/// Euler rotation of a volumetric node in radians; `f32` bit patterns.
#[derive(Copy, Clone, Debug, PartialEq, Eq, Structural)]
pub struct Rotation3D {
    pub x: u32,
    pub y: u32,
    pub z: u32,
}

impl Default for Rotation3D {
    fn default() -> (r: Self)
        ensures
            r.x == 0 && r.y == 0 && r.z == 0,
    {
        Rotation3D { x: 0, y: 0, z: 0 }
    }
}

/// The two kinds of host node a template may ask for.
#[derive(Copy, Clone, Debug, PartialEq, Eq, Structural)]
pub enum NodeType {
    Node2D,
    Spatial,
}

/// A request to instance a scene file whose root is of kind `node_type`.
#[derive(Clone, Debug)]
pub struct NodeTemplate {
    pub node_type: NodeType,
    pub scene_file: String,
}

/// Which of the bridge's components an entity carries.
#[derive(Copy, Clone, Debug, PartialEq, Eq, Structural)]
pub struct EntityComponents {
    pub has_template: bool,
    pub has_node_2d: bool,
    pub has_node_spatial: bool,
}

impl EntityComponents {
    /// At most one node handle: a flat one or a volumetric one, never both.
    pub open spec fn wf(self) -> bool {
        !(self.has_node_2d && self.has_node_spatial)
    }

    /// The handle presence that matches a node of kind `t`.
    pub open spec fn holds_node_of(self, t: NodeType) -> bool {
        match t {
            NodeType::Node2D => self.has_node_2d && !self.has_node_spatial,
            NodeType::Spatial => self.has_node_spatial && !self.has_node_2d,
        }
    }
}

} // verus!
