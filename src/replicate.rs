use vstd::prelude::*;

use crate::components::{ONE_F32_BITS, Position2D, Position3D, Rotation2D, Rotation3D, Scale2D, Scale3D, ZIndex};

verus! {

/// A setter call on a flat host node; values are bit patterns as in the components.
#[derive(Copy, Clone, Debug, PartialEq, Eq, Structural)]
pub enum Setter2D {
    SetPosition(u32, u32),
    SetZIndex(i64),
    SetZAsRelative(bool),
    SetScale(u32, u32),
    SetRotation(u64),
}

/// A setter call on a volumetric host node.
#[derive(Copy, Clone, Debug, PartialEq, Eq, Structural)]
pub enum Setter3D {
    SetTranslation(u32, u32, u32),
    SetScale(u32, u32, u32),
    SetRotation(u32, u32, u32),
}

/// The transform state of a flat host node that the setters change.
#[derive(Copy, Clone, Debug, PartialEq, Eq, Structural)]
pub struct NodeState2D {
    pub position: Position2D,
    pub z_index: i64,
    pub z_as_relative: bool,
    pub scale: Scale2D,
    pub rotation: Rotation2D,
}

/// The transform state of a volumetric host node that the setters change.
#[derive(Copy, Clone, Debug, PartialEq, Eq, Structural)]
pub struct NodeState3D {
    pub translation: Position3D,
    pub scale: Scale3D,
    pub rotation: Rotation3D,
}

pub open spec fn position_2d_setters(p: Option<Position2D>) -> Seq<Setter2D> {
    match p {
        Some(p) => seq![Setter2D::SetPosition(p.x, p.y)],
        None => Seq::empty(),
    }
}

pub open spec fn z_index_setters(z: Option<ZIndex>) -> Seq<Setter2D> {
    match z {
        Some(z) => seq![Setter2D::SetZIndex(z.value), Setter2D::SetZAsRelative(z.is_relative)],
        None => Seq::empty(),
    }
}

pub open spec fn scale_2d_setters(s: Option<Scale2D>) -> Seq<Setter2D> {
    match s {
        Some(s) => seq![Setter2D::SetScale(s.x, s.y)],
        None => Seq::empty(),
    }
}

pub open spec fn rotation_2d_setters(r: Option<Rotation2D>) -> Seq<Setter2D> {
    match r {
        Some(r) => seq![Setter2D::SetRotation(r.0)],
        None => Seq::empty(),
    }
}

/// The calls that replicate the flat components an entity has, in order:
/// position, z-index then its relative flag, scale, rotation.
pub open spec fn setters_2d(
    p: Option<Position2D>,
    z: Option<ZIndex>,
    s: Option<Scale2D>,
    r: Option<Rotation2D>,
) -> Seq<Setter2D> {
    position_2d_setters(p) + z_index_setters(z) + scale_2d_setters(s) + rotation_2d_setters(r)
}

pub open spec fn position_3d_setters(p: Option<Position3D>) -> Seq<Setter3D> {
    match p {
        Some(p) => seq![Setter3D::SetTranslation(p.x, p.y, p.z)],
        None => Seq::empty(),
    }
}

pub open spec fn scale_3d_setters(s: Option<Scale3D>) -> Seq<Setter3D> {
    match s {
        Some(s) => seq![Setter3D::SetScale(s.x, s.y, s.z)],
        None => Seq::empty(),
    }
}

pub open spec fn rotation_3d_setters(r: Option<Rotation3D>) -> Seq<Setter3D> {
    match r {
        Some(r) => seq![Setter3D::SetRotation(r.x, r.y, r.z)],
        None => Seq::empty(),
    }
}

/// The calls that replicate the volumetric components an entity has, in
/// order: translation, scale, rotation.
pub open spec fn setters_3d(
    p: Option<Position3D>,
    s: Option<Scale3D>,
    r: Option<Rotation3D>,
) -> Seq<Setter3D> {
    position_3d_setters(p) + scale_3d_setters(s) + rotation_3d_setters(r)
}

/// The setter calls for a flat node, given the components its entity has.
pub fn update_transform_2d(
    position: Option<Position2D>,
    z_index: Option<ZIndex>,
    scale: Option<Scale2D>,
    rotation: Option<Rotation2D>,
) -> (r: Vec<Setter2D>)
    ensures
        r@ == setters_2d(position, z_index, scale, rotation),
{
    let mut out: Vec<Setter2D> = Vec::new();
    if let Some(p) = position {
        out.push(Setter2D::SetPosition(p.x, p.y));
    }
    assert(out@ =~= position_2d_setters(position));
    if let Some(z) = z_index {
        out.push(Setter2D::SetZIndex(z.value));
        out.push(Setter2D::SetZAsRelative(z.is_relative));
    }
    assert(out@ =~= position_2d_setters(position) + z_index_setters(z_index));
    if let Some(s) = scale {
        out.push(Setter2D::SetScale(s.x, s.y));
    }
    assert(out@ =~= position_2d_setters(position) + z_index_setters(z_index) + scale_2d_setters(
        scale,
    ));
    if let Some(a) = rotation {
        out.push(Setter2D::SetRotation(a.0));
    }
    assert(out@ =~= setters_2d(position, z_index, scale, rotation));
    out
}

/// The setter calls for a volumetric node, given the components its entity has.
pub fn update_transform_3d(
    position: Option<Position3D>,
    scale: Option<Scale3D>,
    rotation: Option<Rotation3D>,
) -> (r: Vec<Setter3D>)
    ensures
        r@ == setters_3d(position, scale, rotation),
{
    let mut out: Vec<Setter3D> = Vec::new();
    if let Some(p) = position {
        out.push(Setter3D::SetTranslation(p.x, p.y, p.z));
    }
    assert(out@ =~= position_3d_setters(position));
    if let Some(s) = scale {
        out.push(Setter3D::SetScale(s.x, s.y, s.z));
    }
    assert(out@ =~= position_3d_setters(position) + scale_3d_setters(scale));
    if let Some(a) = rotation {
        out.push(Setter3D::SetRotation(a.x, a.y, a.z));
    }
    assert(out@ =~= setters_3d(position, scale, rotation));
    out
}

impl Default for NodeState2D {
    /// A node with the identity transform and an absolute z-index of zero.
    fn default() -> (r: Self)
        ensures
            r.position == (Position2D { x: 0, y: 0 }),
            r.z_index == 0,
            !r.z_as_relative,
            r.scale == (Scale2D { x: ONE_F32_BITS, y: ONE_F32_BITS }),
            r.rotation == Rotation2D(0),
    {
        NodeState2D {
            position: Position2D::default(),
            z_index: 0,
            z_as_relative: false,
            scale: Scale2D::default(),
            rotation: Rotation2D::default(),
        }
    }
}

impl Default for NodeState3D {
    /// A node with the identity transform.
    fn default() -> (r: Self)
        ensures
            r.translation == (Position3D { x: 0, y: 0, z: 0 }),
            r.scale == (Scale3D { x: ONE_F32_BITS, y: ONE_F32_BITS, z: ONE_F32_BITS }),
            r.rotation == (Rotation3D { x: 0, y: 0, z: 0 }),
    {
        NodeState3D {
            translation: Position3D::default(),
            scale: Scale3D::default(),
            rotation: Rotation3D::default(),
        }
    }
}

/// The state of a flat node after one setter call.
pub open spec fn apply_2d(st: NodeState2D, c: Setter2D) -> NodeState2D {
    match c {
        Setter2D::SetPosition(x, y) => NodeState2D { position: Position2D { x, y }, ..st },
        Setter2D::SetZIndex(v) => NodeState2D { z_index: v, ..st },
        Setter2D::SetZAsRelative(b) => NodeState2D { z_as_relative: b, ..st },
        Setter2D::SetScale(x, y) => NodeState2D { scale: Scale2D { x, y }, ..st },
        Setter2D::SetRotation(a) => NodeState2D { rotation: Rotation2D(a), ..st },
    }
}

/// The state of a flat node after the calls `cs`, in order.
pub open spec fn apply_all_2d(st: NodeState2D, cs: Seq<Setter2D>) -> NodeState2D
    decreases cs.len(),
{
    if cs.len() == 0 {
        st
    } else {
        apply_2d(apply_all_2d(st, cs.drop_last()), cs.last())
    }
}

/// The state of a volumetric node after one setter call.
pub open spec fn apply_3d(st: NodeState3D, c: Setter3D) -> NodeState3D {
    match c {
        Setter3D::SetTranslation(x, y, z) => NodeState3D {
            translation: Position3D { x, y, z },
            ..st
        },
        Setter3D::SetScale(x, y, z) => NodeState3D { scale: Scale3D { x, y, z }, ..st },
        Setter3D::SetRotation(x, y, z) => NodeState3D { rotation: Rotation3D { x, y, z }, ..st },
    }
}

/// The state of a volumetric node after the calls `cs`, in order.
pub open spec fn apply_all_3d(st: NodeState3D, cs: Seq<Setter3D>) -> NodeState3D
    decreases cs.len(),
{
    if cs.len() == 0 {
        st
    } else {
        apply_3d(apply_all_3d(st, cs.drop_last()), cs.last())
    }
}

/// A flat node's state once the components present have been replicated.
pub open spec fn replicated_2d(
    st: NodeState2D,
    p: Option<Position2D>,
    z: Option<ZIndex>,
    s: Option<Scale2D>,
    r: Option<Rotation2D>,
) -> NodeState2D {
    NodeState2D {
        position: if p is Some { p->0 } else { st.position },
        z_index: if z is Some { z->0.value } else { st.z_index },
        z_as_relative: if z is Some { z->0.is_relative } else { st.z_as_relative },
        scale: if s is Some { s->0 } else { st.scale },
        rotation: if r is Some { r->0 } else { st.rotation },
    }
}

/// A volumetric node's state once the components present have been replicated.
pub open spec fn replicated_3d(
    st: NodeState3D,
    p: Option<Position3D>,
    s: Option<Scale3D>,
    r: Option<Rotation3D>,
) -> NodeState3D {
    NodeState3D {
        translation: if p is Some { p->0 } else { st.translation },
        scale: if s is Some { s->0 } else { st.scale },
        rotation: if r is Some { r->0 } else { st.rotation },
    }
}

impl NodeState2D {
    /// Applies one setter call.
    pub fn apply(&mut self, c: Setter2D)
        ensures
            *final(self) == apply_2d(*old(self), c),
    {
        match c {
            Setter2D::SetPosition(x, y) => self.position = Position2D { x, y },
            Setter2D::SetZIndex(v) => self.z_index = v,
            Setter2D::SetZAsRelative(b) => self.z_as_relative = b,
            Setter2D::SetScale(x, y) => self.scale = Scale2D { x, y },
            Setter2D::SetRotation(a) => self.rotation = Rotation2D(a),
        }
    }

    /// Applies the setter calls in order.
    pub fn apply_all(&mut self, cs: &Vec<Setter2D>)
        ensures
            *final(self) == apply_all_2d(*old(self), cs@),
    {
        let ghost start = *self;
        let mut i: usize = 0;
        while i < cs.len()
            invariant
                0 <= i <= cs.len(),
                *self == apply_all_2d(start, cs@.subrange(0, i as int)),
            decreases cs.len() - i,
        {
            assert(cs@.subrange(0, i + 1).drop_last() =~= cs@.subrange(0, i as int));
            self.apply(cs[i]);
            i = i + 1;
        }
        assert(cs@.subrange(0, cs.len() as int) =~= cs@);
    }
}

impl NodeState3D {
    /// Applies one setter call.
    pub fn apply(&mut self, c: Setter3D)
        ensures
            *final(self) == apply_3d(*old(self), c),
    {
        match c {
            Setter3D::SetTranslation(x, y, z) => self.translation = Position3D { x, y, z },
            Setter3D::SetScale(x, y, z) => self.scale = Scale3D { x, y, z },
            Setter3D::SetRotation(x, y, z) => self.rotation = Rotation3D { x, y, z },
        }
    }

    /// Applies the setter calls in order.
    pub fn apply_all(&mut self, cs: &Vec<Setter3D>)
        ensures
            *final(self) == apply_all_3d(*old(self), cs@),
    {
        let ghost start = *self;
        let mut i: usize = 0;
        while i < cs.len()
            invariant
                0 <= i <= cs.len(),
                *self == apply_all_3d(start, cs@.subrange(0, i as int)),
            decreases cs.len() - i,
        {
            assert(cs@.subrange(0, i + 1).drop_last() =~= cs@.subrange(0, i as int));
            self.apply(cs[i]);
            i = i + 1;
        }
        assert(cs@.subrange(0, cs.len() as int) =~= cs@);
    }
}

proof fn lemma_apply_all_2d_concat(st: NodeState2D, a: Seq<Setter2D>, b: Seq<Setter2D>)
    ensures
        apply_all_2d(st, a + b) == apply_all_2d(apply_all_2d(st, a), b),
    decreases b.len(),
{
    if b.len() == 0 {
        assert(a + b =~= a);
    } else {
        assert((a + b).drop_last() =~= a + b.drop_last());
        lemma_apply_all_2d_concat(st, a, b.drop_last());
    }
}

proof fn lemma_apply_all_3d_concat(st: NodeState3D, a: Seq<Setter3D>, b: Seq<Setter3D>)
    ensures
        apply_all_3d(st, a + b) == apply_all_3d(apply_all_3d(st, a), b),
    decreases b.len(),
{
    if b.len() == 0 {
        assert(a + b =~= a);
    } else {
        assert((a + b).drop_last() =~= a + b.drop_last());
        lemma_apply_all_3d_concat(st, a, b.drop_last());
    }
}

proof fn lemma_apply_two_2d(st: NodeState2D, c: Setter2D, d: Setter2D)
    ensures
        apply_all_2d(st, seq![c, d]) == apply_2d(apply_2d(st, c), d),
{
    reveal_with_fuel(apply_all_2d, 3);
    assert(seq![c, d].drop_last() =~= seq![c]);
    assert(seq![c].drop_last() =~= Seq::<Setter2D>::empty());
}

proof fn lemma_apply_one_2d(st: NodeState2D, c: Setter2D)
    ensures
        apply_all_2d(st, seq![c]) == apply_2d(st, c),
{
    reveal_with_fuel(apply_all_2d, 2);
    assert(seq![c].drop_last() =~= Seq::<Setter2D>::empty());
}

proof fn lemma_apply_one_3d(st: NodeState3D, c: Setter3D)
    ensures
        apply_all_3d(st, seq![c]) == apply_3d(st, c),
{
    reveal_with_fuel(apply_all_3d, 2);
    assert(seq![c].drop_last() =~= Seq::<Setter3D>::empty());
}

/// Round trip: applying the calls that replicate a flat entity's components
/// leaves the node holding exactly those values, and the rest unchanged.
pub proof fn replication_2d_reflects_components(
    st: NodeState2D,
    p: Option<Position2D>,
    z: Option<ZIndex>,
    s: Option<Scale2D>,
    r: Option<Rotation2D>,
)
    ensures
        apply_all_2d(st, setters_2d(p, z, s, r)) == replicated_2d(st, p, z, s, r),
{
    let a = position_2d_setters(p);
    let b = z_index_setters(z);
    let c = scale_2d_setters(s);
    let d = rotation_2d_setters(r);
    lemma_apply_all_2d_concat(st, a + b + c, d);
    lemma_apply_all_2d_concat(st, a + b, c);
    lemma_apply_all_2d_concat(st, a, b);
    let s0 = st;
    if let Some(v) = p {
        lemma_apply_one_2d(s0, Setter2D::SetPosition(v.x, v.y));
    }
    let s1 = apply_all_2d(s0, a);
    if let Some(v) = z {
        lemma_apply_two_2d(s1, Setter2D::SetZIndex(v.value), Setter2D::SetZAsRelative(v.is_relative));
    }
    let s2 = apply_all_2d(s1, b);
    if let Some(v) = s {
        lemma_apply_one_2d(s2, Setter2D::SetScale(v.x, v.y));
    }
    let s3 = apply_all_2d(s2, c);
    if let Some(v) = r {
        lemma_apply_one_2d(s3, Setter2D::SetRotation(v.0));
    }
}

/// Round trip: applying the calls that replicate a volumetric entity's
/// components leaves the node holding exactly those values.
pub proof fn replication_3d_reflects_components(
    st: NodeState3D,
    p: Option<Position3D>,
    s: Option<Scale3D>,
    r: Option<Rotation3D>,
)
    ensures
        apply_all_3d(st, setters_3d(p, s, r)) == replicated_3d(st, p, s, r),
{
    let a = position_3d_setters(p);
    let b = scale_3d_setters(s);
    let c = rotation_3d_setters(r);
    lemma_apply_all_3d_concat(st, a + b, c);
    lemma_apply_all_3d_concat(st, a, b);
    if let Some(v) = p {
        lemma_apply_one_3d(st, Setter3D::SetTranslation(v.x, v.y, v.z));
    }
    let s1 = apply_all_3d(st, a);
    if let Some(v) = s {
        lemma_apply_one_3d(s1, Setter3D::SetScale(v.x, v.y, v.z));
    }
    let s2 = apply_all_3d(s1, b);
    if let Some(v) = r {
        lemma_apply_one_3d(s2, Setter3D::SetRotation(v.x, v.y, v.z));
    }
}

/// Idempotence: replicating unchanged flat components a second time leaves
/// the node's state as the first pass left it.
pub proof fn replication_2d_idempotent(
    st: NodeState2D,
    p: Option<Position2D>,
    z: Option<ZIndex>,
    s: Option<Scale2D>,
    r: Option<Rotation2D>,
)
    ensures
        apply_all_2d(apply_all_2d(st, setters_2d(p, z, s, r)), setters_2d(p, z, s, r))
            == apply_all_2d(st, setters_2d(p, z, s, r)),
{
    replication_2d_reflects_components(st, p, z, s, r);
    replication_2d_reflects_components(apply_all_2d(st, setters_2d(p, z, s, r)), p, z, s, r);
}

/// Idempotence: replicating unchanged volumetric components a second time
/// leaves the node's state as the first pass left it.
pub proof fn replication_3d_idempotent(
    st: NodeState3D,
    p: Option<Position3D>,
    s: Option<Scale3D>,
    r: Option<Rotation3D>,
)
    ensures
        apply_all_3d(apply_all_3d(st, setters_3d(p, s, r)), setters_3d(p, s, r)) == apply_all_3d(
            st,
            setters_3d(p, s, r),
        ),
{
    replication_3d_reflects_components(st, p, s, r);
    replication_3d_reflects_components(apply_all_3d(st, setters_3d(p, s, r)), p, s, r);
}

} // verus!
