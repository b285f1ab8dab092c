use vstd::prelude::*;

use crate::attributes::AttributeKey;
use crate::attributes::Attributes;
use crate::attributes::AttributeValue;
use crate::attributes::direction_attr;
use crate::attributes::lookup;
use crate::attributes::resolved_direction;
use crate::attributes::uint_attr;
use crate::geometry::Pos;
use crate::geometry::Size;
use crate::layout::Axis;
use crate::layout::ConstraintMode;
use crate::layout::Constraints;
use crate::layout::Direction;
use crate::layout::DistributionRequest;
use crate::layout::LayoutError;
use crate::layout::PositionCtx;
use crate::layout::Signal;

verus! {

/// A child of the stack: its computed size, and the absolute position the
/// stack assigns to it.
#[derive(Clone, Copy, Debug, PartialEq, Eq, Structural)]
pub struct Child {
    pub size: Size,
    pub pos: Pos,
}

/// The inherited constraints after a node's overrides are applied, in order:
/// a min-width or min-height attribute replaces the inherited minimum
/// outright; a width or height attribute then tightens that dimension to the
/// exact value.
pub open spec fn overridden_constraints(
    c: Constraints,
    attrs: Seq<(AttributeKey, AttributeValue)>,
) -> Constraints {
    let c = match uint_attr(attrs, AttributeKey::MinWidth) {
        Some(v) => Constraints { min_width: v, ..c },
        None => c,
    };
    let c = match uint_attr(attrs, AttributeKey::MinHeight) {
        Some(v) => Constraints { min_height: v, ..c },
        None => c,
    };
    let c = match uint_attr(attrs, AttributeKey::Width) {
        Some(v) => Constraints { min_width: v, max_width: v, ..c },
        None => c,
    };
    match uint_attr(attrs, AttributeKey::Height) {
        Some(v) => Constraints { min_height: v, max_height: v, ..c },
        None => c,
    }
}

/// The request a stack on `axis` builds for the distribution engine.
pub open spec fn sizing_request(
    axis: Axis,
    c: Constraints,
    attrs: Seq<(AttributeKey, AttributeValue)>,
    mode: ConstraintMode,
) -> DistributionRequest {
    DistributionRequest { constraints: overridden_constraints(c, attrs), axis, mode }
}

/// The widths of the first `k` children, summed.
pub open spec fn width_sum(children: Seq<Child>, k: int) -> int
    decreases k,
{
    if k <= 0 {
        0
    } else {
        width_sum(children, k - 1) + children[k - 1].size.width
    }
}

/// The heights of the first `k` children, summed.
pub open spec fn height_sum(children: Seq<Child>, k: int) -> int
    decreases k,
{
    if k <= 0 {
        0
    } else {
        height_sum(children, k - 1) + children[k - 1].size.height
    }
}

/// The x coordinate assigned to child `k`. Forward walks start at the origin
/// and advance after each child; backward walks start at the far edge
/// (origin plus inner width) and retreat before each child. Off the stack's
/// axis the coordinate is the origin's.
pub open spec fn assigned_x(
    axis: Axis,
    dir: Direction,
    ctx: PositionCtx,
    children: Seq<Child>,
    k: int,
) -> int {
    match axis {
        Axis::Horizontal => match dir {
            Direction::Forward => ctx.pos.x + width_sum(children, k),
            Direction::Backward => ctx.pos.x + ctx.inner_size.width - width_sum(children, k + 1),
        },
        Axis::Vertical => ctx.pos.x as int,
    }
}

/// The y coordinate assigned to child `k`; the mirror of `assigned_x` for
/// vertical stacks.
pub open spec fn assigned_y(
    axis: Axis,
    dir: Direction,
    ctx: PositionCtx,
    children: Seq<Child>,
    k: int,
) -> int {
    match axis {
        Axis::Horizontal => ctx.pos.y as int,
        Axis::Vertical => match dir {
            Direction::Forward => ctx.pos.y + height_sum(children, k),
            Direction::Backward => ctx.pos.y + ctx.inner_size.height - height_sum(children, k + 1),
        },
    }
}

/// The cursor of a whole positioning pass stays within the signed coordinate
/// range: the sums below never leave `i32`.
pub open spec fn position_fits(
    axis: Axis,
    dir: Direction,
    ctx: PositionCtx,
    children: Seq<Child>,
) -> bool {
    let n = children.len() as int;
    match (axis, dir) {
        (Axis::Horizontal, Direction::Forward) => ctx.pos.x + width_sum(children, n) <= i32::MAX,
        (Axis::Horizontal, Direction::Backward) => {
            &&& ctx.pos.x + ctx.inner_size.width <= i32::MAX
            &&& ctx.pos.x + ctx.inner_size.width - width_sum(children, n) >= i32::MIN
        },
        (Axis::Vertical, Direction::Forward) => ctx.pos.y + height_sum(children, n) <= i32::MAX,
        (Axis::Vertical, Direction::Backward) => {
            &&& ctx.pos.y + ctx.inner_size.height <= i32::MAX
            &&& ctx.pos.y + ctx.inner_size.height - height_sum(children, n) >= i32::MIN
        },
    }
}

/// Partial width and height sums grow with the number of children taken.
pub proof fn lemma_sum_monotonic(children: Seq<Child>, i: int, j: int)
    requires
        0 <= i <= j,
    ensures
        width_sum(children, i) <= width_sum(children, j),
        height_sum(children, i) <= height_sum(children, j),
    decreases j - i,
{
    if i < j {
        lemma_sum_monotonic(children, i, j - 1);
    }
}

/// A directional stack: arranges its children one after another along its
/// fixed axis.
pub struct Stack(pub Axis);

impl Stack {
    /// Builds the sizing-phase request: applies the node's overrides to the
    /// inherited constraints and pairs the result with the stack's axis and
    /// the sizing mode.
    pub fn distribution_request(
        &self,
        constraints: Constraints,
        attrs: &Attributes,
        mode: ConstraintMode,
    ) -> (r: DistributionRequest)
        ensures
            r == sizing_request(self.0, constraints, attrs@, mode),
    {
        let mut constraints = constraints;
        if let Some(width) = attrs.get_uint(AttributeKey::MinWidth) {
            constraints.min_width = width;
        }
        if let Some(height) = attrs.get_uint(AttributeKey::MinHeight) {
            constraints.min_height = height;
        }
        if let Some(width) = attrs.get_uint(AttributeKey::Width) {
            constraints.make_width_tight(width);
        }
        if let Some(height) = attrs.get_uint(AttributeKey::Height) {
            constraints.make_height_tight(height);
        }
        DistributionRequest { constraints, axis: self.0, mode }
    }

    /// Sizing phase: derives the distribution request from the node's
    /// attributes and delegates to the distribution engine, returning its
    /// aggregate size verbatim and propagating any failure unchanged.
    pub fn layout<F: FnOnce(DistributionRequest) -> Result<Size, LayoutError>>(
        &self,
        constraints: Constraints,
        attrs: &Attributes,
        mode: ConstraintMode,
        engine: F,
    ) -> (r: Result<Size, LayoutError>)
        requires
            call_requires(engine, (sizing_request(self.0, constraints, attrs@, mode),)),
        ensures
            call_ensures(engine, (sizing_request(self.0, constraints, attrs@, mode),), r),
    {
        let request = self.distribution_request(constraints, attrs, mode);
        engine(request)
    }

    /// One positioning visit. Forward: the child takes the cursor, which then
    /// advances by the child's extent on the stack's axis. Backward: the
    /// cursor first retreats by the child's extent, then the child takes it.
    /// The visit always signals the traversal to continue.
    pub fn visit(&self, direction: Direction, cursor: &mut Pos, child: &mut Child) -> (s: Signal)
        requires
            match (self.0, direction) {
                (Axis::Horizontal, Direction::Forward) => old(cursor).x + old(child).size.width
                    <= i32::MAX,
                (Axis::Horizontal, Direction::Backward) => old(cursor).x - old(child).size.width
                    >= i32::MIN,
                (Axis::Vertical, Direction::Forward) => old(cursor).y + old(child).size.height
                    <= i32::MAX,
                (Axis::Vertical, Direction::Backward) => old(cursor).y - old(child).size.height
                    >= i32::MIN,
            },
        ensures
            s == Signal::Continue,
            final(child).size == old(child).size,
            match (self.0, direction) {
                (Axis::Horizontal, Direction::Forward) => {
                    &&& final(child).pos == *old(cursor)
                    &&& final(cursor).x == old(cursor).x + old(child).size.width
                    &&& final(cursor).y == old(cursor).y
                },
                (Axis::Horizontal, Direction::Backward) => {
                    &&& final(child).pos == *final(cursor)
                    &&& final(cursor).x == old(cursor).x - old(child).size.width
                    &&& final(cursor).y == old(cursor).y
                },
                (Axis::Vertical, Direction::Forward) => {
                    &&& final(child).pos == *old(cursor)
                    &&& final(cursor).y == old(cursor).y + old(child).size.height
                    &&& final(cursor).x == old(cursor).x
                },
                (Axis::Vertical, Direction::Backward) => {
                    &&& final(child).pos == *final(cursor)
                    &&& final(cursor).y == old(cursor).y - old(child).size.height
                    &&& final(cursor).x == old(cursor).x
                },
            },
    {
        match direction {
            Direction::Forward => {
                child.pos = *cursor;
                match self.0 {
                    Axis::Horizontal => cursor.x = cursor.x + child.size.width as i32,
                    Axis::Vertical => cursor.y = cursor.y + child.size.height as i32,
                }
            },
            Direction::Backward => {
                match self.0 {
                    Axis::Horizontal => cursor.x = cursor.x - child.size.width as i32,
                    Axis::Vertical => cursor.y = cursor.y - child.size.height as i32,
                }
                child.pos = *cursor;
            },
        }
        Signal::Continue
    }

    /// Positioning phase: resolves the node's direction (forward when unset),
    /// anchors the cursor at the origin — or at the far edge of the inner
    /// size for a backward walk — and visits the children in tree order,
    /// assigning each its absolute position. Sizes are left untouched; with
    /// zero children nothing is assigned.
    #[verifier::loop_isolation(false)]
    pub fn position(&self, children: &mut Vec<Child>, attrs: &Attributes, ctx: PositionCtx)
        requires
            position_fits(self.0, resolved_direction(attrs@), ctx, old(children)@),
        ensures
            final(children)@.len() == old(children)@.len(),
            forall|k: int|
                0 <= k < old(children)@.len() ==> {
                    let dir = resolved_direction(attrs@);
                    &&& (#[trigger] final(children)@[k]).size == old(children)@[k].size
                    &&& final(children)@[k].pos.x == assigned_x(
                        self.0,
                        dir,
                        ctx,
                        old(children)@,
                        k,
                    )
                    &&& final(children)@[k].pos.y == assigned_y(
                        self.0,
                        dir,
                        ctx,
                        old(children)@,
                        k,
                    )
                },
    {
        let ghost orig = children@;
        let ghost dir = resolved_direction(attrs@);
        let direction = attrs.direction();
        let mut pos = ctx.pos;

        if let Direction::Backward = direction {
            match self.0 {
                Axis::Horizontal => pos.x = pos.x + ctx.inner_size.width as i32,
                Axis::Vertical => pos.y = pos.y + ctx.inner_size.height as i32,
            }
        }

        let n = children.len();
        let mut i: usize = 0;
        while i < n
            invariant
                i <= n,
                children@.len() == orig.len(),
                forall|k: int| i <= k < orig.len() ==> children@[k] == orig[k],
                forall|k: int|
                    0 <= k < i ==> {
                        &&& (#[trigger] children@[k]).size == orig[k].size
                        &&& children@[k].pos.x == assigned_x(self.0, dir, ctx, orig, k)
                        &&& children@[k].pos.y == assigned_y(self.0, dir, ctx, orig, k)
                    },
                match (self.0, dir) {
                    (Axis::Horizontal, Direction::Forward) => pos.x == ctx.pos.x + width_sum(
                        orig,
                        i as int,
                    ) && pos.y == ctx.pos.y,
                    (Axis::Horizontal, Direction::Backward) => pos.x == ctx.pos.x
                        + ctx.inner_size.width - width_sum(orig, i as int) && pos.y == ctx.pos.y,
                    (Axis::Vertical, Direction::Forward) => pos.y == ctx.pos.y + height_sum(
                        orig,
                        i as int,
                    ) && pos.x == ctx.pos.x,
                    (Axis::Vertical, Direction::Backward) => pos.y == ctx.pos.y
                        + ctx.inner_size.height - height_sum(orig, i as int) && pos.x == ctx.pos.x,
                },
            decreases n - i,
        {
            let mut child = children[i];
            proof {
                lemma_sum_monotonic(orig, i + 1, orig.len() as int);
            }
            let _ = self.visit(direction, &mut pos, &mut child);
            children.set(i, child);
            i = i + 1;
        }
    }
}

/// Forward/Horizontal law: child `k` starts at the origin's x plus the widths
/// of the children before it, and no later child starts before child `k`'s
/// right edge — the children do not overlap.
pub proof fn lemma_forward_horizontal_no_overlap(
    ctx: PositionCtx,
    children: Seq<Child>,
    k: int,
)
    requires
        0 <= k < children.len(),
    ensures
        assigned_x(Axis::Horizontal, Direction::Forward, ctx, children, k) == ctx.pos.x
            + width_sum(children, k),
        forall|j: int|
            k < j < children.len() ==> assigned_x(Axis::Horizontal, Direction::Forward, ctx, children, k)
                + children[k].size.width <= #[trigger] assigned_x(
                Axis::Horizontal,
                Direction::Forward,
                ctx,
                children,
                j,
            ),
{
    assert forall|j: int|
        k < j < children.len() implies assigned_x(Axis::Horizontal, Direction::Forward, ctx, children, k)
        + children[k].size.width <= #[trigger] assigned_x(
        Axis::Horizontal,
        Direction::Forward,
        ctx,
        children,
        j,
    ) by {
        lemma_sum_monotonic(children, k + 1, j);
    }
}

/// Backward/Horizontal law: the cursor arithmetic is the exact mirror of the
/// forward walk — child `k`'s distance from its right edge to the container's
/// far edge (origin plus inner width) equals the forward walk's distance from
/// the origin to its left edge. In particular the first child visited has its
/// right edge exactly at the far edge.
pub proof fn lemma_backward_horizontal_mirror(ctx: PositionCtx, children: Seq<Child>, k: int)
    requires
        0 <= k < children.len(),
    ensures
        (ctx.pos.x + ctx.inner_size.width) - (assigned_x(
            Axis::Horizontal,
            Direction::Backward,
            ctx,
            children,
            k,
        ) + children[k].size.width) == assigned_x(
            Axis::Horizontal,
            Direction::Forward,
            ctx,
            children,
            k,
        ) - ctx.pos.x,
        k == 0 ==> assigned_x(Axis::Horizontal, Direction::Backward, ctx, children, 0)
            + children[0].size.width == ctx.pos.x + ctx.inner_size.width,
{
    assert(width_sum(children, k + 1) == width_sum(children, k) + children[k].size.width);
}

/// Exact-width law: a width override of value `v` always yields a tight width
/// constraint, min = max = v, whatever range was inherited and whatever the
/// other overrides say.
pub proof fn lemma_width_override_tightens(
    c: Constraints,
    attrs: Seq<(AttributeKey, AttributeValue)>,
    v: u16,
)
    requires
        uint_attr(attrs, AttributeKey::Width) == Some(v),
    ensures
        overridden_constraints(c, attrs).min_width == v,
        overridden_constraints(c, attrs).max_width == v,
{
}

/// Min-width law: a min-width override of value `v` replaces the inherited
/// minimum outright — an inherited minimum at or above `v` is still
/// overwritten to `v`, never kept as a maximum of the two.
pub proof fn lemma_min_width_override_replaces(
    c: Constraints,
    attrs: Seq<(AttributeKey, AttributeValue)>,
    v: u16,
)
    requires
        uint_attr(attrs, AttributeKey::MinWidth) == Some(v),
        uint_attr(attrs, AttributeKey::Width) is None,
    ensures
        overridden_constraints(c, attrs).min_width == v,
{
}

/// Validity law: the envelope handed to the distribution engine keeps
/// min ≤ max on both dimensions, provided the inherited envelope does and no
/// minimum override overshoots an inherited maximum it has to live under (an
/// override that would is a configuration error the attribute layer
/// prevents; an exact-value override makes its dimension valid by itself).
pub proof fn lemma_overrides_preserve_validity(
    c: Constraints,
    attrs: Seq<(AttributeKey, AttributeValue)>,
)
    requires
        c.is_valid(),
        uint_attr(attrs, AttributeKey::Width) is None ==> match uint_attr(
            attrs,
            AttributeKey::MinWidth,
        ) {
            Some(v) => v <= c.max_width,
            None => true,
        },
        uint_attr(attrs, AttributeKey::Height) is None ==> match uint_attr(
            attrs,
            AttributeKey::MinHeight,
        ) {
            Some(v) => v <= c.max_height,
            None => true,
        },
    ensures
        overridden_constraints(c, attrs).is_valid(),
{
}

/// Default-direction law: a node that omits the direction attribute behaves
/// exactly as one that sets it to forward — the resolved direction agrees,
/// and with every other attribute equal the derived constraints agree too.
pub proof fn lemma_omitted_direction_is_forward(
    c: Constraints,
    a: Seq<(AttributeKey, AttributeValue)>,
    b: Seq<(AttributeKey, AttributeValue)>,
)
    requires
        direction_attr(a) is None,
        direction_attr(b) == Some(Direction::Forward),
        forall|k: AttributeKey|
            k != AttributeKey::Direction ==> #[trigger] lookup(a, k) == lookup(b, k),
    ensures
        resolved_direction(a) == Direction::Forward,
        resolved_direction(a) == resolved_direction(b),
        overridden_constraints(c, a) == overridden_constraints(c, b),
{
    assert(lookup(a, AttributeKey::MinWidth) == lookup(b, AttributeKey::MinWidth));
    assert(lookup(a, AttributeKey::MinHeight) == lookup(b, AttributeKey::MinHeight));
    assert(lookup(a, AttributeKey::Width) == lookup(b, AttributeKey::Width));
    assert(lookup(a, AttributeKey::Height) == lookup(b, AttributeKey::Height));
}

} // verus!
