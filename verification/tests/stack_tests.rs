use stack_layout::attributes::{AttributeKey, AttributeValue, Attributes};
use stack_layout::geometry::{Pos, Size};
use stack_layout::layout::{
    Axis, ConstraintMode, Constraints, Direction, DistributionRequest, LayoutError, PositionCtx,
    Signal,
};
use stack_layout::stacks::{Child, Stack};

fn child(width: u16, height: u16) -> Child {
    Child {
        size: Size { width, height },
        pos: Pos { x: 99, y: 99 },
    }
}

fn ctx(x: i32, y: i32, width: u16, height: u16) -> PositionCtx {
    PositionCtx {
        pos: Pos { x, y },
        inner_size: Size { width, height },
    }
}

#[test]
fn forward_horizontal_scenario() {
    let stack = Stack(Axis::Horizontal);
    let attrs = Attributes::new();
    let mut children = vec![child(5, 1), child(3, 1), child(7, 1)];
    stack.position(&mut children, &attrs, ctx(0, 0, 15, 1));
    assert_eq!(children[0].pos, Pos { x: 0, y: 0 });
    assert_eq!(children[1].pos, Pos { x: 5, y: 0 });
    assert_eq!(children[2].pos, Pos { x: 8, y: 0 });
}

#[test]
fn forward_horizontal_reports_engine_size() {
    let stack = Stack(Axis::Horizontal);
    let attrs = Attributes::new();
    let c = Constraints {
        min_width: 15,
        min_height: 0,
        max_width: 80,
        max_height: 25,
    };
    let reported = stack.layout(c, &attrs, ConstraintMode::Bounded, |_req| {
        Ok(Size {
            width: 15,
            height: 1,
        })
    });
    assert_eq!(
        reported,
        Ok(Size {
            width: 15,
            height: 1
        })
    );
}

#[test]
fn backward_vertical_scenario() {
    let stack = Stack(Axis::Vertical);
    let mut attrs = Attributes::new();
    attrs.set(
        AttributeKey::Direction,
        AttributeValue::Dir(Direction::Backward),
    );
    let mut children = vec![child(1, 6), child(1, 4)];
    stack.position(&mut children, &attrs, ctx(0, 0, 1, 20));
    assert_eq!(children[0].pos, Pos { x: 0, y: 14 });
    assert_eq!(children[1].pos, Pos { x: 0, y: 10 });
}

#[test]
fn backward_horizontal_mirrors_forward() {
    let stack = Stack(Axis::Horizontal);
    let mut attrs = Attributes::new();
    attrs.set(
        AttributeKey::Direction,
        AttributeValue::Dir(Direction::Backward),
    );
    let mut children = vec![child(5, 1), child(3, 1), child(7, 1)];
    stack.position(&mut children, &attrs, ctx(0, 0, 15, 1));
    assert_eq!(children[0].pos, Pos { x: 10, y: 0 });
    assert_eq!(children[1].pos, Pos { x: 7, y: 0 });
    assert_eq!(children[2].pos, Pos { x: 0, y: 0 });
    // The first visited child's right edge sits at the container's far edge.
    assert_eq!(children[0].pos.x + children[0].size.width as i32, 0 + 15);
}

#[test]
fn forward_vertical_scenario() {
    let stack = Stack(Axis::Vertical);
    let attrs = Attributes::new();
    let mut children = vec![child(1, 2), child(1, 3)];
    stack.position(&mut children, &attrs, ctx(4, -1, 1, 5));
    assert_eq!(children[0].pos, Pos { x: 4, y: -1 });
    assert_eq!(children[1].pos, Pos { x: 4, y: 1 });
}

#[test]
fn zero_children_position_is_a_no_op() {
    let stack = Stack(Axis::Horizontal);
    let attrs = Attributes::new();
    let mut children: Vec<Child> = Vec::new();
    stack.position(&mut children, &attrs, ctx(3, 4, 10, 10));
    assert!(children.is_empty());
}

#[test]
fn zero_sized_children_collapse_onto_one_position() {
    let stack = Stack(Axis::Horizontal);
    let attrs = Attributes::new();
    let mut children = vec![child(0, 1), child(0, 1), child(2, 1)];
    stack.position(&mut children, &attrs, ctx(1, 0, 2, 1));
    assert_eq!(children[0].pos, Pos { x: 1, y: 0 });
    assert_eq!(children[1].pos, Pos { x: 1, y: 0 });
    assert_eq!(children[2].pos, Pos { x: 1, y: 0 });
}

#[test]
fn position_leaves_sizes_untouched() {
    let stack = Stack(Axis::Vertical);
    let attrs = Attributes::new();
    let mut children = vec![child(9, 2), child(8, 3)];
    stack.position(&mut children, &attrs, ctx(0, 0, 9, 5));
    assert_eq!(children[0].size, Size { width: 9, height: 2 });
    assert_eq!(children[1].size, Size { width: 8, height: 3 });
}

#[test]
fn negative_origin_forward_horizontal() {
    let stack = Stack(Axis::Horizontal);
    let attrs = Attributes::new();
    let mut children = vec![child(1, 1), child(2, 1)];
    stack.position(&mut children, &attrs, ctx(-5, 2, 3, 1));
    assert_eq!(children[0].pos, Pos { x: -5, y: 2 });
    assert_eq!(children[1].pos, Pos { x: -4, y: 2 });
}

#[test]
fn omitted_direction_behaves_as_forward() {
    let stack = Stack(Axis::Horizontal);
    let omitted = Attributes::new();
    let mut explicit = Attributes::new();
    explicit.set(
        AttributeKey::Direction,
        AttributeValue::Dir(Direction::Forward),
    );
    let mut a = vec![child(5, 1), child(3, 1)];
    let mut b = a.clone();
    stack.position(&mut a, &omitted, ctx(2, 3, 8, 1));
    stack.position(&mut b, &explicit, ctx(2, 3, 8, 1));
    assert_eq!(a, b);
}

#[test]
fn visit_forward_assigns_then_advances() {
    let stack = Stack(Axis::Horizontal);
    let mut cursor = Pos { x: 7, y: 2 };
    let mut c = child(4, 1);
    let signal = stack.visit(Direction::Forward, &mut cursor, &mut c);
    assert_eq!(signal, Signal::Continue);
    assert_eq!(c.pos, Pos { x: 7, y: 2 });
    assert_eq!(cursor, Pos { x: 11, y: 2 });
}

#[test]
fn visit_backward_retreats_then_assigns() {
    let stack = Stack(Axis::Vertical);
    let mut cursor = Pos { x: 0, y: 20 };
    let mut c = child(1, 6);
    let signal = stack.visit(Direction::Backward, &mut cursor, &mut c);
    assert_eq!(signal, Signal::Continue);
    assert_eq!(cursor, Pos { x: 0, y: 14 });
    assert_eq!(c.pos, Pos { x: 0, y: 14 });
}

#[test]
fn layout_hands_the_derived_request_to_the_engine() {
    let stack = Stack(Axis::Vertical);
    let mut attrs = Attributes::new();
    attrs.set(AttributeKey::MinHeight, AttributeValue::Uint(7));
    let c = Constraints {
        min_width: 1,
        min_height: 2,
        max_width: 30,
        max_height: 40,
    };
    let mut seen = None;
    let reported = stack.layout(c, &attrs, ConstraintMode::Unbounded, |req| {
        seen = Some(req);
        Ok(Size {
            width: 3,
            height: 9,
        })
    });
    assert_eq!(
        reported,
        Ok(Size {
            width: 3,
            height: 9
        })
    );
    assert_eq!(
        seen,
        Some(DistributionRequest {
            constraints: Constraints {
                min_width: 1,
                min_height: 7,
                max_width: 30,
                max_height: 40,
            },
            axis: Axis::Vertical,
            mode: ConstraintMode::Unbounded,
        })
    );
}

#[test]
fn layout_propagates_engine_failure_unchanged() {
    let stack = Stack(Axis::Horizontal);
    let attrs = Attributes::new();
    let c = Constraints {
        min_width: 0,
        min_height: 0,
        max_width: 5,
        max_height: 5,
    };
    let failed = stack.layout(c, &attrs, ConstraintMode::Bounded, |_req| {
        Err(LayoutError::Failed)
    });
    assert_eq!(failed, Err(LayoutError::Failed));
    let cramped = stack.layout(c, &attrs, ConstraintMode::Bounded, |_req| {
        Err(LayoutError::InsufficientSpace)
    });
    assert_eq!(cramped, Err(LayoutError::InsufficientSpace));
}
