use vstd::prelude::*;

verus! {

/// One step of a mouse plan: an absolute report to send, or a pause in
/// milliseconds before the next step.
#[derive(Clone, Copy, Debug, PartialEq, Eq, Structural)]
pub enum MouseAction {
    Report { x: i64, y: i64, buttons: u64 },
    Pause(u64),
}

/// A report action, in spec form.
pub open spec fn spec_mouse_report(x: i64, y: i64, buttons: u64) -> MouseAction {
    MouseAction::Report { x, y, buttons }
}

/// The plan of one click at `(x, y)` with button mask `b`: move there,
/// press, hold 100 ms, release.
pub open spec fn spec_click_plan(x: i64, y: i64, b: u64) -> Seq<MouseAction> {
    seq![
        spec_mouse_report(x, y, 0),
        spec_mouse_report(x, y, b),
        MouseAction::Pause(100),
        spec_mouse_report(x, y, 0),
    ]
}

/// Lays out a single click at `(x, y)` with button mask `b` (left 1,
/// right 2, middle 4).
pub fn plan_click(x: i64, y: i64, b: u64) -> (r: Vec<MouseAction>)
    ensures
        r@ == spec_click_plan(x, y, b),
{
    let mut plan: Vec<MouseAction> = Vec::new();
    plan.push(MouseAction::Report { x, y, buttons: 0 });
    plan.push(MouseAction::Report { x, y, buttons: b });
    plan.push(MouseAction::Pause(100));
    plan.push(MouseAction::Report { x, y, buttons: 0 });
    proof {
        assert(plan@ =~= spec_click_plan(x, y, b));
    }
    plan
}

/// The plan of a double left click: two clicks 150 ms apart.
pub open spec fn spec_double_click_plan(x: i64, y: i64) -> Seq<MouseAction> {
    spec_click_plan(x, y, 1) + seq![MouseAction::Pause(150)] + spec_click_plan(x, y, 1)
}

/// Lays out a double left click at `(x, y)`.
pub fn plan_double_click(x: i64, y: i64) -> (r: Vec<MouseAction>)
    ensures
        r@ == spec_double_click_plan(x, y),
{
    let mut plan = plan_click(x, y, 1);
    plan.push(MouseAction::Pause(150));
    let mut second = plan_click(x, y, 1);
    let ghost first_and_pause = plan@;
    let mut i: usize = 0;
    while i < second.len()
        invariant
            i <= second@.len(),
            second@ == spec_click_plan(x, y, 1),
            plan@ == first_and_pause + second@.take(i as int),
        decreases second@.len() - i,
    {
        plan.push(second[i]);
        proof {
            assert(second@.take(i as int + 1) =~= second@.take(i as int).push(second@[i as int]));
            assert(first_and_pause + second@.take(i as int + 1) =~= (first_and_pause
                + second@.take(i as int)).push(second@[i as int]));
        }
        i = i + 1;
    }
    proof {
        assert(second@.take(second@.len() as int) =~= second@);
        assert(plan@ =~= spec_double_click_plan(x, y));
    }
    plan
}

/// The coordinate `i` hundredths of the way from `from` to `to`.
pub open spec fn spec_lerp(from: i64, to: i64, i: int) -> int {
    if from <= to {
        from + ((to - from) * i) / 100
    } else {
        from - ((from - to) * i) / 100
    }
}

/// The interpolated drag positions from step `i` on: each is the point
/// `i` hundredths of the way from the start to the screen centre, held
/// with the left button down, 50 ms apart.
pub open spec fn spec_drag_steps_from(sx: i64, sy: i64, i: int) -> Seq<MouseAction>
    decreases 101 - i,
{
    if i > 100 || i < 1 {
        seq![]
    } else {
        seq![
            spec_mouse_report(
                spec_lerp(sx, 960, i) as i64,
                spec_lerp(sy, 540, i) as i64,
                1,
            ),
            MouseAction::Pause(50),
        ] + spec_drag_steps_from(sx, sy, i + 1)
    }
}

/// The coordinate `i` hundredths of the way from `from` to `to`,
/// computed without leaving `i64`.
fn lerp(from: i64, to: i64, i: u64) -> (r: i64)
    requires
        -1000000000000 <= from <= 1000000000000,
        -1000 <= to <= 1000,
        1 <= i <= 100,
    ensures
        r == spec_lerp(from, to, i as int),
{
    if from <= to {
        let d = to - from;
        proof {
            assert(0 <= (d as int) * (i as int) <= 100000000100000) by (nonlinear_arith)
                requires
                    0 <= d as int <= 1000000001000,
                    1 <= i as int <= 100,
            ;
        }
        let step = (d * (i as i64)) / 100;
        from + step
    } else {
        let d = from - to;
        proof {
            assert(0 <= (d as int) * (i as int) <= 100000000100000) by (nonlinear_arith)
                requires
                    0 <= d as int <= 1000000001000,
                    1 <= i as int <= 100,
            ;
        }
        let step = (d * (i as i64)) / 100;
        from - step
    }
}

/// The drag-to-centre plan: settle on the start point, press, walk 100
/// interpolated positions to the screen centre (1920x1080), and release
/// there; the release is the final report.
pub open spec fn spec_drag_to_center_plan(sx: i64, sy: i64) -> Seq<MouseAction> {
    seq![
        spec_mouse_report(sx, sy, 0),
        MouseAction::Pause(100),
        spec_mouse_report(sx, sy, 1),
        MouseAction::Pause(100),
    ] + spec_drag_steps_from(sx, sy, 1) + seq![spec_mouse_report(960, 540, 0)]
}

/// Lays out a left-button drag from `(sx, sy)` to the centre of a
/// 1920x1080 screen, exactly as `spec_drag_to_center_plan` describes.
/// The coordinate bound keeps the interpolation arithmetic inside `i64`.
pub fn plan_drag_to_center(sx: i64, sy: i64) -> (r: Vec<MouseAction>)
    requires
        -1000000000000 <= sx <= 1000000000000,
        -1000000000000 <= sy <= 1000000000000,
    ensures
        r@ == spec_drag_to_center_plan(sx, sy),
{
    let mut plan: Vec<MouseAction> = Vec::new();
    plan.push(MouseAction::Report { x: sx, y: sy, buttons: 0 });
    plan.push(MouseAction::Pause(100));
    plan.push(MouseAction::Report { x: sx, y: sy, buttons: 1 });
    plan.push(MouseAction::Pause(100));
    let ghost head = plan@;
    let mut i: u64 = 1;
    while i <= 100
        invariant
            1 <= i <= 101,
            -1000000000000 <= sx <= 1000000000000,
            -1000000000000 <= sy <= 1000000000000,
            head + spec_drag_steps_from(sx, sy, 1) == plan@ + spec_drag_steps_from(sx, sy, i as int),
        decreases 101 - i,
    {
        let ghost plan0 = plan@;
        let x = lerp(sx, 960, i);
        let y = lerp(sy, 540, i);
        plan.push(MouseAction::Report { x, y, buttons: 1 });
        plan.push(MouseAction::Pause(50));
        proof {
            assert(plan@ =~= plan0 + seq![
                spec_mouse_report(x, y, 1),
                MouseAction::Pause(50),
            ]);
            assert(plan0 + (seq![
                spec_mouse_report(x, y, 1),
                MouseAction::Pause(50),
            ] + spec_drag_steps_from(sx, sy, i as int + 1)) =~= plan@ + spec_drag_steps_from(
                sx,
                sy,
                i as int + 1,
            ));
        }
        i = i + 1;
    }
    proof {
        assert(spec_drag_steps_from(sx, sy, 101).len() == 0);
        assert(plan@ + spec_drag_steps_from(sx, sy, 101) =~= plan@);
    }
    plan.push(MouseAction::Report { x: 960, y: 540, buttons: 0 });
    proof {
        assert(plan@ =~= spec_drag_to_center_plan(sx, sy));
    }
    plan
}

} // verus!
