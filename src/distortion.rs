//! The wave warp: every pixel is replaced by one read from a displaced
//! position of a snapshot of the whole canvas.
use crate::canvas::{clamp_to, Canvas, Color};
use vstd::prelude::*;

verus! {

/// The pixel that lands on `(x, y)`: the one read at `x` moved by
/// `x_shift[y]` and `y` moved by `y_shift[x]`, both held inside the canvas.
pub open spec fn warped_pixel(c: Canvas, x_shift: Seq<i32>, y_shift: Seq<i32>, x: int, y: int) -> Color {
    c.pixel(
        clamp_to(x + x_shift[y] as int, c.spec_width() - 1),
        clamp_to(y + y_shift[x] as int, c.spec_height() - 1),
    )
}

/// The wave distortion of a given strength. Strength 0 leaves the canvas
/// exactly as it was; any other strength remaps it by the displacement
/// tables, which hold one horizontal shift per row and one vertical shift
/// per column.
pub fn apply_wavy_distortion(canvas: &mut Canvas, level: u32, x_shift: &Vec<i32>, y_shift: &Vec<i32>)
    requires
        old(canvas).wf(),
        x_shift@.len() == old(canvas).spec_height(),
        y_shift@.len() == old(canvas).spec_width(),
    ensures
        final(canvas).wf(),
        final(canvas).spec_width() == old(canvas).spec_width(),
        final(canvas).spec_height() == old(canvas).spec_height(),
        level == 0 ==> *final(canvas) == *old(canvas),
        level != 0 ==> forall|x: int, y: int|
            0 <= x < old(canvas).spec_width() && 0 <= y < old(canvas).spec_height()
                ==> #[trigger] final(canvas).pixel(x, y) == warped_pixel(*old(canvas), x_shift@, y_shift@, x, y),
{
    if level != 0 {
        canvas.warp(x_shift, y_shift);
    }
}

} // verus!
