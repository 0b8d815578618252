//! The character grid a frame is rendered into.

use vstd::prelude::*;

use crate::constants::{HEIGHT, WIDTH};
use crate::objects::{Object, wf};
use crate::scene::{Camera, camera_ray_spec, light_intensity_spec};

verus! {

/// What a fresh screen buffer holds at row `i`, column `j`: a frame of
/// pipes down the sides, dashes along the top and bottom, and blanks
/// inside (corners get pipes).
pub open spec fn initial_cell(i: int, j: int) -> char {
    if j == 0 || j == WIDTH as int - 1 {
        '|'
    } else if i == 0 || i == HEIGHT as int - 1 {
        '-'
    } else {
        ' '
    }
}

/// The character the renderer writes at row `i`, column `j`.
pub open spec fn rendered_cell(cam: Camera, o: Object, i: int, j: int) -> char {
    light_intensity_spec(cam, o, camera_ray_spec(cam, i, j))
}

/// A fresh screen buffer: `HEIGHT` rows of `WIDTH` characters, blank
/// inside a drawn border.
pub fn initialize_screen_buffer() -> (r: Vec<Vec<char>>)
    ensures
        r@.len() == HEIGHT as int,
        forall|i: int| 0 <= i < HEIGHT as int ==> (#[trigger] r@[i])@.len() == WIDTH as int,
        forall|i: int, j: int|
            0 <= i < HEIGHT as int && 0 <= j < WIDTH as int ==> (#[trigger] r@[i]@[j])
                == initial_cell(i, j),
{
    let height: usize = 100;
    let width: usize = 360;
    let mut buffer: Vec<Vec<char>> = Vec::new();
    let mut i: usize = 0;
    while i < height
        invariant
            height == 100,
            width == 360,
            0 <= i <= height,
            buffer@.len() == i as int,
            forall|a: int| 0 <= a < i as int ==> (#[trigger] buffer@[a])@.len() == width as int,
            forall|a: int, b: int|
                0 <= a < i as int && 0 <= b < width as int ==> (#[trigger] buffer@[a]@[b])
                    == initial_cell(a, b),
        decreases height - i,
    {
        let mut row: Vec<char> = Vec::new();
        let mut j: usize = 0;
        while j < width
            invariant
                height == 100,
                width == 360,
                0 <= i < height,
                0 <= j <= width,
                row@.len() == j as int,
                forall|b: int| 0 <= b < j as int ==> (#[trigger] row@[b]) == initial_cell(
                    i as int,
                    b,
                ),
            decreases width - j,
        {
            let ch: char = if j == 0 || j == width - 1 {
                '|'
            } else if i == 0 || i == height - 1 {
                '-'
            } else {
                ' '
            };
            row.push(ch);
            j = j + 1;
        }
        buffer.push(row);
        i = i + 1;
    }
    buffer
}

/// Render one frame: fill every interior cell of the buffer with the
/// scene's character at that cell, leaving the border row and column
/// untouched. Each cell is an independent computation of the camera, the
/// scene and the cell's indices alone.
pub fn render_to_buffer(camera: &Camera, object: &Object, buffer: &mut Vec<Vec<char>>)
    requires
        wf(*object),
        old(buffer)@.len() == HEIGHT as int,
        forall|i: int|
            0 <= i < HEIGHT as int ==> (#[trigger] old(buffer)@[i])@.len() == WIDTH as int,
    ensures
        final(buffer)@.len() == HEIGHT as int,
        forall|i: int|
            0 <= i < HEIGHT as int ==> (#[trigger] final(buffer)@[i])@.len() == WIDTH as int,
        forall|i: int, j: int|
            0 <= i < HEIGHT as int && 0 <= j < WIDTH as int
                ==> (#[trigger] final(buffer)@[i]@[j])
                == if 1 <= i < HEIGHT as int - 1 && 1 <= j < WIDTH as int - 1 {
                rendered_cell(*camera, *object, i, j)
            } else {
                old(buffer)@[i]@[j]
            },
{
    let height: usize = 100;
    let width: usize = 360;
    let mut i: usize = 1;
    while i < height - 1
        invariant
            height == 100,
            width == 360,
            wf(*object),
            1 <= i <= height - 1,
            buffer@.len() == HEIGHT as int,
            forall|a: int|
                0 <= a < HEIGHT as int ==> (#[trigger] buffer@[a])@.len() == WIDTH as int,
            forall|a: int, b: int|
                0 <= a < HEIGHT as int && 0 <= b < WIDTH as int ==> (#[trigger] buffer@[a]@[b])
                    == if 1 <= a < i as int && 1 <= b < WIDTH as int - 1 {
                    rendered_cell(*camera, *object, a, b)
                } else {
                    old(buffer)@[a]@[b]
                },
        decreases height - 1 - i,
    {
        let left = buffer[i][0];
        let right = buffer[i][width - 1];
        let mut new_row: Vec<char> = Vec::new();
        new_row.push(left);
        let mut j: usize = 1;
        while j < width - 1
            invariant
                height == 100,
                width == 360,
                wf(*object),
                1 <= i < height - 1,
                1 <= j <= width - 1,
                left == buffer@[i as int]@[0],
                right == buffer@[i as int]@[width as int - 1],
                buffer@.len() == HEIGHT as int,
                forall|a: int|
                    0 <= a < HEIGHT as int ==> (#[trigger] buffer@[a])@.len() == WIDTH as int,
                forall|a: int, b: int|
                    0 <= a < HEIGHT as int && 0 <= b < WIDTH as int ==> (#[trigger] buffer@[a]@[b])
                        == if 1 <= a < i as int && 1 <= b < WIDTH as int - 1 {
                        rendered_cell(*camera, *object, a, b)
                    } else {
                        old(buffer)@[a]@[b]
                    },
                new_row@.len() == j as int,
                new_row@[0] == left,
                forall|b: int|
                    1 <= b < j as int ==> (#[trigger] new_row@[b]) == rendered_cell(
                        *camera,
                        *object,
                        i as int,
                        b,
                    ),
            decreases width - 1 - j,
        {
            let ch = camera.render_pixel(object, i as i32, j as i32);
            new_row.push(ch);
            j = j + 1;
        }
        new_row.push(right);
        buffer[i] = new_row;
        i = i + 1;
    }
}

} // verus!
