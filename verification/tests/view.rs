use raycaster::canvas::Canvas;
use raycaster::view::{draw_slice, fill_floor, render_view, Slice, FLOOR};

fn rows(canvas: &Canvas) -> Vec<String> {
    (0..canvas.height() as i32)
        .map(|y| (0..canvas.width() as i32).map(|x| canvas.glyph_at(x, y).unwrap()).collect())
        .collect()
}

#[test]
fn floor_glyph_is_the_backtick() {
    assert_eq!(FLOOR, '`');
}

#[test]
fn fill_floor_covers_the_lower_half() {
    let mut canvas = Canvas::new(3, 4).unwrap();
    fill_floor(&mut canvas);
    assert_eq!(rows(&canvas), vec!["   ", "   ", "```", "```"]);
}

#[test]
fn fill_floor_of_an_odd_height_starts_on_the_middle_row_rounded_down() {
    let mut canvas = Canvas::new(2, 5).unwrap();
    fill_floor(&mut canvas);
    assert_eq!(rows(&canvas), vec!["  ", "  ", "``", "``", "``"]);
    let mut canvas = Canvas::new(2, 1).unwrap();
    fill_floor(&mut canvas);
    assert_eq!(rows(&canvas), vec!["``"]);
}

#[test]
fn fill_floor_leaves_the_upper_half_as_it_was() {
    let mut canvas = Canvas::new(2, 4).unwrap();
    canvas.fill_rect(0, 0, 1, 3, 'x');
    fill_floor(&mut canvas);
    assert_eq!(rows(&canvas), vec!["xx", "xx", "``", "``"]);
}

#[test]
fn draw_slice_spans_the_horizon_by_half_each_way() {
    let mut canvas = Canvas::new(3, 8).unwrap();
    draw_slice(&mut canvas, 1, Slice { half: 2, glyph: '#' });
    // The horizon is row 4: rows 2 to 6.
    assert_eq!(rows(&canvas), vec!["   ", "   ", " # ", " # ", " # ", " # ", " # ", "   "]);
}

#[test]
fn draw_slice_of_half_zero_is_one_cell_on_the_horizon() {
    let mut canvas = Canvas::new(2, 4).unwrap();
    draw_slice(&mut canvas, 0, Slice { half: 0, glyph: '=' });
    assert_eq!(rows(&canvas), vec!["  ", "  ", "= ", "  "]);
}

#[test]
fn draw_slice_taller_than_the_canvas_fills_its_column() {
    let mut canvas = Canvas::new(2, 4).unwrap();
    draw_slice(&mut canvas, 1, Slice { half: 19, glyph: '#' });
    assert_eq!(rows(&canvas), vec![" #", " #", " #", " #"]);
    let mut canvas = Canvas::new(2, 4).unwrap();
    draw_slice(&mut canvas, 0, Slice { half: i32::MAX, glyph: '#' });
    assert_eq!(rows(&canvas), vec!["# ", "# ", "# ", "# "]);
}

#[test]
fn draw_slice_of_negative_half_spans_the_same_rows() {
    let mut canvas = Canvas::new(1, 6).unwrap();
    draw_slice(&mut canvas, 0, Slice { half: -1, glyph: '#' });
    assert_eq!(rows(&canvas), vec![" ", " ", "#", "#", "#", " "]);
    let mut canvas = Canvas::new(1, 6).unwrap();
    draw_slice(&mut canvas, 0, Slice { half: i32::MIN, glyph: '#' });
    assert_eq!(rows(&canvas), vec!["#", "#", "#", "#", "#", "#"]);
}

#[test]
fn draw_slice_off_the_canvas_changes_nothing() {
    let mut canvas = Canvas::new(2, 4).unwrap();
    for x in [-1, 2, i32::MIN, i32::MAX] {
        draw_slice(&mut canvas, x, Slice { half: 3, glyph: '#' });
    }
    assert_eq!(rows(&canvas), vec!["  ", "  ", "  ", "  "]);
}

#[test]
fn render_view_draws_walls_over_the_floor() {
    let mut canvas = Canvas::new(4, 6).unwrap();
    let slices = vec![
        Slice { half: 0, glyph: 'a' },
        Slice { half: 1, glyph: 'b' },
        Slice { half: 2, glyph: 'c' },
        Slice { half: 19, glyph: 'd' },
    ];
    render_view(&mut canvas, &slices);
    assert_eq!(rows(&canvas), vec!["   d", "  cd", " bcd", "abcd", "`bcd", "``cd"]);
}

#[test]
fn render_view_lays_new_floor_over_old_walls() {
    let mut canvas = Canvas::new(2, 4).unwrap();
    render_view(&mut canvas, &vec![Slice { half: 1, glyph: '#' }, Slice { half: 1, glyph: '#' }]);
    assert_eq!(rows(&canvas), vec!["  ", "##", "##", "##"]);
    render_view(&mut canvas, &vec![Slice { half: 0, glyph: '=' }, Slice { half: 0, glyph: '=' }]);
    // The upper half keeps what the last frame left there.
    assert_eq!(rows(&canvas), vec!["  ", "##", "==", "``"]);
}

#[test]
fn render_view_with_fewer_slices_than_columns_leaves_the_rest_floor() {
    let mut canvas = Canvas::new(3, 4).unwrap();
    render_view(&mut canvas, &vec![Slice { half: 1, glyph: '#' }]);
    assert_eq!(rows(&canvas), vec!["   ", "#  ", "#``", "#``"]);
}

#[test]
fn render_view_with_more_slices_than_columns_ignores_the_rest() {
    let mut canvas = Canvas::new(1, 2).unwrap();
    render_view(&mut canvas, &vec![Slice { half: 0, glyph: 'a' }, Slice { half: 5, glyph: 'b' }]);
    assert_eq!(rows(&canvas), vec![" ", "a"]);
}

#[test]
fn render_view_without_slices_is_the_floor() {
    let mut canvas = Canvas::new(2, 2).unwrap();
    render_view(&mut canvas, &Vec::new());
    assert_eq!(rows(&canvas), vec!["  ", "``"]);
}

#[test]
fn render_view_on_a_canvas_without_cells_does_nothing() {
    let mut canvas = Canvas::new(0, 0).unwrap();
    render_view(&mut canvas, &vec![Slice { half: 1, glyph: '#' }]);
    assert_eq!((canvas.width(), canvas.height()), (0, 0));
}

#[test]
fn half_height_follows_the_arctangent() {
    // The half height of a slice is the arctangent of the inverse distance,
    // times twelve, rounded; the view draws whatever half it is given.
    let half = |distance: f32| ((1.0 / distance).atan() * 12.0).round() as i32;
    assert_eq!(half(0.0), 19);
    assert_eq!(half(0.5), 13);
    assert_eq!(half(1.0), 9);
    assert_eq!(half(5.0), 2);
    assert_eq!(half(1000.0), 0);
    let mut canvas = Canvas::new(1, 40).unwrap();
    draw_slice(&mut canvas, 0, Slice { half: half(0.0), glyph: '#' });
    assert_eq!(canvas.glyph_at(0, 0), Some(' '));
    assert_eq!(canvas.glyph_at(0, 1), Some('#'));
    assert_eq!(canvas.glyph_at(0, 39), Some('#'));
}
