use step_sequencer::viewport::{
    clamp_cam_pos, on_window_resize, required_columns, rows, scroll, setup, update_column_count,
    Camera, ColumnCount, Columns, Extent, ScrollUnit, Wheel, CELL_HEIGHT, CELL_WIDTH, PITCH_SPAN,
};

fn window(half_width: u32, half_height: u32) -> Extent {
    Extent { half_width, half_height }
}

#[test]
fn cell_sizes() {
    assert_eq!(CELL_WIDTH, 50);
    assert_eq!(CELL_HEIGHT, 25);
    assert_eq!(PITCH_SPAN, 120 * CELL_HEIGHT);
}

#[test]
fn clamp_floors_x_at_half_the_width() {
    let mut cam = Camera { x: 10, y: 1500 };
    clamp_cam_pos(&mut cam, window(400, 300));
    assert_eq!(cam, Camera { x: 400, y: 1500 });
    let mut cam = Camera { x: -5000, y: 1500 };
    clamp_cam_pos(&mut cam, window(400, 300));
    assert_eq!(cam.x, 400);
}

#[test]
fn clamp_leaves_x_unbounded_to_the_right() {
    let mut cam = Camera { x: i64::MAX, y: 1500 };
    clamp_cam_pos(&mut cam, window(400, 300));
    assert_eq!(cam.x, i64::MAX);
}

#[test]
fn clamp_keeps_y_between_the_rows() {
    let mut cam = Camera { x: 400, y: 0 };
    clamp_cam_pos(&mut cam, window(400, 300));
    assert_eq!(cam.y, 300);
    let mut cam = Camera { x: 400, y: 2900 };
    clamp_cam_pos(&mut cam, window(400, 300));
    assert_eq!(cam.y, 2700);
    let mut cam = Camera { x: 400, y: 2700 };
    clamp_cam_pos(&mut cam, window(400, 300));
    assert_eq!(cam.y, 2700);
    let mut cam = Camera { x: 400, y: i64::MIN };
    clamp_cam_pos(&mut cam, window(400, 300));
    assert_eq!(cam.y, 300);
}

#[test]
fn clamp_in_a_window_taller_than_the_rows_takes_the_low_bound() {
    for y in [i64::MIN, -1, 0, 1500, 1999, 2000, 2001, 5000, i64::MAX] {
        let mut cam = Camera { x: 400, y };
        clamp_cam_pos(&mut cam, window(400, 2000));
        assert_eq!(cam.y, 2000);
    }
}

#[test]
fn clamp_in_a_window_as_tall_as_the_rows() {
    let mut cam = Camera { x: 400, y: 7 };
    clamp_cam_pos(&mut cam, window(400, 1500));
    assert_eq!(cam.y, 1500);
    let mut cam = Camera { x: 400, y: 2999 };
    clamp_cam_pos(&mut cam, window(400, 1501));
    assert_eq!(cam.y, 1501);
}

#[test]
fn required_columns_is_floor_of_right_edge_over_cell_width() {
    assert_eq!(required_columns(400, window(400, 300)), 16);
    assert_eq!(required_columns(449, window(400, 300)), 16);
    assert_eq!(required_columns(450, window(400, 300)), 17);
    assert_eq!(required_columns(0, window(0, 0)), 0);
    assert_eq!(required_columns(49, window(0, 0)), 0);
    assert_eq!(required_columns(-400, window(400, 300)), 0);
    assert_eq!(required_columns(-10_000, window(400, 300)), 0);
    assert_eq!(
        required_columns(i64::MAX, window(u32::MAX, 0)),
        ((i64::MAX as i128 + u32::MAX as i128) / 50) as u64
    );
}

#[test]
fn count_never_goes_down() {
    let mut count = ColumnCount::new();
    assert_eq!(count.get(), 0);
    assert_eq!(count.raise(16), Columns { after: 0, through: 16 });
    assert_eq!(count.get(), 16);
    assert_eq!(count.raise(10), Columns { after: 16, through: 16 });
    assert_eq!(count.get(), 16);
    assert_eq!(count.raise(16), Columns { after: 16, through: 16 });
    assert_eq!(count.raise(21), Columns { after: 16, through: 21 });
    assert_eq!(count.get(), 21);
}

#[test]
fn no_column_is_asked_for_twice() {
    let mut count = ColumnCount::new();
    let mut drawn = Vec::new();
    let mut last = 0;
    for required in [5u64, 3, 9, 9, 0, 12, 11, 40, 2] {
        let columns = count.raise(required);
        assert!(count.get() >= last);
        last = count.get();
        for column in columns.after + 1..=columns.through {
            assert!(!drawn.contains(&column));
            drawn.push(column);
        }
    }
    assert_eq!(last, 40);
    assert_eq!(drawn, (1..=40).collect::<Vec<u64>>());
}

#[test]
fn update_draws_only_what_came_into_view() {
    let mut count = ColumnCount::new();
    let cam = Camera { x: 400, y: 1500 };
    assert_eq!(
        update_column_count(&mut count, &cam, window(400, 300)),
        Columns { after: 0, through: 16 }
    );
    let cam = Camera { x: 1000, y: 1500 };
    assert_eq!(
        update_column_count(&mut count, &cam, window(400, 300)),
        Columns { after: 16, through: 28 }
    );
    let cam = Camera { x: 400, y: 1500 };
    assert_eq!(
        update_column_count(&mut count, &cam, window(400, 300)),
        Columns { after: 28, through: 28 }
    );
}

#[test]
fn setup_centres_the_camera_and_draws_the_window() {
    let (cam, count, columns) = setup(window(640, 360));
    assert_eq!(cam, Camera { x: 640, y: 1500 });
    assert_eq!(count.get(), 25);
    assert_eq!(columns, Columns { after: 0, through: 25 });
}

#[test]
fn resize_clamps_and_draws() {
    let (mut cam, mut count, _) = setup(window(400, 300));
    let columns = on_window_resize(&mut count, &mut cam, window(800, 2000));
    assert_eq!(cam, Camera { x: 800, y: 2000 });
    assert_eq!(columns, Columns { after: 16, through: 32 });
    let columns = on_window_resize(&mut count, &mut cam, window(100, 100));
    assert_eq!(cam, Camera { x: 800, y: 2000 });
    assert_eq!(columns, Columns { after: 32, through: 32 });
    assert_eq!(count.get(), 32);
}

#[test]
fn scroll_by_pixels() {
    let (mut cam, mut count, _) = setup(window(400, 300));
    let wheel = Wheel { unit: ScrollUnit::Pixel, x: -120, y: 40 };
    let columns = scroll(&mut count, &mut cam, window(400, 300), wheel, false);
    assert_eq!(cam, Camera { x: 520, y: 1540 });
    assert_eq!(columns, Columns { after: 16, through: 18 });
}

#[test]
fn scroll_by_lines_counts_rows() {
    let (mut cam, mut count, _) = setup(window(400, 300));
    let wheel = Wheel { unit: ScrollUnit::Line, x: -2, y: -3 };
    let columns = scroll(&mut count, &mut cam, window(400, 300), wheel, false);
    assert_eq!(cam, Camera { x: 450, y: 1425 });
    assert_eq!(columns, Columns { after: 16, through: 17 });
}

#[test]
fn scroll_with_shift_swaps_the_axes() {
    let (mut cam, mut count, _) = setup(window(400, 300));
    let wheel = Wheel { unit: ScrollUnit::Line, x: 1, y: -4 };
    let columns = scroll(&mut count, &mut cam, window(400, 300), wheel, true);
    assert_eq!(cam, Camera { x: 500, y: 1525 });
    assert_eq!(columns, Columns { after: 16, through: 18 });
}

#[test]
fn scroll_is_clamped() {
    let (mut cam, mut count, _) = setup(window(400, 300));
    let wheel = Wheel { unit: ScrollUnit::Pixel, x: i32::MAX, y: i32::MIN };
    let columns = scroll(&mut count, &mut cam, window(400, 300), wheel, false);
    assert_eq!(cam, Camera { x: 400, y: 300 });
    assert_eq!(columns, Columns { after: 16, through: 16 });
    let wheel = Wheel { unit: ScrollUnit::Line, x: 0, y: i32::MAX };
    scroll(&mut count, &mut cam, window(400, 300), wheel, false);
    assert_eq!(cam, Camera { x: 400, y: 2700 });
}

#[test]
fn scroll_back_draws_nothing() {
    let (mut cam, mut count, _) = setup(window(400, 300));
    let right = Wheel { unit: ScrollUnit::Pixel, x: -1000, y: 0 };
    let left = Wheel { unit: ScrollUnit::Pixel, x: 1000, y: 0 };
    assert_eq!(
        scroll(&mut count, &mut cam, window(400, 300), right, false),
        Columns { after: 16, through: 36 }
    );
    assert_eq!(
        scroll(&mut count, &mut cam, window(400, 300), left, false),
        Columns { after: 36, through: 36 }
    );
    assert_eq!(
        scroll(&mut count, &mut cam, window(400, 300), right, false),
        Columns { after: 36, through: 36 }
    );
    assert_eq!(count.get(), 36);
}

#[test]
fn rows_run_from_the_lowest_semitone_up() {
    let rows = rows();
    assert_eq!(rows.len(), 120);
    assert_eq!(rows[0].semi.0, 0);
    assert_eq!(rows[0].line_y, 0);
    assert_eq!(rows[0].name, "C0");
    assert_eq!(rows[57].semi.0, 57);
    assert_eq!(rows[57].line_y, 1425);
    assert_eq!(rows[57].name, "A4");
    assert_eq!(rows[119].line_y, 2975);
    assert_eq!(rows[119].name, "B9");
    for (i, row) in rows.iter().enumerate() {
        assert_eq!(row.semi.0 as usize, i);
        assert_eq!(row.line_y as usize, i * 25);
        assert_eq!(row.name, row.semi.name());
    }
}
