use automata::cell::{Cell, CellState, Color, GLYPH_OFF, GLYPH_ON};
use automata::cell_map::{CellMap, MAPCOUNT, MAPHEIGHT, MAPWIDTH};
use automata::control::{next_run_state, RunState};
use automata::coords::{idx_xy, xy_idx};
use automata::grid::{moore_offsets, CellGrid};
use automata::model::{Mode, ScrollMode};

#[test]
fn coordinates_round_trip() {
    let width = 7usize;
    let height = 5usize;
    for y in 0..height as i32 {
        for x in 0..width as i32 {
            let idx = xy_idx(x, y, width);
            assert_eq!(idx_xy(idx, width), (x, y));
        }
    }
    for idx in 0..width * height {
        let (x, y) = idx_xy(idx, width);
        assert_eq!(xy_idx(x, y, width), idx);
    }
    assert_eq!(xy_idx(3, 2, 7), 17);
    assert_eq!(idx_xy(17, 7), (3, 2));
}

#[test]
fn moore_offsets_radius_one() {
    let offs = moore_offsets(1);
    let expected = vec![
        (-1, -1),
        (-1, 0),
        (-1, 1),
        (0, -1),
        (0, 0),
        (0, 1),
        (1, -1),
        (1, 0),
        (1, 1),
    ];
    assert_eq!(offs, expected);
}

#[test]
fn moore_offsets_radius_two() {
    let offs = moore_offsets(2);
    assert_eq!(offs.len(), 25);
    assert_eq!(offs[0], (-2, -2));
    assert_eq!(offs[12], (0, 0));
    assert_eq!(offs[24], (2, 2));
}

#[test]
fn cell_display_attributes_follow_state() {
    let on = Cell::new(CellState::On, 3, 4);
    assert_eq!(on.state, CellState::On);
    assert_eq!((on.x, on.y), (3, 4));
    assert_eq!(on.glyph, GLYPH_ON);
    assert_eq!(on.fg, Color::Black);
    assert_eq!(on.bg, Color::Grey);
    let off = Cell::new(CellState::Off, 0, 0);
    assert_eq!(off.glyph, GLYPH_OFF);
    assert_eq!(off.fg, Color::Black);
    assert_eq!(off.bg, Color::Grey);
}

#[test]
fn draw_cells_lists_every_cell_in_order() {
    let g = CellGrid::new(Mode::Conway, 3, 2, vec![(1, 0)], false, ScrollMode::Stop, 30)
        .unwrap();
    let out = g.draw_cells();
    assert_eq!(out.len(), 6);
    for (i, &(x, y, glyph, fg, bg)) in out.iter().enumerate() {
        assert_eq!(x, (i % 3) as i32);
        assert_eq!(y, (i / 3) as i32);
        let expected_glyph = if (x, y) == (1, 0) { GLYPH_ON } else { GLYPH_OFF };
        assert_eq!(glyph, expected_glyph);
        assert_eq!(fg, Color::Black);
        assert_eq!(bg, Color::Grey);
    }
}

#[test]
fn cell_map_seeds_its_center() {
    let m = CellMap::new();
    assert_eq!(m.width as usize, MAPWIDTH);
    assert_eq!(m.height as usize, MAPHEIGHT);
    assert_eq!(m.cells.len(), MAPCOUNT);
    let center = CellMap::xy_idx((MAPWIDTH as i32) / 2, (MAPHEIGHT as i32) / 2);
    for (i, s) in m.cells.iter().enumerate() {
        if i == center {
            assert_eq!(*s, CellState::On);
        } else {
            assert_eq!(*s, CellState::Off);
        }
    }
}

#[test]
fn cell_map_index_is_row_major() {
    assert_eq!(CellMap::xy_idx(0, 0), 0);
    assert_eq!(CellMap::xy_idx(79, 0), 79);
    assert_eq!(CellMap::xy_idx(0, 1), 80);
    assert_eq!(CellMap::xy_idx(40, 25), 2040);
}

#[test]
fn pause_key_toggles_the_run_state() {
    assert_eq!(next_run_state(RunState::Running, true), RunState::Paused);
    assert_eq!(next_run_state(RunState::Paused, true), RunState::Running);
    assert_eq!(next_run_state(RunState::Running, false), RunState::Running);
    assert_eq!(next_run_state(RunState::Paused, false), RunState::Paused);
}
