use automata::cell::CellState;
use automata::grid::CellGrid;
use automata::model::{Mode, ScrollMode};

fn row_bits(g: &CellGrid, y: usize) -> Vec<u8> {
    (0..g.width)
        .map(|x| match g.cells[y * g.width + x].state {
            CellState::On => 1,
            CellState::Off => 0,
        })
        .collect()
}

#[test]
fn rule_30_decodes_to_its_table() {
    let g = CellGrid::new(Mode::Wolfram, 8, 4, vec![(4, 0)], true, ScrollMode::Stop, 30)
        .unwrap();
    // patterns 111, 110, 101, 100, 011, 010, 001, 000 in order
    let expected = vec![
        CellState::Off,
        CellState::Off,
        CellState::Off,
        CellState::On,
        CellState::On,
        CellState::On,
        CellState::On,
        CellState::Off,
    ];
    assert_eq!(g.rule_table, expected);
}

#[test]
fn rule_110_decodes_to_its_table() {
    let g = CellGrid::new(Mode::Wolfram, 8, 4, vec![(4, 0)], true, ScrollMode::Stop, 110)
        .unwrap();
    // 110 is 01101110 in binary, most significant bit first
    let expected = vec![
        CellState::Off,
        CellState::On,
        CellState::On,
        CellState::Off,
        CellState::On,
        CellState::On,
        CellState::On,
        CellState::Off,
    ];
    assert_eq!(g.rule_table, expected);
}

#[test]
fn rule_30_first_computed_row() {
    let g = CellGrid::new(Mode::Wolfram, 5, 3, vec![(2, 0)], true, ScrollMode::Shift, 30)
        .unwrap();
    assert_eq!(row_bits(&g, 0), vec![0, 0, 1, 0, 0]);
    let g1 = g.step();
    assert_eq!(g1.w_line, 2);
    assert_eq!(row_bits(&g1, 0), vec![0, 0, 1, 0, 0]);
    assert_eq!(row_bits(&g1, 1), vec![0, 1, 1, 1, 0]);
    assert_eq!(row_bits(&g1, 2), vec![0, 0, 0, 0, 0]);
}

#[test]
fn shift_moves_every_row_up_one() {
    let g = CellGrid::new(Mode::Wolfram, 5, 3, vec![(2, 0)], true, ScrollMode::Shift, 30)
        .unwrap();
    let g1 = g.step();
    let g2 = g1.step();
    // the step computed row 2 from row 1, then shifted the grid up one row
    assert_eq!(g2.w_line, 2);
    assert_eq!(row_bits(&g2, 0), vec![0, 1, 1, 1, 0]);
    assert_eq!(row_bits(&g2, 1), vec![1, 1, 0, 0, 1]);
    // the freed bottom row is refilled from the discarded top row
    assert_eq!(row_bits(&g2, 2), vec![0, 0, 1, 0, 0]);
    // coordinates stay row-major after the shift
    for (i, c) in g2.cells.iter().enumerate() {
        assert_eq!(c.x, (i % 5) as i32);
        assert_eq!(c.y, (i / 5) as i32);
    }
}

#[test]
fn stop_freezes_at_the_bottom_row() {
    let g = CellGrid::new(Mode::Wolfram, 5, 4, vec![(2, 0)], true, ScrollMode::Stop, 30)
        .unwrap();
    let mut g = g;
    for _ in 0..3 {
        g = g.step();
    }
    assert_eq!(g.w_line, 3);
    let frozen_rows: Vec<Vec<u8>> = (0..3).map(|y| row_bits(&g, y)).collect();
    for _ in 0..5 {
        g = g.step();
        assert_eq!(g.w_line, 3);
        for y in 0..3 {
            assert_eq!(row_bits(&g, y), frozen_rows[y]);
        }
    }
}

#[test]
fn loop_wraps_the_active_row_to_the_top() {
    let g = CellGrid::new(Mode::Wolfram, 5, 2, vec![(2, 0)], true, ScrollMode::Loop, 30)
        .unwrap();
    let g1 = g.step();
    assert_eq!(g1.w_line, 0);
    assert_eq!(row_bits(&g1, 0), vec![0, 0, 1, 0, 0]);
    assert_eq!(row_bits(&g1, 1), vec![0, 1, 1, 1, 0]);
    // the next step recomputes row 0 from row 1, wrapping the y axis
    let g2 = g1.step();
    assert_eq!(g2.w_line, 1);
    assert_eq!(row_bits(&g2, 0), vec![1, 1, 0, 0, 1]);
    assert_eq!(row_bits(&g2, 1), vec![0, 1, 1, 1, 0]);
}

#[test]
fn missing_predecessors_read_as_off_without_wrap() {
    // rule 1 turns a cell on exactly when its predecessor triple is 000;
    // at the edges the missing member resolves to Off, so the whole row
    // under an empty seed row lights up
    let g = CellGrid::new(Mode::Wolfram, 3, 2, vec![], false, ScrollMode::Stop, 1).unwrap();
    let g1 = g.step();
    assert_eq!(row_bits(&g1, 1), vec![1, 1, 1]);
}

#[test]
fn wolfram_leaves_other_rows_untouched() {
    let g = CellGrid::new(Mode::Wolfram, 4, 4, vec![(1, 0), (3, 2)], true, ScrollMode::Stop, 30)
        .unwrap();
    let g1 = g.step();
    assert_eq!(g1.w_line, 2);
    assert_eq!(row_bits(&g1, 0), row_bits(&g, 0));
    assert_eq!(row_bits(&g1, 2), row_bits(&g, 2));
    assert_eq!(row_bits(&g1, 3), row_bits(&g, 3));
}

#[test]
fn wolfram_stepping_is_deterministic() {
    let mut a = CellGrid::new(Mode::Wolfram, 6, 4, vec![(3, 0)], true, ScrollMode::Shift, 110)
        .unwrap();
    let mut b = CellGrid::new(Mode::Wolfram, 6, 4, vec![(3, 0)], true, ScrollMode::Shift, 110)
        .unwrap();
    for _ in 0..6 {
        a = a.step();
        b = b.step();
    }
    assert_eq!(a.cells, b.cells);
    assert_eq!(a.w_line, b.w_line);
}
