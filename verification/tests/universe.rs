use game_of_life::Cell;
use game_of_life::Universe;

const DEAD_GLYPH: char = '\u{25FB}';
const ALIVE_GLYPH: char = '\u{25FC}';

/// Builds a universe from rows of text in which `#` is a live cell and any
/// other character a dead one.
fn universe_from_rows(rows: &[&str]) -> Universe {
    let height = rows.len() as u32;
    let width = if rows.is_empty() { 0 } else { rows[0].chars().count() as u32 };
    let mut cells = Vec::new();
    for row in rows {
        assert_eq!(row.chars().count() as u32, width);
        for symbol in row.chars() {
            cells.push(if symbol == '#' { Cell::Alive } else { Cell::Dead });
        }
    }
    Universe::from_cells(width, height, cells).expect("rows of equal length")
}

/// Writes a universe as rows of `#` and `.`.
fn rows_of(universe: &Universe) -> Vec<String> {
    let width = universe.width() as usize;
    let mut rows = Vec::new();
    for row in 0..universe.height() as usize {
        let mut line = String::new();
        for column in 0..width {
            let cell = universe.cells()[row * width + column];
            line.push(if cell == Cell::Alive { '#' } else { '.' });
        }
        rows.push(line);
    }
    rows
}

#[test]
fn new_has_default_dimensions() {
    let universe = Universe::new();
    assert_eq!(universe.width(), 64);
    assert_eq!(universe.height(), 64);
    assert_eq!(universe.cells().len(), 4096);
}

#[test]
fn new_seeds_multiples_of_two_and_seven() {
    let universe = Universe::new();
    let cells = universe.cells();
    for i in 0..4096usize {
        let expected = if i % 2 == 0 || i % 7 == 0 { Cell::Alive } else { Cell::Dead };
        assert_eq!(cells[i], expected);
    }
    assert_eq!(cells[0], Cell::Alive);
    assert_eq!(cells[1], Cell::Dead);
    assert_eq!(cells[7], Cell::Alive);
    assert_eq!(cells[9], Cell::Dead);
    assert_eq!(cells[21], Cell::Alive);
    assert_eq!(cells[4095], Cell::Alive);
    assert_eq!(cells[4093], Cell::Dead);
}

#[test]
fn new_is_deterministic() {
    let first = Universe::new();
    let second = Universe::new();
    assert_eq!(first.cells(), second.cells());
    assert_eq!(first.render(), second.render());
}

#[test]
fn buffer_length_matches_dimensions_after_every_tick() {
    let mut universe = Universe::new();
    for _ in 0..5 {
        let expected = universe.width() as u64 * universe.height() as u64;
        assert_eq!(universe.cells().len() as u64, expected);
        universe.tick();
        assert_eq!(universe.width(), 64);
        assert_eq!(universe.height(), 64);
    }
    assert_eq!(universe.cells().len(), 4096);

    let mut small = universe_from_rows(&["#..", ".#.", "..#", "###", "..."]);
    assert_eq!(small.cells().len(), 15);
    small.tick();
    assert_eq!(small.width(), 3);
    assert_eq!(small.height(), 5);
    assert_eq!(small.cells().len(), 15);
}

#[test]
fn from_cells_accepts_exactly_width_times_height_cells() {
    assert!(Universe::from_cells(2, 3, vec![Cell::Dead; 6]).is_some());
    assert!(Universe::from_cells(2, 3, vec![Cell::Dead; 5]).is_none());
    assert!(Universe::from_cells(2, 3, vec![Cell::Dead; 7]).is_none());
    assert!(Universe::from_cells(2, 3, Vec::new()).is_none());
    assert!(Universe::from_cells(0, 0, vec![Cell::Alive]).is_none());
    assert!(Universe::from_cells(65536, 65536, vec![Cell::Dead; 4]).is_none());
    assert!(Universe::from_cells(65536, 65536, Vec::new()).is_none());
    assert!(Universe::from_cells(u32::MAX, u32::MAX, Vec::new()).is_none());
}

#[test]
fn from_cells_keeps_dimensions_and_cells() {
    let cells = vec![Cell::Alive, Cell::Dead, Cell::Dead, Cell::Alive, Cell::Alive, Cell::Dead];
    let universe = Universe::from_cells(3, 2, cells.clone()).unwrap();
    assert_eq!(universe.width(), 3);
    assert_eq!(universe.height(), 2);
    assert_eq!(universe.cells(), &cells[..]);
}

#[test]
fn empty_universes_are_inert() {
    let mut nothing = Universe::from_cells(0, 0, Vec::new()).unwrap();
    nothing.tick();
    assert_eq!(nothing.cells().len(), 0);
    assert_eq!(nothing.render(), "");

    let mut no_columns = Universe::from_cells(0, 3, Vec::new()).unwrap();
    no_columns.tick();
    assert_eq!(no_columns.height(), 3);
    assert_eq!(no_columns.cells().len(), 0);
    assert_eq!(no_columns.render(), "\n\n\n");

    let mut no_rows = Universe::from_cells(3, 0, Vec::new()).unwrap();
    no_rows.tick();
    assert_eq!(no_rows.width(), 3);
    assert_eq!(no_rows.render(), "");
}

#[test]
fn get_index_is_row_major() {
    let universe = Universe::new();
    assert_eq!(universe.get_index(0, 0), 0);
    assert_eq!(universe.get_index(0, 63), 63);
    assert_eq!(universe.get_index(1, 0), 64);
    assert_eq!(universe.get_index(2, 3), 131);
    assert_eq!(universe.get_index(63, 63), 4095);

    let narrow = Universe::from_cells(3, 5, vec![Cell::Dead; 15]).unwrap();
    assert_eq!(narrow.get_index(4, 2), 14);
    assert_eq!(narrow.get_index(1, 0), 3);
    assert_eq!(narrow.get_index(0, 1), 1);
}

#[test]
fn cell_values_are_zero_and_one() {
    assert_eq!(Cell::Dead.value(), 0);
    assert_eq!(Cell::Alive.value(), 1);
}

#[test]
fn render_two_by_two_dead() {
    let universe = universe_from_rows(&["..", ".."]);
    let mut expected = String::new();
    expected.push(DEAD_GLYPH);
    expected.push(DEAD_GLYPH);
    expected.push('\n');
    expected.push(DEAD_GLYPH);
    expected.push(DEAD_GLYPH);
    expected.push('\n');
    assert_eq!(universe.render(), expected);
    assert_eq!(universe.render(), "◻◻\n◻◻\n");
    assert_eq!(universe.render().lines().count(), 2);
}

#[test]
fn render_marks_live_cells_in_row_order() {
    let universe = universe_from_rows(&["#..", "..#"]);
    assert_eq!(universe.render(), "◼◻◻\n◻◻◼\n");

    let column = universe_from_rows(&["#", ".", "#"]);
    assert_eq!(column.render(), "◼\n◻\n◼\n");
}

#[test]
fn render_of_new_universe_has_one_line_per_row() {
    let universe = Universe::new();
    let text = universe.render();
    assert_eq!(text.chars().count(), 64 * 65);
    assert!(text.ends_with('\n'));
    let lines: Vec<&str> = text.lines().collect();
    assert_eq!(lines.len(), 64);
    for (row, line) in lines.iter().enumerate() {
        let glyphs: Vec<char> = line.chars().collect();
        assert_eq!(glyphs.len(), 64);
        for (column, glyph) in glyphs.iter().enumerate() {
            let i = row * 64 + column;
            let expected = if i % 2 == 0 || i % 7 == 0 { ALIVE_GLYPH } else { DEAD_GLYPH };
            assert_eq!(*glyph, expected);
        }
    }
}

#[test]
fn render_follows_the_current_generation() {
    let mut universe = universe_from_rows(&[".....", ".....", ".###.", ".....", "....."]);
    let before = "◻◻◻◻◻\n◻◻◻◻◻\n◻◼◼◼◻\n◻◻◻◻◻\n◻◻◻◻◻\n";
    assert_eq!(universe.render(), before);
    universe.tick();
    let after = "◻◻◻◻◻\n◻◻◼◻◻\n◻◻◼◻◻\n◻◻◼◻◻\n◻◻◻◻◻\n";
    assert_eq!(universe.render(), after);
}

#[test]
fn rows_round_trip() {
    let rows = ["#.#", ".#.", "..#"];
    let universe = universe_from_rows(&rows);
    assert_eq!(rows_of(&universe), rows);
}
