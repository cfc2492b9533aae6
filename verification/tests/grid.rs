use alacritty::grid::{Grid, Scrollback};
use alacritty::index::{AbsoluteLine, Column, Line, Point};

fn set(grid: &mut Grid<usize>, line: usize, col: usize, value: usize) {
    *grid.cell_mut(&Point::new(Line(line), Column(col))) = value;
}

#[test]
fn grid_swap_lines_ok() {
    let mut grid = Grid::new(Line(10), Column(1), Scrollback::Disabled, &0);

    // swap test ends
    set(&mut grid, 0, 0, 1);
    set(&mut grid, 9, 0, 2);

    assert_eq!(grid[Line(0)][Column(0)], 1);
    assert_eq!(grid[Line(9)][Column(0)], 2);

    grid.swap_lines(Line(0), Line(9));

    assert_eq!(grid[Line(0)][Column(0)], 2);
    assert_eq!(grid[Line(9)][Column(0)], 1);

    // swap test mid
    set(&mut grid, 4, 0, 1);
    set(&mut grid, 5, 0, 2);

    assert_eq!(grid[Line(4)][Column(0)], 1);
    assert_eq!(grid[Line(5)][Column(0)], 2);

    grid.swap_lines(Line(4), Line(5));

    assert_eq!(grid[Line(4)][Column(0)], 2);
    assert_eq!(grid[Line(5)][Column(0)], 1);
}

#[test]
#[should_panic]
fn grid_swap_lines_oob1() {
    let mut grid = Grid::new(Line(10), Column(1), Scrollback::Disabled, &0);
    grid.swap_lines(Line(0), Line(10));
}

#[test]
#[should_panic]
fn grid_swap_lines_oob2() {
    let mut grid = Grid::new(Line(10), Column(1), Scrollback::Disabled, &0);
    grid.swap_lines(Line(10), Line(0));
}

#[test]
#[should_panic]
fn grid_swap_lines_oob3() {
    let mut grid = Grid::new(Line(10), Column(1), Scrollback::Disabled, &0);
    grid.swap_lines(Line(10), Line(10));
}

// Scroll up moves lines upwards
#[test]
fn grid_scroll_up() {
    let mut grid = Grid::new(Line(10), Column(1), Scrollback::Disabled, &0);
    for i in 0..10 {
        set(&mut grid, i, 0, i);
    }

    grid.scroll_up(Line(0)..Line(10), Line(2));

    let mut other = Grid::new(Line(10), Column(1), Scrollback::Disabled, &9);

    set(&mut other, 0, 0, 2);
    set(&mut other, 1, 0, 3);
    set(&mut other, 2, 0, 4);
    set(&mut other, 3, 0, 5);
    set(&mut other, 4, 0, 6);
    set(&mut other, 5, 0, 7);
    set(&mut other, 6, 0, 8);
    set(&mut other, 7, 0, 9);
    set(&mut other, 8, 0, 0);
    set(&mut other, 9, 0, 1);

    for i in 0..10 {
        assert_eq!(grid[Line(i)][Column(0)], other[Line(i)][Column(0)]);
    }
}

// Scroll down moves lines downwards
#[test]
fn grid_scroll_down() {
    let mut grid = Grid::new(Line(10), Column(1), Scrollback::Disabled, &0);
    for i in 0..10 {
        set(&mut grid, i, 0, i);
    }

    grid.scroll_down(Line(0)..Line(10), Line(2));

    let mut other = Grid::new(Line(10), Column(1), Scrollback::Disabled, &9);

    set(&mut other, 0, 0, 8);
    set(&mut other, 1, 0, 9);
    set(&mut other, 2, 0, 0);
    set(&mut other, 3, 0, 1);
    set(&mut other, 4, 0, 2);
    set(&mut other, 5, 0, 3);
    set(&mut other, 6, 0, 4);
    set(&mut other, 7, 0, 5);
    set(&mut other, 8, 0, 6);
    set(&mut other, 9, 0, 7);

    for i in 0..10 {
        assert_eq!(grid[Line(i)][Column(0)], other[Line(i)][Column(0)]);
    }
}

// Test that GridIterator works
#[test]
fn grid_test_iter() {
    let mut grid = Grid::new(Line(5), Column(5), Scrollback::Disabled, &0);
    for i in 0..5 {
        for j in 0..5 {
            set(&mut grid, i, j, i * 5 + j);
        }
    }

    let mut iter = grid.iter_from(Point {
        line: Line(0),
        col: Column(0),
    });

    assert_eq!(None, iter.prev());
    assert_eq!(Some(&1), iter.next());
    assert_eq!(Column(1), iter.cur.col);
    assert_eq!(Line(0), iter.cur.line);

    assert_eq!(Some(&2), iter.next());
    assert_eq!(Some(&3), iter.next());
    assert_eq!(Some(&4), iter.next());

    // test linewrapping
    assert_eq!(Some(&5), iter.next());
    assert_eq!(Column(0), iter.cur.col);
    assert_eq!(Line(1), iter.cur.line);

    assert_eq!(Some(&4), iter.prev());
    assert_eq!(Column(4), iter.cur.col);
    assert_eq!(Line(0), iter.cur.line);

    // test that iter ends at end of grid
    let mut final_iter = grid.iter_from(Point {
        line: Line(4),
        col: Column(4),
    });
    assert_eq!(None, final_iter.next());
    assert_eq!(Some(&23), final_iter.prev());
}

#[test]
fn view_moves_up_and_back_down() {
    let mut grid: Grid<usize> = Grid::new(Line(5), Column(2), Scrollback::MaxLines(AbsoluteLine(20)), &0);
    grid.insert_new_lines(Line(10), |c: &mut usize| *c = 0);
    assert_eq!(grid.visible_region(), AbsoluteLine(10)..AbsoluteLine(15));
    assert!(grid.move_visible_region_up(AbsoluteLine(4)).is_ok());
    assert_eq!(grid.visible_region(), AbsoluteLine(6)..AbsoluteLine(11));
    assert!(grid.move_visible_region_down(AbsoluteLine(4)).is_ok());
    assert_eq!(grid.visible_region(), AbsoluteLine(10)..AbsoluteLine(15));
    assert!(grid.move_visible_region_down(AbsoluteLine(1)).is_err());
    assert!(grid.move_visible_region_up(AbsoluteLine(100)).is_ok());
    assert_eq!(grid.visible_region(), AbsoluteLine(0)..AbsoluteLine(5));
    assert!(grid.move_visible_region_up(AbsoluteLine(1)).is_err());
    assert!(grid.move_visible_region_down(AbsoluteLine(3)).is_ok());
    assert!(grid.move_visible_region_up(AbsoluteLine(3)).is_ok());
    assert_eq!(grid.visible_region(), AbsoluteLine(0)..AbsoluteLine(5));
}

#[test]
fn insert_new_lines_allocates_up_to_the_limit_then_reuses() {
    let mut grid: Grid<usize> = Grid::new(Line(9), Column(1), Scrollback::MaxLines(AbsoluteLine(10)), &0);
    for i in 0..9 {
        set(&mut grid, i, 0, i + 1);
    }
    grid.insert_new_lines(Line(5), |c: &mut usize| *c = 99);
    assert_eq!(grid.total_lines_in_buffer(), AbsoluteLine(10));
    assert_eq!(grid.num_lines(), Line(9));
    assert_eq!(grid.visible_region(), AbsoluteLine(1)..AbsoluteLine(10));
    let expected = [6, 7, 8, 9, 0, 99, 99, 99, 99];
    for i in 0..9 {
        assert_eq!(grid[Line(i)][Column(0)], expected[i]);
    }
}

#[test]
fn insert_new_lines_without_scrollback_reuses_rows() {
    let mut grid: Grid<usize> = Grid::new(Line(3), Column(1), Scrollback::Disabled, &0);
    for i in 0..3 {
        set(&mut grid, i, 0, i + 1);
    }
    grid.insert_new_lines(Line(1), |c: &mut usize| *c = 7);
    assert_eq!(grid.total_lines_in_buffer(), AbsoluteLine(3));
    assert_eq!(grid[Line(0)][Column(0)], 2);
    assert_eq!(grid[Line(1)][Column(0)], 3);
    assert_eq!(grid[Line(2)][Column(0)], 7);
}

#[test]
fn all_lines_mut_reaches_scrollback_rows() {
    let mut grid: Grid<usize> = Grid::new(Line(2), Column(2), Scrollback::MaxLines(AbsoluteLine(10)), &0);
    grid.insert_new_lines(Line(1), |c: &mut usize| *c = 0);
    assert_eq!(grid.total_lines_in_buffer(), AbsoluteLine(3));
    grid.all_lines_mut(AbsoluteLine(0)).cells_mut()[1] = 7;
    grid.all_lines_mut(AbsoluteLine(2)).reset(&3);
    assert_eq!(grid[Line(1)][Column(0)], 3);
    assert_eq!(grid[Line(1)][Column(1)], 3);
    grid.move_visible_region_up(AbsoluteLine(1)).unwrap();
    assert_eq!(grid.visible_region(), AbsoluteLine(0)..AbsoluteLine(2));
    assert_eq!(grid.all_lines_mut(AbsoluteLine(0)).cells()[1], 7);
}

#[test]
fn sizes_change_only_by_resize_and_insertion() {
    let mut grid: Grid<usize> = Grid::new(Line(3), Column(2), Scrollback::MaxLines(AbsoluteLine(8)), &0);
    let mut total = grid.total_lines_in_buffer();
    grid.insert_new_lines(Line(2), |c: &mut usize| *c = 0);
    assert!(grid.total_lines_in_buffer() >= total);
    total = grid.total_lines_in_buffer();
    grid.swap_lines(Line(0), Line(2));
    grid.scroll_up(Line(0)..Line(3), Line(1));
    grid.scroll_down(Line(0)..Line(3), Line(1));
    grid.clear(|c: &mut usize| *c = 1);
    let _ = grid.move_visible_region_up(AbsoluteLine(1));
    let _ = grid.move_visible_region_down(AbsoluteLine(1));
    let _ = grid.move_visible_region_to_bottom();
    assert_eq!(grid.total_lines_in_buffer(), total);
    assert_eq!(grid.num_lines(), Line(3));
    assert_eq!(grid.num_cols(), Column(2));
    grid.resize(Line(7), Column(4), &0);
    assert_eq!(grid.num_lines(), Line(7));
    assert_eq!(grid.num_cols(), Column(4));
    assert!(grid.total_lines_in_buffer() >= total);
    assert!(grid.total_lines_in_buffer() >= AbsoluteLine(7));
    grid.resize(Line(2), Column(1), &0);
    assert_eq!(grid.num_lines(), Line(2));
    assert_eq!(grid.total_lines_in_buffer(), AbsoluteLine(7));
}
