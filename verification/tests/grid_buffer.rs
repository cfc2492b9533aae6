use alacritty::grid::buffer::Grid;
use alacritty::grid::storage::Storage;

#[derive(Clone, PartialEq, Debug)]
struct DummyRow(u8);

#[derive(Clone, PartialEq, Debug)]
struct VecRow(Vec<u8>);

#[test]
fn test_grid_scrollback() {
    let mut grid: Grid<DummyRow> = Grid::new(80, 24, 1000);

    for i in 0..1500 {
        grid.push_row(DummyRow((i % 255) as u8));
    }

    assert_eq!(grid.storage.len(), 1000);

    grid.swap_rows(0, 999);

    assert_eq!(grid.get_row(0).unwrap(), &DummyRow((1499 % 255) as u8));
    assert_eq!(grid.get_row(999).unwrap(), &DummyRow((500 % 255) as u8));
}

#[test]
fn test_grid_push_and_swap() {
    let mut grid: Grid<VecRow> = Grid::new(10, 5, 3);
    let row1 = VecRow(vec![1]);
    let row2 = VecRow(vec![2]);

    grid.push_row(row1.clone());
    grid.push_row(row2.clone());

    grid.swap_rows(0, 1);

    assert_eq!(grid.get_row(0).unwrap(), &row2);
    assert_eq!(grid.get_row(1).unwrap(), &row1);
}

#[test]
fn test_grid_max_size() {
    let mut grid: Grid<VecRow> = Grid::new(10, 5, 2);
    let row1 = VecRow(vec![1]);
    let row2 = VecRow(vec![2]);
    let row3 = VecRow(vec![3]);

    grid.push_row(row1);
    grid.push_row(row2.clone());
    grid.push_row(row3.clone());

    assert_eq!(grid.get_row(0).unwrap(), &row2);
    assert_eq!(grid.get_row(1).unwrap(), &row3);
}

#[test]
fn test_storage_push_and_get() {
    let mut storage: Storage<VecRow> = Storage::new(2);
    let row1 = VecRow(vec![1, 2, 3]);
    let row2 = VecRow(vec![4, 5, 6]);

    storage.push(row1.clone());
    storage.push(row2.clone());

    assert_eq!(storage.len(), 2);
    assert_eq!(storage.get(0).unwrap(), &row1);
    assert_eq!(storage.get(1).unwrap(), &row2);
}

#[test]
fn test_storage_swap() {
    let mut storage: Storage<VecRow> = Storage::new(2);
    let row1 = VecRow(vec![1]);
    let row2 = VecRow(vec![2]);
    storage.push(row1.clone());
    storage.push(row2.clone());

    storage.swap(0, 1);

    assert_eq!(storage.get(0).unwrap(), &row2);
    assert_eq!(storage.get(1).unwrap(), &row1);
}

#[test]
fn test_storage_swap_out_of_bounds() {
    let mut storage: Storage<VecRow> = Storage::new(1);
    storage.push(VecRow(vec![1]));
    // Should not panic
    storage.swap(0, 1);
    storage.swap(1, 0);
}
