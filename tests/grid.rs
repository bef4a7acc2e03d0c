use hex_grid::coords::{CoordKey, CoordType, CubeCoords, OffsetEvenCoords, OffsetOddCoords};
use hex_grid::grid::{HexGrid, HexGridDataWrapper, HexGridHashMapWrapper};
use hex_grid::initializers::{
    HexagonalCenteredGridIterator, SquareFlatOffsetEvenGridIterator,
    SquareFlatOffsetOddGridIterator,
};
use hex_grid::tile::HexTile;
use hex_grid::Orientation;

#[derive(Clone, Copy, Debug, PartialEq)]
struct SomeData {
    hovered: bool,
    selected: bool,
}

fn fresh() -> SomeData {
    SomeData { hovered: false, selected: false }
}

type Wrapper = HexGridHashMapWrapper<CubeCoords, SomeData>;
type Grid = HexGrid<CubeCoords, SomeData, Wrapper, ()>;

fn hexagon(range: i32) -> Vec<CubeCoords> {
    let mut it: HexagonalCenteredGridIterator<CubeCoords> =
        HexagonalCenteredGridIterator::new(range, Orientation::Flat);
    let mut out = Vec::new();
    while let Some(c) = it.next() {
        out.push(c);
    }
    out
}

#[test]
fn hexagonal_stream_is_complete() {
    let coords = hexagon(5);
    assert_eq!(coords.len(), 91);
    for c in coords.iter() {
        let (x, y, z) = c.get();
        assert_eq!(x + y + z, 0);
        assert!(x.abs() <= 5 && y.abs() <= 5 && z.abs() <= 5);
    }
    assert_eq!(hexagon(0).len(), 1);
    assert_eq!(hexagon(-1).len(), 7);
}

#[test]
fn lookup_after_initialize() {
    let mut grid: Grid = HexGrid::new((), None::<&fn() -> Wrapper>);
    grid.initialize(hexagon(5), &fresh);
    let coords = hexagon(5);
    for c in coords.iter() {
        let key = c.get_key();
        let tile = grid.borrow_tile_by_key(key).unwrap();
        assert_eq!(*tile.borrow_data(), fresh());
        assert_eq!(tile.get_key(), key);
        assert_eq!(grid.borrow_data_by_key(key), Some(&fresh()));
    }
    assert!(grid.borrow_tile_by_key(CoordKey(6, -6, 0)).is_none());
    assert!(grid.borrow_data_by_key(CoordKey(1, 1, 1)).is_none());
    assert_eq!(grid.wrapper.tiles().len(), 91);
}

#[test]
fn empty_grid_finds_nothing() {
    let mut grid: Grid = HexGrid::empty(());
    assert!(grid.borrow_tile_by_key(CoordKey(0, 0, 0)).is_none());
    assert!(grid.mut_borrow_data_by_key(CoordKey(0, 0, 0)).is_none());
    assert_eq!(grid.wrapper.tiles().len(), 0);
}

#[test]
fn later_coordinate_with_same_key_replaces_tile() {
    let mut wrapper: HexGridHashMapWrapper<OffsetOddCoords, u32> = HexGridHashMapWrapper::new();
    let first = vec![
        OffsetOddCoords::new((1, 2), Orientation::Flat),
        OffsetOddCoords::new((3, 4), Orientation::Flat),
        OffsetOddCoords::new((1, 2), Orientation::Pointy),
    ];
    wrapper.initialize(first, &|| 7u32);
    assert_eq!(wrapper.tiles().len(), 2);
    let tile = wrapper.borrow_tile_by_key(CoordKey(1, 2, 0)).unwrap();
    assert_eq!(tile.borrow_coord().orientation(), Orientation::Pointy);
    assert_eq!(*tile.borrow_data(), 7);
    wrapper.initialize(vec![OffsetOddCoords::new((3, 4), Orientation::Flat)], &|| 9u32);
    assert_eq!(wrapper.tiles().len(), 2);
    assert_eq!(*wrapper.borrow_tile_by_key(CoordKey(3, 4, 0)).unwrap().borrow_data(), 9);
    assert_eq!(*wrapper.borrow_tile_by_key(CoordKey(1, 2, 0)).unwrap().borrow_data(), 7);
}

#[test]
fn mutate_all_reaches_every_tile() {
    let mut grid: Grid = HexGrid::new((), None::<&fn() -> Wrapper>);
    grid.initialize(hexagon(3), &fresh);
    grid.mutate_all_data(&|d: &mut SomeData| d.hovered = true);
    let mut seen = 0;
    for tile in grid.wrapper.tiles() {
        assert!(tile.borrow_data().hovered);
        assert!(!tile.borrow_data().selected);
        seen += 1;
    }
    assert_eq!(seen, 37);
    grid.mutate_all_data(&|d: &mut SomeData| d.hovered = false);
    assert!(grid.wrapper.tiles().iter().all(|t| !t.borrow_data().hovered));
}

#[test]
fn mutable_lookups_change_one_tile() {
    let mut grid: Grid = HexGrid::new((), None::<&fn() -> Wrapper>);
    grid.initialize(hexagon(2), &fresh);
    let key = CoordKey(1, -1, 0);
    match grid.mut_borrow_data_by_key(key) {
        Some(d) => d.selected = true,
        None => panic!("tile missing"),
    }
    assert!(grid.borrow_data_by_key(key).unwrap().selected);
    assert!(!grid.borrow_data_by_key(CoordKey(0, 0, 0)).unwrap().selected);
    let tile = grid.mut_borrow_tile_by_key(CoordKey(0, 0, 0)).unwrap();
    tile.set_data(SomeData { hovered: true, selected: true });
    assert_eq!(grid.borrow_data_by_key(CoordKey(0, 0, 0)), Some(&SomeData { hovered: true, selected: true }));
    assert!(grid.mut_borrow_tile_by_key(CoordKey(9, 9, -18)).is_none());
}

#[test]
fn grid_made_with_storage_factory() {
    let make = || Wrapper::new();
    let mut grid: HexGrid<CubeCoords, SomeData, Wrapper, u8> = HexGrid::new(3u8, Some(&make));
    grid.initialize(hexagon(1), &fresh);
    assert_eq!(grid.hexshape, 3);
    assert_eq!(grid.wrapper.tiles().len(), 7);
}

#[test]
fn tile_accessors() {
    let c = CubeCoords::new((1, -1, 0), Orientation::Flat);
    let mut tile = HexTile::new(c, 5u32);
    assert_eq!(tile.get_key(), CoordKey(1, -1, 0));
    assert_eq!(*tile.borrow_data(), 5);
    *tile.mut_borrow_data() = 6;
    assert_eq!(*tile.borrow_data(), 6);
    tile.mutate_data(&|d: &mut u32| *d += 10);
    assert_eq!(*tile.borrow_data(), 16);
    tile.set_data(1);
    assert_eq!(*tile.borrow_data(), 1);
    assert_eq!(tile.borrow_coord().get(), (1, -1, 0));
}

#[test]
fn rectangles_in_row_major_order() {
    let origin = OffsetOddCoords::new((0, 0), Orientation::Flat);
    let mut it: SquareFlatOffsetOddGridIterator<OffsetOddCoords> =
        SquareFlatOffsetOddGridIterator::new(origin, 3, 2);
    let mut got = Vec::new();
    while let Some(c) = it.next() {
        got.push(c.get());
    }
    assert_eq!(got, vec![(0, 0), (1, 0), (2, 0), (0, 1), (1, 1), (2, 1)]);

    let origin = CubeCoords::new((0, 0, 0), Orientation::Flat);
    let mut it: SquareFlatOffsetEvenGridIterator<CubeCoords> =
        SquareFlatOffsetEvenGridIterator::new(origin, 2, 2);
    let mut got = Vec::new();
    while let Some(c) = it.next() {
        got.push(c.get());
    }
    assert_eq!(got, vec![(0, 0, 0), (1, 0, -1), (0, -1, 1), (1, -1, 0)]);

    let origin = OffsetEvenCoords::new((0, 0), Orientation::Pointy);
    let mut it: SquareFlatOffsetEvenGridIterator<OffsetEvenCoords> =
        SquareFlatOffsetEvenGridIterator::new(origin, 0, 4);
    assert!(it.next().is_none());
}

#[test]
fn collect_all_gives_the_whole_hexagon() {
    let it: HexagonalCenteredGridIterator<CubeCoords> =
        HexagonalCenteredGridIterator::new(5, Orientation::Pointy);
    let all = it.collect_all();
    assert_eq!(all.len(), 91);
    let mut keys: Vec<CoordKey> = all.iter().map(|c| c.get_key()).collect();
    keys.sort_by_key(|k| (k.0, k.1, k.2));
    keys.dedup();
    assert_eq!(keys.len(), 91);

    let mut it: HexagonalCenteredGridIterator<OffsetOddCoords> =
        HexagonalCenteredGridIterator::new(2, Orientation::Flat);
    let first = it.next().unwrap();
    let rest = it.collect_all();
    assert_eq!(rest.len(), 18);
    assert!(rest.iter().all(|c| c.get() != first.get()));

    let mut grid: HexGrid<OffsetOddCoords, u8, HexGridHashMapWrapper<OffsetOddCoords, u8>, ()> =
        HexGrid::empty(());
    let coords = HexagonalCenteredGridIterator::new(3, Orientation::Flat).collect_all();
    grid.initialize(coords, &|| 1u8);
    assert_eq!(grid.wrapper.tiles().len(), 37);
}

#[test]
fn wide_rectangle_starts_row_by_row() {
    let origin = OffsetOddCoords::new((0, 0), Orientation::Flat);
    let mut it: SquareFlatOffsetOddGridIterator<OffsetOddCoords> =
        SquareFlatOffsetOddGridIterator::new(origin, 0x1fff_ffff, 1);
    assert_eq!(it.next().unwrap().get(), (0, 0));
    assert_eq!(it.next().unwrap().get(), (1, 0));
    assert_eq!(it.next().unwrap().get(), (2, 0));
}
