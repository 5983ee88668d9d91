use egui_grid::{CellSize, Grid, GridBuilder, GridDirection};

#[derive(Clone, Copy, Debug, PartialEq)]
enum Hint {
    Absolute(f32),
    Remainder,
}

#[derive(Clone, Copy, Debug, PartialEq)]
struct Pad {
    outer: f32,
    inner: f32,
}

const PAD: Pad = Pad { outer: 2.0, inner: 10.0 };

fn builder() -> GridBuilder<Hint, Pad> {
    GridBuilder::new(PAD)
}

#[test]
fn builder_keeps_hints_in_order() {
    let b = builder().size(Hint::Absolute(50.0)).size(Hint::Remainder).size(Hint::Absolute(30.0));
    assert_eq!(
        b.size_hints(),
        &vec![Hint::Absolute(50.0), Hint::Remainder, Hint::Absolute(30.0)]
    );
    assert_eq!(b.padding(), &PAD);
}

#[test]
fn sizes_repeats_a_hint() {
    let b = builder().size(Hint::Remainder).sizes(Hint::Absolute(5.0), 3);
    assert_eq!(
        b.size_hints(),
        &vec![
            Hint::Remainder,
            Hint::Absolute(5.0),
            Hint::Absolute(5.0),
            Hint::Absolute(5.0)
        ]
    );
}

#[test]
fn sizes_with_zero_count_adds_nothing() {
    let b = builder().size(Hint::Remainder).sizes(Hint::Absolute(5.0), 0);
    assert_eq!(b.size_hints(), &vec![Hint::Remainder]);
}

#[test]
fn built_grid_has_one_cell_per_hint() {
    let b = builder().sizes(Hint::Remainder, 4);
    let g: Grid<f32, Pad> = b.vertical(vec![1.0, 2.0, 3.0, 4.0]);
    assert_eq!(g.remaining(), 4);
    assert_eq!(g.direction(), GridDirection::Vertical);
}

#[test]
fn horizontal_cells_take_declared_widths() {
    let b = builder().size(Hint::Absolute(50.0)).size(Hint::Remainder);
    let mut g = b.horizontal(vec![50.0f32, 140.0]);
    assert_eq!(g.direction(), GridDirection::Horizontal);
    assert_eq!(g.cell(), (CellSize::Absolute(50.0), CellSize::Remainder));
    assert_eq!(g.cell_noclip(), (CellSize::Absolute(140.0), CellSize::Remainder));
    assert_eq!(g.remaining(), 0);
}

#[test]
fn vertical_cells_take_declared_heights() {
    let b = builder().size(Hint::Absolute(20.0)).size(Hint::Absolute(40.0));
    let mut g = b.vertical(vec![20.0f32, 40.0]);
    assert_eq!(g.empty(), (CellSize::Remainder, CellSize::Absolute(20.0)));
    assert_eq!(g.cell(), (CellSize::Remainder, CellSize::Absolute(40.0)));
}

#[test]
fn grid_requests_run_out_after_declared_count() {
    let mut g = builder().sizes(Hint::Remainder, 3).horizontal(vec![1.0f32, 2.0, 3.0]);
    g.cell();
    assert_eq!(g.remaining(), 2);
    g.empty();
    assert_eq!(g.remaining(), 1);
    g.cell_noclip();
    assert_eq!(g.remaining(), 0);
    assert!(g.fill_remaining().is_empty());
}

#[test]
fn two_cells_then_teardown_fills_the_last() {
    let b = builder().size(Hint::Absolute(50.0)).size(Hint::Remainder).size(Hint::Absolute(30.0));
    // available width 200 with spacing 10 leaves 100 for the remainder column
    let mut g = b.horizontal(vec![50.0f32, 100.0, 30.0]);
    assert_eq!(g.cell(), (CellSize::Absolute(50.0), CellSize::Remainder));
    assert_eq!(g.cell(), (CellSize::Absolute(100.0), CellSize::Remainder));
    let rest = g.fill_remaining();
    assert_eq!(rest, vec![(CellSize::Absolute(30.0), CellSize::Remainder)]);
    assert_eq!(g.remaining(), 0);
}

#[test]
fn zero_hints_leave_no_cell() {
    let b = builder();
    assert!(b.size_hints().is_empty());
    let g: Grid<f32, Pad> = b.horizontal(Vec::new());
    assert_eq!(g.remaining(), 0);
}

#[test]
fn teardown_keeps_declared_order() {
    let mut g = builder().sizes(Hint::Remainder, 4).vertical(vec![1.0f32, 2.0, 3.0, 4.0]);
    g.cell();
    let rest = g.fill_remaining();
    assert_eq!(
        rest,
        vec![
            (CellSize::Remainder, CellSize::Absolute(2.0)),
            (CellSize::Remainder, CellSize::Absolute(3.0)),
            (CellSize::Remainder, CellSize::Absolute(4.0)),
        ]
    );
}

#[test]
fn teardown_after_no_request_fills_all() {
    let mut g = builder().sizes(Hint::Remainder, 2).horizontal(vec![7.0f32, 8.0]);
    let rest = g.fill_remaining();
    assert_eq!(
        rest,
        vec![
            (CellSize::Absolute(7.0), CellSize::Remainder),
            (CellSize::Absolute(8.0), CellSize::Remainder),
        ]
    );
    assert!(g.fill_remaining().is_empty());
}

#[test]
fn nested_grid_takes_one_parent_cell() {
    let mut g = builder().sizes(Hint::Remainder, 2).horizontal(vec![60.0f32, 40.0]);
    let (cell, nested) = g.grid::<Hint>();
    assert_eq!(cell, (CellSize::Absolute(60.0), CellSize::Remainder));
    assert!(nested.size_hints().is_empty());
    assert_eq!(nested.padding(), &PAD);
    let mut inner = nested.sizes(Hint::Remainder, 3).vertical(vec![5.0f32, 6.0, 7.0]);
    assert_eq!(inner.cell(), (CellSize::Remainder, CellSize::Absolute(5.0)));
    assert_eq!(inner.fill_remaining().len(), 2);
    assert_eq!(g.remaining(), 1);
    let (cell, nested) = g.grid_noclip::<Hint>();
    assert_eq!(cell, (CellSize::Absolute(40.0), CellSize::Remainder));
    assert!(nested.size_hints().is_empty());
    assert_eq!(g.remaining(), 0);
}
