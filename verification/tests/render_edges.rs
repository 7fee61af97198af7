use ministat::{classic_symbols, render_plot, required_symbols, BarPositions, MinistatFailure};

fn bar(sigma_lo: usize, sigma_hi: usize, mean: usize, median: usize) -> BarPositions {
    BarPositions {
        sigma_lo,
        sigma_hi,
        mean,
        median,
    }
}

#[test]
fn borders_are_corners_around_fill() {
    // Two datasets, width 30, stacked mode, classic glyphs: both border rows
    // are exactly col_count fill characters flanked by corner glyphs.
    let datasets = vec![vec![0, 2, 5, 12, 25], vec![7, 9, 10, 12, 13]];
    let bars = vec![bar(0, 21, 10, 6), bar(8, 14, 11, 11)];
    let rows = render_plot(30, &datasets, &bars, &classic_symbols(), true, true, false).unwrap();
    let expected_border: String = format!("+{}+", "-".repeat(28));
    assert_eq!(expected_border, rows[0]);
    assert_eq!(expected_border, rows[rows.len() - 1]);
    for row in &rows {
        assert_eq!(30, row.chars().count());
    }
}

#[test]
fn bar_rows_carry_mean_and_median_markers() {
    // With separate bar lines and distinct mean/median columns, each
    // dataset's bar row holds exactly one 'A' and one 'M'. When mean and
    // median land on one column, the median marker is written last and wins.
    let datasets = vec![vec![0, 2, 5, 12, 25], vec![7, 9, 10, 12, 13]];
    let bars = vec![bar(0, 21, 10, 6), bar(8, 14, 11, 11)];
    let rows = render_plot(30, &datasets, &bars, &classic_symbols(), true, true, false).unwrap();
    // bottom border, then the two bar rows right above it, in dataset order
    let first_bar = &rows[rows.len() - 3];
    let second_bar = &rows[rows.len() - 2];
    assert_eq!(1, first_bar.chars().filter(|&c| c == 'A').count());
    assert_eq!(1, first_bar.chars().filter(|&c| c == 'M').count());
    assert_eq!(0, second_bar.chars().filter(|&c| c == 'A').count());
    assert_eq!(1, second_bar.chars().filter(|&c| c == 'M').count());
}

#[test]
fn render_is_idempotent() {
    let datasets = vec![vec![0, 2, 5, 12, 25], vec![7, 9, 10, 12, 13]];
    let bars = vec![bar(0, 21, 10, 6), bar(8, 14, 11, 11)];
    let once = render_plot(30, &datasets, &bars, &classic_symbols(), false, false, false).unwrap();
    let twice = render_plot(30, &datasets, &bars, &classic_symbols(), false, false, false).unwrap();
    assert_eq!(once, twice);
}

#[test]
fn narrowest_plot_clamps_everything_into_one_column() {
    // width 3 leaves a single column; raw indices far out of range are
    // clamped rather than dropped or crashing.
    let datasets = vec![vec![0, 1, 7, 1000]];
    let bars = vec![bar(0, 1000, 2, 3)];
    let rows = render_plot(3, &datasets, &bars, &classic_symbols(), true, false, false).unwrap();
    assert_eq!("+-+", rows[0]);
    assert_eq!("+-+", rows[rows.len() - 1]);
    // all four points stack in the lone column
    assert_eq!(4 + 3, rows.len());
    for row in &rows[1..5] {
        assert_eq!("|x|", row);
    }
    // the median marker overwrote everything else on the bar row
    assert_eq!("|M|", rows[5]);
}

#[test]
fn no_datasets_is_no_plot() {
    let rows = render_plot(30, &vec![], &vec![], &classic_symbols(), false, false, false);
    assert_eq!(Err(MinistatFailure::NoPlotPossible), rows);
}

#[test]
fn symbol_capacity_requirements() {
    // stacked mode needs one symbol per dataset plus the reserved blank;
    // overlap mode needs room for every OR-combination of dataset codes
    assert_eq!(Some(8), required_symbols(7, true));
    assert_eq!(Some(8), required_symbols(7, false));
    assert_eq!(Some(7), required_symbols(6, true));
    assert_eq!(Some(8), required_symbols(6, false));
    assert_eq!(Some(4), required_symbols(2, false));
    assert_eq!(Some(1), required_symbols(0, false));
}
