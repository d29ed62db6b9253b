use ratoms::grid::{place_elements, PlacementError, COLUMNS_AMOUNT, ROWS_AMOUNT};
use ratoms::loader::{load_elements, RawElementRecord};

fn record(symbol: &str, number: u8, name: &str, period: u8, group: Option<u8>) -> RawElementRecord {
    RawElementRecord {
        symbol: String::from(symbol),
        atomic_number: number,
        name: String::from(name),
        period,
        group,
        classification: None,
    }
}

/// All 118 elements with the period and group their records carry; the
/// f-block rows carry no group.
fn full_table() -> Vec<RawElementRecord> {
    let mut data: Vec<(&str, u8, Option<u8>)> = Vec::new();
    data.push(("H", 1, Some(1)));
    data.push(("He", 1, Some(18)));
    let period2 = ["Li", "Be", "B", "C", "N", "O", "F", "Ne"];
    let period3 = ["Na", "Mg", "Al", "Si", "P", "S", "Cl", "Ar"];
    let main_groups: [u8; 8] = [1, 2, 13, 14, 15, 16, 17, 18];
    for (k, symbol) in period2.iter().enumerate() {
        data.push((symbol, 2, Some(main_groups[k])));
    }
    for (k, symbol) in period3.iter().enumerate() {
        data.push((symbol, 3, Some(main_groups[k])));
    }
    let period4 = [
        "K", "Ca", "Sc", "Ti", "V", "Cr", "Mn", "Fe", "Co", "Ni", "Cu", "Zn", "Ga", "Ge", "As",
        "Se", "Br", "Kr",
    ];
    let period5 = [
        "Rb", "Sr", "Y", "Zr", "Nb", "Mo", "Tc", "Ru", "Rh", "Pd", "Ag", "Cd", "In", "Sn", "Sb",
        "Te", "I", "Xe",
    ];
    for (k, symbol) in period4.iter().enumerate() {
        data.push((symbol, 4, Some(k as u8 + 1)));
    }
    for (k, symbol) in period5.iter().enumerate() {
        data.push((symbol, 5, Some(k as u8 + 1)));
    }
    data.push(("Cs", 6, Some(1)));
    data.push(("Ba", 6, Some(2)));
    let lanthanides = [
        "La", "Ce", "Pr", "Nd", "Pm", "Sm", "Eu", "Gd", "Tb", "Dy", "Ho", "Er", "Tm", "Yb", "Lu",
    ];
    for symbol in lanthanides.iter() {
        data.push((symbol, 6, None));
    }
    let late_period6 = [
        "Hf", "Ta", "W", "Re", "Os", "Ir", "Pt", "Au", "Hg", "Tl", "Pb", "Bi", "Po", "At", "Rn",
    ];
    for (k, symbol) in late_period6.iter().enumerate() {
        data.push((symbol, 6, Some(k as u8 + 4)));
    }
    data.push(("Fr", 7, Some(1)));
    data.push(("Ra", 7, Some(2)));
    let actinides = [
        "Ac", "Th", "Pa", "U", "Np", "Pu", "Am", "Cm", "Bk", "Cf", "Es", "Fm", "Md", "No", "Lr",
    ];
    for symbol in actinides.iter() {
        data.push((symbol, 7, None));
    }
    let late_period7 = [
        "Rf", "Db", "Sg", "Bh", "Hs", "Mt", "Ds", "Rg", "Cn", "Nh", "Fl", "Mc", "Lv", "Ts", "Og",
    ];
    for (k, symbol) in late_period7.iter().enumerate() {
        data.push((symbol, 7, Some(k as u8 + 4)));
    }
    assert_eq!(data.len(), 118);
    data.iter()
        .enumerate()
        .map(|(k, (symbol, period, group))| record(symbol, k as u8 + 1, "", *period, *group))
        .collect()
}

/// The standard periodic-table topology on the 9 x 18 grid.
fn expected_occupied(i: usize, j: usize) -> bool {
    match i {
        0 => j == 0 || j == 17,
        1 | 2 => j <= 1 || j >= 12,
        3 | 4 => true,
        5 | 6 => j <= 1 || j >= 3,
        7 | 8 => j <= 14,
        _ => false,
    }
}

#[test]
fn places_full_periodic_table() {
    let loaded = load_elements(&full_table()).unwrap();
    let grid = place_elements(&loaded).unwrap();
    let matrix = grid.occupancy_matrix();
    assert_eq!(matrix.len(), ROWS_AMOUNT);
    for i in 0..ROWS_AMOUNT {
        assert_eq!(matrix[i].len(), COLUMNS_AMOUNT);
        for j in 0..COLUMNS_AMOUNT {
            assert_eq!(matrix[i][j], expected_occupied(i, j), "cell ({}, {})", i, j);
            assert_eq!(grid.get(i, j).is_some(), expected_occupied(i, j));
        }
    }
    assert_eq!(grid.get(0, 0).as_ref().unwrap().get_symbol(), "H");
    assert_eq!(grid.get(0, 17).as_ref().unwrap().get_number(), 2);
    assert_eq!(grid.get(5, 3).as_ref().unwrap().get_symbol(), "Hf");
    assert_eq!(grid.get(6, 17).as_ref().unwrap().get_symbol(), "Og");
    assert_eq!(grid.get(7, 0).as_ref().unwrap().get_symbol(), "La");
    assert_eq!(grid.get(7, 14).as_ref().unwrap().get_symbol(), "Lu");
    assert_eq!(grid.get(8, 0).as_ref().unwrap().get_symbol(), "Ac");
    assert_eq!(grid.get(8, 14).as_ref().unwrap().get_symbol(), "Lr");
}

#[test]
fn hydrogen_and_helium_bracket_row_zero() {
    let records = vec![
        record("H", 1, "Hydrogen", 1, Some(1)),
        record("He", 2, "Helium", 1, Some(18)),
    ];
    let loaded = load_elements(&records).unwrap();
    let grid = place_elements(&loaded).unwrap();
    for j in 0..COLUMNS_AMOUNT {
        assert_eq!(grid.get(0, j).is_some(), j == 0 || j == 17);
    }
    assert_eq!(grid.get(0, 0).as_ref().unwrap().get_symbol(), "H");
    assert_eq!(grid.get(0, 0).as_ref().unwrap().get_name(), "Hydrogen");
    assert_eq!(grid.get(0, 17).as_ref().unwrap().get_symbol(), "He");
    for i in 1..ROWS_AMOUNT {
        for j in 0..COLUMNS_AMOUNT {
            assert!(grid.get(i, j).is_none());
        }
    }
}

#[test]
fn f_block_overrides_period_and_group() {
    let records = vec![
        record("La", 57, "Lanthanum", 6, Some(3)),
        record("U", 92, "Uranium", 7, None),
    ];
    let loaded = load_elements(&records).unwrap();
    let grid = place_elements(&loaded).unwrap();
    assert_eq!(grid.get(7, 0).as_ref().unwrap().get_symbol(), "La");
    assert_eq!(grid.get(8, 3).as_ref().unwrap().get_symbol(), "U");
    assert!(grid.get(5, 2).is_none());
}

#[test]
fn rejects_record_without_cell() {
    let records = vec![record("He", 2, "Helium", 1, None)];
    let loaded = load_elements(&records).unwrap();
    match place_elements(&loaded).unwrap_err() {
        PlacementError::Unplaceable(symbol) => assert_eq!(symbol, "He"),
        other => panic!("unexpected error: {:?}", other),
    }
}

#[test]
fn detects_collision() {
    let records = vec![
        record("H", 1, "Hydrogen", 1, Some(1)),
        record("He", 2, "Helium", 1, Some(1)),
    ];
    let loaded = load_elements(&records).unwrap();
    match place_elements(&loaded).unwrap_err() {
        PlacementError::Collision(i, j) => {
            assert_eq!(i, 0);
            assert_eq!(j, 0);
        }
        other => panic!("unexpected error: {:?}", other),
    }
}

#[test]
fn empty_input_gives_empty_grid() {
    let grid = place_elements(&Vec::new()).unwrap();
    for i in 0..ROWS_AMOUNT {
        for j in 0..COLUMNS_AMOUNT {
            assert!(grid.get(i, j).is_none());
        }
    }
}
