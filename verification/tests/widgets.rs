use ratoms::ratom::Ratom;
use ratoms::widgets::{AtomCell, InfoBlockState, InformationBlock};

#[test]
fn atom_cell_keeps_fields() {
    let atom = Ratom::build(String::from("H"), 1, String::from("Hydrogen"), None).unwrap();
    let cell = AtomCell::new(atom, true);
    assert!(cell.focused);
    assert_eq!(cell.ratom.get_symbol(), "H");
    assert_eq!(cell.ratom.get_number(), 1);
}

#[test]
fn information_block_keeps_fields() {
    let atom = Ratom::build(String::from("He"), 2, String::from("Helium"), None).unwrap();
    let block = InformationBlock::new(InfoBlockState::ElementDescription, Some(atom), false);
    assert!(matches!(block.state, InfoBlockState::ElementDescription));
    assert!(!block.focused);
    assert_eq!(block.focused_atom.as_ref().unwrap().get_number(), 2);

    let empty = InformationBlock::new(InfoBlockState::Groups, None, true);
    assert!(matches!(empty.state, InfoBlockState::Groups));
    assert!(empty.focused);
    assert!(empty.focused_atom.is_none());
}
