use puzzle_formats::build_env::beside_file_path;
use puzzle_formats::build_env::target_file_name;
use puzzle_formats::explorer_collection::ExplorerObject;
use puzzle_formats::fpuzzles::CellPos;
use puzzle_formats::fpuzzles::HighlightColor;
use puzzle_formats::fpuzzles::Negative;
use puzzle_formats::fpuzzles::NegativeFlag;
use puzzle_formats::fpuzzles::SudokuPadUrl;
use puzzle_formats::path_tool::add;
use puzzle_formats::serialization::is_default;
use puzzle_formats::serialization::is_empty;

#[test]
fn negative_flags_round_trip() {
    let n = Negative {
        ratio: true,
        xv: false,
    };
    let flags = n.flags();
    assert_eq!(flags, vec![NegativeFlag::Ratio]);
    assert_eq!(Negative::from_flags(&flags), n);

    let both = Negative {
        ratio: true,
        xv: true,
    };
    assert_eq!(
        both.flags(),
        vec![NegativeFlag::Ratio, NegativeFlag::XV]
    );
    assert_eq!(Negative::from_flags(&both.flags()), both);

    let none = Negative::default();
    assert_eq!(none.flags(), vec![]);
    assert_eq!(Negative::from_flags(&[]), none);

    // repeated and reordered flags read back to the same record
    let noisy = [NegativeFlag::XV, NegativeFlag::Ratio, NegativeFlag::XV];
    assert_eq!(Negative::from_flags(&noisy), both);
}

#[test]
fn highlight_color_codes_round_trip() {
    assert_eq!(HighlightColor::White.code(), 0);
    assert_eq!(HighlightColor::LightRed.code(), 11);
    for code in 0u8..=11 {
        let color = HighlightColor::try_from_code(code).unwrap();
        assert_eq!(color.code(), code);
    }
    assert!(HighlightColor::try_from_code(12).is_none());
    assert_eq!(HighlightColor::default(), HighlightColor::White);
}

#[test]
fn sudokupad_full_id_split() {
    assert!(matches!(
        SudokuPadUrl::from_full_id("sclABCDEFGHIJKLMNOPQRSTUVWXYZ"),
        SudokuPadUrl::Scl(_)
    ));
    assert!(matches!(
        SudokuPadUrl::from_full_id("short"),
        SudokuPadUrl::Shortened(_)
    ));
}

#[test]
fn explorer_tree_lookup_and_expansion() {
    let paths = vec![
        vec!["folder1".to_string(), "file11".to_string()],
        vec!["folder1".to_string(), "file12".to_string()],
        vec!["file2".to_string()],
    ];
    let mut root = ExplorerObject::build_folder("root".to_string(), &paths);
    assert_eq!(root.name().as_str(), "root");

    let (children, expanded) = root.expanded().unwrap();
    assert_eq!(children.len(), 2);
    assert_eq!(children[0].name().as_str(), "folder1");
    assert_eq!(children[1].name().as_str(), "file2");
    assert!(!expanded);

    let folder_id = {
        let (children, _) = root.expanded().unwrap();
        let (folder_children, _) = children[0].expanded().unwrap();
        assert_eq!(folder_children.len(), 2);
        assert_eq!(folder_children[0].name().as_str(), "file11");
        assert_eq!(folder_children[1].name().as_str(), "file12");
        children[0].id()
    };

    root.expand(true);
    let (_, expanded) = root.expanded().unwrap();
    assert!(expanded);

    let found = root.get_by_id(folder_id);
    assert!(found.is_some());

    // the root carries id zero and is found first
    let root_again = root.get_by_id(root.id()).unwrap();
    assert_eq!(root_again.name().as_str(), "root");
}

#[test]
fn explorer_push_appends_children() {
    let mut root = ExplorerObject::new("root".to_string());
    assert!(root.expanded().is_none());
    root.push(ExplorerObject::new("a".to_string()));
    root.push(ExplorerObject::new("b".to_string()));
    let (children, expanded) = root.expanded().unwrap();
    assert_eq!(children.len(), 2);
    assert_eq!(children[0].name().as_str(), "a");
    assert_eq!(children[1].name().as_str(), "b");
    assert!(!expanded);
}

#[test]
fn build_file_names() {
    assert_eq!(target_file_name("linux", "puzzle-path-tool"), "libpuzzle_path_tool");
    assert_eq!(target_file_name("windows", "puzzle-path-tool"), "puzzle_path_tool");
    assert_eq!(
        beside_file_path("/tmp/target", "libpuzzle_path_tool", ".h"),
        "/tmp/target/libpuzzle_path_tool.h"
    );
}

#[test]
fn small_helpers() {
    assert_eq!(add(2, 2), 4);
    assert!(is_empty::<i32>(&[]));
    assert!(!is_empty(&[1]));
    assert!(is_default(&0i32));
    assert!(!is_default(&1i32));
}

#[test]
fn cell_strings_parse_and_print() {
    let p = CellPos { row: 3, column: 11 };
    assert_eq!(p.cell_string(), "R3C11");
    assert_eq!(CellPos::parse("R3C11"), Some(p));

    let negative = CellPos {
        row: -2,
        column: 0,
    };
    assert_eq!(negative.cell_string(), "R-2C0");
    assert_eq!(CellPos::parse("R-2C0"), Some(negative));

    assert_eq!(CellPos::parse(""), None);
    assert_eq!(CellPos::parse("R3"), None);
    assert_eq!(CellPos::parse("3C11"), None);
    assert_eq!(CellPos::parse("RxC2"), None);
    assert_eq!(CellPos::parse("R+3C2"), None);
    assert_eq!(CellPos::parse("R3C2x"), None);
    assert_eq!(CellPos::parse("R300C2"), None);
    assert_eq!(CellPos::parse("R-128C127"), Some(CellPos { row: -128, column: 127 }));
}
