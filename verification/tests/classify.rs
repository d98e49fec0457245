use puzzle_formats::urls::ParseError;
use puzzle_formats::urls::ResolvedUrlInner;
use puzzle_formats::urls::SudokuPadFullUrl;
use puzzle_formats::urls::UnresolvedUrlInner;
use puzzle_formats::urls::UrlValue;

fn resolved(input: &str) -> ResolvedUrlInner {
    match UrlValue::parse(input).unwrap() {
        UrlValue::Resolved(r) => r.inner().clone(),
        UrlValue::Unresolved(_) => panic!("expected a resolved reference for {input}"),
    }
}

fn unresolved(input: &str) -> UnresolvedUrlInner {
    match UrlValue::parse(input).unwrap() {
        UrlValue::Unresolved(u) => u.inner().clone(),
        UrlValue::Resolved(_) => panic!("expected an unresolved reference for {input}"),
    }
}

#[test]
fn fpuzzles_load_is_resolved() {
    match resolved("https://f-puzzles.com/?load=ABC123") {
        ResolvedUrlInner::FPuzzles(id) => assert_eq!(id, "ABC123"),
        _ => panic!("wrong site"),
    }
    match resolved("https://www.f-puzzles.com/?load=ABC123") {
        ResolvedUrlInner::FPuzzles(id) => assert_eq!(id, "ABC123"),
        _ => panic!("wrong site"),
    }
}

#[test]
fn fpuzzles_id_needs_a_redirect() {
    match unresolved("https://f-puzzles.com/?id=short1") {
        UnresolvedUrlInner::FPuzzles(id) => assert_eq!(id, "short1"),
        _ => panic!("wrong kind"),
    }
}

#[test]
fn fpuzzles_extra_path_is_unknown_page() {
    assert!(matches!(
        UrlValue::parse("https://f-puzzles.com/extra?id=x"),
        Err(ParseError::UnknownPage(_))
    ));
}

#[test]
fn fpuzzles_without_query_lacks_id() {
    assert!(matches!(
        UrlValue::parse("https://f-puzzles.com/"),
        Err(ParseError::MissingId(_))
    ));
    assert!(matches!(
        UrlValue::parse("https://f-puzzles.com/?other=x"),
        Err(ParseError::MissingId(_))
    ));
}

#[test]
fn sudokupad_puzzleid_prefixes() {
    match resolved("https://sudokupad.app/?puzzleid=scl12345") {
        ResolvedUrlInner::SudokuPad(SudokuPadFullUrl::Scl(id)) => assert_eq!(id, "12345"),
        _ => panic!("wrong kind"),
    }
    match resolved("https://sudokupad.app/?puzzleid=fpuzAAA") {
        ResolvedUrlInner::SudokuPad(SudokuPadFullUrl::FPuz(id)) => assert_eq!(id, "AAA"),
        _ => panic!("wrong kind"),
    }
    match resolved("https://sudokupad.app/?puzzleid=fpuzzlesBBB") {
        ResolvedUrlInner::SudokuPad(SudokuPadFullUrl::FPuz(id)) => assert_eq!(id, "BBB"),
        _ => panic!("wrong kind"),
    }
    match resolved("https://sudokupad.app/?puzzleid=ctc777") {
        ResolvedUrlInner::SudokuPad(SudokuPadFullUrl::Scl(id)) => assert_eq!(id, "777"),
        _ => panic!("wrong kind"),
    }
}

#[test]
fn sudokupad_short_id_needs_a_body_fetch() {
    match unresolved("https://sudokupad.app/?puzzleid=shortid1") {
        UnresolvedUrlInner::SudokuPad(id) => assert_eq!(id, "shortid1"),
        _ => panic!("wrong kind"),
    }
}

#[test]
fn sudokupad_path_segments_form_the_id() {
    match resolved("https://sudokupad.app/sudoku/scfZZZ") {
        ResolvedUrlInner::SudokuPad(SudokuPadFullUrl::Scf(id)) => assert_eq!(id, "ZZZ"),
        _ => panic!("wrong kind"),
    }
    match resolved("https://alpha.sudokupad.app/sudoku/sclXYZ") {
        ResolvedUrlInner::SudokuPad(SudokuPadFullUrl::Scl(id)) => assert_eq!(id, "XYZ"),
        _ => panic!("wrong kind"),
    }
    // the sentinel is skipped only as the very first segment
    match unresolved("https://sudokupad.app/a/b") {
        UnresolvedUrlInner::SudokuPad(id) => assert_eq!(id, "a/b"),
        _ => panic!("wrong kind"),
    }
}

#[test]
fn sudokumaker_puzzle_param() {
    match resolved("https://sudokumaker.app/?puzzle=id1") {
        ResolvedUrlInner::SudokuMaker(id) => assert_eq!(id, "id1"),
        _ => panic!("wrong site"),
    }
    assert!(matches!(
        UrlValue::parse("https://sudokumaker.app/"),
        Err(ParseError::MissingId(_))
    ));
}

#[test]
fn penpa_edit_page_is_the_reference_itself() {
    match resolved("https://swaroopg92.github.io/penpa-edit") {
        ResolvedUrlInner::Penpa(url) => {
            assert_eq!(url.as_str(), "https://swaroopg92.github.io/penpa-edit");
        }
        _ => panic!("wrong site"),
    }
    match unresolved("https://swaroopg92.github.io/penpa-edit/extra") {
        UnresolvedUrlInner::Unknown(url) => {
            assert_eq!(url.as_str(), "https://swaroopg92.github.io/penpa-edit/extra");
        }
        _ => panic!("wrong kind"),
    }
}

#[test]
fn unknown_host_defers() {
    match unresolved("https://example.com/whatever?x=1") {
        UnresolvedUrlInner::Unknown(url) => {
            assert_eq!(url.as_str(), "https://example.com/whatever?x=1");
        }
        _ => panic!("wrong kind"),
    }
}

#[test]
fn non_http_scheme_is_rejected() {
    assert!(matches!(
        UrlValue::parse("ftp://f-puzzles.com/?load=x"),
        Err(ParseError::InvalidScheme(_))
    ));
    match UrlValue::parse("ftp://example.com/") {
        Err(ParseError::InvalidScheme(scheme)) => assert_eq!(scheme, "ftp"),
        _ => panic!("expected an invalid-scheme error"),
    }
}

#[test]
fn host_without_domain_is_rejected() {
    assert!(matches!(
        UrlValue::parse("https://127.0.0.1/?load=x"),
        Err(ParseError::NoDomain(_))
    ));
}

#[test]
fn unparseable_input_is_rejected() {
    assert!(matches!(
        UrlValue::parse("not a url"),
        Err(ParseError::UrlParseError(_))
    ));
}

#[test]
fn first_matching_query_parameter_wins() {
    match resolved("https://sudokupad.app/?puzzleid=scl1&puzzleid=scl2") {
        ResolvedUrlInner::SudokuPad(SudokuPadFullUrl::Scl(id)) => assert_eq!(id, "1"),
        _ => panic!("wrong kind"),
    }
    match resolved("https://sudokupad.app/?other=x&puzzleid=sclZ") {
        ResolvedUrlInner::SudokuPad(SudokuPadFullUrl::Scl(id)) => assert_eq!(id, "Z"),
        _ => panic!("wrong kind"),
    }
}
