use audiobook_tagger::naming::{contains_token, number_chapters, number_files, substitute_number};
use audiobook_tagger::Error;

#[test]
fn scheme_without_token_is_refused() {
    for scheme in ["Chapter", "", "%", "n%", "% n", "%N", "Chapter %", "100%%", "%%", "%d"] {
        assert!(!contains_token(scheme));
        assert_eq!(
            number_chapters(scheme, 3, 1),
            Err(Error::NoFormatSpecifierError("%n".to_string()))
        );
        assert_eq!(
            number_chapters(scheme, 0, 1),
            Err(Error::NoFormatSpecifierError("%n".to_string()))
        );
    }
}

#[test]
fn scheme_with_token_is_found() {
    for scheme in ["%n", "Chapter %n", "%n.", "%%n", "a%nb%nc", "é%n", "%n%"] {
        assert!(contains_token(scheme));
    }
}

#[test]
fn titles_are_numbered_from_start() {
    assert_eq!(
        number_chapters("Chapter %n", 3, 1),
        Ok(vec!["Chapter 1".to_string(), "Chapter 2".to_string(), "Chapter 3".to_string()])
    );
    assert_eq!(
        number_chapters("%n – Teil %n", 4, 9),
        Ok(vec![
            "9 – Teil 9".to_string(),
            "10 – Teil 10".to_string(),
            "11 – Teil 11".to_string(),
            "12 – Teil 12".to_string()
        ])
    );
    assert_eq!(number_chapters("%n", 0, 5), Ok(Vec::new()));
}

#[test]
fn titles_can_be_numbered_from_a_negative_start() {
    assert_eq!(
        number_chapters("#%n", 3, -1),
        Ok(vec!["#-1".to_string(), "#0".to_string(), "#1".to_string()])
    );
    assert_eq!(
        number_chapters("%n", 2, i32::MAX - 1),
        Ok(vec!["2147483646".to_string(), "2147483647".to_string()])
    );
    assert_eq!(number_chapters("%n", 1, i32::MIN), Ok(vec!["-2147483648".to_string()]));
}

#[test]
fn substitution_agrees_with_replace() {
    for scheme in [
        "", "%", "%n", "n%", "%%", "%%n", "%n%", "%n%n", "%%n%", "a%", "a%n", "%na", "a%nb", "%%%n%%",
        "%nn", "%n%nn%", "ü%né", "100%", "% n", "%\u{1f600}n",
    ] {
        for number in ["7", "-12", ""] {
            assert_eq!(substitute_number(scheme, number), scheme.replace("%n", number));
        }
    }
    assert_eq!(substitute_number("%%n", "3"), "%3");
    assert_eq!(substitute_number("Track %n of %n", "12"), "Track 12 of 12");
}

#[test]
fn track_numbers_count_up_from_start() {
    assert_eq!(number_files(0, 1), Vec::<u32>::new());
    assert_eq!(number_files(4, 1), vec![1, 2, 3, 4]);
    assert_eq!(number_files(3, 0), vec![0, 1, 2]);
    assert_eq!(number_files(2, u32::MAX - 1), vec![u32::MAX - 1, u32::MAX]);
}
