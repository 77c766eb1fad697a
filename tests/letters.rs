use ping_adjuster::letters::{get_letter, get_word, UnknownLetter};

const A_ROWS: [i64; 7] = [
    777700077777,
    777007007777,
    770077700777,
    700777770077,
    700000000077,
    700777770077,
    700777770077,
];

#[test]
fn every_letter_has_seven_rows() {
    for c in ('A'..='Z').chain('a'..='z') {
        let rows = get_letter(c).unwrap();
        assert_eq!(rows.len(), 7, "{c}");
        for r in &rows {
            let digits = format!("{r:012}");
            assert_eq!(digits.len(), 12);
            assert!(digits.chars().all(|d| d == '0' || d == '7'), "{c}: {r}");
        }
    }
}

#[test]
fn space_is_one_blank_row() {
    assert_eq!(get_letter(' ').unwrap(), vec![0]);
}

#[test]
fn letter_a_rows() {
    assert_eq!(get_letter('A').unwrap(), A_ROWS.to_vec());
}

#[test]
fn letter_z_rows() {
    assert_eq!(
        get_letter('Z').unwrap(),
        vec![
            700000000777,
            777777007777,
            777770077777,
            777700777777,
            777007777777,
            770077777777,
            700000000777,
        ]
    );
}

#[test]
fn lower_case_has_upper_case_glyph() {
    for (l, u) in ('a'..='z').zip('A'..='Z') {
        assert_eq!(get_letter(l).unwrap(), get_letter(u).unwrap());
    }
}

#[test]
fn letters_differ() {
    assert_ne!(get_letter('B').unwrap(), get_letter('D').unwrap());
    assert_ne!(get_letter('A').unwrap(), get_letter('B').unwrap());
}

#[test]
fn other_characters_are_unknown() {
    for c in ['\n', '\t', '1', '!', 'é', '@', '[', '`', '{'] {
        assert_eq!(get_letter(c), Err(UnknownLetter(c)));
    }
    assert_eq!(get_letter('?').unwrap_err().letter(), '?');
}

#[test]
fn word_shape() {
    assert_eq!(get_word("HELLO").unwrap().len(), 8 * 5 + 1);
    assert_eq!(get_word("ab").unwrap().len(), 17);
}

#[test]
fn empty_word_is_one_terminator() {
    assert_eq!(get_word("").unwrap(), vec![0]);
}

#[test]
fn word_layout() {
    let mut expected = A_ROWS.to_vec();
    expected.push(0);
    expected.extend(A_ROWS);
    expected.push(0);
    expected.push(0);
    assert_eq!(get_word("aA").unwrap(), expected);
}

#[test]
fn word_with_space() {
    let mut expected = A_ROWS.to_vec();
    expected.extend([0, 0, 0]);
    expected.extend(A_ROWS);
    expected.extend([0, 0]);
    assert_eq!(get_word("A A").unwrap(), expected);
}

#[test]
fn word_reports_first_unknown_letter() {
    assert_eq!(get_word("a\tb\n"), Err(UnknownLetter('\t')));
    assert_eq!(get_word("ok1x2"), Err(UnknownLetter('1')));
    assert_eq!(get_word("line\n"), Err(UnknownLetter('\n')));
}
