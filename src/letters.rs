//! The bitmap font: each letter is seven rows of twelve decimal digits,
//! `0` for a dark cell and `7` for a light one, so that a column of
//! `time=` lines printed by `ping` draws the letter.
use vstd::prelude::*;

verus! {

/// A character that the font has no glyph for.
#[derive(Debug, Clone, Copy, PartialEq, Eq, Structural)]
pub struct UnknownLetter(pub char);

impl UnknownLetter {
    /// The character that was refused.
    pub fn letter(&self) -> (r: char)
        ensures
            r == self.0,
    {
        self.0
    }
}

/// Rows of the glyph of the `k`-th letter of the alphabet (`0` is `A`).
pub open spec fn letter_rows(k: int) -> Seq<i64> {
    if k == 0 {
        // A
        seq![
            777700077777,
            777007007777,
            770077700777,
            700777770077,
            700000000077,
            700777770077,
            700777770077,
        ]
    } else if k == 1 {
        // B
        seq![
            700000000777,
            700777770077,
            700777770077,
            700000000777,
            700777770077,
            700777770077,
            700000000777,
        ]
    } else if k == 2 {
        // C
        seq![
            770000007777,
            700777700777,
            700777777777,
            700777777777,
            700777777777,
            700777700777,
            770000007777,
        ]
    } else if k == 3 {
        // D
        seq![
            700000000777,
            700777770077,
            700777770077,
            700777770077,
            700777770077,
            700777770077,
            700000000777,
        ]
    } else if k == 4 {
        // E
        seq![
            700000000777,
            700777777777,
            700777777777,
            700000077777,
            700777777777,
            700777777777,
            700000000777,
        ]
    } else if k == 5 {
        // F
        seq![
            700000000777,
            700777777777,
            700777777777,
            700000077777,
            700777777777,
            700777777777,
            700777777777,
        ]
    } else if k == 6 {
        // G
        seq![
            770000007777,
            700777700777,
            700777777777,
            700777000077,
            700777700777,
            700777700777,
            770000007777,
        ]
    } else if k == 7 {
        // H
        seq![
            700777770077,
            700777770077,
            700777770077,
            700000000077,
            700777770077,
            700777770077,
            700777770077,
        ]
    } else if k == 8 {
        // I
        seq![
            777000077777,
            777700777777,
            777700777777,
            777700777777,
            777700777777,
            777700777777,
            777000077777,
        ]
    } else if k == 9 {
        // J
        seq![
            700777777777,
            700777777777,
            700777777777,
            700777777777,
            700777700777,
            700777700777,
            770000007777,
        ]
    } else if k == 10 {
        // K
        seq![
            700777700777,
            700777007777,
            700770077777,
            700000777777,
            700770077777,
            700777007777,
            700777700777,
        ]
    } else if k == 11 {
        // L
        seq![
            700777777777,
            700777777777,
            700777777777,
            700777777777,
            700777777777,
            700777777777,
            700000000777,
        ]
    } else if k == 12 {
        // M
        seq![
            700777770077,
            700077700077,
            700007000077,
            700700070077,
            700777770077,
            700777770077,
            700777770077,
        ]
    } else if k == 13 {
        // N
        seq![
            700777700777,
            700077700777,
            700007700777,
            700700700777,
            700770000777,
            700777000777,
            700777700777,
        ]
    } else if k == 14 {
        // O
        seq![
            770000000777,
            700777770077,
            700777770077,
            700777770077,
            700777770077,
            700777770077,
            770000000777,
        ]
    } else if k == 15 {
        // P
        seq![
            700000000777,
            700777770077,
            700777770077,
            700000000777,
            700777777777,
            700777777777,
            700777777777,
        ]
    } else if k == 16 {
        // Q
        seq![
            770000000777,
            700777770077,
            700777770077,
            700777770077,
            700770070077,
            700777700777,
            770000070077,
        ]
    } else if k == 17 {
        // R
        seq![
            700000000777,
            700777770077,
            700777770077,
            700000000777,
            700777007777,
            700777700777,
            700777770077,
        ]
    } else if k == 18 {
        // S
        seq![
            770000007777,
            700777700777,
            700777777777,
            770000007777,
            777777700777,
            700777700777,
            770000007777,
        ]
    } else if k == 19 {
        // T
        seq![
            700000000777,
            777700777777,
            777700777777,
            777700777777,
            777700777777,
            777700777777,
            777700777777,
        ]
    } else if k == 20 {
        // U
        seq![
            700777700777,
            700777700777,
            700777700777,
            700777700777,
            700777700777,
            770777707777,
            777000077777,
        ]
    } else if k == 21 {
        // V
        seq![
            700777770077,
            700777770077,
            700777770077,
            700777770077,
            770077700777,
            777007007777,
            777700077777,
        ]
    } else if k == 22 {
        // W
        seq![
            700770077007,
            700770077007,
            700770077007,
            700770077007,
            700770077007,
            700770077007,
            770007700077,
        ]
    } else if k == 23 {
        // X
        seq![
            700777770077,
            770077700777,
            777007007777,
            777700077777,
            777007007777,
            770077700777,
            770077777007,
        ]
    } else if k == 24 {
        // Y
        seq![
            700777700777,
            770077007777,
            777000077777,
            777700777777,
            777700777777,
            777700777777,
            777700777777,
        ]
    } else {
        // Z
        seq![
            700000000777,
            777777007777,
            777770077777,
            777700777777,
            777007777777,
            770077777777,
            700000000777,
        ]
    }
}

/// Position in the alphabet of an ASCII letter of either case.
pub open spec fn letter_index(c: char) -> Option<int> {
    if 'A' <= c && c <= 'Z' {
        Some(c as int - 'A' as int)
    } else if 'a' <= c && c <= 'z' {
        Some(c as int - 'a' as int)
    } else {
        None
    }
}

/// The glyph of a character: one blank row for a space, the seven rows of
/// its letter (in either case) for a letter, none for anything else.
pub open spec fn glyph(c: char) -> Option<Seq<i64>> {
    if c == ' ' {
        Some(seq![0])
    } else {
        match letter_index(c) {
            Some(k) => Some(letter_rows(k)),
            None => None,
        }
    }
}

/// Rows of the `k`-th letter of the alphabet.
fn letter_table(k: u32) -> (r: Vec<i64>)
    requires
        k < 26,
    ensures
        r@ == letter_rows(k as int),
{
    match k {
        0 => {
            // A
            vec![
                777700077777,
                777007007777,
                770077700777,
                700777770077,
                700000000077,
                700777770077,
                700777770077,
            ]
        },
        1 => {
            // B
            vec![
                700000000777,
                700777770077,
                700777770077,
                700000000777,
                700777770077,
                700777770077,
                700000000777,
            ]
        },
        2 => {
            // C
            vec![
                770000007777,
                700777700777,
                700777777777,
                700777777777,
                700777777777,
                700777700777,
                770000007777,
            ]
        },
        3 => {
            // D
            vec![
                700000000777,
                700777770077,
                700777770077,
                700777770077,
                700777770077,
                700777770077,
                700000000777,
            ]
        },
        4 => {
            // E
            vec![
                700000000777,
                700777777777,
                700777777777,
                700000077777,
                700777777777,
                700777777777,
                700000000777,
            ]
        },
        5 => {
            // F
            vec![
                700000000777,
                700777777777,
                700777777777,
                700000077777,
                700777777777,
                700777777777,
                700777777777,
            ]
        },
        6 => {
            // G
            vec![
                770000007777,
                700777700777,
                700777777777,
                700777000077,
                700777700777,
                700777700777,
                770000007777,
            ]
        },
        7 => {
            // H
            vec![
                700777770077,
                700777770077,
                700777770077,
                700000000077,
                700777770077,
                700777770077,
                700777770077,
            ]
        },
        8 => {
            // I
            vec![
                777000077777,
                777700777777,
                777700777777,
                777700777777,
                777700777777,
                777700777777,
                777000077777,
            ]
        },
        9 => {
            // J
            vec![
                700777777777,
                700777777777,
                700777777777,
                700777777777,
                700777700777,
                700777700777,
                770000007777,
            ]
        },
        10 => {
            // K
            vec![
                700777700777,
                700777007777,
                700770077777,
                700000777777,
                700770077777,
                700777007777,
                700777700777,
            ]
        },
        11 => {
            // L
            vec![
                700777777777,
                700777777777,
                700777777777,
                700777777777,
                700777777777,
                700777777777,
                700000000777,
            ]
        },
        12 => {
            // M
            vec![
                700777770077,
                700077700077,
                700007000077,
                700700070077,
                700777770077,
                700777770077,
                700777770077,
            ]
        },
        13 => {
            // N
            vec![
                700777700777,
                700077700777,
                700007700777,
                700700700777,
                700770000777,
                700777000777,
                700777700777,
            ]
        },
        14 => {
            // O
            vec![
                770000000777,
                700777770077,
                700777770077,
                700777770077,
                700777770077,
                700777770077,
                770000000777,
            ]
        },
        15 => {
            // P
            vec![
                700000000777,
                700777770077,
                700777770077,
                700000000777,
                700777777777,
                700777777777,
                700777777777,
            ]
        },
        16 => {
            // Q
            vec![
                770000000777,
                700777770077,
                700777770077,
                700777770077,
                700770070077,
                700777700777,
                770000070077,
            ]
        },
        17 => {
            // R
            vec![
                700000000777,
                700777770077,
                700777770077,
                700000000777,
                700777007777,
                700777700777,
                700777770077,
            ]
        },
        18 => {
            // S
            vec![
                770000007777,
                700777700777,
                700777777777,
                770000007777,
                777777700777,
                700777700777,
                770000007777,
            ]
        },
        19 => {
            // T
            vec![
                700000000777,
                777700777777,
                777700777777,
                777700777777,
                777700777777,
                777700777777,
                777700777777,
            ]
        },
        20 => {
            // U
            vec![
                700777700777,
                700777700777,
                700777700777,
                700777700777,
                700777700777,
                770777707777,
                777000077777,
            ]
        },
        21 => {
            // V
            vec![
                700777770077,
                700777770077,
                700777770077,
                700777770077,
                770077700777,
                777007007777,
                777700077777,
            ]
        },
        22 => {
            // W
            vec![
                700770077007,
                700770077007,
                700770077007,
                700770077007,
                700770077007,
                700770077007,
                770007700077,
            ]
        },
        23 => {
            // X
            vec![
                700777770077,
                770077700777,
                777007007777,
                777700077777,
                777007007777,
                770077700777,
                770077777007,
            ]
        },
        24 => {
            // Y
            vec![
                700777700777,
                770077007777,
                777000077777,
                777700777777,
                777700777777,
                777700777777,
                777700777777,
            ]
        },
        _ => {
            // Z
            vec![
                700000000777,
                777777007777,
                777770077777,
                777700777777,
                777007777777,
                770077777777,
                700000000777,
            ]
        },
    }
}

/// Looks up the glyph of a character, ignoring the case of letters.
pub fn get_letter(c: char) -> (r: Result<Vec<i64>, UnknownLetter>)
    ensures
        match r {
            Ok(rows) => glyph(c) == Some(rows@),
            Err(e) => glyph(c) is None && e == UnknownLetter(c),
        },
{
    if c == ' ' {
        Ok(vec![0])
    } else if 'A' <= c && c <= 'Z' {
        Ok(letter_table(c as u32 - 'A' as u32))
    } else if 'a' <= c && c <= 'z' {
        Ok(letter_table(c as u32 - 'a' as u32))
    } else {
        Err(UnknownLetter(c))
    }
}

/// The rows of a message, each glyph followed by a blank separator row,
/// or the first character that has no glyph.
pub open spec fn banner_body(s: Seq<char>) -> Result<Seq<i64>, char>
    decreases s.len(),
{
    if s.len() == 0 {
        Ok(seq![])
    } else {
        match banner_body(s.drop_last()) {
            Err(c) => Err(c),
            Ok(rows) => match glyph(s.last()) {
                Some(g) => Ok(rows + g.push(0)),
                None => Err(s.last()),
            },
        }
    }
}

/// The delta sequence of a message: its body closed by one more blank row.
pub open spec fn banner_deltas(s: Seq<char>) -> Result<Seq<i64>, char> {
    match banner_body(s) {
        Ok(rows) => Ok(rows.push(0)),
        Err(c) => Err(c),
    }
}

/// Once a prefix of a message has failed, the message fails with the same
/// character.
proof fn lemma_body_error_extends(s: Seq<char>, j: int, c: char)
    requires
        0 <= j <= s.len(),
        banner_body(s.take(j)) == Err::<Seq<i64>, char>(c),
    ensures
        banner_body(s) == Err::<Seq<i64>, char>(c),
    decreases s.len() - j,
{
    if j < s.len() {
        assert(s.take(j + 1).drop_last() =~= s.take(j));
        lemma_body_error_extends(s, j + 1, c);
    } else {
        assert(s.take(j) =~= s);
    }
}

/// A message's deltas are never empty.
pub proof fn lemma_deltas_nonempty(s: Seq<char>)
    ensures
        banner_deltas(s) is Ok ==> banner_deltas(s)->Ok_0.len() > 0,
{
}

/// Renders a message into the deltas that draw it, one row per sequence
/// number.
pub fn get_word(s: &str) -> (r: Result<Vec<i64>, UnknownLetter>)
    ensures
        match r {
            Ok(deltas) => banner_deltas(s@) == Ok::<Seq<i64>, char>(deltas@),
            Err(e) => banner_deltas(s@) == Err::<Seq<i64>, char>(e.0),
        },
{
    let mut res: Vec<i64> = Vec::new();
    let n = s.unicode_len();
    let mut i: usize = 0;
    while i < n
        invariant
            n == s@.len(),
            i <= n,
            banner_body(s@.take(i as int)) == Ok::<Seq<i64>, char>(res@),
        decreases n - i,
    {
        let c = s.get_char(i);
        assert(s@.take(i + 1).drop_last() =~= s@.take(i as int));
        assert(s@.take(i + 1).last() == c);
        match get_letter(c) {
            Ok(rows) => {
                let ghost before = res@;
                let mut k: usize = 0;
                while k < rows.len()
                    invariant
                        k <= rows.len(),
                        res@ == before + rows@.take(k as int),
                    decreases rows.len() - k,
                {
                    res.push(rows[k]);
                    assert(rows@.take(k + 1) =~= rows@.take(k as int).push(rows@[k as int]));
                    k = k + 1;
                }
                assert(rows@.take(rows.len() as int) =~= rows@);
                res.push(0);
                assert(res@ =~= before + rows@.push(0));
            },
            Err(e) => {
                proof {
                    lemma_body_error_extends(s@, i + 1, c);
                }
                return Err(e);
            },
        }
        i = i + 1;
    }
    assert(s@.take(n as int) =~= s@);
    res.push(0);
    Ok(res)
}

/// Every letter of either case, and the space, has a glyph; a letter's has
/// seven rows.
pub proof fn lemma_glyph_total(c: char)
    requires
        c == ' ' || ('A' <= c && c <= 'Z') || ('a' <= c && c <= 'z'),
    ensures
        glyph(c) is Some,
        c != ' ' ==> glyph(c)->Some_0.len() == 7,
{
}

/// A lower-case letter has the glyph of its upper-case form.
pub proof fn lemma_case_folding(lower: char, upper: char)
    requires
        'a' <= lower && lower <= 'z',
        upper as int == lower as int - ('a' as int - 'A' as int),
    ensures
        glyph(lower) == glyph(upper),
{
}

/// A message of `n` letters renders to `8n + 1` deltas: seven rows and a
/// separator per letter, and the closing row.
pub proof fn lemma_banner_shape(s: Seq<char>)
    requires
        forall|i: int| 0 <= i < s.len() ==> (#[trigger] letter_index(s[i])) is Some,
    ensures
        banner_deltas(s) is Ok,
        banner_deltas(s)->Ok_0.len() == 8 * s.len() + 1,
    decreases s.len(),
{
    if s.len() > 0 {
        assert(letter_index(s[s.len() - 1]) is Some);
        lemma_banner_shape(s.drop_last());
        lemma_glyph_total(s.last());
    }
}

} // verus!
