use vstd::prelude::*;
use vstd::string::*;

use rand::seq::SliceRandom;

verus! {

/// Number of colours in a palette; longer rows keep their first five.
pub const PALETTE_LEN: usize = 5;

/// A colour as its red, green and blue channels.
#[derive(Clone, Copy, Debug, PartialEq, Eq, Structural)]
pub struct Rgb {
    pub r: u8,
    pub g: u8,
    pub b: u8,
}

/// The value of a hexadecimal digit, either case.
pub open spec fn hex_digit(c: char) -> Option<u8> {
    if '0' <= c <= '9' {
        Some((c as u32 - '0' as u32) as u8)
    } else if 'a' <= c <= 'f' {
        Some((c as u32 - 'a' as u32 + 10) as u8)
    } else if 'A' <= c <= 'F' {
        Some((c as u32 - 'A' as u32 + 10) as u8)
    } else {
        None
    }
}

/// The byte that two characters spell in base 16: two digits, or a plus
/// sign and one digit, as unsigned integer parsing accepts.
pub open spec fn hex_pair(a: char, b: char) -> Option<u8> {
    if a == '+' {
        hex_digit(b)
    } else if hex_digit(a) is Some && hex_digit(b) is Some {
        Some((16 * hex_digit(a)->0 + hex_digit(b)->0) as u8)
    } else {
        None
    }
}

/// `s` without its leading `#` characters.
pub open spec fn strip_hashes(s: Seq<char>) -> Seq<char>
    decreases s.len(),
{
    if s.len() > 0 && s[0] == '#' {
        strip_hashes(s.drop_first())
    } else {
        s
    }
}

/// The colour that a hex string such as `#1a2B3c` names: after any leading
/// `#`, exactly three pairs of characters, each spelling a byte.
pub open spec fn parse_hex(s: Seq<char>) -> Option<Rgb> {
    let t = strip_hashes(s);
    if t.len() == 6 && hex_pair(t[0], t[1]) is Some && hex_pair(t[2], t[3]) is Some && hex_pair(
        t[4],
        t[5],
    ) is Some {
        Some(
            Rgb {
                r: hex_pair(t[0], t[1])->0,
                g: hex_pair(t[2], t[3])->0,
                b: hex_pair(t[4], t[5])->0,
            },
        )
    } else {
        None
    }
}

/// The palette that a row of hex strings gives: its first five entries,
/// when the row has at least five and each of them parses.
pub open spec fn row_palette(row: Seq<String>) -> Option<Seq<Rgb>> {
    if row.len() >= PALETTE_LEN && forall|k: int|
        0 <= k < PALETTE_LEN ==> (#[trigger] parse_hex(row[k]@)) is Some {
        Some(Seq::new(PALETTE_LEN as nat, |k: int| parse_hex(row[k]@)->0))
    } else {
        None
    }
}

/// The palettes of `rows`, in row order, each with the index of its row.
pub open spec fn select(rows: Seq<Vec<String>>) -> Seq<(int, Seq<Rgb>)>
    decreases rows.len(),
{
    if rows.len() == 0 {
        Seq::empty()
    } else {
        let rest = select(rows.drop_last());
        match row_palette(rows.last()@) {
            Some(p) => rest.push(((rows.len() - 1) as int, p)),
            None => rest,
        }
    }
}

/// A palette together with the index of the row it came from.
#[derive(Debug)]
pub struct PaletteRow {
    pub index: usize,
    pub colors: Vec<Rgb>,
}

/// What a palette row holds, as plain values.
pub open spec fn row_view(p: PaletteRow) -> (int, Seq<Rgb>) {
    (p.index as int, p.colors@)
}

/// What a list of palette rows holds, as plain values.
pub open spec fn rows_view(v: Seq<PaletteRow>) -> Seq<(int, Seq<Rgb>)> {
    v.map_values(|p: PaletteRow| row_view(p))
}

/// The value of one hexadecimal digit.
fn digit_value(c: char) -> (r: Option<u8>)
    ensures
        r == hex_digit(c),
{
    if '0' <= c && c <= '9' {
        Some((c as u32 - '0' as u32) as u8)
    } else if 'a' <= c && c <= 'f' {
        Some((c as u32 - 'a' as u32 + 10) as u8)
    } else if 'A' <= c && c <= 'F' {
        Some((c as u32 - 'A' as u32 + 10) as u8)
    } else {
        None
    }
}

/// The byte that two characters spell in base 16.
fn pair_value(a: char, b: char) -> (r: Option<u8>)
    ensures
        r == hex_pair(a, b),
{
    if a == '+' {
        return digit_value(b);
    }
    match (digit_value(a), digit_value(b)) {
        (Some(x), Some(y)) => Some(16 * x + y),
        _ => None,
    }
}

proof fn lemma_strip_step(s: Seq<char>, i: int)
    requires
        0 <= i < s.len(),
        s[i] == '#',
    ensures
        strip_hashes(s.subrange(i, s.len() as int)) == strip_hashes(s.subrange(i + 1, s.len() as int)),
{
    assert(s.subrange(i, s.len() as int).drop_first() =~= s.subrange(i + 1, s.len() as int));
}

/// Parses a colour written as a hex string such as `#1a2B3c`.
pub fn parse_hex_color(hex: &str) -> (r: Option<Rgb>)
    ensures
        r == parse_hex(hex@),
{
    let n = hex.unicode_len();
    let mut i: usize = 0;
    assert(hex@.subrange(0, n as int) =~= hex@);
    while i < n && hex.get_char(i) == '#'
        invariant
            n == hex@.len(),
            0 <= i <= n,
            strip_hashes(hex@) == strip_hashes(hex@.subrange(i as int, n as int)),
        decreases n - i,
    {
        proof {
            lemma_strip_step(hex@, i as int);
        }
        i = i + 1;
    }
    let ghost t = hex@.subrange(i as int, n as int);
    assert(strip_hashes(t) == t);
    if n - i != 6 {
        return None;
    }
    assert(forall|k: int| 0 <= k < 6 ==> t[k] == hex@[i + k]);
    let r = pair_value(hex.get_char(i), hex.get_char(i + 1));
    let g = pair_value(hex.get_char(i + 2), hex.get_char(i + 3));
    let b = pair_value(hex.get_char(i + 4), hex.get_char(i + 5));
    match (r, g, b) {
        (Some(r), Some(g), Some(b)) => Some(Rgb { r, g, b }),
        _ => None,
    }
}

/// The palette of one row, as `row_palette` describes it.
fn row_colors(row: &Vec<String>) -> (r: Option<Vec<Rgb>>)
    ensures
        r is None <==> row_palette(row@) is None,
        r matches Some(v) ==> v@ == row_palette(row@)->0,
{
    if row.len() < PALETTE_LEN {
        return None;
    }
    let mut colors: Vec<Rgb> = Vec::new();
    let mut k: usize = 0;
    while k < PALETTE_LEN
        invariant
            row@.len() >= PALETTE_LEN,
            0 <= k <= PALETTE_LEN,
            colors@.len() == k,
            forall|j: int|
                0 <= j < k ==> (#[trigger] parse_hex(row@[j]@)) is Some && colors@[j] == parse_hex(
                    row@[j]@,
                )->0,
        decreases PALETTE_LEN - k,
    {
        match parse_hex_color(row[k].as_str()) {
            None => {
                return None;
            },
            Some(c) => {
                colors.push(c);
            },
        }
        k = k + 1;
    }
    assert(colors@ =~= Seq::new(PALETTE_LEN as nat, |j: int| parse_hex(row@[j]@)->0));
    Some(colors)
}

/// The palettes that `rows` hold, in row order: each row with at least five
/// entries whose first five all parse gives one, tagged with its index.
pub fn select_palettes(rows: &Vec<Vec<String>>) -> (r: Vec<PaletteRow>)
    ensures
        rows_view(r@) == select(rows@),
{
    let mut out: Vec<PaletteRow> = Vec::new();
    let mut i: usize = 0;
    assert(rows_view(out@) =~= select(rows@.subrange(0, 0)));
    while i < rows.len()
        invariant
            0 <= i <= rows@.len(),
            rows_view(out@) == select(rows@.subrange(0, i as int)),
        decreases rows@.len() - i,
    {
        let ghost before = out@;
        assert(rows@.subrange(0, i + 1).drop_last() =~= rows@.subrange(0, i as int));
        match row_colors(&rows[i]) {
            Some(colors) => {
                out.push(PaletteRow { index: i, colors });
                assert(rows_view(out@) =~= rows_view(before).push(row_view(out@.last())));
            },
            None => {},
        }
        i = i + 1;
    }
    assert(rows@.subrange(0, rows@.len() as int) =~= rows@);
    out
}

/// Relies on rand's `SliceRandom::shuffle` with the thread-local generator:
/// it only swaps elements, so the rows come back in some order, each once.
#[verifier::external_body]
fn shuffle_rows(v: &mut Vec<PaletteRow>)
    ensures
        final(v)@.len() == old(v)@.len(),
        rows_view(final(v)@).to_multiset() == rows_view(old(v)@).to_multiset(),
{
    let mut rng = rand::thread_rng();
    v.shuffle(&mut rng);
}

/// The palettes of `rows` in a random order, or `None` when no row gives one.
pub fn palettes_from_rows(rows: &Vec<Vec<String>>) -> (r: Option<Vec<PaletteRow>>)
    ensures
        r is None <==> select(rows@).len() == 0,
        r matches Some(v) ==> rows_view(v@).to_multiset() == select(rows@).to_multiset(),
{
    let mut palettes = select_palettes(rows);
    if palettes.len() == 0 {
        assert(rows_view(palettes@).len() == 0);
        return None;
    }
    shuffle_rows(&mut palettes);
    Some(palettes)
}

} // verus!
