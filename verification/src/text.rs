//! Text helpers shared by the command builders and the parsers.
use vstd::prelude::*;
use vstd::utf8::{decode_utf8, valid_utf8};

verus! {

/// The character of the decimal digit `d` (0..=9).
pub open spec fn digit_char(d: nat) -> char {
    (48 + d) as char
}

/// Decimal representation of `n`, without sign or leading zeros, as `u32::to_string` gives it.
pub open spec fn decimal(n: nat) -> Seq<char>
    decreases n,
{
    if n < 10 {
        seq![digit_char(n)]
    } else {
        decimal(n / 10).push(digit_char(n % 10))
    }
}

/// The one-character string of the digit `d`.
fn digit_str(d: u32) -> (r: &'static str)
    requires
        d < 10,
    ensures
        r@ == seq![digit_char(d as nat)],
{
    proof {
        reveal_strlit("0");
        reveal_strlit("1");
        reveal_strlit("2");
        reveal_strlit("3");
        reveal_strlit("4");
        reveal_strlit("5");
        reveal_strlit("6");
        reveal_strlit("7");
        reveal_strlit("8");
        reveal_strlit("9");
    }
    match d {
        0 => "0",
        1 => "1",
        2 => "2",
        3 => "3",
        4 => "4",
        5 => "5",
        6 => "6",
        7 => "7",
        8 => "8",
        _ => "9",
    }
}

/// Appends the decimal representation of `n` to `s`.
pub fn push_decimal(s: &mut String, n: u32)
    ensures
        final(s)@ == old(s)@ + decimal(n as nat),
    decreases n,
{
    if n < 10 {
        s.append(digit_str(n));
    } else {
        push_decimal(s, n / 10);
        s.append(digit_str(n % 10));
        proof {
            assert(old(s)@ + decimal(n as nat) =~= old(s)@ + decimal((n / 10) as nat) + seq![
                digit_char((n % 10) as nat),
            ]);
        }
    }
}

/// `needle` occurs in `hay` as a contiguous run of characters (always true of an empty needle).
pub open spec fn contains_seq(hay: Seq<char>, needle: Seq<char>) -> bool {
    exists|i: int|
        0 <= i && i + needle.len() <= hay.len() && #[trigger] hay.subrange(i, i + needle.len())
            == needle
}

/// Whether `needle` occurs in `hay`, as `str::contains` with a string pattern answers.
pub fn contains_text(hay: &str, needle: &str) -> (r: bool)
    ensures
        r == contains_seq(hay@, needle@),
{
    let n = hay.unicode_len();
    let m = needle.unicode_len();
    if m > n {
        proof {
            assert forall|i: int|
                0 <= i && i + needle@.len() <= hay@.len() implies #[trigger] hay@.subrange(
                i,
                i + needle@.len(),
            ) != needle@ by {}
        }
        return false;
    }
    let mut i: usize = 0;
    while i <= n - m
        invariant
            n == hay@.len(),
            m == needle@.len(),
            m <= n,
            i <= n - m + 1,
            forall|k: int| 0 <= k < i ==> #[trigger] hay@.subrange(k, k + m) != needle@,
        decreases n - m + 1 - i,
    {
        let mut j: usize = 0;
        let mut same = true;
        while j < m
            invariant
                n == hay@.len(),
                m == needle@.len(),
                i + m <= n,
                j <= m,
                same == (forall|t: int| 0 <= t < j ==> hay@[i + t] == needle@[t]),
            decreases m - j,
        {
            if hay.get_char(i + j) != needle.get_char(j) {
                same = false;
            }
            j += 1;
        }
        if same {
            assert(hay@.subrange(i as int, i + m) =~= needle@);
            return true;
        }
        assert(hay@.subrange(i as int, i + m)[(choose|t: int| 0 <= t < m && hay@[i + t] != needle@[t])] != needle@[(choose|t: int| 0 <= t < m && hay@[i + t] != needle@[t])]);
        i += 1;
    }
    false
}

/// `s` begins with `p`.
pub open spec fn has_prefix(s: Seq<char>, p: Seq<char>) -> bool {
    p.len() <= s.len() && forall|i: int| 0 <= i < p.len() ==> s[i] == p[i]
}

/// `s` ends with `p`.
pub open spec fn has_suffix(s: Seq<char>, p: Seq<char>) -> bool {
    p.len() <= s.len() && forall|i: int| 0 <= i < p.len() ==> s[s.len() - p.len() + i] == p[i]
}

/// A text that differs from `p` at position `i` does not begin with `p`.
pub proof fn lemma_not_prefix_at(s: Seq<char>, p: Seq<char>, i: int)
    requires
        0 <= i < p.len(),
        i < s.len(),
        s[i] != p[i],
    ensures
        !has_prefix(s, p),
{
}

/// A text that differs from `p` at position `j` from the end does not end
/// with `p`.
pub proof fn lemma_not_suffix_at(s: Seq<char>, p: Seq<char>, j: int)
    requires
        0 <= j < p.len(),
        j < s.len(),
        s[s.len() - 1 - j] != p[p.len() - 1 - j],
    ensures
        !has_suffix(s, p),
{
    if has_suffix(s, p) {
        let i = p.len() - 1 - j;
        assert(s[s.len() - p.len() + i] == p[i]);
    }
}

/// Unicode `White_Space`, the set that `char::is_whitespace` tests.
pub open spec fn is_ws(c: char) -> bool {
    ||| ('\t' <= c && c <= '\r')
    ||| c == ' '
    ||| c == '\u{85}'
    ||| c == '\u{a0}'
    ||| c == '\u{1680}'
    ||| ('\u{2000}' <= c && c <= '\u{200a}')
    ||| c == '\u{2028}'
    ||| c == '\u{2029}'
    ||| c == '\u{202f}'
    ||| c == '\u{205f}'
    ||| c == '\u{3000}'
}

/// Whether `c` is white space, as `char::is_whitespace` answers.
pub fn is_whitespace(c: char) -> (r: bool)
    ensures
        r == is_ws(c),
{
    ('\t' <= c && c <= '\r') || c == ' ' || c == '\u{85}' || c == '\u{a0}' || c == '\u{1680}' || (
    '\u{2000}' <= c && c <= '\u{200a}') || c == '\u{2028}' || c == '\u{2029}' || c == '\u{202f}'
        || c == '\u{205f}' || c == '\u{3000}'
}

/// The maximal runs of non-white-space characters of `s`, in order: what
/// `str::split_whitespace` yields.
pub open spec fn words(s: Seq<char>) -> Seq<Seq<char>>
    decreases s.len(),
{
    if s.len() == 0 {
        seq![]
    } else {
        let prev = words(s.drop_last());
        let c = s.last();
        if is_ws(c) {
            prev
        } else if s.len() >= 2 && !is_ws(s[s.len() - 2]) {
            prev.update(prev.len() - 1, prev.last().push(c))
        } else {
            prev.push(seq![c])
        }
    }
}

/// Law: the characters that separate words are exactly the code points of
/// Unicode's `White_Space` property: U+0009 to U+000D (tab, line feed,
/// vertical tab, form feed, carriage return), U+0020, U+0085, U+00A0,
/// U+1680, U+2000 to U+200A, U+2028, U+2029, U+202F, U+205F and U+3000.
pub proof fn lemma_white_space_code_points(c: char)
    ensures
        is_ws(c) <==> {
            let n = c as u32;
            ||| 0x9 <= n <= 0xd
            ||| n == 0x20
            ||| n == 0x85
            ||| n == 0xa0
            ||| n == 0x1680
            ||| 0x2000 <= n <= 0x200a
            ||| n == 0x2028
            ||| n == 0x2029
            ||| n == 0x202f
            ||| n == 0x205f
            ||| n == 0x3000
        },
{
}

/// Law: white space at the end of a text adds no word.
pub proof fn lemma_trailing_white_space(s: Seq<char>, c: char)
    requires
        is_ws(c),
    ensures
        words(s.push(c)) == words(s),
{
    assert(s.push(c).drop_last() =~= s);
}

/// Law: the line ending `\r\n` that ends each line the sensor board sends
/// does not change the numbers read from it.
pub proof fn lemma_line_end_ignored(s: Seq<char>, max: nat)
    ensures
        numbers_of(s + seq!['\r', '\n'], max) == numbers_of(s, max),
{
    lemma_trailing_white_space(s, '\r');
    lemma_trailing_white_space(s.push('\r'), '\n');
    assert(s + seq!['\r', '\n'] =~= s.push('\r').push('\n'));
}

/// A text that ends in a non-white-space character has at least one word.
pub proof fn lemma_words_nonempty(s: Seq<char>)
    requires
        s.len() > 0,
        !is_ws(s.last()),
    ensures
        words(s).len() > 0,
    decreases s.len(),
{
    if s.len() >= 2 && !is_ws(s[s.len() - 2]) {
        assert(s.drop_last().last() == s[s.len() - 2]);
        lemma_words_nonempty(s.drop_last());
    }
}

/// `c` is an ASCII decimal digit.
pub open spec fn is_digit(c: char) -> bool {
    '0' <= c && c <= '9'
}

/// Value of the ASCII digit `c`.
pub open spec fn digit_value(c: char) -> nat {
    (c as int - 48) as nat
}

/// How far an unsigned-integer literal has been read: nothing yet, a lone
/// `+`, a number with its value, or something that is no literal.
pub enum Literal {
    Empty,
    Plus,
    Num(nat),
    Bad,
}

/// Reads one more character of an unsigned-integer literal (an optional
/// leading `+`, then decimal digits), as `u32::from_str` reads it.
pub open spec fn literal_step(t: Literal, c: char) -> Literal {
    match t {
        Literal::Empty => if c == '+' {
            Literal::Plus
        } else if is_digit(c) {
            Literal::Num(digit_value(c))
        } else {
            Literal::Bad
        },
        Literal::Plus => if is_digit(c) {
            Literal::Num(digit_value(c))
        } else {
            Literal::Bad
        },
        Literal::Num(v) => if is_digit(c) {
            Literal::Num(v * 10 + digit_value(c))
        } else {
            Literal::Bad
        },
        Literal::Bad => Literal::Bad,
    }
}

/// The literal state after reading all of `w`.
pub open spec fn literal_of(w: Seq<char>) -> Literal
    decreases w.len(),
{
    if w.len() == 0 {
        Literal::Empty
    } else {
        literal_step(literal_of(w.drop_last()), w.last())
    }
}

/// The value of the word `w` read as an unsigned integer no greater than
/// `max`, or `None` where `str::parse` reports an error.
pub open spec fn parse_word(w: Seq<char>, max: nat) -> Option<nat> {
    match literal_of(w) {
        Literal::Num(v) => if v <= max {
            Some(v)
        } else {
            None
        },
        _ => None,
    }
}

/// The values of all words, or `None` as soon as one of them is no number
/// within `max` (what collecting the parses into a `Result` gives).
pub open spec fn parse_words(ws: Seq<Seq<char>>, max: nat) -> Option<Seq<nat>>
    decreases ws.len(),
{
    if ws.len() == 0 {
        Some(seq![])
    } else {
        match (parse_words(ws.drop_last(), max), parse_word(ws.last(), max)) {
            (Some(a), Some(v)) => Some(a.push(v)),
            _ => None,
        }
    }
}

/// The white-space separated unsigned integers of `s`, each at most `max`.
pub open spec fn numbers_of(s: Seq<char>, max: nat) -> Option<Seq<nat>> {
    parse_words(words(s), max)
}

/// Every number read is at most `max`.
pub proof fn lemma_numbers_bounded(ws: Seq<Seq<char>>, max: nat)
    requires
        parse_words(ws, max) is Some,
    ensures
        forall|j: int|
            0 <= j < parse_words(ws, max)->0.len() ==> #[trigger] parse_words(ws, max)->0[j] <= max,
    decreases ws.len(),
{
    if ws.len() > 0 {
        lemma_numbers_bounded(ws.drop_last(), max);
    }
}

/// The literal read so far, as the parser below holds it: a number is kept
/// only while it is at most `max`, and `Over` stands for any larger one.
enum Scan {
    Empty,
    Plus,
    Num(u32),
    Bad,
    Over,
}

spec fn scan_matches(t: Scan, l: Literal, max: nat) -> bool {
    match (t, l) {
        (Scan::Empty, Literal::Empty) => true,
        (Scan::Plus, Literal::Plus) => true,
        (Scan::Bad, Literal::Bad) => true,
        (Scan::Num(v), Literal::Num(x)) => v == x && x <= max,
        (Scan::Over, Literal::Num(x)) => x > max,
        _ => false,
    }
}

fn scan_step(t: Scan, c: char, max: u32) -> (r: Scan)
    ensures
        forall|l: Literal| scan_matches(t, l, max as nat) ==> scan_matches(r, literal_step(l, c), max as nat),
{
    let digit = '0' <= c && c <= '9';
    let d: u32 = if digit { (c as u32) - 48 } else { 0 };
    match t {
        Scan::Empty => if c == '+' {
            Scan::Plus
        } else if digit {
            if d <= max { Scan::Num(d) } else { Scan::Over }
        } else {
            Scan::Bad
        },
        Scan::Plus => if digit {
            if d <= max { Scan::Num(d) } else { Scan::Over }
        } else {
            Scan::Bad
        },
        Scan::Num(v) => if digit {
            let next: u64 = v as u64 * 10 + d as u64;
            if next <= max as u64 { Scan::Num(next as u32) } else { Scan::Over }
        } else {
            Scan::Bad
        },
        Scan::Bad => Scan::Bad,
        Scan::Over => if digit { Scan::Over } else { Scan::Bad },
    }
}

/// The values of `v` as natural numbers.
pub open spec fn nats(v: Seq<u32>) -> Seq<nat> {
    v.map_values(|x: u32| x as nat)
}

/// Parses the white-space separated unsigned integers of `text`, each at
/// most `max`: `None` if any word is no such number.
pub fn parse_numbers(text: &str, max: u32) -> (r: Option<Vec<u32>>)
    ensures
        match numbers_of(text@, max as nat) {
            Some(v) => r is Some && nats(r->0@) == v,
            None => r is None,
        },
{
    let n = text.unicode_len();
    let mut out: Vec<u32> = Vec::new();
    let mut ok = true;
    let mut in_word = false;
    let mut tok = Scan::Empty;
    let mut i: usize = 0;
    while i < n
        invariant
            n == text@.len(),
            i <= n,
            in_word == (i > 0 && !is_ws(text@[i - 1])),
            in_word ==> words(text@.subrange(0, i as int)).len() > 0 && scan_matches(
                tok,
                literal_of(words(text@.subrange(0, i as int)).last()),
                max as nat,
            ),
            ok == (parse_words(
                if in_word {
                    words(text@.subrange(0, i as int)).drop_last()
                } else {
                    words(text@.subrange(0, i as int))
                },
                max as nat,
            ) is Some),
            ok ==> nats(out@) == parse_words(
                if in_word {
                    words(text@.subrange(0, i as int)).drop_last()
                } else {
                    words(text@.subrange(0, i as int))
                },
                max as nat,
            )->0,
        decreases n - i,
    {
        let c = text.get_char(i);
        let ghost p = text@.subrange(0, i as int);
        let ghost p2 = text@.subrange(0, i + 1);
        let ghost w = words(p);
        assert(p2.drop_last() =~= p);
        assert(p2.last() == c);
        if is_whitespace(c) {
            assert(words(p2) == w);
            if in_word {
                let ghost lw = w.last();
                let value = match tok {
                    Scan::Num(v) => Some(v),
                    _ => None,
                };
                assert(parse_word(lw, max as nat) == match value { Some(v) => Some(v as nat), None => None::<nat> });
                if ok {
                    match value {
                        Some(v) => {
                            let ghost before = out@;
                            out.push(v);
                            assert(nats(out@) =~= nats(before).push(v as nat));
                        },
                        None => {
                            ok = false;
                        },
                    }
                }
                in_word = false;
                tok = Scan::Empty;
            }
        } else {
            if in_word {
                let ghost lw = w.last();
                assert(lw.push(c).drop_last() =~= lw);
                assert(p2.len() >= 2 && !is_ws(p2[p2.len() - 2]));
                assert(words(p2) == w.update(w.len() - 1, lw.push(c)));
                assert(words(p2).drop_last() =~= w.drop_last());
                assert(words(p2).last() == lw.push(c));
                assert(literal_of(lw.push(c)) == literal_step(literal_of(lw), c));
                assert(scan_matches(tok, literal_of(lw), max as nat));
                tok = scan_step(tok, c, max);
                assert(scan_matches(tok, literal_of(words(p2).last()), max as nat));
            } else {
                assert(words(p2) == w.push(seq![c]));
                assert(words(p2).drop_last() =~= w);
                assert(seq![c].drop_last() =~= Seq::<char>::empty());
                assert(literal_of(Seq::<char>::empty()) == Literal::Empty);
                assert(literal_of(seq![c]) == literal_step(Literal::Empty, c));
                assert(words(p2).last() == seq![c]);
                assert(scan_matches(Scan::Empty, Literal::Empty, max as nat));
                tok = scan_step(Scan::Empty, c, max);
                assert(scan_matches(tok, literal_of(words(p2).last()), max as nat));
                in_word = true;
            }
        }
        i += 1;
    }
    let ghost w = words(text@.subrange(0, n as int));
    assert(text@.subrange(0, n as int) =~= text@);
    if in_word {
        let value = match tok {
            Scan::Num(v) => Some(v),
            _ => None,
        };
        assert(parse_word(w.last(), max as nat) == match value { Some(v) => Some(v as nat), None => None::<nat> });
        if ok {
            match value {
                Some(v) => {
                    let ghost before = out@;
                    out.push(v);
                    assert(nats(out@) =~= nats(before).push(v as nat));
                },
                None => {
                    ok = false;
                },
            }
        }
    }
    if ok {
        Some(out)
    } else {
        None
    }
}

/// `text` with every occurrence of the non-empty `from` replaced by `to`,
/// occurrences taken from left to right without overlap: what `str::replace`
/// gives.
pub open spec fn replaced(text: Seq<char>, from: Seq<char>, to: Seq<char>) -> Seq<char>
    recommends
        from.len() > 0,
    decreases text.len(),
{
    if from.len() == 0 || text.len() < from.len() {
        text
    } else if text.take(from.len() as int) == from {
        to + replaced(text.skip(from.len() as int), from, to)
    } else {
        seq![text[0]] + replaced(text.skip(1), from, to)
    }
}

/// Replaces every occurrence of `from` in `text` by `to` (see `replaced`).
pub fn replace_all(text: &str, from: &str, to: &str) -> (r: String)
    requires
        from@.len() > 0,
    ensures
        r@ == replaced(text@, from@, to@),
{
    let n = text.unicode_len();
    let m = from.unicode_len();
    let mut out = String::new();
    let mut i: usize = 0;
    assert(text@.skip(0) =~= text@);
    assert(out@ + replaced(text@, from@, to@) =~= replaced(text@, from@, to@));
    while i < n
        invariant
            n == text@.len(),
            m == from@.len(),
            m > 0,
            i <= n,
            out@ + replaced(text@.skip(i as int), from@, to@) == replaced(text@, from@, to@),
        decreases n - i,
    {
        let ghost rest = text@.skip(i as int);
        if n - i >= m {
            let mut j: usize = 0;
            let mut same = true;
            while j < m
                invariant
                    n == text@.len(),
                    m == from@.len(),
                    i + m <= n,
                    j <= m,
                    same == (forall|t: int| 0 <= t < j ==> text@[i + t] == from@[t]),
                decreases m - j,
            {
                if text.get_char(i + j) != from.get_char(j) {
                    same = false;
                }
                j += 1;
            }
            if same {
                assert(rest.take(m as int) =~= from@);
                assert(rest.skip(m as int) =~= text@.skip(i + m));
                out.append(to);
                assert(out@ + replaced(text@.skip(i + m), from@, to@) =~= replaced(text@, from@, to@));
                i = i + m;
                continue;
            } else {
                proof {
                    let t = choose|t: int| 0 <= t < m && text@[i + t] != from@[t];
                    assert(rest.take(m as int)[t] != from@[t]);
                }
            }
        }
        let c = text.substring_char(i, i + 1);
        assert(c@ =~= seq![rest[0]]);
        assert(rest.skip(1) =~= text@.skip(i + 1));
        out.append(c);
        assert(out@ + replaced(text@.skip(i + 1), from@, to@) =~= replaced(text@, from@, to@));
        i = i + 1;
    }
    assert(text@.skip(n as int) =~= Seq::<char>::empty());
    assert(out@ + replaced(text@.skip(n as int), from@, to@) =~= out@);
    out
}

/// The text `String::from_utf8_lossy` makes of `bytes` (invalid sequences
/// replaced by U+FFFD).
pub uninterp spec fn lossy_text(bytes: Seq<u8>) -> Seq<char>;

/// Decodes `bytes` with `String::from_utf8_lossy`. Trusted: the result is a
/// function of the bytes alone, and std documents that valid UTF-8 is
/// decoded unchanged; how invalid sequences are replaced is not stated here.
#[verifier::external_body]
pub fn decode_lossy(bytes: &[u8]) -> (r: String)
    ensures
        r@ == lossy_text(bytes@),
        valid_utf8(bytes@) ==> r@ == decode_utf8(bytes@),
{
    String::from_utf8_lossy(bytes).into_owned()
}

} // verus!
