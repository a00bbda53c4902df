//! Text helpers: comparison, decimal numbers, and line splitting.

use vstd::prelude::*;
use vstd::string::*;

verus! {

/// The views of a list of strings.
pub open spec fn texts(list: Seq<String>) -> Seq<Seq<char>> {
    list.map_values(|s: String| s@)
}

/// The view of an optional text.
pub open spec fn optional_text(text: Option<String>) -> Option<Seq<char>> {
    match text {
        Some(t) => Some(t@),
        None => None,
    }
}

/// Whether `text` begins with `prefix`.
pub fn has_prefix(text: &str, prefix: &str) -> (res: bool)
    ensures
        res == prefix@.is_prefix_of(text@),
{
    let mut rest = text.chars();
    let mut wanted = prefix.chars();
    let ghost mut n: int = 0;
    loop
        invariant
            0 <= n <= text@.len(),
            n <= prefix@.len(),
            vstd::std_specs::iter::IteratorSpec::remaining(&rest) == text@.skip(n),
            vstd::std_specs::iter::IteratorSpec::remaining(&wanted) == prefix@.skip(n),
            prefix@.take(n) == text@.take(n),
        decreases prefix@.len() - n,
    {
        match wanted.next() {
            None => {
                assert(prefix@.take(n) == prefix@);
                return true;
            },
            Some(w) => {
                assert(w == prefix@[n]);
                match rest.next() {
                    None => {
                        return false;
                    },
                    Some(c) => {
                        assert(c == text@[n]);
                        if c != w {
                            return false;
                        }
                        proof {
                            assert(prefix@.take(n + 1) == prefix@.take(n).push(w));
                            assert(text@.take(n + 1) == text@.take(n).push(c));
                            n = n + 1;
                        }
                    },
                }
            },
        }
    }
}

/// Whether two texts are the same.
pub fn same_text(a: &str, b: &str) -> (res: bool)
    ensures
        res == (a@ == b@),
{
    let res = has_prefix(a, b) && has_prefix(b, a);
    proof {
        if res {
            assert(a@.take(a@.len() as int) == a@);
            assert(b@.take(b@.len() as int) == b@);
        }
    }
    res
}

/// The character that stands for the digit `d`.
pub open spec fn digit(d: nat) -> char
    recommends
        d < 10,
{
    (('0' as nat) + d) as char
}

/// A number in decimal notation, without leading zeros.
pub open spec fn decimal(n: nat) -> Seq<char>
    decreases n,
{
    if n < 10 {
        seq![digit(n)]
    } else {
        decimal(n / 10).push(digit(n % 10))
    }
}

fn digit_text(d: u16) -> (res: String)
    requires
        d < 10,
    ensures
        res@ == seq![digit(d as nat)],
{
    proof {
        reveal_strlit("0");
        reveal_strlit("1");
        reveal_strlit("2");
        reveal_strlit("3");
        reveal_strlit("4");
        reveal_strlit("5");
        reveal_strlit("6");
        reveal_strlit("7");
        reveal_strlit("8");
        reveal_strlit("9");
    }
    let text = match d {
        0 => "0",
        1 => "1",
        2 => "2",
        3 => "3",
        4 => "4",
        5 => "5",
        6 => "6",
        7 => "7",
        8 => "8",
        _ => "9",
    };
    assert(text@ == seq![digit(d as nat)]);
    text.to_owned()
}

/// Writes a number in decimal notation.
pub fn decimal_text(n: u16) -> (res: String)
    ensures
        res@ == decimal(n as nat),
    decreases n,
{
    if n < 10 {
        digit_text(n)
    } else {
        let last = digit_text(n % 10);
        let res = decimal_text(n / 10).concat(last.as_str());
        assert(res@ == decimal(n as nat));
        res
    }
}

/// The position of the first line feed, or the length where there is none.
pub open spec fn line_end(s: Seq<char>) -> nat
    decreases s.len(),
{
    if s.len() == 0 || s[0] == '\n' {
        0
    } else {
        1 + line_end(s.drop_first())
    }
}

/// A line without the carriage return that stood before its line feed.
pub open spec fn without_return(line: Seq<char>) -> Seq<char> {
    if line.len() > 0 && line.last() == '\r' {
        line.drop_last()
    } else {
        line
    }
}

/// The lines of a text. A line ends in a line feed, or in a carriage return and a line feed;
/// neither belongs to the line, and the last line needs no ending.
pub open spec fn lines(s: Seq<char>) -> Seq<Seq<char>>
    decreases s.len(),
{
    let end = line_end(s);
    if s.len() == 0 {
        Seq::empty()
    } else if end >= s.len() {
        seq![s]
    } else {
        seq![without_return(s.take(end as int))] + lines(s.skip(end as int + 1))
    }
}

proof fn lemma_line_end(s: Seq<char>, end: int)
    requires
        0 <= end <= s.len(),
        forall|i: int| 0 <= i < end ==> s[i] != '\n',
        end == s.len() || s[end] == '\n',
    ensures
        line_end(s) == end,
    decreases s.len(),
{
    if end > 0 {
        assert forall|i: int| 0 <= i < end - 1 implies s.drop_first()[i] != '\n' by {
            assert(s.drop_first()[i] == s[i + 1]);
        }
        lemma_line_end(s.drop_first(), end - 1);
    }
}

/// No line feed stands before the end of the first line.
pub proof fn lemma_before_line_end(s: Seq<char>)
    ensures
        line_end(s) <= s.len(),
        forall|i: int| 0 <= i < line_end(s) ==> s[i] != '\n',
        line_end(s) < s.len() ==> s[line_end(s) as int] == '\n',
    decreases s.len(),
{
    if s.len() > 0 && s[0] != '\n' {
        let rest = s.drop_first();
        lemma_before_line_end(rest);
        assert forall|i: int| 0 <= i < line_end(s) implies s[i] != '\n' by {
            if i > 0 {
                assert(s[i] == rest[i - 1]);
            }
        }
    }
}

fn characters(text: &str) -> (res: Vec<char>)
    ensures
        res@ == text@,
{
    let mut rest = text.chars();
    let mut res: Vec<char> = Vec::new();
    loop
        invariant
            res@ + vstd::std_specs::iter::IteratorSpec::remaining(&rest) == text@,
        decreases text@.len() - res@.len(),
    {
        match rest.next() {
            None => {
                return res;
            },
            Some(c) => {
                res.push(c);
            },
        }
    }
}

/// Splits a text into its lines.
pub fn split_lines(text: &str) -> (res: Vec<String>)
    ensures
        texts(res@) == lines(text@),
{
    let chars = characters(text);
    let mut res: Vec<String> = Vec::new();
    let mut start: usize = 0;
    let mut pos: usize = 0;
    assert(text@.skip(0) == text@);
    assert(texts(res@) == Seq::<Seq<char>>::empty());
    while pos < chars.len()
        invariant
            chars@ == text@,
            start <= pos <= chars@.len(),
            forall|i: int| start <= i < pos ==> text@[i] != '\n',
            texts(res@) + lines(text@.skip(start as int)) == lines(text@),
        decreases chars@.len() - pos,
    {
        if chars[pos] == '\n' {
            let mut stop: usize = pos;
            if start < pos && chars[pos - 1] == '\r' {
                stop = pos - 1;
            }
            let line = text.substring_char(start, stop).to_owned();
            let ghost before = res@;
            let ghost rest = text@.skip(start as int);
            res.push(line);
            proof {
                let end = pos - start;
                lemma_line_end(rest, end);
                assert(rest.take(end) == text@.subrange(start as int, pos as int));
                assert(line@ == without_return(rest.take(end)));
                assert(rest.skip(end + 1) == text@.skip(pos + 1));
                assert(texts(res@) == texts(before).push(line@));
                assert(texts(before).push(line@) + lines(text@.skip(pos + 1)) == texts(before) + (
                seq![line@] + lines(text@.skip(pos + 1))));
            }
            start = pos + 1;
        }
        pos = pos + 1;
    }
    let ghost rest = text@.skip(start as int);
    if start < pos {
        let line = text.substring_char(start, pos).to_owned();
        let ghost before = res@;
        res.push(line);
        proof {
            lemma_line_end(rest, rest.len() as int);
            assert(line@ == rest);
            assert(texts(res@) == texts(before) + seq![line@]);
        }
    }
    res
}

/// What `String::from_utf8_lossy` makes of some bytes.
pub uninterp spec fn lossy_decoding(bytes: Seq<u8>) -> Seq<char>;

/// Decodes bytes as UTF-8 through `String::from_utf8_lossy`, which puts a replacement character
/// where the bytes are not valid. Taken on trust: the result depends on the bytes alone, and
/// valid bytes are decoded as they stand.
#[verifier::external_body]
fn from_utf8_lossy(bytes: &[u8]) -> (res: String)
    ensures
        res@ == lossy_decoding(bytes@),
        vstd::utf8::valid_utf8(bytes@) ==> res@ == vstd::utf8::decode_utf8(bytes@),
{
    String::from_utf8_lossy(bytes).into_owned()
}

/// The text that some bytes spell: what they encode where they are valid UTF-8, and what is left
/// of it with replacement characters otherwise.
pub open spec fn spelled(bytes: Seq<u8>) -> Seq<char> {
    if vstd::utf8::valid_utf8(bytes) {
        vstd::utf8::decode_utf8(bytes)
    } else {
        lossy_decoding(bytes)
    }
}

/// Reads the text that some bytes spell.
pub fn text_from_bytes(bytes: &[u8]) -> (res: String)
    ensures
        res@ == spelled(bytes@),
{
    from_utf8_lossy(bytes)
}

/// A number in decimal notation reads back as the number: it is made of the digits from `0` to `9`,
/// they stand for the number in base ten, and none of them is a leading zero.
pub proof fn law_decimal_reads_back(n: nat)
    ensures
        decimal(n).len() > 0,
        forall|i: int| 0 <= i < decimal(n).len() ==> '0' <= #[trigger] decimal(n)[i] <= '9',
        decimal(n).fold_left(0int, |value: int, c: char| 10 * value + (c as int - 48)) == n,
        decimal(n)[0] == '0' ==> n == 0 && decimal(n).len() == 1,
    decreases n,
{
    let f = |value: int, c: char| 10 * value + (c as int - 48);
    if n < 10 {
        assert(decimal(n) =~= seq![digit(n)]);
        assert(decimal(n).drop_last() =~= Seq::<char>::empty());
        reveal_with_fuel(Seq::fold_left, 2);
    } else {
        law_decimal_reads_back(n / 10);
        assert(decimal(n).drop_last() =~= decimal(n / 10));
        assert(decimal(n)[0] == decimal(n / 10)[0]);
    }
}

/// A text without a line feed is one line, and an empty one is none.
pub proof fn law_text_without_line_feed_is_one_line(s: Seq<char>)
    requires
        !s.contains('\n'),
    ensures
        lines(s) == if s.len() == 0 {
            Seq::<Seq<char>>::empty()
        } else {
            seq![s]
        },
{
    assert forall|i: int| 0 <= i < s.len() implies s[i] != '\n' by {
        assert(s.contains(s[i]));
    }
    lemma_line_end(s, s.len() as int);
}

/// What stands before the first line feed is the first line, and what stands behind it is split in
/// turn. A carriage return right before the line feed belongs to neither.
pub proof fn law_line_feed_ends_a_line(line: Seq<char>, rest: Seq<char>)
    requires
        !line.contains('\n'),
    ensures
        line.len() == 0 || line.last() != '\r' ==> lines(line + seq!['\n'] + rest) == seq![line]
            + lines(rest),
        lines(line + seq!['\r', '\n'] + rest) == seq![line] + lines(rest),
{
    assert forall|i: int| 0 <= i < line.len() implies line[i] != '\n' by {
        assert(line.contains(line[i]));
    }
    let plain = line + seq!['\n'] + rest;
    lemma_line_end(plain, line.len() as int);
    assert(plain.take(line.len() as int) =~= line);
    assert(plain.skip(line.len() as int + 1) =~= rest);
    let returned = line + seq!['\r', '\n'] + rest;
    lemma_line_end(returned, line.len() as int + 1);
    assert(returned.take(line.len() as int + 1) =~= line.push('\r'));
    assert(line.push('\r').drop_last() =~= line);
    assert(returned.skip(line.len() as int + 2) =~= rest);
}

/// Bytes that encode a text spell that text, and others spell what is left of it with replacement
/// characters.
pub proof fn law_bytes_spell_their_text(s: Seq<char>, bytes: Seq<u8>)
    ensures
        spelled(vstd::utf8::encode_utf8(s)) == s,
        !vstd::utf8::valid_utf8(bytes) ==> spelled(bytes) == lossy_decoding(bytes),
{
    vstd::utf8::encode_utf8_valid_utf8(s);
    vstd::utf8::encode_utf8_decode_utf8(s);
}

} // verus!
