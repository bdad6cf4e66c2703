//! Operations on text.
//!
//! Commands, protocol lines, parameter strings and paths are all handled as character sequences.
//! Each operation is stated over the characters of its arguments.
use vstd::prelude::*;
#[allow(unused_imports)]
use vstd::string::StringExecFns;

verus! {

/// Appends a character at the end of the string (`String::push`).
pub assume_specification[ String::push ](s: &mut String, c: char)
    ensures
        final(s)@ == old(s)@.push(c),
;

/// The characters of every string of a sequence.
pub open spec fn texts(strings: Seq<String>) -> Seq<Seq<char>> {
    Seq::new(strings.len(), |i: int| strings[i]@)
}

/// The characters of a string, if there is one.
pub open spec fn opt_text(string: Option<String>) -> Option<Seq<char>> {
    match string {
        Some(s) => Some(s@),
        None => None,
    }
}

/// A copy of the strings.
pub fn copies(strings: &Vec<String>) -> (res: Vec<String>)
    ensures
        res@ == strings@,
{
    let res = strings.clone();
    assert(res@ =~= strings@);
    res
}

//------------------------------------------------------------------------------ CONCATENATION
/// Whether two texts hold the same characters.
pub fn same(a: &str, b: &str) -> (res: bool)
    ensures
        res == (a@ == b@),
{
    let x: String = a.to_owned();
    let y: String = b.to_owned();
    x == y
}

/// Two texts, one after the other.
pub fn cat(a: &str, b: &str) -> (res: String)
    ensures
        res@ == a@ + b@,
{
    let mut res = a.to_owned();
    res.append(b);
    res
}

/// Three texts, one after the other.
pub fn cat3(a: &str, b: &str, c: &str) -> (res: String)
    ensures
        res@ == a@ + b@ + c@,
{
    let mut res = a.to_owned();
    res.append(b);
    res.append(c);
    res
}

/// Four texts, one after the other.
pub fn cat4(a: &str, b: &str, c: &str, d: &str) -> (res: String)
    ensures
        res@ == a@ + b@ + c@ + d@,
{
    let mut res = cat3(a, b, c);
    res.append(d);
    res
}

/// Five texts, one after the other.
pub fn cat5(a: &str, b: &str, c: &str, d: &str, e: &str) -> (res: String)
    ensures
        res@ == a@ + b@ + c@ + d@ + e@,
{
    let mut res = cat4(a, b, c, d);
    res.append(e);
    res
}

/// The texts of a sequence, with `separator` between each two of them.
pub open spec fn joined(parts: Seq<Seq<char>>, separator: Seq<char>) -> Seq<char>
    decreases parts.len(),
{
    if parts.len() == 0 {
        Seq::empty()
    } else if parts.len() == 1 {
        parts[0]
    } else {
        joined(parts.drop_last(), separator) + separator + parts.last()
    }
}

/// Joins the strings, with a separator between each two of them.
pub fn join(parts: &Vec<String>, separator: &str) -> (res: String)
    ensures
        res@ == joined(texts(parts@), separator@),
{
    let mut res = String::new();
    let mut i: usize = 0;
    while i < parts.len()
        invariant
            i <= parts.len(),
            res@ == joined(texts(parts@.subrange(0, i as int)), separator@),
        decreases parts.len() - i,
    {
        let ghost before = texts(parts@.subrange(0, i as int));
        let ghost after = texts(parts@.subrange(0, i + 1));
        assert(after.drop_last() =~= before);
        assert(after.last() == parts@[i as int]@);
        if i > 0 {
            res.append(separator);
        }
        res.append(parts[i].as_str());
        assert(res@ =~= joined(after, separator@)) by {
            if i == 0 {
                assert(after[0] == parts@[0]@);
            }
        }
        i = i + 1;
    }
    assert(parts@.subrange(0, parts.len() as int) =~= parts@);
    res
}

//--------------------------------------------------------------------------------- CHARACTERS
/// The characters of a text.
pub fn characters(s: &str) -> (res: Vec<char>)
    ensures
        res@ == s@,
{
    let mut res: Vec<char> = Vec::new();
    for c in it: s.chars()
        invariant
            it.seq() == s@,
            res@ == s@.subrange(0, it.index()),
    {
        res.push(c);
        assert(res@ =~= s@.subrange(0, it.index() + 1));
    }
    assert(res@ =~= s@);
    res
}

/// The characters from `from` on, up to `to`, as a string.
pub fn slice(chars: &Vec<char>, from: usize, to: usize) -> (res: String)
    requires
        from <= to <= chars.len(),
    ensures
        res@ == chars@.subrange(from as int, to as int),
{
    let mut res = String::new();
    let mut i: usize = from;
    while i < to
        invariant
            from <= i <= to <= chars.len(),
            res@ == chars@.subrange(from as int, i as int),
        decreases to - i,
    {
        res.push(chars[i]);
        i = i + 1;
        assert(res@ =~= chars@.subrange(from as int, i as int));
    }
    res
}

/// Whether the characters from `at` on begin with `prefix`.
pub open spec fn occurs_at(s: Seq<char>, prefix: Seq<char>, at: int) -> bool {
    &&& 0 <= at
    &&& at + prefix.len() <= s.len()
    &&& s.subrange(at, at + prefix.len() as int) == prefix
}

fn matches_at(chars: &Vec<char>, prefix: &Vec<char>, at: usize) -> (res: bool)
    requires
        at <= chars.len(),
    ensures
        res == occurs_at(chars@, prefix@, at as int),
{
    if prefix.len() > chars.len() - at {
        return false;
    }
    let mut i: usize = 0;
    while i < prefix.len()
        invariant
            i <= prefix.len(),
            at + prefix.len() <= chars.len(),
            forall|j: int| 0 <= j < i ==> chars@[at + j] == prefix@[j],
        decreases prefix.len() - i,
    {
        if chars[at + i] != prefix[i] {
            assert(chars@.subrange(at as int, at + prefix.len() as int)[i as int] != prefix@[i as int]);
            return false;
        }
        i = i + 1;
    }
    assert(chars@.subrange(at as int, at + prefix.len() as int) =~= prefix@);
    true
}

/// Whether `s` begins with `prefix`.
pub open spec fn begins_with(s: Seq<char>, prefix: Seq<char>) -> bool {
    occurs_at(s, prefix, 0)
}

/// Whether the text begins with the prefix.
pub fn starts_with(s: &str, prefix: &str) -> (res: bool)
    ensures
        res == begins_with(s@, prefix@),
{
    matches_at(&characters(s), &characters(prefix), 0)
}

/// What is left of `s` once `prefix` is taken off its beginning; all of `s` if it does not begin
/// with `prefix`.
pub open spec fn without_prefix(s: Seq<char>, prefix: Seq<char>) -> Seq<char> {
    if begins_with(s, prefix) {
        s.skip(prefix.len() as int)
    } else {
        s
    }
}

/// Takes the prefix off the text, if the text begins with it.
pub fn strip_prefix(s: &str, prefix: &str) -> (res: String)
    ensures
        res@ == without_prefix(s@, prefix@),
{
    let chars = characters(s);
    let head = characters(prefix);
    if matches_at(&chars, &head, 0) {
        let res = slice(&chars, head.len(), chars.len());
        assert(res@ =~= s@.skip(prefix@.len() as int));
        res
    } else {
        s.to_owned()
    }
}

/// What is left of `s` once `suffix` is taken off its end; all of `s` if it does not end with
/// `suffix`.
pub open spec fn without_suffix(s: Seq<char>, suffix: Seq<char>) -> Seq<char> {
    if occurs_at(s, suffix, s.len() - suffix.len()) {
        s.take(s.len() - suffix.len())
    } else {
        s
    }
}

/// Takes the suffix off the text, if the text ends with it.
pub fn strip_suffix(s: &str, suffix: &str) -> (res: String)
    ensures
        res@ == without_suffix(s@, suffix@),
{
    let chars = characters(s);
    let tail = characters(suffix);
    if tail.len() <= chars.len() && matches_at(&chars, &tail, chars.len() - tail.len()) {
        let res = slice(&chars, 0, chars.len() - tail.len());
        assert(res@ =~= s@.take(s@.len() - suffix@.len()));
        res
    } else {
        s.to_owned()
    }
}

//-------------------------------------------------------------------------------- REPLACEMENT
/// `to`, before each character of `s` and at its end.
pub open spec fn interleaved(s: Seq<char>, to: Seq<char>) -> Seq<char>
    decreases s.len(),
{
    if s.len() == 0 {
        to
    } else {
        interleaved(s.drop_last(), to).push(s.last()) + to
    }
}

/// `s` with every occurrence of `from` replaced by `to`. Occurrences are taken from the left and
/// do not overlap. An empty pattern occurs before each character and at the end.
pub open spec fn replaced(s: Seq<char>, from: Seq<char>, to: Seq<char>) -> Seq<char>
    decreases s.len(),
{
    if from.len() == 0 {
        interleaved(s, to)
    } else if s.len() < from.len() {
        s
    } else if begins_with(s, from) {
        to + replaced(s.skip(from.len() as int), from, to)
    } else {
        seq![s[0]] + replaced(s.skip(1), from, to)
    }
}

fn interleave(chars: &Vec<char>, to: &str) -> (res: String)
    ensures
        res@ == interleaved(chars@, to@),
{
    let mut res = to.to_owned();
    let mut i: usize = 0;
    assert(chars@.take(0) =~= Seq::<char>::empty());
    while i < chars.len()
        invariant
            i <= chars.len(),
            res@ == interleaved(chars@.take(i as int), to@),
        decreases chars.len() - i,
    {
        assert(chars@.take(i + 1).drop_last() =~= chars@.take(i as int));
        res.push(chars[i]);
        res.append(to);
        i = i + 1;
    }
    assert(chars@.take(i as int) =~= chars@);
    res
}

/// Replaces every occurrence of a pattern.
pub fn replace(s: &str, from: &str, to: &str) -> (res: String)
    ensures
        res@ == replaced(s@, from@, to@),
{
    let chars = characters(s);
    let pattern = characters(from);
    if pattern.len() == 0 {
        return interleave(&chars, to);
    }
    let mut res = String::new();
    let mut i: usize = 0;
    assert(s@.skip(0) =~= s@);
    assert(res@ + replaced(s@, from@, to@) =~= replaced(s@, from@, to@));
    while i < chars.len()
        invariant
            i <= chars.len(),
            chars@ == s@,
            pattern@ == from@,
            from@.len() > 0,
            res@ + replaced(s@.skip(i as int), from@, to@) == replaced(s@, from@, to@),
        decreases chars.len() - i,
    {
        let ghost rest = s@.skip(i as int);
        let ghost done = res@;
        if matches_at(&chars, &pattern, i) {
            assert(rest.subrange(0, from@.len() as int) =~= s@.subrange(
                i as int,
                i + from@.len() as int,
            ));
            assert(begins_with(rest, from@));
            assert(rest.skip(from@.len() as int) =~= s@.skip(i + from@.len() as int));
            res.append(to);
            i = i + pattern.len();
            assert(res@ + replaced(s@.skip(i as int), from@, to@) =~= done + replaced(
                rest,
                from@,
                to@,
            ));
        } else {
            assert(!begins_with(rest, from@)) by {
                if begins_with(rest, from@) {
                    assert(rest.subrange(0, from@.len() as int) =~= s@.subrange(
                        i as int,
                        i + from@.len() as int,
                    ));
                }
            }
            assert(rest.skip(1) =~= s@.skip(i + 1));
            res.push(chars[i]);
            i = i + 1;
            assert(rest.len() < from@.len() ==> replaced(s@.skip(i as int), from@, to@)
                =~= s@.skip(i as int));
            assert(res@ + replaced(s@.skip(i as int), from@, to@) =~= done + replaced(
                rest,
                from@,
                to@,
            ));
        }
    }
    assert(replaced(s@.skip(i as int), from@, to@) =~= Seq::<char>::empty());
    assert(res@ =~= replaced(s@, from@, to@));
    res
}

/// `s` without any occurrence of the character `c`.
pub open spec fn without_char(s: Seq<char>, c: char) -> Seq<char>
    decreases s.len(),
{
    if s.len() == 0 {
        s
    } else if s.last() == c {
        without_char(s.drop_last(), c)
    } else {
        without_char(s.drop_last(), c).push(s.last())
    }
}

/// Removes every occurrence of a character.
pub fn remove_char(s: &str, c: char) -> (res: String)
    ensures
        res@ == without_char(s@, c),
{
    let chars = characters(s);
    let mut res = String::new();
    let mut i: usize = 0;
    while i < chars.len()
        invariant
            i <= chars.len(),
            chars@ == s@,
            res@ == without_char(s@.take(i as int), c),
        decreases chars.len() - i,
    {
        assert(s@.take(i + 1).drop_last() =~= s@.take(i as int));
        if chars[i] != c {
            res.push(chars[i]);
        }
        i = i + 1;
    }
    assert(s@.take(i as int) =~= s@);
    res
}

//---------------------------------------------------------------------------------- SPLITTING
/// The pieces of `s` between the occurrences of `separator`. There is always at least one piece.
pub open spec fn split_on(s: Seq<char>, separator: char) -> Seq<Seq<char>>
    decreases s.len(),
{
    if s.len() == 0 {
        seq![Seq::empty()]
    } else {
        let pieces = split_on(s.drop_last(), separator);
        if s.last() == separator {
            pieces.push(Seq::empty())
        } else {
            pieces.drop_last().push(pieces.last().push(s.last()))
        }
    }
}

/// Splits the text at every occurrence of the separator.
pub fn split(s: &str, separator: char) -> (res: Vec<String>)
    ensures
        texts(res@) == split_on(s@, separator),
        res.len() >= 1,
{
    let chars = characters(s);
    let mut res: Vec<String> = Vec::new();
    let mut piece = String::new();
    let mut i: usize = 0;
    assert(texts(res@).push(piece@) =~= split_on(s@.take(0), separator));
    while i < chars.len()
        invariant
            i <= chars.len(),
            chars@ == s@,
            texts(res@).push(piece@) == split_on(s@.take(i as int), separator),
        decreases chars.len() - i,
    {
        let ghost pieces = split_on(s@.take(i as int), separator);
        assert(s@.take(i + 1).drop_last() =~= s@.take(i as int));
        assert(pieces.last() == piece@);
        assert(pieces.drop_last() =~= texts(res@));
        if chars[i] == separator {
            res.push(piece);
            assert(texts(res@) =~= pieces);
            piece = String::new();
        } else {
            piece.push(chars[i]);
        }
        i = i + 1;
        assert(texts(res@).push(piece@) =~= split_on(s@.take(i as int), separator));
    }
    assert(s@.take(i as int) =~= s@);
    let ghost last = piece@;
    let ghost kept = res@;
    res.push(piece);
    assert(texts(res@) =~= texts(kept).push(last));
    res
}

/// The pieces are what they were cut from: joined by the separator they give the text back, and
/// none of them holds the separator.
pub proof fn split_then_join(s: Seq<char>, separator: char)
    ensures
        joined(split_on(s, separator), seq![separator]) == s,
        split_on(s, separator).len() >= 1,
        forall|i: int|
            0 <= i < split_on(s, separator).len() ==> !(#[trigger] split_on(
                s,
                separator,
            )[i]).contains(separator),
    decreases s.len(),
{
    let pieces = split_on(s, separator);
    if s.len() == 0 {
        assert(pieces[0] =~= s);
    } else {
        let init = s.drop_last();
        let before = split_on(init, separator);
        split_then_join(init, separator);
        if s.last() == separator {
            assert(pieces.drop_last() =~= before);
            assert(joined(pieces, seq![separator]) =~= s);
        } else {
            assert(pieces.drop_last() =~= before.drop_last());
            assert(pieces.last() =~= before.last().push(s.last()));
            assert forall|i: int| 0 <= i < pieces.len() implies !(
            #[trigger] pieces[i]).contains(separator) by {
                if i < pieces.len() - 1 {
                    assert(pieces[i] == before[i]);
                } else {
                    assert(!before.last().contains(separator));
                    if pieces[i].contains(separator) {
                        let k = choose|k: int| 0 <= k < pieces[i].len() && pieces[i][k] == separator;
                        assert(before.last()[k] == separator);
                    }
                }
            }
            if before.len() == 1 {
                assert(joined(before, seq![separator]) == before[0]);
                assert(joined(pieces, seq![separator]) =~= s);
            } else {
                assert(joined(pieces, seq![separator]) =~= joined(before, seq![separator]).push(
                    s.last(),
                ));
                assert(joined(pieces, seq![separator]) =~= s);
            }
        }
    }
}

/// What stands before and after the first occurrence of `c`; where there is none, all of `s` stands
/// before it.
pub open spec fn cut_at(s: Seq<char>, c: char) -> (Seq<char>, Seq<char>)
    decreases s.len(),
{
    if s.len() == 0 {
        (Seq::empty(), Seq::empty())
    } else if s[0] == c {
        (Seq::empty(), s.skip(1))
    } else {
        let rest = cut_at(s.skip(1), c);
        (seq![s[0]] + rest.0, rest.1)
    }
}

/// Cuts the text at the first occurrence of a character.
pub fn split_once(s: &str, c: char) -> (res: (String, String))
    ensures
        (res.0@, res.1@) == cut_at(s@, c),
{
    let chars = characters(s);
    let mut head = String::new();
    let mut i: usize = 0;
    assert(s@.skip(0) =~= s@);
    assert(head@ + cut_at(s@, c).0 =~= cut_at(s@, c).0);
    while i < chars.len()
        invariant
            i <= chars.len(),
            chars@ == s@,
            head@ + cut_at(s@.skip(i as int), c).0 == cut_at(s@, c).0,
            cut_at(s@.skip(i as int), c).1 == cut_at(s@, c).1,
        decreases chars.len() - i,
    {
        let ghost rest = s@.skip(i as int);
        assert(rest.skip(1) =~= s@.skip(i + 1));
        if chars[i] == c {
            assert(head@ + Seq::<char>::empty() =~= head@);
            return (head, slice(&chars, i + 1, chars.len()));
        }
        let ghost before = head@;
        head.push(chars[i]);
        assert(head@ + cut_at(s@.skip(i + 1), c).0 =~= before + cut_at(rest, c).0);
        i = i + 1;
    }
    assert(head@ + Seq::<char>::empty() =~= head@);
    (head, String::new())
}

/// A text that holds the character is what stands before its first occurrence, the character, and
/// what stands after it.
pub proof fn cut_at_first(before: Seq<char>, c: char, after: Seq<char>)
    requires
        !before.contains(c),
    ensures
        cut_at(before + seq![c] + after, c) == (before, after),
        cut_at(before, c) == (before, Seq::<char>::empty()),
    decreases before.len(),
{
    let s = before + seq![c] + after;
    if before.len() == 0 {
        assert(s.skip(1) =~= after);
        assert(before =~= Seq::<char>::empty());
    } else {
        let tail = before.skip(1);
        assert(!tail.contains(c)) by {
            if tail.contains(c) {
                let k = choose|k: int| 0 <= k < tail.len() && tail[k] == c;
                assert(before[k + 1] == c);
            }
        }
        assert(before[0] != c) by {
            assert(before.contains(before[0]));
        }
        cut_at_first(tail, c, after);
        assert(s.skip(1) =~= tail + seq![c] + after);
        assert(seq![before[0]] + tail =~= before);
    }
}

/// The lines of a text. A line ends with a line feed, or with a carriage return and a line feed;
/// the last one may lack its end.
pub open spec fn lines_of(s: Seq<char>) -> Seq<Seq<char>> {
    let pieces = split_on(s, '\n');
    let ended = Seq::new(
        (pieces.len() - 1) as nat,
        |i: int| without_suffix(pieces[i], seq!['\r']),
    );
    if pieces.last().len() == 0 {
        ended
    } else {
        ended.push(pieces.last())
    }
}

/// Splits the text in lines.
pub fn lines(s: &str) -> (res: Vec<String>)
    ensures
        texts(res@) == lines_of(s@),
{
    let pieces = split(s, '\n');
    let ghost cut = split_on(s@, '\n');
    let last: usize = pieces.len() - 1;
    let mut res: Vec<String> = Vec::new();
    let mut i: usize = 0;
    while i < last
        invariant
            i <= last,
            last == pieces.len() - 1,
            texts(pieces@) == cut,
            res.len() == i,
            forall|j: int| 0 <= j < i ==> (#[trigger] res@[j])@ == without_suffix(cut[j], seq!['\r']),
        decreases last - i,
    {
        assert(cut[i as int] == pieces@[i as int]@);
        let line = strip_suffix(pieces[i].as_str(), "\r");
        proof {
            reveal_strlit("\r");
            assert("\r"@ =~= seq!['\r']);
        }
        res.push(line);
        i = i + 1;
    }
    assert(cut.last() == pieces@[last as int]@);
    if !pieces[last].as_str().is_empty() {
        res.push(pieces[last].clone());
    }
    assert(texts(res@) =~= lines_of(s@));
    res
}

//--------------------------------------------------------------------------------- WHITESPACE
/// Whether a character has the Unicode property White_Space.
pub open spec fn is_space(c: char) -> bool {
    ||| '\u{9}' <= c <= '\u{d}'
    ||| c == ' '
    ||| c == '\u{85}'
    ||| c == '\u{a0}'
    ||| c == '\u{1680}'
    ||| '\u{2000}' <= c <= '\u{200a}'
    ||| c == '\u{2028}'
    ||| c == '\u{2029}'
    ||| c == '\u{202f}'
    ||| c == '\u{205f}'
    ||| c == '\u{3000}'
}

fn space(c: char) -> (res: bool)
    ensures
        res == is_space(c),
{
    ('\u{9}' <= c && c <= '\u{d}') || c == ' ' || c == '\u{85}' || c == '\u{a0}' || c == '\u{1680}'
        || ('\u{2000}' <= c && c <= '\u{200a}') || c == '\u{2028}' || c == '\u{2029}' || c
        == '\u{202f}' || c == '\u{205f}' || c == '\u{3000}'
}

/// `s` without the whitespace at its beginning.
pub open spec fn trimmed_start(s: Seq<char>) -> Seq<char>
    decreases s.len(),
{
    if s.len() > 0 && is_space(s[0]) {
        trimmed_start(s.skip(1))
    } else {
        s
    }
}

/// `s` without the whitespace at its end.
pub open spec fn trimmed_end(s: Seq<char>) -> Seq<char>
    decreases s.len(),
{
    if s.len() > 0 && is_space(s.last()) {
        trimmed_end(s.drop_last())
    } else {
        s
    }
}

/// `s` without the whitespace at its beginning and at its end.
pub open spec fn trimmed(s: Seq<char>) -> Seq<char> {
    trimmed_end(trimmed_start(s))
}

/// Takes the whitespace off both ends of the text.
pub fn trim(s: &str) -> (res: String)
    ensures
        res@ == trimmed(s@),
{
    let chars = characters(s);
    let mut from: usize = 0;
    assert(s@.skip(0) =~= s@);
    while from < chars.len() && space(chars[from])
        invariant
            from <= chars.len(),
            chars@ == s@,
            trimmed_start(s@.skip(from as int)) == trimmed_start(s@),
        decreases chars.len() - from,
    {
        assert(s@.skip(from as int).skip(1) =~= s@.skip(from + 1));
        from = from + 1;
    }
    let ghost rest = s@.skip(from as int);
    assert(trimmed_start(s@) == rest);
    let mut to: usize = chars.len();
    assert(s@.subrange(from as int, to as int) =~= rest);
    while to > from && space(chars[to - 1])
        invariant
            from <= to <= chars.len(),
            chars@ == s@,
            trimmed_end(s@.subrange(from as int, to as int)) == trimmed_end(rest),
        decreases to,
    {
        assert(s@.subrange(from as int, to as int).drop_last() =~= s@.subrange(
            from as int,
            to - 1,
        ));
        to = to - 1;
    }
    slice(&chars, from, to)
}

/// `s` without the line feeds at its end.
pub open spec fn without_final_newlines(s: Seq<char>) -> Seq<char>
    decreases s.len(),
{
    if s.len() > 0 && s.last() == '\n' {
        without_final_newlines(s.drop_last())
    } else {
        s
    }
}

/// Takes the line feeds off the end of the text.
pub fn trim_newlines(s: &str) -> (res: String)
    ensures
        res@ == without_final_newlines(s@),
{
    let chars = characters(s);
    let mut to: usize = chars.len();
    assert(s@.take(to as int) =~= s@);
    while to > 0 && chars[to - 1] == '\n'
        invariant
            to <= chars.len(),
            chars@ == s@,
            without_final_newlines(s@.take(to as int)) == without_final_newlines(s@),
        decreases to,
    {
        assert(s@.take(to as int).drop_last() =~= s@.take(to - 1));
        to = to - 1;
    }
    let res = slice(&chars, 0, to);
    assert(res@ =~= s@.take(to as int));
    res
}

/// The words of `s`: its longest runs of characters that are not whitespace.
pub open spec fn words_of(s: Seq<char>) -> Seq<Seq<char>>
    decreases s.len(),
{
    if s.len() == 0 {
        Seq::empty()
    } else {
        let init = s.drop_last();
        let words = words_of(init);
        if is_space(s.last()) {
            words
        } else if init.len() > 0 && !is_space(init.last()) {
            words.drop_last().push(words.last().push(s.last()))
        } else {
            words.push(seq![s.last()])
        }
    }
}

/// A text that does not end with whitespace has a last word.
proof fn unended_word(s: Seq<char>)
    requires
        s.len() > 0,
        !is_space(s.last()),
    ensures
        words_of(s).len() > 0,
{
}

/// Splits the text in words.
pub fn split_whitespace(s: &str) -> (res: Vec<String>)
    ensures
        texts(res@) == words_of(s@),
{
    let chars = characters(s);
    let mut res: Vec<String> = Vec::new();
    let mut i: usize = 0;
    assert(texts(res@) =~= words_of(s@.take(0)));
    while i < chars.len()
        invariant
            i <= chars.len(),
            chars@ == s@,
            texts(res@) == words_of(s@.take(i as int)),
        decreases chars.len() - i,
    {
        let ghost init = s@.take(i as int);
        let ghost kept = res@;
        assert(s@.take(i + 1).drop_last() =~= init);
        let c: char = chars[i];
        if !space(c) {
            if i > 0 && !space(chars[i - 1]) {
                proof {
                    unended_word(init);
                    assert(texts(kept).len() > 0);
                }
                let popped = res.pop();
                match popped {
                    Some(mut word) => {
                        let ghost w = word@;
                        word.push(c);
                        assert(texts(kept).last() == w);
                        res.push(word);
                        assert(texts(res@) =~= texts(kept).drop_last().push(w.push(c)));
                    },
                    None => {},
                }
            } else {
                let mut word = String::new();
                word.push(c);
                assert(word@ =~= seq![c]);
                res.push(word);
                assert(texts(res@) =~= texts(kept).push(seq![c]));
            }
        }
        i = i + 1;
    }
    assert(s@.take(i as int) =~= s@);
    res
}

//------------------------------------------------------------------------------------ NUMBERS
/// Whether `s` is a non-empty run of decimal digits.
pub open spec fn is_number(s: Seq<char>) -> bool {
    &&& s.len() > 0
    &&& forall|i: int| 0 <= i < s.len() ==> '0' <= #[trigger] s[i] <= '9'
}

/// The number that a run of decimal digits stands for.
pub open spec fn number_value(s: Seq<char>) -> nat
    decreases s.len(),
{
    if s.len() == 0 {
        0
    } else {
        number_value(s.drop_last()) * 10 + (s.last() as nat - '0' as nat) as nat
    }
}

/// The number that the characters from `from` on stand for, if they are digits and the number is
/// at most `limit`.
fn bounded_number(chars: &Vec<char>, from: usize, limit: u64) -> (res: Option<u64>)
    requires
        from <= chars.len(),
    ensures
        res == ({
            let digits = chars@.skip(from as int);
            if is_number(digits) && number_value(digits) <= limit {
                Some(number_value(digits) as u64)
            } else {
                None
            }
        }),
{
    let ghost digits = chars@.skip(from as int);
    if from == chars.len() {
        return None;
    }
    let mut value: u64 = 0;
    let mut over: bool = false;
    let mut i: usize = from;
    while i < chars.len()
        invariant
            from < chars.len(),
            from <= i <= chars.len(),
            digits == chars@.skip(from as int),
            forall|j: int| 0 <= j < i - from ==> '0' <= #[trigger] digits[j] <= '9',
            !over ==> value == number_value(digits.take(i - from)) && value <= limit,
            over ==> number_value(digits.take(i - from)) > limit,
        decreases chars.len() - i,
    {
        let c: char = chars[i];
        assert(digits[i - from] == c);
        if c < '0' || c > '9' {
            return None;
        }
        assert(digits.take(i + 1 - from).drop_last() =~= digits.take(i - from));
        let digit: u64 = c as u64 - '0' as u64;
        assert(number_value(digits.take(i + 1 - from)) == number_value(digits.take(i - from)) * 10
            + digit);
        if !over {
            let next: u128 = value as u128 * 10 + digit as u128;
            if next > limit as u128 {
                over = true;
            } else {
                value = next as u64;
            }
        }
        i = i + 1;
    }
    assert(digits.take(i - from) =~= digits);
    if over {
        None
    } else {
        Some(value)
    }
}

/// The number that `s` stands for: decimal digits, with an optional plus sign before them.
pub open spec fn parsed_u64(s: Seq<char>) -> Option<u64> {
    let digits = if s.len() > 0 && s[0] == '+' {
        s.skip(1)
    } else {
        s
    };
    if is_number(digits) && number_value(digits) <= u64::MAX {
        Some(number_value(digits) as u64)
    } else {
        None
    }
}

/// Reads an unsigned number.
pub fn parse_u64(s: &str) -> (res: Option<u64>)
    ensures
        res == parsed_u64(s@),
{
    let chars = characters(s);
    if chars.len() > 0 && chars[0] == '+' {
        bounded_number(&chars, 1, u64::MAX)
    } else {
        assert(chars@.skip(0) =~= chars@);
        bounded_number(&chars, 0, u64::MAX)
    }
}

/// The number that `s` stands for: decimal digits, with an optional sign before them.
pub open spec fn parsed_i32(s: Seq<char>) -> Option<i32> {
    let negative = s.len() > 0 && s[0] == '-';
    let digits = if s.len() > 0 && (s[0] == '+' || s[0] == '-') {
        s.skip(1)
    } else {
        s
    };
    let value = if negative {
        -(number_value(digits) as int)
    } else {
        number_value(digits) as int
    };
    if is_number(digits) && i32::MIN <= value <= i32::MAX {
        Some(value as i32)
    } else {
        None
    }
}

/// Reads a signed number.
pub fn parse_i32(s: &str) -> (res: Option<i32>)
    ensures
        res == parsed_i32(s@),
{
    let chars = characters(s);
    if chars.len() > 0 && chars[0] == '-' {
        match bounded_number(&chars, 1, 0x8000_0000) {
            Some(value) => Some((0 - value as i64) as i32),
            None => None,
        }
    } else {
        let from: usize = if chars.len() > 0 && chars[0] == '+' {
            1
        } else {
            0
        };
        assert(chars@.skip(0) =~= chars@);
        match bounded_number(&chars, from, 0x7fff_ffff) {
            Some(value) => Some(value as i32),
            None => None,
        }
    }
}

/// The digit that stands for a number below ten.
pub open spec fn digit_of(n: nat) -> char {
    (('0' as nat + n) as u8) as char
}

/// The decimal notation of a number.
pub open spec fn decimal_of(n: nat) -> Seq<char>
    decreases n,
{
    if n < 10 {
        seq![digit_of(n)]
    } else {
        decimal_of(n / 10).push(digit_of(n % 10))
    }
}

/// Writes a number in decimal notation.
pub fn decimal(n: u64) -> (res: String)
    ensures
        res@ == decimal_of(n as nat),
    decreases n,
{
    let digit: u8 = 48 + (n % 10) as u8;
    let mut res = if n < 10 {
        String::new()
    } else {
        decimal(n / 10)
    };
    res.push(digit as char);
    assert(res@ =~= decimal_of(n as nat));
    res
}

/// The decimal notation of a number that may be negative.
pub open spec fn signed_decimal_of(n: int) -> Seq<char> {
    if n < 0 {
        seq!['-'] + decimal_of((-n) as nat)
    } else {
        decimal_of(n as nat)
    }
}

/// Writes a number that may be negative in decimal notation.
pub fn signed_decimal(n: i64) -> (res: String)
    requires
        n > i64::MIN,
    ensures
        res@ == signed_decimal_of(n as int),
{
    if n < 0 {
        let mut res = String::new();
        res.push('-');
        let digits = decimal((0 - n) as u64);
        res.append(digits.as_str());
        assert(res@ =~= signed_decimal_of(n as int));
        res
    } else {
        decimal(n as u64)
    }
}

/// Reading back a number that was written gives the number.
pub proof fn decimal_then_parse(n: u64)
    ensures
        parsed_u64(decimal_of(n as nat)) == Some(n),
{
    decimal_digits(n as nat);
}

proof fn decimal_digits(n: nat)
    ensures
        is_number(decimal_of(n)),
        number_value(decimal_of(n)) == n,
    decreases n,
{
    let s = decimal_of(n);
    if n < 10 {
        assert(s.drop_last() =~= Seq::<char>::empty());
        assert(number_value(s.drop_last()) == 0);
    } else {
        decimal_digits(n / 10);
        assert(s.drop_last() =~= decimal_of(n / 10));
    }
}

//-------------------------------------------------------------------------------------- PATHS
/// The path `rel`, taken from the folder `base`. An absolute path is kept as it is.
pub open spec fn path_in(base: Seq<char>, rel: Seq<char>) -> Seq<char> {
    if rel.len() > 0 && rel[0] == '/' {
        rel
    } else if base.len() == 0 || base.last() == '/' {
        base + rel
    } else {
        base + seq!['/'] + rel
    }
}

/// The beginning of the paths below a folder.
pub open spec fn folder_prefix(root: Seq<char>) -> Seq<char> {
    if root.len() > 0 && root.last() == '/' {
        root
    } else {
        root + seq!['/']
    }
}

/// Whether a path lies below the folder `root`.
pub open spec fn is_below(root: Seq<char>, path: Seq<char>) -> bool {
    begins_with(path, folder_prefix(root))
}

/// What is left of a path below the folder `root`.
pub open spec fn path_below(root: Seq<char>, path: Seq<char>) -> Seq<char> {
    without_prefix(path, folder_prefix(root))
}

/// Takes the folder off a path that lies below it.
pub fn path_relative(root: &str, path: &str) -> (res: String)
    ensures
        res@ == path_below(root@, path@),
{
    let chars = characters(root);
    let mut folder = root.to_owned();
    if chars.len() == 0 || chars[chars.len() - 1] != '/' {
        folder.push('/');
    }
    assert(folder@ =~= folder_prefix(root@));
    strip_prefix(path, folder.as_str())
}

/// A path below a folder is what is left of it, joined to the folder.
pub proof fn path_in_then_below(root: Seq<char>, rel: Seq<char>)
    requires
        root.len() > 0,
        rel.len() == 0 || rel[0] != '/',
    ensures
        is_below(root, path_in(root, rel)),
        path_below(root, path_in(root, rel)) == rel,
{
    let folder = folder_prefix(root);
    let path = path_in(root, rel);
    assert(path =~= folder + rel);
    assert(path.subrange(0, folder.len() as int) =~= folder);
    assert(path.skip(folder.len() as int) =~= rel);
}

/// Joins a path to a folder.
pub fn path_join(base: &str, rel: &str) -> (res: String)
    ensures
        res@ == path_in(base@, rel@),
{
    let b = characters(base);
    let r = characters(rel);
    if r.len() > 0 && r[0] == '/' {
        rel.to_owned()
    } else {
        let mut res = base.to_owned();
        if b.len() > 0 && b[b.len() - 1] != '/' {
            res.push('/');
        }
        res.append(rel);
        assert(res@ =~= path_in(base@, rel@));
        res
    }
}

//------------------------------------------------------------------------------------------ LAWS
/// The strings that a sequence of texts is made of are those of the vector, in order.
pub proof fn texts_are_the_strings(strings: Seq<String>)
    ensures
        texts(strings).len() == strings.len(),
        forall|i: int| 0 <= i < strings.len() ==> #[trigger] texts(strings)[i] == strings[i]@,
{
}

/// Joining puts the separator between each two texts, and nowhere else.
pub proof fn join_puts_separators_between(
    parts: Seq<Seq<char>>,
    separator: Seq<char>,
    last: Seq<char>,
)
    ensures
        joined(Seq::empty(), separator).len() == 0,
        joined(seq![last], separator) == last,
        parts.len() > 0 ==> joined(parts.push(last), separator) == joined(parts, separator)
            + separator + last,
{
    assert(parts.push(last).drop_last() =~= parts);
}

/// A text that stands among others is in what they are joined to, with what comes before and what
/// comes after it around it.
pub proof fn joined_holds_each_part(parts: Seq<Seq<char>>, separator: Seq<char>, i: int)
    requires
        0 <= i < parts.len(),
    ensures
        joined(parts, separator) == (if i == 0 {
            Seq::empty()
        } else {
            joined(parts.take(i), separator) + separator
        }) + parts[i] + (if i + 1 == parts.len() {
            Seq::empty()
        } else {
            separator + joined(parts.skip(i + 1), separator)
        }),
    decreases parts.len(),
{
    let n = parts.len() as int;
    if i + 1 == n {
        if n == 1 {
            assert(joined(parts, separator) =~= Seq::<char>::empty() + parts[0] + Seq::<char>::empty());
        } else {
            assert(parts.take(i) =~= parts.drop_last());
            assert(joined(parts, separator) =~= joined(parts.take(i), separator) + separator + parts[i]
                + Seq::<char>::empty());
        }
    } else {
        let init = parts.drop_last();
        joined_holds_each_part(init, separator, i);
        assert(init.take(i) =~= parts.take(i));
        let rest = parts.skip(i + 1);
        assert(init[i] == parts[i]);
        assert(rest.last() == parts.last());
        if i + 2 == n {
            assert(rest =~= seq![parts.last()]);
            assert(joined(rest, separator) == parts.last());
        } else {
            assert(init.skip(i + 1) =~= rest.drop_last());
            assert(joined(rest, separator) == joined(rest.drop_last(), separator) + separator
                + parts.last());
        }
        let head = if i == 0 {
            Seq::empty()
        } else {
            joined(parts.take(i), separator) + separator
        };
        assert(joined(parts, separator) == joined(init, separator) + separator + parts.last());
        assert(joined(parts, separator) =~= head + parts[i] + (separator + joined(rest, separator)));
    }
}

/// Where a pattern first occurs, the replacement takes its place; what stands before is kept, and
/// what stands behind is treated alike.
pub proof fn replaced_at_first(a: Seq<char>, from: Seq<char>, b: Seq<char>, to: Seq<char>)
    requires
        from.len() > 0,
        forall|i: int|
            0 <= i < a.len() ==> #[trigger] (a + from + b).subrange(i, i + from.len() as int)
                != from,
    ensures
        replaced(a + from + b, from, to) == a + to + replaced(b, from, to),
    decreases a.len(),
{
    let s = a + from + b;
    if a.len() == 0 {
        assert(s.subrange(0, from.len() as int) =~= from);
        assert(s.skip(from.len() as int) =~= b);
        assert(to + replaced(b, from, to) =~= a + to + replaced(b, from, to));
    } else {
        let rest = a.skip(1);
        let t = rest + from + b;
        assert(s.skip(1) =~= t);
        assert(s.subrange(0, 0 + from.len() as int) != from);
        assert forall|i: int| 0 <= i < rest.len() implies #[trigger] t.subrange(
            i,
            i + from.len() as int,
        ) != from by {
            assert(t.subrange(i, i + from.len() as int) =~= s.subrange(
                i + 1,
                (i + 1) + from.len() as int,
            ));
        }
        replaced_at_first(rest, from, b, to);
        assert(s[0] == a[0]);
        assert(seq![s[0]] + (rest + to + replaced(b, from, to)) =~= a + to + replaced(b, from, to));
    }
}

/// A text in which the pattern does not occur is kept as it is.
pub proof fn replaced_where_absent(s: Seq<char>, from: Seq<char>, to: Seq<char>)
    requires
        from.len() > 0,
        forall|i: int|
            0 <= i && i + from.len() <= s.len() ==> #[trigger] s.subrange(
                i,
                i + from.len() as int,
            ) != from,
    ensures
        replaced(s, from, to) == s,
    decreases s.len(),
{
    if s.len() >= from.len() {
        let rest = s.skip(1);
        assert(s.subrange(0, 0 + from.len() as int) != from);
        assert forall|i: int| 0 <= i && i + from.len() <= rest.len() implies #[trigger] rest.subrange(
            i,
            i + from.len() as int,
        ) != from by {
            assert(rest.subrange(i, i + from.len() as int) =~= s.subrange(
                i + 1,
                (i + 1) + from.len() as int,
            ));
        }
        replaced_where_absent(rest, from, to);
        assert(seq![s[0]] + rest =~= s);
    }
}

/// Whether the pattern occurs nowhere in the text.
pub open spec fn is_absent(s: Seq<char>, pattern: Seq<char>) -> bool {
    forall|i: int|
        0 <= i && i + pattern.len() <= s.len() ==> #[trigger] s.subrange(
            i,
            i + pattern.len() as int,
        ) != pattern
}

/// Whether a pattern is a placeholder: a dollar sign, and no other one behind it.
pub open spec fn is_placeholder(pattern: Seq<char>) -> bool {
    &&& pattern.len() > 0
    &&& pattern[0] == '$'
    &&& forall|i: int| 0 < i < pattern.len() ==> #[trigger] pattern[i] != '$'
}

/// A placeholder that occurs once is replaced, and nothing else is.
pub proof fn placeholder_is_replaced(a: Seq<char>, pattern: Seq<char>, b: Seq<char>, to: Seq<char>)
    requires
        is_placeholder(pattern),
        is_absent(a, pattern),
        is_absent(b, pattern),
    ensures
        replaced(a + pattern + b, pattern, to) == a + to + b,
        replaced(a, pattern, to) == a,
{
    let s = a + pattern + b;
    let n = pattern.len() as int;
    assert forall|i: int| 0 <= i < a.len() implies #[trigger] s.subrange(i, i + n) != pattern by {
        let part = s.subrange(i, i + n);
        if part == pattern {
            if i + n <= a.len() {
                assert(a.subrange(i, i + n) =~= part);
            } else {
                let k = a.len() - i;
                assert(part[k] == s[a.len() as int]);
                assert(s[a.len() as int] == pattern[0]);
                assert(pattern[k] != '$');
            }
        }
    }
    replaced_at_first(a, pattern, b, to);
    replaced_where_absent(b, pattern, to);
    replaced_where_absent(a, pattern, to);
}

/// A placeholder that occurs in neither of two texts does not occur where another placeholder stands
/// between the two.
pub proof fn placeholder_absent_in_three(
    a: Seq<char>,
    m: Seq<char>,
    b: Seq<char>,
    pattern: Seq<char>,
)
    requires
        is_placeholder(pattern),
        is_absent(a, pattern),
        is_absent(b, pattern),
        m.len() >= pattern.len(),
        m[0] == '$',
        forall|i: int| 0 < i < m.len() ==> #[trigger] m[i] != '$',
        m.take(pattern.len() as int) != pattern,
    ensures
        is_absent(a + m + b, pattern),
{
    let s = a + m + b;
    let n = pattern.len() as int;
    assert forall|i: int| 0 <= i && i + n <= s.len() implies #[trigger] s.subrange(i, i + n)
        != pattern by {
        let part = s.subrange(i, i + n);
        if part == pattern {
            assert(part[0] == s[i]);
            if i < a.len() {
                if i + n <= a.len() {
                    assert(a.subrange(i, i + n) =~= part);
                } else {
                    let k = a.len() - i;
                    assert(part[k] == s[a.len() as int]);
                    assert(s[a.len() as int] == m[0]);
                    assert(pattern[k] != '$');
                }
            } else if i == a.len() {
                assert(part =~= m.take(n));
            } else if i < a.len() + m.len() {
                assert(s[i] == m[i - a.len()]);
            } else {
                let k = i - a.len() - m.len();
                assert(b.subrange(k, k + n) =~= part);
            }
        }
    }
}

/// A prefix that is put before a text is what is taken off it, and a text without the prefix is
/// kept.
pub proof fn prefix_is_taken_off(prefix: Seq<char>, s: Seq<char>)
    ensures
        without_prefix(prefix + s, prefix) == s,
        begins_with(prefix + s, prefix),
        s.len() < prefix.len() || s.take(prefix.len() as int) != prefix ==> !begins_with(s, prefix)
            && without_prefix(s, prefix) == s,
{
    assert((prefix + s).subrange(0, prefix.len() as int) =~= prefix);
    assert((prefix + s).skip(prefix.len() as int) =~= s);
    if s.len() >= prefix.len() {
        assert(s.subrange(0, prefix.len() as int) =~= s.take(prefix.len() as int));
    }
}

/// A suffix that is put behind a text is what is taken off it, and a text without the suffix is
/// kept.
pub proof fn suffix_is_taken_off(s: Seq<char>, suffix: Seq<char>)
    ensures
        without_suffix(s + suffix, suffix) == s,
        s.len() < suffix.len() || s.skip(s.len() - suffix.len()) != suffix ==> without_suffix(
            s,
            suffix,
        ) == s,
{
    let t = s + suffix;
    assert(t.subrange(t.len() - suffix.len(), t.len() as int) =~= suffix);
    assert(t.take(t.len() - suffix.len()) =~= s);
    if s.len() >= suffix.len() {
        assert(s.subrange(s.len() - suffix.len(), s.len() as int) =~= s.skip(
            s.len() - suffix.len(),
        ));
    }
}

/// A character that is removed is gone, and the other ones are kept in their order.
pub proof fn other_characters_are_kept(s: Seq<char>, c: char)
    ensures
        without_char(s, c) == s.filter(|x: char| x != c),
        !without_char(s, c).contains(c),
        !s.contains(c) ==> without_char(s, c) == s,
    decreases s.len(),
{
    let keep = |x: char| x != c;
    reveal(Seq::filter);
    if s.len() > 0 {
        let init = s.drop_last();
        other_characters_are_kept(init, c);
        let rest = without_char(init, c);
        if !s.contains(c) {
            assert forall|i: int| 0 <= i < init.len() implies init[i] != c by {
                assert(s[i] != c);
            }
            assert(!init.contains(c));
            assert(s[s.len() - 1] != c);
            assert(init.push(s.last()) =~= s);
        }
        if s.last() != c {
            assert forall|i: int| 0 <= i < rest.push(s.last()).len() implies rest.push(s.last())[i]
                != c by {
                if i < rest.len() {
                    assert(rest.contains(rest[i]));
                }
            }
        }
    }
}

/// Splitting what is made of pieces gives the pieces back, in their order.
pub proof fn split_of_pieces(s: Seq<char>, separator: char, piece: Seq<char>)
    requires
        !piece.contains(separator),
    ensures
        split_on(piece, separator) == seq![piece],
        split_on(s + seq![separator] + piece, separator) == split_on(s, separator).push(piece),
    decreases piece.len(),
{
    let t = s + seq![separator] + piece;
    if piece.len() == 0 {
        assert(piece =~= Seq::<char>::empty());
        assert(split_on(piece, separator) =~= seq![piece]);
        assert(t.drop_last() =~= s);
        assert(t.last() == separator);
        assert(split_on(s, separator).push(Seq::empty()) =~= split_on(s, separator).push(piece));
    } else {
        let init = piece.drop_last();
        assert forall|i: int| 0 <= i < init.len() implies init[i] != separator by {
            assert(piece[i] != separator);
        }
        assert(!init.contains(separator));
        assert(piece[piece.len() - 1] != separator);
        split_of_pieces(s, separator, init);
        assert(t.drop_last() =~= s + seq![separator] + init);
        assert(t.last() == piece.last());
        assert(init.push(piece.last()) =~= piece);
        assert(split_on(piece, separator) =~= seq![piece]);
        let pieces = split_on(s, separator).push(init);
        assert(pieces.drop_last() =~= split_on(s, separator));
        assert(split_on(t, separator) =~= split_on(s, separator).push(piece));
    }
}

proof fn split_of_first_piece(piece: Seq<char>, separator: char, rest: Seq<char>)
    requires
        !piece.contains(separator),
    ensures
        split_on(piece + seq![separator] + rest, separator) == seq![piece] + split_on(
            rest,
            separator,
        ),
    decreases rest.len(),
{
    let t = piece + seq![separator] + rest;
    split_of_pieces(piece, separator, Seq::empty());
    split_of_pieces(Seq::empty(), separator, piece);
    if rest.len() == 0 {
        assert(rest =~= Seq::<char>::empty());
        assert(t =~= piece + seq![separator] + Seq::<char>::empty());
        assert(split_on(t, separator) =~= seq![piece] + split_on(rest, separator));
    } else {
        let init = rest.drop_last();
        split_of_first_piece(piece, separator, init);
        split_then_join(init, separator);
        assert(t.drop_last() =~= piece + seq![separator] + init);
        assert(t.last() == rest.last());
        let pieces = split_on(init, separator);
        let all = seq![piece] + pieces;
        assert(all.last() == pieces.last());
        assert(all.drop_last() =~= seq![piece] + pieces.drop_last());
        assert(split_on(t, separator) =~= seq![piece] + split_on(rest, separator));
    }
}

/// The lines of a text are what stands between its line feeds, without the carriage return before a
/// line feed: one after the other, none left out.
pub proof fn lines_come_one_by_one(line: Seq<char>, rest: Seq<char>)
    requires
        !line.contains('\n'),
        line.len() == 0 || line.last() != '\r',
    ensures
        lines_of(line + seq!['\n'] + rest) == seq![line] + lines_of(rest),
        lines_of(line + seq!['\r', '\n'] + rest) == seq![line] + lines_of(rest),
        line.len() > 0 ==> lines_of(line) == seq![line],
        lines_of(Seq::empty()).len() == 0,
{
    let cr = seq!['\r'];
    split_then_join(rest, '\n');
    split_of_first_piece(line, '\n', rest);
    let with_cr = line + cr;
    assert forall|i: int| 0 <= i < with_cr.len() implies with_cr[i] != '\n' by {
        if i < line.len() {
            assert(line.contains(line[i]));
        }
    }
    assert(!with_cr.contains('\n'));
    split_of_first_piece(with_cr, '\n', rest);
    assert(with_cr + seq!['\n'] + rest =~= line + seq!['\r', '\n'] + rest);
    suffix_is_taken_off(line, cr);
    if line.len() > 0 {
        assert(line.skip(line.len() - 1)[0] == line.last());
    }
    assert(without_suffix(line, cr) == line);
    let pieces = split_on(rest, '\n');
    assert((seq![line] + pieces).last() == pieces.last());
    assert((seq![with_cr] + pieces).last() == pieces.last());
    assert(lines_of(line + seq!['\n'] + rest) =~= seq![line] + lines_of(rest));
    assert(lines_of(line + seq!['\r', '\n'] + rest) =~= seq![line] + lines_of(rest));
    split_of_pieces(Seq::empty(), '\n', line);
    if line.len() > 0 {
        assert(lines_of(line) =~= seq![line]);
    }
    split_of_pieces(Seq::empty(), '\n', Seq::empty());
    assert(lines_of(Seq::empty()) =~= Seq::<Seq<char>>::empty());
}

/// Whether a text holds blanks, tabulations, line feeds and carriage returns only.
pub open spec fn is_blank(s: Seq<char>) -> bool {
    forall|i: int|
        0 <= i < s.len() ==> #[trigger] s[i] == ' ' || s[i] == '\t' || s[i] == '\n' || s[i] == '\r'
}

proof fn trimmed_start_of(a: Seq<char>, s: Seq<char>)
    requires
        is_blank(a),
        s.len() == 0 || '!' <= s[0] <= '~',
    ensures
        trimmed_start(a + s) == s,
    decreases a.len(),
{
    if a.len() == 0 {
        assert(a + s =~= s);
    } else {
        assert((a + s)[0] == a[0]);
        assert((a + s).skip(1) =~= a.skip(1) + s);
        trimmed_start_of(a.skip(1), s);
    }
}

proof fn trimmed_end_of(s: Seq<char>, b: Seq<char>)
    requires
        is_blank(b),
        s.len() == 0 || '!' <= s.last() <= '~',
    ensures
        trimmed_end(s + b) == s,
    decreases b.len(),
{
    if b.len() == 0 {
        assert(s + b =~= s);
    } else {
        assert(is_space(b[b.len() - 1]));
        assert((s + b).drop_last() =~= s + b.drop_last());
        assert forall|i: int| 0 <= i < b.drop_last().len() implies #[trigger] b.drop_last()[i] == ' '
            || b.drop_last()[i] == '\t' || b.drop_last()[i] == '\n' || b.drop_last()[i] == '\r' by {
            assert(b.drop_last()[i] == b[i]);
        }
        trimmed_end_of(s, b.drop_last());
    }
}

/// Trimming takes the blanks off both ends, and nothing else: what stands between is kept.
pub proof fn trimming_keeps_what_is_between(a: Seq<char>, s: Seq<char>, b: Seq<char>)
    requires
        is_blank(a),
        is_blank(b),
        s.len() > 0,
        '!' <= s[0] <= '~',
        '!' <= s.last() <= '~',
    ensures
        trimmed(a + s + b) == s,
{
    assert(a + s + b =~= a + (s + b));
    trimmed_start_of(a, s + b);
    trimmed_end_of(s, b);
}

/// The line feeds at the end are taken off, all of them and nothing else.
pub proof fn final_newlines_are_taken_off(s: Seq<char>, n: nat)
    requires
        s.len() == 0 || s.last() != '\n',
    ensures
        without_final_newlines(s + Seq::new(n, |i: int| '\n')) == s,
    decreases n,
{
    let feeds = Seq::new(n, |i: int| '\n');
    if n == 0 {
        assert(s + feeds =~= s);
    } else {
        let fewer = Seq::new((n - 1) as nat, |i: int| '\n');
        assert((s + feeds).drop_last() =~= s + fewer);
        final_newlines_are_taken_off(s, (n - 1) as nat);
    }
}

/// A word that is put behind whitespace is one more word; whitespace is none.
pub proof fn words_come_one_by_one(s: Seq<char>, word: Seq<char>, c: char)
    requires
        s.len() == 0 || is_space(s.last()),
        word.len() > 0,
        forall|i: int| 0 <= i < word.len() ==> !is_space(#[trigger] word[i]),
        is_space(c),
    ensures
        words_of(s + word) == words_of(s).push(word),
        words_of((s + word).push(c)) == words_of(s).push(word),
        words_of(Seq::empty()).len() == 0,
        words_of(s.push(c)) == words_of(s),
    decreases word.len(),
{
    let t = s + word;
    let init = word.drop_last();
    assert(t.drop_last() =~= s + init);
    assert(t.last() == word[word.len() - 1]);
    if init.len() == 0 {
        assert(s + init =~= s);
        assert(seq![t.last()] =~= word);
        assert(words_of(t) =~= words_of(s).push(word));
    } else {
        assert forall|i: int| 0 <= i < init.len() implies !is_space(#[trigger] init[i]) by {
            assert(init[i] == word[i]);
        }
        words_come_one_by_one(s, init, c);
        assert((s + init).last() == init[init.len() - 1]);
        assert(words_of(s).push(init).drop_last() =~= words_of(s));
        assert(init.push(t.last()) =~= word);
        assert(words_of(t) =~= words_of(s).push(word));
    }
    assert(t.push(c).drop_last() =~= t);
    assert(s.push(c).drop_last() =~= s);
}

/// The characters that count as whitespace, by their code points.
pub proof fn white_space_by_code_points(c: char)
    ensures
        is_space(c) <==> {
            let n = c as u32;
            9 <= n <= 13 || n == 32 || n == 133 || n == 160 || n == 5760 || 8192 <= n <= 8202 || n
                == 8232 || n == 8233 || n == 8239 || n == 8287 || n == 12288
        },
{
}

proof fn trimmed_start_splits(s: Seq<char>) -> (k: int)
    ensures
        0 <= k <= s.len(),
        trimmed_start(s) == s.skip(k),
        forall|j: int| 0 <= j < k ==> is_space(#[trigger] s[j]),
        k < s.len() ==> !is_space(s[k]),
    decreases s.len(),
{
    if s.len() > 0 && is_space(s[0]) {
        let rest = s.skip(1);
        let k = trimmed_start_splits(rest);
        assert(rest.skip(k) =~= s.skip(k + 1));
        assert forall|j: int| 0 <= j < k + 1 implies is_space(#[trigger] s[j]) by {
            if j > 0 {
                assert(rest[j - 1] == s[j]);
            }
        }
        k + 1
    } else {
        assert(s.skip(0) =~= s);
        0
    }
}

proof fn trimmed_end_splits(s: Seq<char>) -> (k: int)
    ensures
        0 <= k <= s.len(),
        trimmed_end(s) == s.take(k),
        forall|j: int| k <= j < s.len() ==> is_space(#[trigger] s[j]),
        k > 0 ==> !is_space(s[k - 1]),
    decreases s.len(),
{
    let n = s.len() as int;
    if n > 0 && is_space(s.last()) {
        let init = s.drop_last();
        let k = trimmed_end_splits(init);
        assert(init.take(k) =~= s.take(k));
        assert forall|j: int| k <= j < n implies is_space(#[trigger] s[j]) by {
            if j < n - 1 {
                assert(init[j] == s[j]);
            }
        }
        k
    } else {
        assert(s.take(n) =~= s);
        n
    }
}

/// Trimming takes whitespace off both ends, all of it and nothing else: what is left is a part of the
/// text with whitespace alone around it, and neither begins nor ends with whitespace.
pub proof fn trimming_takes_whitespace_only(text: &str, res: String)
    requires
        call_ensures(trim, (text,), res),
    ensures
        exists|i: int|
            #![trigger text@.skip(i)]
            {
                &&& 0 <= i && i + res@.len() <= text@.len()
                &&& text@.skip(i).take(res@.len() as int) == res@
                &&& forall|j: int| 0 <= j < i ==> is_space(#[trigger] text@[j])
                &&& forall|j: int|
                    i + res@.len() <= j < text@.len() ==> is_space(#[trigger] text@[j])
            },
        res@.len() > 0 ==> !is_space(res@[0]) && !is_space(res@.last()),
{
    let s = text@;
    let i = trimmed_start_splits(s);
    let rest = s.skip(i);
    let k = trimmed_end_splits(rest);
    assert(res@ == rest.take(k));
    assert forall|j: int| i + k <= j < s.len() implies is_space(#[trigger] s[j]) by {
        assert(rest[j - i] == s[j]);
    }
    assert(s.skip(i).take(res@.len() as int) == res@);
    if k > 0 {
        assert(res@[0] == s[i]);
        assert(res@.last() == rest[k - 1]);
    }
}

/// A path is taken from the root or from nothing as well, and a path that lies below the root is what
/// stands behind its slash.
pub proof fn paths_below_the_root(rel: Seq<char>)
    requires
        rel.len() == 0 || rel[0] != '/',
    ensures
        path_in(Seq::empty(), rel) == rel,
        path_in(seq!['/'], rel) == seq!['/'] + rel,
        path_below(seq!['/'], seq!['/'] + rel) == rel,
        is_below(seq!['/'], seq!['/'] + rel),
{
    assert(Seq::<char>::empty() + rel =~= rel);
    assert((seq!['/'] + rel).subrange(0, 1) =~= seq!['/']);
    assert((seq!['/'] + rel).skip(1) =~= rel);
}

/// A path that does not lie below a folder is left as it is.
pub proof fn paths_elsewhere_are_kept(root: Seq<char>, path: Seq<char>)
    requires
        root.len() > 0,
        root.last() != '/',
        path.len() <= root.len() || path.take(root.len() as int + 1) != root + seq!['/'],
    ensures
        path_below(root, path) == path,
        !is_below(root, path),
{
    prefix_is_taken_off(root + seq!['/'], path);
}

/// An empty pattern occurs before each character and at the end.
pub proof fn empty_pattern_is_everywhere(s: Seq<char>, c: char, to: Seq<char>)
    ensures
        replaced(Seq::empty(), Seq::empty(), to) == to,
        replaced(s.push(c), Seq::empty(), to) == replaced(s, Seq::empty(), to).push(c) + to,
{
    assert(s.push(c).drop_last() =~= s);
}

/// The decimal notation is made of digits, the last of which is what the number leaves when it is
/// divided by ten.
pub proof fn decimal_is_digit_by_digit(n: nat, d: nat)
    requires
        d < 10,
    ensures
        decimal_of(d).len() == 1,
        decimal_of(d)[0] as nat == '0' as nat + d,
        n > 0 ==> decimal_of(n * 10 + d) == decimal_of(n) + decimal_of(d),
{
    if n > 0 {
        assert((n * 10 + d) / 10 == n && (n * 10 + d) % 10 == d) by (nonlinear_arith)
            requires
                d < 10,
        ;
        assert(decimal_of(n * 10 + d) =~= decimal_of(n) + decimal_of(d));
    }
}

/// Reading a number that was written gives the number, with its sign.
pub proof fn signed_decimal_then_parse(n: i32)
    ensures
        parsed_i32(signed_decimal_of(n as int)) == Some(n),
        n >= 0 ==> signed_decimal_of(n as int) == decimal_of(n as nat),
        n < 0 ==> signed_decimal_of(n as int) == seq!['-'] + decimal_of((-n) as nat),
{
    let m: nat = if n < 0 {
        (-n) as nat
    } else {
        n as nat
    };
    decimal_digits(m);
    let digits = decimal_of(m);
    assert('0' <= digits[0] <= '9');
    if n < 0 {
        assert((seq!['-'] + digits).skip(1) =~= digits);
    }
}

/// What holds a character that is no digit is no number, and so is nothing.
pub proof fn only_digits_are_numbers(s: Seq<char>, i: int)
    requires
        1 <= i < s.len(),
        !('0' <= s[i] <= '9'),
    ensures
        parsed_u64(s) is None,
        parsed_i32(s) is None,
        parsed_u64(Seq::empty()) is None,
        parsed_i32(Seq::empty()) is None,
{
    assert(s.skip(1)[i - 1] == s[i]);
}

/// A path is taken from a folder with one separator between the two; an absolute path is kept.
pub proof fn paths_are_joined(base: Seq<char>, rel: Seq<char>)
    requires
        base.len() > 0,
        base.last() != '/',
    ensures
        rel.len() == 0 || rel[0] != '/' ==> path_in(base, rel) == base + seq!['/'] + rel && path_in(
            base + seq!['/'],
            rel,
        ) == base + seq!['/'] + rel,
        rel.len() > 0 && rel[0] == '/' ==> path_in(base, rel) == rel,
        path_below(base, base + seq!['/'] + rel) == rel,
        path_below(base + seq!['/'], base + seq!['/'] + rel) == rel,
        is_below(base, base + seq!['/'] + rel),
{
    let folder = base + seq!['/'];
    assert((folder + rel).subrange(0, folder.len() as int) =~= folder);
    assert((folder + rel).skip(folder.len() as int) =~= rel);
}

/// The decimal notation of a number holds digits, and a minus sign where the number is negative, and
/// no other character.
pub proof fn numbers_hold_digits_only(n: int, c: char)
    requires
        !('0' <= c <= '9'),
        c != '-',
    ensures
        !signed_decimal_of(n).contains(c),
{
    let m: nat = if n < 0 {
        (-n) as nat
    } else {
        n as nat
    };
    decimal_digits(m);
    let digits = decimal_of(m);
    let s = signed_decimal_of(n);
    assert forall|i: int| 0 <= i < s.len() implies s[i] != c by {
        if n < 0 {
            if i > 0 {
                assert(s[i] == digits[i - 1]);
                assert('0' <= digits[i - 1] <= '9');
            }
        } else {
            assert('0' <= digits[i] <= '9');
        }
    }
}

/// A number is read from its decimal notation, with or without a plus sign, as far as it is in range;
/// a negative one from its notation with a minus sign. A number that is out of range is not read.
pub proof fn numbers_are_read(
    n: nat,
    plain: &str,
    plus: &str,
    minus: &str,
    res: Option<u64>,
    res_plus: Option<u64>,
    signed: Option<i32>,
    signed_minus: Option<i32>,
)
    requires
        plain@ == decimal_of(n),
        plus@ == seq!['+'] + decimal_of(n),
        minus@ == seq!['-'] + decimal_of(n),
        call_ensures(parse_u64, (plain,), res),
        call_ensures(parse_u64, (plus,), res_plus),
        call_ensures(parse_i32, (plain,), signed),
        call_ensures(parse_i32, (minus,), signed_minus),
    ensures
        n <= u64::MAX ==> res == Some(n as u64) && res_plus == Some(n as u64),
        n > u64::MAX ==> res is None && res_plus is None,
        n <= i32::MAX ==> signed == Some(n as i32),
        n > i32::MAX ==> signed is None,
        n <= 0x8000_0000 ==> signed_minus is Some && signed_minus->Some_0 == -(n as int),
        n > 0x8000_0000 ==> signed_minus is None,
{
    decimal_digits(n);
    let digits = decimal_of(n);
    assert('0' <= digits[0] <= '9');
    assert(plus@.skip(1) =~= digits);
    assert(minus@.skip(1) =~= digits);
}

/// What is made of a text is what is said of it: it is joined, cut, trimmed and replaced as the words
/// for it say.
pub proof fn texts_are_made(
    s: &str,
    t: &str,
    u: &str,
    c: char,
    parts: &Vec<String>,
    begins: bool,
    equal: bool,
    stripped: String,
    shortened: String,
    replaced_text: String,
    removed: String,
    trimmed_text: String,
    chomped: String,
    together: String,
    path: String,
    below: String,
    pieces: Vec<String>,
    rows: Vec<String>,
    words: Vec<String>,
    cut: (String, String),
    both: String,
)
    requires
        call_ensures(starts_with, (s, t), begins),
        call_ensures(same, (s, t), equal),
        call_ensures(strip_prefix, (s, t), stripped),
        call_ensures(strip_suffix, (s, t), shortened),
        call_ensures(replace, (s, t, u), replaced_text),
        call_ensures(remove_char, (s, c), removed),
        call_ensures(trim, (s,), trimmed_text),
        call_ensures(trim_newlines, (s,), chomped),
        call_ensures(join, (parts, s), together),
        call_ensures(path_join, (s, t), path),
        call_ensures(path_relative, (s, t), below),
        call_ensures(split, (s, c), pieces),
        call_ensures(lines, (s,), rows),
        call_ensures(split_whitespace, (s,), words),
        call_ensures(split_once, (s, c), cut),
        call_ensures(cat, (s, t), both),
    ensures
        begins <==> s@.len() >= t@.len() && s@.take(t@.len() as int) == t@,
        equal <==> s@ == t@,
        begins ==> t@ + stripped@ == s@,
        !begins ==> stripped@ == s@,
        shortened@ + t@ == s@ || shortened@ == s@,
        replaced_text@ == replaced(s@, t@, u@),
        removed@ == s@.filter(|x: char| x != c),
        trimmed_text@ == trimmed(s@),
        chomped@ == without_final_newlines(s@),
        together@ == joined(texts(parts@), s@),
        path@ == path_in(s@, t@),
        below@ == path_below(s@, t@),
        joined(texts(pieces@), seq![c]) == s@,
        texts(rows@) == lines_of(s@),
        texts(words@) == words_of(s@),
        (cut.0@, cut.1@) == cut_at(s@, c),
        both@ == s@ + t@,
{
    other_characters_are_kept(s@, c);
    split_then_join(s@, c);
    let n = t@.len() as int;
    if s@.len() >= n {
        assert(s@.subrange(0, n) =~= s@.take(n));
    }
    if begins {
        assert(t@ + s@.skip(n) =~= s@);
    }
    if shortened@ != s@ {
        assert(s@.subrange(s@.len() - n, s@.len() - n + n) =~= t@);
        assert(s@.take(s@.len() - n) + t@ =~= s@);
    }
}

} // verus!
