//! Operations on text, stated over the characters that a text holds.
use vstd::prelude::*;

verus! {

/// The characters that Unicode gives the `White_Space` property.
pub open spec fn white_space(c: char) -> bool {
    ||| '\u{9}' <= c <= '\u{d}'
    ||| c == '\u{20}'
    ||| c == '\u{85}'
    ||| c == '\u{a0}'
    ||| c == '\u{1680}'
    ||| '\u{2000}' <= c <= '\u{200a}'
    ||| c == '\u{2028}'
    ||| c == '\u{2029}'
    ||| c == '\u{202f}'
    ||| c == '\u{205f}'
    ||| c == '\u{3000}'
}

/// Tab, line feed, form feed, carriage return and space. Unlike `white_space`, the vertical tab
/// is not one of them.
pub open spec fn ascii_white_space(c: char) -> bool {
    c == '\t' || c == '\n' || c == '\u{c}' || c == '\r' || c == ' '
}

/// `s` without the white space that it begins with.
pub open spec fn trimmed_start(s: Seq<char>) -> Seq<char>
    decreases s.len(),
{
    if s.len() > 0 && white_space(s.first()) {
        trimmed_start(s.drop_first())
    } else {
        s
    }
}

/// `s` without the white space that it ends with.
pub open spec fn trimmed_end(s: Seq<char>) -> Seq<char>
    decreases s.len(),
{
    if s.len() > 0 && white_space(s.last()) {
        trimmed_end(s.drop_last())
    } else {
        s
    }
}

/// `s` without the white space around it.
pub open spec fn trimmed(s: Seq<char>) -> Seq<char> {
    trimmed_end(trimmed_start(s))
}

/// What lies between the separators of `s`: one field more than there are separators, and any
/// of them may be empty.
pub open spec fn fields(s: Seq<char>, sep: spec_fn(char) -> bool) -> Seq<Seq<char>>
    decreases s.len(),
{
    if s.len() == 0 {
        seq![Seq::empty()]
    } else {
        let before = fields(s.drop_last(), sep);
        if sep(s.last()) {
            before.push(Seq::empty())
        } else {
            before.drop_last().push(before.last().push(s.last()))
        }
    }
}

/// Cuts at ASCII white space.
pub open spec fn at_blanks() -> spec_fn(char) -> bool {
    |c: char| ascii_white_space(c)
}

/// Cuts at dots.
pub open spec fn at_dots() -> spec_fn(char) -> bool {
    |c: char| c == '.'
}

/// Keeps what holds a character.
pub open spec fn not_empty() -> spec_fn(Seq<char>) -> bool {
    |f: Seq<char>| f.len() > 0
}

/// The words of `s`: its fields between ASCII white space that are not empty.
pub open spec fn words(s: Seq<char>) -> Seq<Seq<char>> {
    fields(s, at_blanks()).filter(not_empty())
}

/// The last of the fields that the dots of `s` separate; all of `s` where it has no dot.
pub open spec fn extension(s: Seq<char>) -> Seq<char> {
    fields(s, at_dots()).last()
}

/// The words `ws` in one line, with a single space between each two of them.
pub open spec fn joined(ws: Seq<Seq<char>>) -> Seq<char>
    decreases ws.len(),
{
    if ws.len() == 0 {
        Seq::empty()
    } else if ws.len() == 1 {
        ws[0]
    } else {
        joined(ws.drop_last()).push(' ') + ws.last()
    }
}

/// `n` in decimal digits, with no leading zero.
pub open spec fn decimal(n: nat) -> Seq<char>
    decreases n,
{
    if n < 10 {
        seq!["0123456789"@[n as int]]
    } else {
        decimal(n / 10).push("0123456789"@[(n % 10) as int])
    }
}

/// `n` in decimal digits, after a minus sign where it is negative.
pub open spec fn signed_decimal(n: int) -> Seq<char> {
    if n < 0 {
        "-"@ + decimal((-n) as nat)
    } else {
        decimal(n as nat)
    }
}

/// `s` followed by as many spaces as make it at least `width` characters long.
pub open spec fn padded(s: Seq<char>, width: nat) -> Seq<char> {
    if s.len() < width {
        s + Seq::new((width - s.len()) as nat, |i: int| ' ')
    } else {
        s
    }
}

/// Whether `c` is white space.
pub fn is_white_space(c: char) -> (r: bool)
    ensures
        r == white_space(c),
{
    ('\u{9}' <= c && c <= '\u{d}') || c == '\u{20}' || c == '\u{85}' || c == '\u{a0}' || c
        == '\u{1680}' || ('\u{2000}' <= c && c <= '\u{200a}') || c == '\u{2028}' || c
        == '\u{2029}' || c == '\u{202f}' || c == '\u{205f}' || c == '\u{3000}'
}

/// Whether `c` is ASCII white space.
pub fn is_ascii_white_space(c: char) -> (r: bool)
    ensures
        r == ascii_white_space(c),
{
    c == '\t' || c == '\n' || c == '\u{c}' || c == '\r' || c == ' '
}

/// Whether two texts are the same.
pub fn same_text(a: &str, b: &str) -> (r: bool)
    ensures
        r == (a@ == b@),
{
    a.to_owned() == b.to_owned()
}

proof fn lemma_trimmed_start(s: Seq<char>, k: int)
    requires
        0 <= k <= s.len(),
        forall|j: int| 0 <= j < k ==> white_space(#[trigger] s[j]),
        k < s.len() ==> !white_space(s[k]),
    ensures
        trimmed_start(s) == s.skip(k),
    decreases s.len(),
{
    if k > 0 {
        let t = s.drop_first();
        assert forall|j: int| 0 <= j < k - 1 implies white_space(#[trigger] t[j]) by {
            assert(t[j] == s[j + 1]);
        }
        lemma_trimmed_start(t, k - 1);
        assert(t.skip(k - 1) =~= s.skip(k));
    } else {
        assert(s.skip(0) =~= s);
    }
}

proof fn lemma_trimmed_end(s: Seq<char>, k: int)
    requires
        0 <= k <= s.len(),
        forall|j: int| k <= j < s.len() ==> white_space(#[trigger] s[j]),
        k > 0 ==> !white_space(s[k - 1]),
    ensures
        trimmed_end(s) == s.take(k),
    decreases s.len(),
{
    if k < s.len() {
        let t = s.drop_last();
        assert forall|j: int| k <= j < t.len() implies white_space(#[trigger] t[j]) by {
            assert(t[j] == s[j]);
        }
        lemma_trimmed_end(t, k);
        assert(t.take(k) =~= s.take(k));
    } else {
        assert(s.take(k) =~= s);
    }
}

/// The text of `line` without the white space around it.
pub fn trim(line: &str) -> (r: &str)
    ensures
        r@ == trimmed(line@),
{
    let len: usize = line.unicode_len();
    let mut i: usize = 0;
    let mut first: usize = 0;
    let mut end: usize = 0;
    for c in it: line.chars()
        invariant
            it.seq() == line@,
            len == line@.len(),
            i == it.index(),
            first <= end <= i,
            forall|j: int| 0 <= j < first ==> white_space(#[trigger] line@[j]),
            forall|j: int| end <= j < i ==> white_space(#[trigger] line@[j]),
            first == end ==> first == 0,
            first < end ==> !white_space(line@[first as int]) && !white_space(line@[end - 1]),
    {
        if !is_white_space(c) {
            if first == end {
                first = i;
            }
            end = i + 1;
        }
        i = i + 1;
    }
    proof {
        if first == end {
            lemma_trimmed_start(line@, len as int);
            assert(line@.skip(len as int) =~= line@.subrange(0, 0));
        } else {
            lemma_trimmed_start(line@, first as int);
            let s = line@.skip(first as int);
            assert forall|j: int| end - first <= j < s.len() implies white_space(
                #[trigger] s[j],
            ) by {
                assert(s[j] == line@[j + first]);
            }
            lemma_trimmed_end(s, end - first);
            assert(s.take(end - first) =~= line@.subrange(first as int, end as int));
        }
    }
    line.substring_char(first, end)
}

proof fn lemma_fields_step(s: Seq<char>, i: int, sep: spec_fn(char) -> bool)
    requires
        0 <= i < s.len(),
    ensures
        fields(s.take(i), sep).len() > 0,
        fields(s.take(i + 1), sep) == if sep(s[i]) {
            fields(s.take(i), sep).push(Seq::empty())
        } else {
            fields(s.take(i), sep).drop_last().push(fields(s.take(i), sep).last().push(s[i]))
        },
{
    lemma_fields_len(s.take(i), sep);
    assert(s.take(i + 1).drop_last() =~= s.take(i));
}

proof fn lemma_fields_len(s: Seq<char>, sep: spec_fn(char) -> bool)
    ensures
        fields(s, sep).len() > 0,
    decreases s.len(),
{
    if s.len() > 0 {
        lemma_fields_len(s.drop_last(), sep);
    }
}

/// The words of `line`, cut at ASCII white space.
pub fn split_ascii_whitespace(line: &str) -> (r: Vec<String>)
    ensures
        r.deep_view() == words(line@),
{
    let len: usize = line.unicode_len();
    let mut out: Vec<String> = Vec::new();
    let mut i: usize = 0;
    let mut start: usize = 0;
    let ghost s = line@;
    proof {
        assert(s.take(0) =~= Seq::empty());
        reveal(Seq::filter);
        assert(out.deep_view() =~= fields(s.take(0), at_blanks()).drop_last().filter(not_empty()));
        assert(fields(s.take(0), at_blanks()).last() =~= s.subrange(0, 0));
    }
    for c in it: line.chars()
        invariant
            it.seq() == s,
            s == line@,
            len == s.len(),
            i == it.index(),
            start <= i,
            fields(s.take(i as int), at_blanks()).len() > 0,
            fields(s.take(i as int), at_blanks()).last() == s.subrange(start as int, i as int),
            out.deep_view() == fields(s.take(i as int), at_blanks()).drop_last().filter(
                not_empty(),
            ),
    {
        let ghost before = fields(s.take(i as int), at_blanks());
        let ghost after = fields(s.take(i + 1), at_blanks());
        let ghost had = out.deep_view();
        proof {
            lemma_fields_step(s, i as int, at_blanks());
        }
        if is_ascii_white_space(c) {
            if start < i {
                out.push(line.substring_char(start, i).to_owned());
            }
            start = i + 1;
            proof {
                assert(after.drop_last() =~= before);
                reveal(Seq::filter);
                assert(out.deep_view() =~= before.filter(not_empty()));
                assert(s.subrange(start as int, i + 1) =~= Seq::empty());
            }
        } else {
            proof {
                assert(after.drop_last() =~= before.drop_last());
                assert(s.subrange(start as int, i + 1) =~= s.subrange(
                    start as int,
                    i as int,
                ).push(s[i as int]));
            }
        }
        i = i + 1;
    }
    proof {
        assert(s.take(len as int) =~= s);
        reveal(Seq::filter);
    }
    if start < len {
        out.push(line.substring_char(start, len).to_owned());
    }
    assert(out.deep_view() =~= words(s));
    out
}

/// The part of `file` behind its last dot; all of it where it has none.
pub fn file_extension(file: &str) -> (r: &str)
    ensures
        r@ == extension(file@),
{
    let len: usize = file.unicode_len();
    let mut i: usize = 0;
    let mut start: usize = 0;
    let ghost s = file@;
    proof {
        assert(s.take(0) =~= Seq::empty());
        assert(fields(s.take(0), at_dots()).last() =~= s.subrange(0, 0));
    }
    for c in it: file.chars()
        invariant
            it.seq() == s,
            s == file@,
            len == s.len(),
            i == it.index(),
            start <= i,
            fields(s.take(i as int), at_dots()).last() == s.subrange(start as int, i as int),
    {
        proof {
            lemma_fields_step(s, i as int, at_dots());
        }
        if c == '.' {
            start = i + 1;
            assert(s.subrange(start as int, i + 1) =~= Seq::empty());
        } else {
            assert(s.subrange(start as int, i + 1) =~= s.subrange(start as int, i as int).push(
                s[i as int],
            ));
        }
        i = i + 1;
    }
    assert(s.take(len as int) =~= s);
    file.substring_char(start, len)
}

/// `n` in decimal.
pub fn unsigned_text(n: u64) -> (r: String)
    ensures
        r@ == decimal(n as nat),
    decreases n,
{
    proof {
        reveal_strlit("0123456789");
    }
    let d: usize = (n % 10) as usize;
    let digit = "0123456789".substring_char(d, d + 1);
    if n < 10 {
        assert(digit@ =~= decimal(n as nat));
        digit.to_owned()
    } else {
        let r = unsigned_text(n / 10).concat(digit);
        assert(r@ =~= decimal(n as nat));
        r
    }
}

/// `n` in decimal.
pub fn signed_text(n: i32) -> (r: String)
    ensures
        r@ == signed_decimal(n as int),
{
    if n < 0 {
        let magnitude: u64 = (-(n as i64)) as u64;
        "-".to_owned().concat(unsigned_text(magnitude).as_str())
    } else {
        unsigned_text(n as u64)
    }
}

/// `s`, filled up with spaces on its right to `width` characters.
pub fn pad_right(s: &str, width: usize) -> (r: String)
    ensures
        r@ == padded(s@, width as nat),
{
    let mut len: usize = s.unicode_len();
    let mut r = s.to_owned();
    assert(r@ =~= s@ + Seq::new((len - s@.len()) as nat, |i: int| ' '));
    while len < width
        invariant
            s@.len() <= len,
            len <= width || len == s@.len(),
            r@ == s@ + Seq::new((len - s@.len()) as nat, |i: int| ' '),
        decreases width - len,
    {
        proof {
            reveal_strlit(" ");
        }
        r.append(" ");
        len = len + 1;
        assert(r@ =~= s@ + Seq::new((len - s@.len()) as nat, |i: int| ' '));
    }
    assert(r@ =~= padded(s@, width as nat));
    r
}

/// Trimmed text neither begins nor ends with white space, and trimming it again changes
/// nothing.
pub proof fn law_trimmed(s: Seq<char>)
    ensures
        trimmed(s).len() > 0 ==> !white_space(trimmed(s).first()) && !white_space(
            trimmed(s).last(),
        ),
        trimmed(trimmed(s)) == trimmed(s),
{
    lemma_trimmed_start_first(s);
    lemma_trimmed_end_last(trimmed_start(s));
}

proof fn lemma_trimmed_start_first(s: Seq<char>)
    ensures
        trimmed_start(s).len() > 0 ==> !white_space(trimmed_start(s).first()),
    decreases s.len(),
{
    if s.len() > 0 && white_space(s.first()) {
        lemma_trimmed_start_first(s.drop_first());
    }
}

proof fn lemma_trimmed_end_last(s: Seq<char>)
    ensures
        trimmed_end(s).len() > 0 ==> !white_space(trimmed_end(s).last()),
        trimmed_end(s).len() > 0 ==> trimmed_end(s).first() == s.first(),
    decreases s.len(),
{
    if s.len() > 0 && white_space(s.last()) {
        lemma_trimmed_end_last(s.drop_last());
    }
}

/// Every word holds a character, and none of its characters is ASCII white space.
pub proof fn law_words_hold_no_blank(s: Seq<char>, i: int, j: int)
    requires
        0 <= i < words(s).len(),
    ensures
        words(s)[i].len() > 0,
        0 <= j < words(s)[i].len() ==> !ascii_white_space(words(s)[i][j]),
{
    let fs = fields(s, at_blanks());
    fs.lemma_filter_pred(not_empty(), i);
    assert(fs.filter(not_empty()).contains(words(s)[i]));
    fs.lemma_filter_contains_rev(not_empty(), words(s)[i]);
    let k = choose|k: int| 0 <= k < fs.len() && fs[k] == words(s)[i];
    if 0 <= j < words(s)[i].len() {
        lemma_fields_hold_no_separator(s, at_blanks(), k, j);
    }
}

proof fn lemma_fields_hold_no_separator(
    s: Seq<char>,
    sep: spec_fn(char) -> bool,
    k: int,
    j: int,
)
    requires
        0 <= k < fields(s, sep).len(),
        0 <= j < fields(s, sep)[k].len(),
    ensures
        !sep(fields(s, sep)[k][j]),
    decreases s.len(),
{
    if s.len() > 0 {
        let before = fields(s.drop_last(), sep);
        lemma_fields_len(s.drop_last(), sep);
        if sep(s.last()) {
            if k < before.len() {
                lemma_fields_hold_no_separator(s.drop_last(), sep, k, j);
            }
        } else if k < before.len() - 1 {
            lemma_fields_hold_no_separator(s.drop_last(), sep, k, j);
        } else if j < before.last().len() {
            lemma_fields_hold_no_separator(s.drop_last(), sep, k, j);
        }
    }
}

/// Words that hold no ASCII white space come back from the line that they make when they are
/// joined by single spaces.
pub proof fn law_words_of_joined(ws: Seq<Seq<char>>)
    requires
        forall|i: int| 0 <= i < ws.len() ==> (#[trigger] ws[i]).len() > 0,
        forall|i: int, j: int|
            0 <= i < ws.len() && 0 <= j < ws[i].len() ==> !ascii_white_space(#[trigger] ws[i][j]),
    ensures
        words(joined(ws)) == ws,
    decreases ws.len(),
{
    reveal(Seq::filter);
    let none: Seq<char> = Seq::empty();
    if ws.len() == 0 {
        let fs = fields(none, at_blanks());
        assert(fs.drop_last() =~= Seq::empty());
        assert(fs.drop_last().filter(not_empty()) =~= Seq::empty());
        assert(fs.filter(not_empty()) =~= Seq::empty());
        assert(words(joined(ws)) =~= ws);
    } else if ws.len() == 1 {
        lemma_fields_of_field(ws[0], at_blanks());
        let fs = fields(ws[0], at_blanks());
        assert(fs.drop_last() =~= Seq::empty());
        assert(fs.drop_last().filter(not_empty()) =~= Seq::empty());
        assert(words(joined(ws)) =~= ws);
    } else {
        let front = ws.drop_last();
        assert forall|i: int, j: int| 0 <= i < front.len() && 0 <= j < front[i].len() implies
            !ascii_white_space(#[trigger] front[i][j]) by {
            assert(front[i][j] == ws[i][j]);
        }
        law_words_of_joined(front);
        let last = ws.last();
        assert forall|j: int| 0 <= j < last.len() implies !at_blanks()(#[trigger] last[j]) by {
            assert(last[j] == ws[ws.len() - 1][j]);
        }
        lemma_fields_append(joined(front), ' ', last, at_blanks());
        let fs = fields(joined(ws), at_blanks());
        assert(fs.drop_last() =~= fields(joined(front), at_blanks()));
        assert(words(joined(ws)) =~= ws);
    }
}

proof fn lemma_fields_of_field(b: Seq<char>, sep: spec_fn(char) -> bool)
    requires
        forall|j: int| 0 <= j < b.len() ==> !sep(#[trigger] b[j]),
    ensures
        fields(b, sep) == seq![b],
    decreases b.len(),
{
    if b.len() > 0 {
        lemma_fields_of_field(b.drop_last(), sep);
        assert(b.drop_last().push(b.last()) =~= b);
        assert(fields(b, sep) =~= seq![b]);
    } else {
        assert(b =~= Seq::empty());
    }
}

proof fn lemma_fields_append(a: Seq<char>, c: char, b: Seq<char>, sep: spec_fn(char) -> bool)
    requires
        sep(c),
        forall|j: int| 0 <= j < b.len() ==> !sep(#[trigger] b[j]),
    ensures
        fields(a.push(c) + b, sep) == fields(a, sep).push(b),
    decreases b.len(),
{
    let whole = a.push(c) + b;
    lemma_fields_len(a, sep);
    if b.len() == 0 {
        assert(whole =~= a.push(c));
        assert(whole.drop_last() =~= a);
        assert(b =~= Seq::empty());
    } else {
        lemma_fields_append(a, c, b.drop_last(), sep);
        assert(whole.drop_last() =~= a.push(c) + b.drop_last());
        assert(b.drop_last().push(b.last()) =~= b);
        assert(fields(whole, sep) =~= fields(a, sep).push(b));
    }
}

/// What follows the last dot of a text is its extension.
pub proof fn lemma_extension_of(front: Seq<char>, ext: Seq<char>)
    requires
        forall|j: int| 0 <= j < ext.len() ==> #[trigger] ext[j] != '.',
    ensures
        extension(front.push('.') + ext) == ext,
{
    assert forall|j: int| 0 <= j < ext.len() implies !at_dots()(#[trigger] ext[j]) by {}
    lemma_fields_append(front, '.', ext, at_dots());
}

/// The extension holds no dot, and it is all of the text or what follows a dot in it.
pub proof fn law_extension(s: Seq<char>)
    ensures
        forall|j: int| 0 <= j < extension(s).len() ==> extension(s)[j] != '.',
        extension(s) == s || exists|front: Seq<char>| s == #[trigger] front.push('.') + extension(s),
    decreases s.len(),
{
    lemma_fields_len(s, at_dots());
    let fs = fields(s, at_dots());
    assert forall|j: int| 0 <= j < extension(s).len() implies extension(s)[j] != '.' by {
        lemma_fields_hold_no_separator(s, at_dots(), fs.len() - 1, j);
    }
    if s.len() > 0 {
        law_extension(s.drop_last());
        lemma_fields_len(s.drop_last(), at_dots());
        let e = extension(s.drop_last());
        if s.last() == '.' {
            assert(s =~= s.drop_last().push('.') + extension(s));
        } else if e == s.drop_last() {
            assert(extension(s) =~= s);
        } else {
            let front = choose|front: Seq<char>| s.drop_last() == #[trigger] front.push('.') + e;
            assert(s.drop_last().push(s.last()) =~= s);
            assert(extension(s) == e.push(s.last()));
            assert(front.push('.') + e.push(s.last()) =~= (front.push('.') + e).push(s.last()));
        }
    } else {
        assert(extension(s) =~= s);
    }
}

/// A text without a dot is its own extension.
pub proof fn lemma_extension_of_all(ext: Seq<char>)
    requires
        forall|j: int| 0 <= j < ext.len() ==> #[trigger] ext[j] != '.',
    ensures
        extension(ext) == ext,
{
    assert forall|j: int| 0 <= j < ext.len() implies !at_dots()(#[trigger] ext[j]) by {}
    lemma_fields_of_field(ext, at_dots());
}

/// The white space characters, by their numbers.
pub proof fn law_white_space(c: char, r: bool)
    requires
        call_ensures(is_white_space, (c,), r),
    ensures
        r <==> set![
            0x9int, 0xaint, 0xbint, 0xcint, 0xdint, 0x20int, 0x85int, 0xa0int, 0x1680int,
            0x2000int, 0x2001int, 0x2002int, 0x2003int, 0x2004int, 0x2005int, 0x2006int, 0x2007int,
            0x2008int, 0x2009int, 0x200aint, 0x2028int, 0x2029int, 0x202fint, 0x205fint, 0x3000int
        ].contains(c as int),
        r == white_space(c),
{
}

/// The white space characters that separate words, by their numbers: those below 128, without the
/// vertical tab.
pub proof fn law_ascii_white_space(c: char, r: bool)
    requires
        call_ensures(is_ascii_white_space, (c,), r),
    ensures
        r <==> set![0x9int, 0xaint, 0xcint, 0xdint, 0x20int].contains(c as int),
        r <==> white_space(c) && (c as int) < 128 && (c as int) != 0xb,
        r == ascii_white_space(c),
{
}

/// Two texts are the same where they hold the same characters.
pub proof fn law_same_text(a: &str, b: &str, r: bool)
    requires
        call_ensures(same_text, (a, b), r),
    ensures
        r <==> a@.len() == b@.len() && forall|i: int|
            0 <= i < a@.len() ==> #[trigger] a@[i] == b@[i],
{
    if a@.len() == b@.len() && forall|i: int| 0 <= i < a@.len() ==> #[trigger] a@[i] == b@[i] {
        assert(a@ =~= b@);
    }
}

proof fn lemma_trimmed_start_is_skip(s: Seq<char>) -> (k: int)
    ensures
        0 <= k <= s.len(),
        trimmed_start(s) == s.skip(k),
        forall|i: int| 0 <= i < k ==> white_space(#[trigger] s[i]),
    decreases s.len(),
{
    if s.len() > 0 && white_space(s.first()) {
        let t = s.drop_first();
        let k = lemma_trimmed_start_is_skip(t);
        assert(t.skip(k) =~= s.skip(k + 1));
        assert forall|i: int| 0 <= i < k + 1 implies white_space(#[trigger] s[i]) by {
            if i > 0 {
                assert(white_space(t[i - 1]));
            }
        }
        k + 1
    } else {
        assert(s.skip(0) =~= s);
        0
    }
}

proof fn lemma_trimmed_end_is_take(s: Seq<char>) -> (k: int)
    ensures
        0 <= k <= s.len(),
        trimmed_end(s) == s.take(k),
        forall|i: int| k <= i < s.len() ==> white_space(#[trigger] s[i]),
    decreases s.len(),
{
    if s.len() > 0 && white_space(s.last()) {
        let t = s.drop_last();
        let k = lemma_trimmed_end_is_take(t);
        assert(t.take(k) =~= s.take(k));
        assert forall|i: int| k <= i < s.len() implies white_space(#[trigger] s[i]) by {
            if i < t.len() {
                assert(white_space(t[i]));
            }
        }
        k
    } else {
        assert(s.take(s.len() as int) =~= s);
        s.len() as int
    }
}

/// Trimming takes away white space at both ends, all of it, and nothing else: a text that neither
/// begins nor ends with white space comes out whole from between any white space.
pub proof fn law_trim_takes_white_space(
    before: Seq<char>,
    core: Seq<char>,
    after: Seq<char>,
    line: &str,
    r: &str,
)
    requires
        call_ensures(trim, (line,), r),
        line@ == before + core + after,
        forall|i: int| 0 <= i < before.len() ==> white_space(#[trigger] before[i]),
        forall|i: int| 0 <= i < after.len() ==> white_space(#[trigger] after[i]),
        core.len() > 0 ==> !white_space(core.first()) && !white_space(core.last()),
    ensures
        r@ == core,
{
    let s = line@;
    let n: int = before.len() as int;
    let m: int = core.len() as int;
    if m > 0 {
        assert forall|j: int| 0 <= j < n implies white_space(#[trigger] s[j]) by {
            assert(s[j] == before[j]);
        }
        assert(s[n] == core[0]);
        lemma_trimmed_start(s, n);
        let t = s.skip(n);
        assert forall|j: int| m <= j < t.len() implies white_space(#[trigger] t[j]) by {
            assert(t[j] == after[j - m]);
        }
        assert(t[m - 1] == core[m - 1]);
        lemma_trimmed_end(t, m);
        assert(t.take(m) =~= core);
    } else {
        assert forall|j: int| 0 <= j < s.len() implies white_space(#[trigger] s[j]) by {
            if j < n {
                assert(s[j] == before[j]);
            } else {
                assert(s[j] == after[j - n]);
            }
        }
        lemma_trimmed_start(s, s.len() as int);
        assert(s.skip(s.len() as int) =~= core);
        lemma_trimmed_end(core, 0);
        assert(core.take(0) =~= core);
    }
}

/// What is left of a trimmed text is a stretch of it, with nothing but white space on both sides.
pub proof fn law_trim_leaves_a_stretch(line: &str, r: &str)
    requires
        call_ensures(trim, (line,), r),
    ensures
        exists|i: int, j: int|
            0 <= i <= j <= line@.len() && r@ == #[trigger] line@.subrange(i, j) && (forall|k: int|
                (0 <= k < i || j <= k < line@.len()) ==> white_space(#[trigger] line@[k])),
{
    let s = line@;
    let i = lemma_trimmed_start_is_skip(s);
    let t = s.skip(i);
    let k = lemma_trimmed_end_is_take(t);
    assert(t.take(k) =~= s.subrange(i, i + k));
    assert forall|n: int| (0 <= n < i || i + k <= n < s.len()) implies white_space(
        #[trigger] s[n],
    ) by {
        if n >= i + k {
            assert(white_space(t[n - i]));
        }
    }
}

proof fn lemma_fields_cut(a: Seq<char>, c: char, b: Seq<char>, sep: spec_fn(char) -> bool)
    requires
        sep(c),
    ensures
        fields(a.push(c) + b, sep) == fields(a, sep) + fields(b, sep),
    decreases b.len(),
{
    let whole = a.push(c) + b;
    lemma_fields_len(a, sep);
    lemma_fields_len(b, sep);
    if b.len() == 0 {
        assert(whole =~= a.push(c));
        assert(whole.drop_last() =~= a);
        assert(fields(a, sep).push(Seq::empty()) =~= fields(a, sep) + fields(b, sep));
    } else {
        let front = b.drop_last();
        lemma_fields_cut(a, c, front, sep);
        lemma_fields_len(front, sep);
        assert(whole.drop_last() =~= a.push(c) + front);
        assert(whole.last() == b.last());
        assert(fields(whole, sep) =~= fields(a, sep) + fields(b, sep));
    }
}

/// A line is cut at white space: cut at any such character, its words are those before it and then
/// those behind it.
pub proof fn law_words_are_cut(
    before: &str,
    blank: char,
    behind: &str,
    line: &str,
    words_before: Vec<String>,
    words_behind: Vec<String>,
    r: Vec<String>,
)
    requires
        line@ == before@.push(blank) + behind@,
        blank == ' ' || blank == '\t' || blank == '\n' || blank == '\r' || blank == '\u{c}',
        call_ensures(split_ascii_whitespace, (before,), words_before),
        call_ensures(split_ascii_whitespace, (behind,), words_behind),
        call_ensures(split_ascii_whitespace, (line,), r),
    ensures
        r.deep_view() == words_before.deep_view() + words_behind.deep_view(),
{
    lemma_fields_cut(before@, blank, behind@, at_blanks());
    Seq::filter_distributes_over_add(
        fields(before@, at_blanks()),
        fields(behind@, at_blanks()),
        not_empty(),
    );
}

/// A line without white space is its only word, and an empty line has none.
pub proof fn law_word_is_whole(line: &str, r: Vec<String>)
    requires
        call_ensures(split_ascii_whitespace, (line,), r),
        forall|i: int|
            0 <= i < line@.len() ==> (#[trigger] line@[i]) != ' ' && line@[i] != '\t' && line@[i]
                != '\n' && line@[i] != '\r' && line@[i] != '\u{c}',
    ensures
        r.deep_view() == if line@.len() == 0 {
            Seq::<Seq<char>>::empty()
        } else {
            seq![line@]
        },
{
    let s = line@;
    assert forall|j: int| 0 <= j < s.len() implies !at_blanks()(#[trigger] s[j]) by {}
    lemma_fields_of_field(s, at_blanks());
    reveal(Seq::filter);
    let fs = fields(s, at_blanks());
    assert(fs.drop_last() =~= Seq::empty());
    assert(fs.drop_last().filter(not_empty()) =~= Seq::empty());
    assert(words(s) =~= if s.len() == 0 {
        Seq::<Seq<char>>::empty()
    } else {
        seq![s]
    });
}

/// What follows the last dot of a file's name is its extension, and all of the name where there is
/// no dot.
pub proof fn law_file_extension(file: &str, r: &str, front: Seq<char>, ext: Seq<char>)
    requires
        call_ensures(file_extension, (file,), r),
        file@ == ext || file@ == front.push('.') + ext,
        forall|j: int| 0 <= j < ext.len() ==> #[trigger] ext[j] != '.',
    ensures
        r@ == ext,
{
    if file@ == front.push('.') + ext {
        lemma_extension_of(front, ext);
    } else {
        lemma_extension_of_all(ext);
    }
}

/// The number that decimal digits stand for.
pub open spec fn number_of(s: Seq<char>) -> int
    decreases s.len(),
{
    if s.len() == 0 {
        0
    } else {
        10 * number_of(s.drop_last()) + (s.last() as int - '0' as int)
    }
}

/// The digits of the decimal system stand for their numbers.
pub proof fn lemma_digit(d: int)
    requires
        0 <= d < 10,
    ensures
        "0123456789"@[d] as int == d + '0' as int,
{
    reveal_strlit("0123456789");
    let s = "0123456789"@;
    assert(s[0] == '0' && s[1] == '1' && s[2] == '2' && s[3] == '3' && s[4] == '4' && s[5] == '5'
        && s[6] == '6' && s[7] == '7' && s[8] == '8' && s[9] == '9');
}

proof fn lemma_decimal(n: nat)
    ensures
        decimal(n).len() > 0,
        number_of(decimal(n)) == n,
        forall|i: int| 0 <= i < decimal(n).len() ==> '0' <= #[trigger] decimal(n)[i] <= '9',
        decimal(n).first() == '0' ==> n == 0 && decimal(n).len() == 1,
    decreases n,
{
    lemma_digit((n % 10) as int);
    let last = "0123456789"@[(n % 10) as int];
    if n < 10 {
        assert(decimal(n).drop_last() =~= Seq::empty());
        assert(number_of(decimal(n).drop_last()) == 0);
    } else {
        lemma_decimal(n / 10);
        let front = decimal(n / 10);
        assert(decimal(n).drop_last() =~= front);
        assert forall|i: int| 0 <= i < decimal(n).len() implies '0' <= #[trigger] decimal(n)[i]
            <= '9' by {
            if i < front.len() {
                assert(decimal(n)[i] == front[i]);
            } else {
                assert(decimal(n)[i] == last);
            }
        }
        assert(decimal(n).first() == front.first());
    }
}

/// A number in decimal holds digits alone, reads back as that number, and begins with no zero but
/// that of the number 0.
pub proof fn law_unsigned_text(n: u64, r: String)
    requires
        call_ensures(unsigned_text, (n,), r),
    ensures
        r@.len() > 0,
        number_of(r@) == n,
        forall|i: int| 0 <= i < r@.len() ==> '0' <= #[trigger] r@[i] <= '9',
        r@.first() == '0' ==> n == 0 && r@.len() == 1,
        r@ == decimal(n as nat),
{
    lemma_decimal(n as nat);
}

/// A number below 0 is its magnitude behind a minus sign, and any other is written as without a
/// sign.
pub proof fn law_signed_text(n: i32, magnitude: u64, r: String, unsigned: String)
    requires
        magnitude == if n < 0 {
            -n
        } else {
            n as int
        },
        call_ensures(signed_text, (n,), r),
        call_ensures(unsigned_text, (magnitude,), unsigned),
    ensures
        r@ == if n < 0 {
            seq!['-'] + unsigned@
        } else {
            unsigned@
        },
        r@ == signed_decimal(n as int),
{
    reveal_strlit("-");
    assert("-"@ =~= seq!['-']);
}

/// Filling up keeps the text in front, adds nothing but spaces, and only as many as are missing.
pub proof fn law_pad_right(s: &str, width: usize, r: String)
    requires
        call_ensures(pad_right, (s, width), r),
    ensures
        r@.len() == if s@.len() < width {
            width as nat
        } else {
            s@.len()
        },
        r@.take(s@.len() as int) == s@,
        forall|i: int| s@.len() <= i < r@.len() ==> #[trigger] r@[i] == ' ',
{
    assert(r@.take(s@.len() as int) =~= s@);
}

} // verus!
