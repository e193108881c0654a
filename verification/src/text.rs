//! Character-level text handling: white space, trimming, splitting into words,
//! and decimal rendering of numbers.
use vstd::prelude::*;

verus! {

broadcast use vstd::string::group_string_axioms;

/// The characters that carry the Unicode `White_Space` property, which is what
/// `char::is_whitespace` tests.
pub open spec fn is_space(c: char) -> bool {
    ||| '\u{9}' <= c <= '\u{d}'
    ||| c == ' '
    ||| c == '\u{85}'
    ||| c == '\u{a0}'
    ||| c == '\u{1680}'
    ||| '\u{2000}' <= c <= '\u{200a}'
    ||| c == '\u{2028}'
    ||| c == '\u{2029}'
    ||| c == '\u{202f}'
    ||| c == '\u{205f}'
    ||| c == '\u{3000}'
}

/// `s` with its leading white space removed.
pub open spec fn trim_start(s: Seq<char>) -> Seq<char>
    decreases s.len(),
{
    if s.len() > 0 && is_space(s[0]) {
        trim_start(s.drop_first())
    } else {
        s
    }
}

/// `s` with its trailing white space removed.
pub open spec fn trim_end(s: Seq<char>) -> Seq<char>
    decreases s.len(),
{
    if s.len() > 0 && is_space(s.last()) {
        trim_end(s.drop_last())
    } else {
        s
    }
}

/// `s` with white space removed at both ends.
pub open spec fn trimmed(s: Seq<char>) -> Seq<char> {
    trim_end(trim_start(s))
}

/// The maximal runs of characters that are not white space, in the order in
/// which they occur in `s`. Each new character either is white space (and ends
/// nothing new), or continues the word that the character before it belongs to,
/// or starts a new word.
pub open spec fn words(s: Seq<char>) -> Seq<Seq<char>>
    decreases s.len(),
{
    if s.len() == 0 {
        seq![]
    } else {
        let before = words(s.drop_last());
        let c = s.last();
        if is_space(c) {
            before
        } else if s.len() >= 2 && !is_space(s[s.len() - 2]) {
            before.update(before.len() - 1, before.last().push(c))
        } else {
            before.push(seq![c])
        }
    }
}

/// The decimal digit for `d`, which is below ten.
pub open spec fn digit_char(d: nat) -> char {
    if d == 0 {
        '0'
    } else if d == 1 {
        '1'
    } else if d == 2 {
        '2'
    } else if d == 3 {
        '3'
    } else if d == 4 {
        '4'
    } else if d == 5 {
        '5'
    } else if d == 6 {
        '6'
    } else if d == 7 {
        '7'
    } else if d == 8 {
        '8'
    } else {
        '9'
    }
}

/// The value of the decimal digit `c`.
pub open spec fn digit_value(c: char) -> int {
    (c as int) - ('0' as int)
}

/// Whether `c` is one of the digits `0` to `9`.
pub open spec fn is_digit(c: char) -> bool {
    '0' <= c <= '9'
}

/// The number that the digits `s` write in base ten.
pub open spec fn digits_value(s: Seq<char>) -> int
    decreases s.len(),
{
    if s.len() == 0 {
        0
    } else {
        digits_value(s.drop_last()) * 10 + digit_value(s.last())
    }
}

/// `n` written in base ten, without leading zeros.
pub open spec fn decimal(n: nat) -> Seq<char>
    decreases n,
{
    if n < 10 {
        seq![digit_char(n)]
    } else {
        decimal(n / 10).push(digit_char(n % 10))
    }
}

/// `true` or `false`, as Rust writes a `bool`.
pub open spec fn bool_text(b: bool) -> Seq<char> {
    if b {
        seq!['t', 'r', 'u', 'e']
    } else {
        seq!['f', 'a', 'l', 's', 'e']
    }
}

/// The characters of each string of `v`.
pub open spec fn views(v: Seq<String>) -> Seq<Seq<char>> {
    v.map_values(|w: String| w@)
}

/// Whether `c` is white space; `char::is_whitespace`.
pub fn char_is_space(c: char) -> (b: bool)
    ensures
        b == is_space(c),
{
    ('\u{9}' <= c && c <= '\u{d}') || c == ' ' || c == '\u{85}' || c == '\u{a0}' || c
        == '\u{1680}' || ('\u{2000}' <= c && c <= '\u{200a}') || c == '\u{2028}' || c
        == '\u{2029}' || c == '\u{202f}' || c == '\u{205f}' || c == '\u{3000}'
}

/// `String::push` of std: appends one character.
#[verifier::external_body]
fn push_char(s: &mut String, c: char)
    ensures
        final(s)@ == old(s)@.push(c),
{
    s.push(c);
}

/// The characters of `s`, in order.
pub fn chars_of(s: &str) -> (v: Vec<char>)
    ensures
        v@ == s@,
{
    let mut v: Vec<char> = Vec::new();
    for c in it: s.chars()
        invariant
            v@ == it.history(),
    {
        v.push(c);
    }
    v
}

/// Appends the characters `v[from..to]` to `out`.
pub fn push_chars(out: &mut String, v: &Vec<char>, from: usize, to: usize)
    requires
        from <= to <= v@.len(),
    ensures
        final(out)@ == old(out)@ + v@.subrange(from as int, to as int),
{
    let mut i = from;
    while i < to
        invariant
            from <= i <= to <= v@.len(),
            out@ == old(out)@ + v@.subrange(from as int, i as int),
        decreases to - i,
    {
        push_char(out, v[i]);
        assert(v@.subrange(from as int, i + 1) == v@.subrange(from as int, i as int).push(v@[i as int]));
        i = i + 1;
    }
}

/// Appends the characters of `t` to `out`.
pub fn push_str(out: &mut String, t: &str)
    ensures
        final(out)@ == old(out)@ + t@,
{
    let v = chars_of(t);
    push_chars(out, &v, 0, v.len());
    assert(v@.subrange(0, v@.len() as int) == v@);
}

/// A string that holds exactly the characters `v[from..to]`.
pub fn string_of(v: &Vec<char>, from: usize, to: usize) -> (s: String)
    requires
        from <= to <= v@.len(),
    ensures
        s@ == v@.subrange(from as int, to as int),
{
    let mut s = String::new();
    push_chars(&mut s, v, from, to);
    s
}

proof fn lemma_trim_start_skip(s: Seq<char>, i: int)
    requires
        0 <= i < s.len(),
        is_space(s[i]),
    ensures
        trim_start(s.skip(i)) == trim_start(s.skip(i + 1)),
{
    assert(s.skip(i).drop_first() == s.skip(i + 1));
}

proof fn lemma_trim_end_take(s: Seq<char>, j: int)
    requires
        0 < j <= s.len(),
        is_space(s[j - 1]),
    ensures
        trim_end(s.take(j)) == trim_end(s.take(j - 1)),
{
    assert(s.take(j).drop_last() == s.take(j - 1));
}

/// `s` without white space at its start and its end; `str::trim`.
pub fn trim(s: &str) -> (t: String)
    ensures
        t@ == trimmed(s@),
{
    let v = chars_of(s);
    let n = v.len();
    let mut i: usize = 0;
    assert(v@.skip(0) == v@);
    while i < n && char_is_space(v[i])
        invariant
            i <= n == v@.len(),
            trim_start(v@) == trim_start(v@.skip(i as int)),
        decreases n - i,
    {
        proof {
            lemma_trim_start_skip(v@, i as int);
        }
        i = i + 1;
    }
    let ghost rest = v@.skip(i as int);
    assert(trim_start(v@) == rest);
    let mut j: usize = n;
    assert(rest.take(rest.len() as int) == rest);
    while j > i && char_is_space(v[j - 1])
        invariant
            i <= j <= n == v@.len(),
            rest == v@.skip(i as int),
            trim_end(rest) == trim_end(rest.take(j - i)),
        decreases j,
    {
        proof {
            lemma_trim_end_take(rest, j - i);
        }
        j = j - 1;
    }
    assert(trim_end(rest) == rest.take(j - i));
    assert(rest.take(j - i) == v@.subrange(i as int, j as int));
    string_of(&v, i, j)
}

/// The white-space separated words of `s`; `str::split_whitespace`.
pub fn split_words(s: &str) -> (ws: Vec<String>)
    ensures
        views(ws@) == words(s@),
        ws@.len() == words(s@).len(),
        forall|i: int| 0 <= i < ws@.len() ==> #[trigger] ws@[i]@ == words(s@)[i],
{
    let v = chars_of(s);
    let n = v.len();
    let mut done: Vec<String> = Vec::new();
    let mut cur = String::new();
    let mut in_word = false;
    let mut i: usize = 0;
    assert(v@.take(0) == Seq::<char>::empty());
    while i < n
        invariant
            i <= n == v@.len(),
            in_word <==> cur@.len() > 0,
            cur@.len() > 0 <==> (i > 0 && !is_space(v@[i - 1])),
            words(v@.take(i as int)) == if cur@.len() > 0 {
                views(done@).push(cur@)
            } else {
                views(done@)
            },
        decreases n - i,
    {
        let c = v[i];
        let ghost before = v@.take(i as int);
        assert(v@.take(i + 1).drop_last() == before);
        assert(v@.take(i + 1).last() == c);
        if char_is_space(c) {
            if in_word {
                let ghost old_done = done@;
                let w = cur;
                done.push(w);
                cur = String::new();
                in_word = false;
                assert(views(done@) =~= views(old_done).push(w@));
            }
        } else {
            let ghost was = cur@;
            push_char(&mut cur, c);
            in_word = true;
            proof {
                if was.len() > 0 {
                    assert(v@.take(i + 1)[i - 1] == v@[i - 1]);
                    let b = views(done@).push(was);
                    assert(b.update(b.len() - 1, b.last().push(c)) =~= views(done@).push(cur@));
                } else {
                    assert(cur@ =~= seq![c]);
                }
            }
        }
        i = i + 1;
    }
    assert(v@.take(n as int) == v@);
    if in_word {
        let ghost old_done = done@;
        let ghost w = cur@;
        done.push(cur);
        assert(views(done@) =~= views(old_done).push(w));
    }
    assert(forall|i: int| 0 <= i < done@.len() ==> #[trigger] done@[i]@ == views(done@)[i]);
    done
}

/// The digit character for `d`, which is below ten.
fn digit(d: u128) -> (c: char)
    requires
        d < 10,
    ensures
        c == digit_char(d as nat),
{
    if d == 0 {
        '0'
    } else if d == 1 {
        '1'
    } else if d == 2 {
        '2'
    } else if d == 3 {
        '3'
    } else if d == 4 {
        '4'
    } else if d == 5 {
        '5'
    } else if d == 6 {
        '6'
    } else if d == 7 {
        '7'
    } else if d == 8 {
        '8'
    } else {
        '9'
    }
}

/// Appends `n` written in base ten to `out`.
pub fn push_decimal(out: &mut String, n: u128)
    ensures
        final(out)@ == old(out)@ + decimal(n as nat),
    decreases n,
{
    if n >= 10 {
        push_decimal(out, n / 10);
    }
    push_char(out, digit(n % 10));
    proof {
        if n >= 10 {
            assert((old(out)@ + decimal((n / 10) as nat)).push(digit_char((n % 10) as nat))
                =~= old(out)@ + decimal(n as nat));
        } else {
            assert(old(out)@.push(digit_char(n as nat)) =~= old(out)@ + decimal(n as nat));
        }
    }
}

/// Appends `true` or `false` to `out`.
pub fn push_bool(out: &mut String, b: bool)
    ensures
        final(out)@ == old(out)@ + bool_text(b),
{
    if b {
        push_char(out, 't');
        push_char(out, 'r');
        push_char(out, 'u');
        push_char(out, 'e');
    } else {
        push_char(out, 'f');
        push_char(out, 'a');
        push_char(out, 'l');
        push_char(out, 's');
        push_char(out, 'e');
    }
    assert(final(out)@ =~= old(out)@ + bool_text(b));
}

/// Decimal text reads back as the number it was written for: every character
/// of it is a digit, it starts with a zero only when it is the single digit of
/// zero, and its digits have the value `n`.
pub proof fn lemma_decimal_reads_back(n: nat)
    ensures
        forall|i: int| 0 <= i < decimal(n).len() ==> is_digit(#[trigger] decimal(n)[i]),
        decimal(n).len() > 0,
        decimal(n)[0] == '0' ==> n == 0,
        digits_value(decimal(n)) == n,
    decreases n,
{
    lemma_digit_value((n % 10) as nat);
    let d = decimal(n);
    if n >= 10 {
        lemma_decimal_reads_back(n / 10);
        assert(d.drop_last() =~= decimal(n / 10));
        assert(d[0] == decimal(n / 10)[0]);
        assert((n / 10) * 10 + n % 10 == n);
        assert(d.last() == digit_char((n % 10) as nat));
        assert(digits_value(d) == digits_value(d.drop_last()) * 10 + digit_value(d.last()));
        assert(digits_value(d.drop_last()) == n / 10);
    } else {
        assert(d.drop_last() =~= Seq::<char>::empty());
        assert(digits_value(d.drop_last()) == 0);
        assert(d.last() == digit_char((n % 10) as nat));
    }
}

proof fn lemma_digit_value(k: nat)
    requires
        k < 10,
    ensures
        is_digit(digit_char(k)),
        digit_value(digit_char(k)) == k,
        digit_char(k) == '0' ==> k == 0,
{
}

/// Whether `w` is a single word: not empty, and free of white space.
pub open spec fn is_word(w: Seq<char>) -> bool {
    w.len() > 0 && forall|i: int| 0 <= i < w.len() ==> !is_space(#[trigger] w[i])
}

/// Text that ends in a character other than white space holds a word.
pub proof fn lemma_words_nonempty(t: Seq<char>)
    requires
        t.len() > 0,
        !is_space(t.last()),
    ensures
        words(t).len() > 0,
    decreases t.len(),
{
    if t.len() >= 2 && !is_space(t[t.len() - 2]) {
        let p = t.drop_last();
        assert(p.last() == t[t.len() - 2]);
        lemma_words_nonempty(p);
    }
}

/// A single word splits into exactly itself.
pub proof fn lemma_words_of_word(w: Seq<char>)
    requires
        is_word(w),
    ensures
        words(w) == seq![w],
    decreases w.len(),
{
    if w.len() == 1 {
        assert(w.drop_last() =~= Seq::<char>::empty());
        assert(w =~= seq![w[0]]);
        assert(!is_space(w.last()));
        assert(words(w.drop_last()) =~= Seq::<Seq<char>>::empty());
        assert(words(w) == words(w.drop_last()).push(seq![w.last()]));
        assert(Seq::<Seq<char>>::empty().push(seq![w.last()]) =~= seq![w]);
    } else {
        let p = w.drop_last();
        assert(is_word(p)) by {
            assert forall|i: int| 0 <= i < p.len() implies !is_space(#[trigger] p[i]) by {
                assert(p[i] == w[i]);
            }
        }
        lemma_words_of_word(p);
        assert(!is_space(w[w.len() - 2]));
        assert(!is_space(w.last()));
        assert(p.push(w.last()) =~= w);
        let before = words(p);
        assert(before.len() == 1 && before.last() == p);
        assert(words(w) == before.update(before.len() - 1, before.last().push(w.last())));
        assert(seq![p].update(0, p.push(w.last())) =~= seq![w]);
    }
}

/// A space between two texts separates their words: the words of
/// `a`, a space, and `b` are the words of `a` followed by those of `b`.
pub proof fn lemma_words_split_at_space(a: Seq<char>, b: Seq<char>)
    ensures
        words(a + seq![' '] + b) == words(a) + words(b),
    decreases b.len(),
{
    let s = a + seq![' '] + b;
    if b.len() == 0 {
        assert(s.drop_last() =~= a);
        assert(words(a) + words(b) =~= words(a));
    } else {
        let bp = b.drop_last();
        let c = b.last();
        assert(s.drop_last() =~= a + seq![' '] + bp);
        assert(s.last() == c);
        lemma_words_split_at_space(a, bp);
        let wa = words(a);
        let wb = words(bp);
        if is_space(c) {
        } else if bp.len() > 0 && !is_space(bp.last()) {
            assert(s[s.len() - 2] == bp.last());
            assert(b[b.len() - 2] == bp.last());
            lemma_words_nonempty(bp);
            let wl = wb.last().push(c);
            assert((wa + wb).update((wa + wb).len() - 1, (wa + wb).last().push(c)) =~= wa
                + wb.update(wb.len() - 1, wl));
        } else {
            if bp.len() > 0 {
                assert(s[s.len() - 2] == bp.last());
                assert(b[b.len() - 2] == bp.last());
            } else {
                assert(s[s.len() - 2] == ' ');
            }
            assert((wa + wb).push(seq![c]) =~= wa + wb.push(seq![c]));
        }
    }
}

/// `x` written in base ten, with a minus sign when it is negative.
pub open spec fn int_text(x: int) -> Seq<char> {
    if x < 0 {
        seq!['-'] + decimal((-x) as nat)
    } else {
        decimal(x as nat)
    }
}

/// Appends `x` written in base ten to `out`.
pub fn push_int(out: &mut String, x: i32)
    ensures
        final(out)@ == old(out)@ + int_text(x as int),
{
    if x < 0 {
        push_char(out, '-');
        let m: i64 = 0i64 - (x as i64);
        push_decimal(out, m as u128);
        assert(final(out)@ =~= old(out)@ + int_text(x as int));
    } else {
        push_decimal(out, x as u128);
    }
}

/// Whether every character of `d` is a decimal digit.
pub open spec fn all_digits(d: Seq<char>) -> bool {
    forall|i: int| 0 <= i < d.len() ==> is_digit(#[trigger] d[i])
}

/// The digits of an unsigned number as text: `t` without one leading `+`.
pub open spec fn unsigned_digits(t: Seq<char>) -> Seq<char> {
    if t.len() > 0 && t[0] == '+' {
        t.drop_first()
    } else {
        t
    }
}

/// The `u16` that `t` writes, as `str::parse::<u16>` reads it: an optional
/// `+` and then at least one digit, and nothing else, of a value that fits.
pub open spec fn parsed_u16(t: Seq<char>) -> Option<u16> {
    let d = unsigned_digits(t);
    if d.len() > 0 && all_digits(d) && digits_value(d) <= 65535 {
        Some(digits_value(d) as u16)
    } else {
        None
    }
}

/// Digits never lose value when more digits follow them.
proof fn lemma_digits_value_grows(d: Seq<char>, k: int)
    requires
        all_digits(d),
        0 <= k <= d.len(),
    ensures
        digits_value(d.take(k)) <= digits_value(d),
        digits_value(d) >= 0,
    decreases d.len(),
{
    if d.len() > 0 {
        let p = d.drop_last();
        assert(all_digits(p)) by {
            assert forall|i: int| 0 <= i < p.len() implies is_digit(#[trigger] p[i]) by {
                assert(p[i] == d[i]);
            }
        }
        assert(is_digit(d[d.len() - 1]));
        if k == d.len() {
            assert(d.take(k) =~= d);
            lemma_digits_value_grows(p, 0);
        } else {
            lemma_digits_value_grows(p, k);
            assert(p.take(k) =~= d.take(k));
        }
    } else {
        assert(d.take(k) =~= d);
    }
}

/// Reads a `u16` from `t`; `str::parse::<u16>`.
pub fn parse_u16(t: &str) -> (r: Option<u16>)
    ensures
        r == parsed_u16(t@),
{
    let v = chars_of(t);
    let n = v.len();
    let start: usize = if n > 0 && v[0] == '+' {
        1
    } else {
        0
    };
    let ghost d = v@.subrange(start as int, n as int);
    assert(d =~= unsigned_digits(t@));
    if start == n {
        return None;
    }
    let mut value: u32 = 0;
    let mut i = start;
    assert(d.take(0) =~= Seq::<char>::empty());
    while i < n
        invariant
            start <= i <= n == v@.len(),
            v@ == t@,
            d == v@.subrange(start as int, n as int),
            d == unsigned_digits(t@),
            all_digits(d.take(i - start)),
            value == digits_value(d.take(i - start)),
            value <= 65535,
        decreases n - i,
    {
        let c = v[i];
        if !('0' <= c && c <= '9') {
            proof {
                assert(d[i - start] == c);
            }
            return None;
        }
        let next = value * 10 + (c as u32 - '0' as u32);
        proof {
            let p = d.take(i - start + 1);
            assert(p.drop_last() =~= d.take(i - start));
            assert(d[i - start] == c);
            assert(p.last() == c);
            assert(next == digits_value(p));
            assert(all_digits(p)) by {
                assert forall|j: int| 0 <= j < p.len() implies is_digit(#[trigger] p[j]) by {
                    if j < p.len() - 1 {
                        assert(p[j] == d.take(i - start)[j]);
                    }
                }
            }
        }
        if next > 65535 {
            proof {
                if all_digits(d) {
                    lemma_digits_value_grows(d, i - start + 1);
                }
            }
            return None;
        }
        value = next;
        i = i + 1;
    }
    assert(d.take(n - start) =~= d);
    Some(value as u16)
}

/// Whether every character of `s` is white space.
pub open spec fn all_space(s: Seq<char>) -> bool {
    forall|i: int| 0 <= i < s.len() ==> is_space(#[trigger] s[i])
}

proof fn lemma_trim_start_skips_space(pre: Seq<char>, x: Seq<char>)
    requires
        all_space(pre),
    ensures
        trim_start(pre + x) == trim_start(x),
    decreases pre.len(),
{
    if pre.len() == 0 {
        assert(pre + x =~= x);
    } else {
        let rest = pre.drop_first();
        assert(all_space(rest)) by {
            assert forall|i: int| 0 <= i < rest.len() implies is_space(#[trigger] rest[i]) by {
                assert(rest[i] == pre[i + 1]);
            }
        }
        assert((pre + x)[0] == pre[0]);
        assert((pre + x).drop_first() =~= rest + x);
        lemma_trim_start_skips_space(rest, x);
    }
}

proof fn lemma_trim_end_skips_space(y: Seq<char>, post: Seq<char>)
    requires
        all_space(post),
    ensures
        trim_end(y + post) == trim_end(y),
    decreases post.len(),
{
    if post.len() == 0 {
        assert(y + post =~= y);
    } else {
        let rest = post.drop_last();
        assert(all_space(rest)) by {
            assert forall|i: int| 0 <= i < rest.len() implies is_space(#[trigger] rest[i]) by {
                assert(rest[i] == post[i]);
            }
        }
        assert((y + post).last() == post.last());
        assert((y + post).drop_last() =~= y + rest);
        lemma_trim_end_skips_space(y, rest);
    }
}

proof fn lemma_trim_start_before_space(core: Seq<char>, post: Seq<char>)
    requires
        all_space(post),
    ensures
        trim_start(core + post) == if trim_start(core).len() == 0 {
            Seq::<char>::empty()
        } else {
            trim_start(core) + post
        },
    decreases core.len(),
{
    if core.len() == 0 {
        assert(core + post =~= post + Seq::<char>::empty());
        lemma_trim_start_skips_space(post, Seq::<char>::empty());
    } else if is_space(core[0]) {
        assert((core + post)[0] == core[0]);
        assert((core + post).drop_first() =~= core.drop_first() + post);
        lemma_trim_start_before_space(core.drop_first(), post);
    } else {
        assert((core + post)[0] == core[0]);
    }
}

/// White space around a text does not change what it trims to: lines that
/// differ only in leading and trailing white space trim alike.
pub proof fn lemma_surrounding_space_ignored(pre: Seq<char>, core: Seq<char>, post: Seq<char>)
    requires
        all_space(pre),
        all_space(post),
    ensures
        trimmed(pre + core + post) == trimmed(core),
{
    assert(pre + core + post =~= pre + (core + post));
    lemma_trim_start_skips_space(pre, core + post);
    lemma_trim_start_before_space(core, post);
    if trim_start(core).len() > 0 {
        lemma_trim_end_skips_space(trim_start(core), post);
    }
}

} // verus!
