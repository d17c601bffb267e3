//! Text as the shell sees it: white space, equality and numbers.

use vstd::prelude::*;

verus! {

/// Whether `c` has the Unicode property `White_Space`.
pub open spec fn is_white_space(c: char) -> bool {
    let n = c as u32;
    ||| 0x9 <= n <= 0xd
    ||| n == 0x20
    ||| n == 0x85
    ||| n == 0xa0
    ||| n == 0x1680
    ||| 0x2000 <= n <= 0x200a
    ||| n == 0x2028
    ||| n == 0x2029
    ||| n == 0x202f
    ||| n == 0x205f
    ||| n == 0x3000
}

/// Whether `s` holds nothing but white space.
pub open spec fn is_blank(s: Seq<char>) -> bool {
    forall|i: int| 0 <= i < s.len() ==> is_white_space(#[trigger] s[i])
}

/// `s` without its leading white space.
pub open spec fn trim_start(s: Seq<char>) -> Seq<char>
    decreases s.len(),
{
    if s.len() > 0 && is_white_space(s[0]) {
        trim_start(s.skip(1))
    } else {
        s
    }
}

/// `s` without its trailing white space.
pub open spec fn trim_end(s: Seq<char>) -> Seq<char>
    decreases s.len(),
{
    if s.len() > 0 && is_white_space(s.last()) {
        trim_end(s.drop_last())
    } else {
        s
    }
}

/// `s` without its leading and trailing white space.
pub open spec fn trim(s: Seq<char>) -> Seq<char> {
    trim_end(trim_start(s))
}

fn white_space(c: char) -> (r: bool)
    ensures
        r == is_white_space(c),
{
    let n: u32 = c as u32;
    (0x9 <= n && n <= 0xd) || n == 0x20 || n == 0x85 || n == 0xa0 || n == 0x1680 || (0x2000 <= n
        && n <= 0x200a) || n == 0x2028 || n == 0x2029 || n == 0x202f || n == 0x205f || n == 0x3000
}

/// The part of `s` between its leading and its trailing white space.
pub fn trimmed(s: &str) -> (r: &str)
    ensures
        r@ == trim(s@),
{
    let n: usize = s.unicode_len();
    let mut i: usize = 0;
    assert(s@.skip(0) =~= s@);
    while i < n && white_space(s.get_char(i))
        invariant
            i <= n,
            n == s@.len(),
            trim_start(s@) == trim_start(s@.skip(i as int)),
        decreases n - i,
    {
        assert(s@.skip(i as int).skip(1) =~= s@.skip(i + 1));
        i = i + 1;
    }
    let ghost front = s@.skip(i as int);
    assert(trim_start(s@) == front);
    let mut j: usize = n;
    assert(s@.subrange(i as int, n as int) =~= front);
    while j > i && white_space(s.get_char(j - 1))
        invariant
            i <= j <= n,
            n == s@.len(),
            trim_end(front) == trim_end(s@.subrange(i as int, j as int)),
        decreases j,
    {
        assert(s@.subrange(i as int, j as int).drop_last() =~= s@.subrange(i as int, j - 1));
        j = j - 1;
    }
    s.substring_char(i, j)
}

/// Whether two texts hold the same characters.
pub fn same_text(a: &str, b: &str) -> (r: bool)
    ensures
        r == (a@ == b@),
{
    let n: usize = a.unicode_len();
    if n != b.unicode_len() {
        return false;
    }
    let mut i: usize = 0;
    while i < n
        invariant
            i <= n,
            n == a@.len(),
            n == b@.len(),
            forall|k: int| 0 <= k < i ==> a@[k] == b@[k],
        decreases n - i,
    {
        if a.get_char(i) != b.get_char(i) {
            return false;
        }
        i = i + 1;
    }
    assert(a@ =~= b@);
    true
}

/// The decimal digit that stands for `d`, where `d` is below ten.
pub open spec fn digit(d: nat) -> char {
    ('0' as u32 + d) as char
}

/// `n` in decimal digits, without leading zeros.
pub open spec fn decimal(n: nat) -> Seq<char>
    decreases n,
{
    if n < 10 {
        seq![digit(n)]
    } else {
        decimal(n / 10).push(digit(n % 10))
    }
}

fn digit_text(d: u32) -> (r: &'static str)
    requires
        d < 10,
    ensures
        r@ == seq![digit(d as nat)],
{
    proof {
        reveal_strlit("0");
        reveal_strlit("1");
        reveal_strlit("2");
        reveal_strlit("3");
        reveal_strlit("4");
        reveal_strlit("5");
        reveal_strlit("6");
        reveal_strlit("7");
        reveal_strlit("8");
        reveal_strlit("9");
    }
    let r: &'static str = match d {
        0 => "0",
        1 => "1",
        2 => "2",
        3 => "3",
        4 => "4",
        5 => "5",
        6 => "6",
        7 => "7",
        8 => "8",
        _ => "9",
    };
    assert(r@ =~= seq![digit(d as nat)]);
    r
}

/// The hexadecimal digit that stands for `d`, where `d` is below sixteen.
pub open spec fn hex_digit(d: nat) -> char {
    if d < 10 {
        digit(d)
    } else {
        ('a' as u32 + d - 10) as char
    }
}

/// `n` in hexadecimal digits, without leading zeros.
pub open spec fn hexadecimal(n: nat) -> Seq<char>
    decreases n,
{
    if n < 16 {
        seq![hex_digit(n)]
    } else {
        hexadecimal(n / 16).push(hex_digit(n % 16))
    }
}

fn hex_digit_text(d: u32) -> (r: &'static str)
    requires
        d < 16,
    ensures
        r@ == seq![hex_digit(d as nat)],
{
    if d < 10 {
        return digit_text(d);
    }
    proof {
        reveal_strlit("a");
        reveal_strlit("b");
        reveal_strlit("c");
        reveal_strlit("d");
        reveal_strlit("e");
        reveal_strlit("f");
    }
    let r: &'static str = match d {
        10 => "a",
        11 => "b",
        12 => "c",
        13 => "d",
        14 => "e",
        _ => "f",
    };
    assert(r@ =~= seq![hex_digit(d as nat)]);
    r
}

/// `n` written in hexadecimal.
pub fn hexadecimal_text(n: u32) -> (r: String)
    ensures
        r@ == hexadecimal(n as nat),
    decreases n,
{
    if n < 16 {
        hex_digit_text(n).to_owned()
    } else {
        let mut s = hexadecimal_text(n / 16);
        s.append(hex_digit_text(n % 16));
        assert(s@ =~= hexadecimal(n as nat));
        s
    }
}

/// `n` written in decimal.
pub fn decimal_text(n: u32) -> (r: String)
    ensures
        r@ == decimal(n as nat),
    decreases n,
{
    if n < 10 {
        digit_text(n).to_owned()
    } else {
        let mut s = decimal_text(n / 10);
        s.append(digit_text(n % 10));
        assert(s@ =~= decimal(n as nat));
        s
    }
}

/// The white space characters are the tab, the four line breaks that follow it, the blank, the
/// next line, the no-break space, and the spaces and separators beyond Latin 1.
pub proof fn law_white_space(c: char)
    ensures
        is_white_space(c) <==> seq![
            '\u{9}', '\u{a}', '\u{b}', '\u{c}', '\u{d}', '\u{20}', '\u{85}', '\u{a0}',
            '\u{1680}', '\u{2000}', '\u{2001}', '\u{2002}', '\u{2003}', '\u{2004}',
            '\u{2005}', '\u{2006}', '\u{2007}', '\u{2008}', '\u{2009}', '\u{200a}',
            '\u{2028}', '\u{2029}', '\u{202f}', '\u{205f}', '\u{3000}',
        ].contains(c),
{
    let all = seq![
        '\u{9}', '\u{a}', '\u{b}', '\u{c}', '\u{d}', '\u{20}', '\u{85}', '\u{a0}',
        '\u{1680}', '\u{2000}', '\u{2001}', '\u{2002}', '\u{2003}', '\u{2004}', '\u{2005}',
        '\u{2006}', '\u{2007}', '\u{2008}', '\u{2009}', '\u{200a}', '\u{2028}', '\u{2029}',
        '\u{202f}', '\u{205f}', '\u{3000}',
    ];
    if is_white_space(c) {
        let n = c as u32;
        let i: int = if n <= 0xd {
            n - 0x9
        } else if n == 0x20 {
            5
        } else if n == 0x85 {
            6
        } else if n == 0xa0 {
            7
        } else if n == 0x1680 {
            8
        } else if n <= 0x200a {
            9 + n - 0x2000
        } else if n <= 0x2029 {
            20 + n - 0x2028
        } else if n == 0x202f {
            22
        } else if n == 0x205f {
            23
        } else {
            24
        };
        assert(all[i] == c);
    }
}

proof fn lemma_trim_start(s: Seq<char>) -> (n: int)
    ensures
        0 <= n <= s.len(),
        trim_start(s) == s.skip(n),
        is_blank(s.take(n)),
        n < s.len() ==> !is_white_space(s[n]),
    decreases s.len(),
{
    if s.len() > 0 && is_white_space(s[0]) {
        let n = lemma_trim_start(s.skip(1));
        assert(s.skip(1).skip(n) =~= s.skip(n + 1));
        assert forall|i: int| 0 <= i < n + 1 implies is_white_space(#[trigger] s.take(n + 1)[i]) by {
            if i > 0 {
                assert(s.skip(1).take(n)[i - 1] == s[i]);
            }
        }
        n + 1
    } else {
        assert(s.skip(0) =~= s);
        0
    }
}

proof fn lemma_trim_start_at(front: Seq<char>, rest: Seq<char>)
    requires
        is_blank(front),
        rest.len() > 0,
        !is_white_space(rest[0]),
    ensures
        trim_start(front + rest) == rest,
    decreases front.len(),
{
    if front.len() > 0 {
        assert((front + rest)[0] == front[0]);
        assert((front + rest).skip(1) =~= front.skip(1) + rest);
        assert forall|i: int| 0 <= i < front.skip(1).len() implies is_white_space(
            #[trigger] front.skip(1)[i],
        ) by {
            assert(front.skip(1)[i] == front[i + 1]);
        }
        lemma_trim_start_at(front.skip(1), rest);
    } else {
        assert(front + rest =~= rest);
    }
}

proof fn lemma_trim_end_at(rest: Seq<char>, back: Seq<char>)
    requires
        is_blank(back),
        rest.len() > 0,
        !is_white_space(rest.last()),
    ensures
        trim_end(rest + back) == rest,
    decreases back.len(),
{
    if back.len() > 0 {
        assert((rest + back).last() == back[back.len() - 1]);
        assert((rest + back).drop_last() =~= rest + back.drop_last());
        assert forall|i: int| 0 <= i < back.drop_last().len() implies is_white_space(
            #[trigger] back.drop_last()[i],
        ) by {
            assert(back.drop_last()[i] == back[i]);
        }
        lemma_trim_end_at(rest, back.drop_last());
    } else {
        assert(rest + back =~= rest);
    }
}

/// White space around a text does not matter, and nothing else is removed: whatever stands between
/// white space and neither starts nor ends with white space is what trimming leaves, and where a
/// text holds nothing but white space, nothing is left.
pub proof fn law_trimming_removes_the_white_space_around(
    front: Seq<char>,
    text: Seq<char>,
    back: Seq<char>,
)
    requires
        forall|i: int| 0 <= i < front.len() ==> is_white_space(#[trigger] front[i]),
        forall|i: int| 0 <= i < back.len() ==> is_white_space(#[trigger] back[i]),
        text.len() > 0 ==> !is_white_space(text[0]) && !is_white_space(text.last()),
    ensures
        trim(front + text + back) == text,
        is_blank(front + back),
        text.len() > 0 ==> !is_blank(front + text + back),
{
    assert forall|i: int| 0 <= i < (front + back).len() implies is_white_space(
        #[trigger] (front + back)[i],
    ) by {
        if i < front.len() {
            assert((front + back)[i] == front[i]);
        } else {
            assert((front + back)[i] == back[i - front.len()]);
        }
    }
    assert(text.len() > 0 ==> (front + text + back)[front.len() as int] == text[0]);
    if text.len() > 0 {
        assert((text + back)[0] == text[0]);
        assert(front + text + back =~= front + (text + back));
        lemma_trim_start_at(front, text + back);
        lemma_trim_end_at(text, back);
    } else {
        let s = front + text + back;
        let n = lemma_trim_start(s);
        if n < s.len() {
            if n < front.len() {
                assert(s[n] == front[n]);
            } else {
                assert(s[n] == back[n - front.len()]);
            }
        }
        assert(s.skip(n) =~= Seq::empty());
        assert(text =~= Seq::empty());
    }
}

/// The number that a digit stands for.
pub open spec fn digit_value(c: char) -> nat {
    if '0' <= c <= '9' {
        (c as int - '0' as int) as nat
    } else {
        (c as int - 'a' as int + 10) as nat
    }
}

/// The number that digits stand for, in a base.
pub open spec fn value(digits: Seq<char>, base: nat) -> nat
    decreases digits.len(),
{
    if digits.len() == 0 {
        0
    } else {
        value(digits.drop_last(), base) * base + digit_value(digits.last())
    }
}

/// A number in decimal is read back as the number. It holds nothing but decimal digits, and it
/// starts with a zero only where it is zero.
pub proof fn law_decimal_is_read_back(n: nat)
    ensures
        value(decimal(n), 10) == n,
        decimal(n).len() > 0,
        forall|i: int| 0 <= i < decimal(n).len() ==> '0' <= #[trigger] decimal(n)[i] <= '9',
        n > 0 ==> decimal(n)[0] != '0',
        n == 0 ==> decimal(n) == seq!['0'],
    decreases n,
{
    if n < 10 {
        assert(decimal(n).drop_last() =~= Seq::empty());
        assert(value(decimal(n).drop_last(), 10) == 0);
    } else {
        law_decimal_is_read_back(n / 10);
        assert(decimal(n).drop_last() =~= decimal(n / 10));
        assert(decimal(n)[0] == decimal(n / 10)[0]);
        assert forall|i: int| 0 <= i < decimal(n).len() implies '0' <= #[trigger] decimal(n)[i]
            <= '9' by {
            if i < decimal(n / 10).len() {
                assert(decimal(n)[i] == decimal(n / 10)[i]);
            }
        }
    }
}

/// A number in hexadecimal is read back as the number. It holds nothing but digits and the letters
/// from `a` to `f`, and it starts with a zero only where it is zero.
pub proof fn law_hexadecimal_is_read_back(n: nat)
    ensures
        value(hexadecimal(n), 16) == n,
        hexadecimal(n).len() > 0,
        forall|i: int|
            0 <= i < hexadecimal(n).len() ==> ('0' <= #[trigger] hexadecimal(n)[i] <= '9' || 'a'
                <= hexadecimal(n)[i] <= 'f'),
        n > 0 ==> hexadecimal(n)[0] != '0',
        n == 0 ==> hexadecimal(n) == seq!['0'],
    decreases n,
{
    if n < 16 {
        assert(hexadecimal(n).drop_last() =~= Seq::empty());
        assert(value(hexadecimal(n).drop_last(), 16) == 0);
    } else {
        law_hexadecimal_is_read_back(n / 16);
        assert(hexadecimal(n).drop_last() =~= hexadecimal(n / 16));
        assert(hexadecimal(n)[0] == hexadecimal(n / 16)[0]);
        assert forall|i: int| 0 <= i < hexadecimal(n).len() implies ('0'
            <= #[trigger] hexadecimal(n)[i] <= '9' || 'a' <= hexadecimal(n)[i] <= 'f') by {
            if i < hexadecimal(n / 16).len() {
                assert(hexadecimal(n)[i] == hexadecimal(n / 16)[i]);
            }
        }
    }
}

/// A text is read in one way only as two texts with a separator between them, where the first one
/// does not hold the separator.
pub proof fn lemma_split_is_unique(
    a: Seq<char>,
    b: Seq<char>,
    c: Seq<char>,
    d: Seq<char>,
    separator: char,
)
    requires
        a + seq![separator] + b == c + seq![separator] + d,
        !a.contains(separator),
        !c.contains(separator),
    ensures
        a == c,
        b == d,
{
    let s = a + seq![separator] + b;
    let t = c + seq![separator] + d;
    assert(s[a.len() as int] == separator);
    assert(t[c.len() as int] == separator);
    if a.len() < c.len() {
        assert(t[a.len() as int] == c[a.len() as int]);
        assert(c.contains(c[a.len() as int]));
    } else if c.len() < a.len() {
        assert(s[c.len() as int] == a[c.len() as int]);
        assert(a.contains(a[c.len() as int]));
    }
    assert(s.len() == t.len());
    assert(s.take(a.len() as int) =~= a);
    assert(t.take(c.len() as int) =~= c);
    assert(s.skip(a.len() as int + 1) =~= b);
    assert(t.skip(c.len() as int + 1) =~= d);
}

} // verus!
