//! IP addresses and how they are written.

use vstd::prelude::*;

use crate::text::{
    decimal, decimal_text, digit, hex_digit, hexadecimal, hexadecimal_text,
    law_decimal_is_read_back, lemma_split_is_unique,
};

verus! {

/// An IP address.
#[derive(Clone, Copy, Debug, PartialEq, Eq)]
pub enum IpAddr {
    /// An IPv4 address, by its octets.
    V4(u8, u8, u8, u8),
    /// An IPv6 address, by its segments.
    V6([u16; 8]),
}

/// A text is no IP address.
#[derive(Clone, Debug, PartialEq, Eq)]
pub struct AddrParseError {
    /// The description of the error.
    pub detail: String,
}

/// An IPv4 address as it is written: its octets in decimal, with dots between them.
pub open spec fn ipv4_text(a: nat, b: nat, c: nat, d: nat) -> Seq<char> {
    decimal(a) + "."@ + decimal(b) + "."@ + decimal(c) + "."@ + decimal(d)
}

/// Segments in hexadecimal, with colons between them.
pub open spec fn colon_separated(segments: Seq<u16>) -> Seq<char>
    decreases segments.len(),
{
    if segments.len() == 0 {
        Seq::empty()
    } else if segments.len() == 1 {
        hexadecimal(segments[0] as nat)
    } else {
        colon_separated(segments.drop_last()) + ":"@ + hexadecimal(segments.last() as nat)
    }
}

/// How many segments from `start` on are zero, up to the first one that is not.
pub open spec fn zeros_from(segments: Seq<u16>, start: int) -> nat
    decreases segments.len() - start,
{
    if 0 <= start < segments.len() && segments[start] == 0 {
        1 + zeros_from(segments, start + 1)
    } else {
        0
    }
}

/// Where the longest run of zeros starts, and its length, of those runs that start before `n`; the
/// first one, where several are the longest.
pub open spec fn longest_zeros(segments: Seq<u16>, n: nat) -> (nat, nat)
    decreases n,
{
    if n == 0 {
        (0, 0)
    } else {
        let before = longest_zeros(segments, (n - 1) as nat);
        let zeros = zeros_from(segments, n - 1);
        if zeros > before.1 {
            ((n - 1) as nat, zeros)
        } else {
            before
        }
    }
}

/// Whether an IPv6 address stands for an IPv4 address.
pub open spec fn is_ipv4_mapped(segments: Seq<u16>) -> bool {
    zeros_from(segments, 0) == 5 && segments[5] == 0xffff
}

/// An IPv6 address as it is written: `::` stands for the longest run of zeros, unless that is a
/// single one, and an address that stands for an IPv4 address ends as that is written.
pub open spec fn ipv6_text(segments: Seq<u16>) -> Seq<char> {
    let (start, len) = longest_zeros(segments, segments.len());
    if is_ipv4_mapped(segments) {
        "::ffff:"@ + ipv4_text(
            segments[6] as nat / 256,
            segments[6] as nat % 256,
            segments[7] as nat / 256,
            segments[7] as nat % 256,
        )
    } else if len > 1 {
        colon_separated(segments.take(start as int)) + "::"@ + colon_separated(
            segments.skip((start + len) as int),
        )
    } else {
        colon_separated(segments)
    }
}

fn write_ipv4(a: u16, b: u16, c: u16, d: u16) -> (r: String)
    ensures
        r@ == ipv4_text(a as nat, b as nat, c as nat, d as nat),
{
    let mut s = decimal_text(a as u32);
    s.append(".");
    s.append(decimal_text(b as u32).as_str());
    s.append(".");
    s.append(decimal_text(c as u32).as_str());
    s.append(".");
    s.append(decimal_text(d as u32).as_str());
    s
}

fn write_segments(segments: &[u16; 8], from: usize, to: usize) -> (r: String)
    requires
        from <= to <= 8,
    ensures
        r@ == colon_separated(segments@.subrange(from as int, to as int)),
{
    let mut s = String::new();
    let mut i: usize = from;
    assert(segments@.subrange(from as int, from as int) =~= Seq::empty());
    while i < to
        invariant
            from <= i <= to <= 8,
            s@ == colon_separated(segments@.subrange(from as int, i as int)),
        decreases to - i,
    {
        proof {
            let next = segments@.subrange(from as int, i + 1);
            assert(next.drop_last() =~= segments@.subrange(from as int, i as int));
            assert(next.last() == segments@[i as int]);
        }
        if i > from {
            s.append(":");
        }
        s.append(hexadecimal_text(segments[i] as u32).as_str());
        assert(s@ =~= colon_separated(segments@.subrange(from as int, i + 1)));
        i = i + 1;
    }
    s
}

fn count_zeros(segments: &[u16; 8], start: usize) -> (r: usize)
    requires
        start <= 8,
    ensures
        r == zeros_from(segments@, start as int),
        r <= 8 - start,
    decreases 8 - start,
{
    if start < 8 && segments[start] == 0 {
        1 + count_zeros(segments, start + 1)
    } else {
        0
    }
}

fn find_zeros(segments: &[u16; 8]) -> (r: (usize, usize))
    ensures
        (r.0 as nat, r.1 as nat) == longest_zeros(segments@, 8),
        r.0 + r.1 <= 8,
{
    let mut start: usize = 0;
    let mut len: usize = 0;
    let mut i: usize = 0;
    while i < 8
        invariant
            i <= 8,
            (start as nat, len as nat) == longest_zeros(segments@, i as nat),
            start + len <= 8,
        decreases 8 - i,
    {
        let zeros: usize = count_zeros(segments, i);
        if zeros > len {
            start = i;
            len = zeros;
        }
        i = i + 1;
    }
    (start, len)
}

fn write_ipv6(segments: &[u16; 8]) -> (r: String)
    ensures
        r@ == ipv6_text(segments@),
{
    if count_zeros(segments, 0) == 5 && segments[5] == 0xffff {
        let (hi, lo): (u16, u16) = (segments[6], segments[7]);
        let mut s = "::ffff:".to_owned();
        s.append(write_ipv4(hi / 256, hi % 256, lo / 256, lo % 256).as_str());
        return s;
    }
    let (start, len): (usize, usize) = find_zeros(segments);
    if len > 1 {
        let mut s = write_segments(segments, 0, start);
        s.append("::");
        s.append(write_segments(segments, start + len, 8).as_str());
        assert(segments@.subrange(0, start as int) =~= segments@.take(start as int));
        assert(segments@.subrange(start + len, 8) =~= segments@.skip(start + len));
        s
    } else {
        assert(segments@.subrange(0, 8) =~= segments@);
        write_segments(segments, 0, 8)
    }
}

impl IpAddr {
    /// The address as it is written.
    pub open spec fn text(self) -> Seq<char> {
        match self {
            IpAddr::V4(a, b, c, d) => ipv4_text(a as nat, b as nat, c as nat, d as nat),
            IpAddr::V6(segments) => ipv6_text(segments@),
        }
    }

    /// The IPv4 address of the machine itself.
    pub open spec fn is_localhost(self) -> bool {
        self == IpAddr::V4(127, 0, 0, 1)
    }

    /// Writes the address.
    pub fn display(&self) -> (r: String)
        ensures
            r@ == self.text(),
    {
        match self {
            IpAddr::V4(a, b, c, d) => write_ipv4(*a as u16, *b as u16, *c as u16, *d as u16),
            IpAddr::V6(segments) => write_ipv6(segments),
        }
    }
}

/// Whether a written address can start with `c`.
pub open spec fn starts_address(c: char) -> bool {
    c == ':' || exists|d: nat| d < 16 && c == hex_digit(d)
}

proof fn lemma_decimal_start(n: nat)
    ensures
        decimal(n).len() > 0,
        starts_address(decimal(n)[0]),
    decreases n,
{
    if n < 10 {
        assert(digit(n) == hex_digit(n));
    } else {
        lemma_decimal_start(n / 10);
        assert(decimal(n)[0] == decimal(n / 10)[0]);
    }
}

proof fn lemma_hexadecimal_start(n: nat)
    ensures
        hexadecimal(n).len() > 0,
        starts_address(hexadecimal(n)[0]),
    decreases n,
{
    if n < 16 {
        assert(hexadecimal(n)[0] == hex_digit(n));
    } else {
        lemma_hexadecimal_start(n / 16);
        assert(hexadecimal(n)[0] == hexadecimal(n / 16)[0]);
    }
}

proof fn lemma_segments_start(segments: Seq<u16>)
    requires
        segments.len() > 0,
    ensures
        colon_separated(segments).len() > 0,
        starts_address(colon_separated(segments)[0]),
    decreases segments.len(),
{
    if segments.len() == 1 {
        lemma_hexadecimal_start(segments[0] as nat);
    } else {
        lemma_segments_start(segments.drop_last());
        assert(colon_separated(segments)[0] == colon_separated(segments.drop_last())[0]);
    }
}

/// A written address starts with a hexadecimal digit or with a colon.
pub proof fn lemma_address_start(ip: IpAddr)
    ensures
        ip.text().len() > 0,
        starts_address(ip.text()[0]),
{
    match ip {
        IpAddr::V4(a, b, c, d) => {
            lemma_decimal_start(a as nat);
            assert(ip.text()[0] == decimal(a as nat)[0]);
        },
        IpAddr::V6(segments) => {
            reveal_strlit("::ffff:");
            reveal_strlit("::");
            let (start, len) = longest_zeros(segments@, 8);
            if is_ipv4_mapped(segments@) {
                assert(ip.text()[0] == ':');
            } else if len > 1 {
                let head = colon_separated(segments@.take(start as int));
                lemma_longest_zeros(segments@, 8);
                if start > 0 {
                    lemma_segments_start(segments@.take(start as int));
                    assert(ip.text()[0] == head[0]);
                } else {
                    assert(segments@.take(0) =~= Seq::empty());
                    assert(ip.text()[0] == ':');
                }
            } else {
                lemma_segments_start(segments@);
            }
        },
    }
}

proof fn lemma_longest_zeros(segments: Seq<u16>, n: nat)
    requires
        n <= segments.len(),
    ensures
        longest_zeros(segments, n).0 <= n,
    decreases n,
{
    if n > 0 {
        lemma_longest_zeros(segments, (n - 1) as nat);
    }
}

proof fn lemma_decimal_has_no_dot(n: nat)
    ensures
        !decimal(n).contains('.'),
        !decimal(n).contains(':'),
{
    law_decimal_is_read_back(n);
}

/// An IPv4 address is written as its four octets in decimal, with dots between them. What is
/// written tells the octets: two addresses that are written alike are the same.
pub proof fn law_ipv4_text_tells_the_octets(
    a: nat,
    b: nat,
    c: nat,
    d: nat,
    e: nat,
    f: nat,
    g: nat,
    h: nat,
)
    ensures
        ipv4_text(a, b, c, d) == decimal(a) + seq!['.'] + decimal(b) + seq!['.'] + decimal(c)
            + seq!['.'] + decimal(d),
        ipv4_text(a, b, c, d) == ipv4_text(e, f, g, h) ==> a == e && b == f && c == g && d == h,
        !ipv4_text(a, b, c, d).contains(':'),
{
    reveal_strlit(".");
    assert("."@ =~= seq!['.']);
    let dot = seq!['.'];
    let s = ipv4_text(a, b, c, d);
    lemma_decimal_has_no_dot(a);
    lemma_decimal_has_no_dot(b);
    lemma_decimal_has_no_dot(c);
    lemma_decimal_has_no_dot(d);
    assert forall|i: int| 0 <= i < s.len() implies #[trigger] s[i] != ':' by {
        let n1 = decimal(a).len() as int;
        let n2 = n1 + 1 + decimal(b).len();
        let n3 = n2 + 1 + decimal(c).len();
        if i < n1 {
            assert(s[i] == decimal(a)[i]);
        } else if n1 < i < n2 {
            assert(s[i] == decimal(b)[i - n1 - 1]);
        } else if n2 < i < n3 {
            assert(s[i] == decimal(c)[i - n2 - 1]);
        } else if n3 < i {
            assert(s[i] == decimal(d)[i - n3 - 1]);
        } else {
            assert(s[i] == '.');
        }
    }
    if ipv4_text(a, b, c, d) == ipv4_text(e, f, g, h) {
        lemma_decimal_has_no_dot(e);
        lemma_decimal_has_no_dot(f);
        lemma_decimal_has_no_dot(g);
        let rest1 = decimal(b) + dot + (decimal(c) + dot + decimal(d));
        let rest2 = decimal(f) + dot + (decimal(g) + dot + decimal(h));
        assert(s =~= decimal(a) + dot + rest1);
        assert(s =~= decimal(e) + dot + rest2) by {
            assert(ipv4_text(e, f, g, h) =~= decimal(e) + dot + rest2);
        }
        lemma_split_is_unique(decimal(a), rest1, decimal(e), rest2, '.');
        lemma_split_is_unique(
            decimal(b),
            decimal(c) + dot + decimal(d),
            decimal(f),
            decimal(g) + dot + decimal(h),
            '.',
        );
        lemma_split_is_unique(decimal(c), decimal(d), decimal(g), decimal(h), '.');
        law_decimal_is_read_back(a);
        law_decimal_is_read_back(b);
        law_decimal_is_read_back(c);
        law_decimal_is_read_back(d);
        law_decimal_is_read_back(e);
        law_decimal_is_read_back(f);
        law_decimal_is_read_back(g);
        law_decimal_is_read_back(h);
    }
}

/// One segment is written in hexadecimal, and two lists of segments with a colon between them.
pub proof fn law_segments_are_joined_by_colons(segment: u16, a: Seq<u16>, b: Seq<u16>)
    requires
        a.len() > 0,
        b.len() > 0,
    ensures
        colon_separated(Seq::empty()) == Seq::<char>::empty(),
        colon_separated(seq![segment]) == hexadecimal(segment as nat),
        colon_separated(a + b) == colon_separated(a) + seq![':'] + colon_separated(b),
    decreases b.len(),
{
    reveal_strlit(":");
    assert(":"@ =~= seq![':']);
    assert((a + b).drop_last() =~= a + b.drop_last());
    assert((a + b).last() == b.last());
    if b.len() == 1 {
        assert(a + b.drop_last() =~= a);
    } else {
        law_segments_are_joined_by_colons(segment, a, b.drop_last());
        assert(colon_separated(a + b) =~= colon_separated(a) + seq![':'] + colon_separated(b));
    }
}

/// Whether the `len` segments from `start` on are there and are zero.
pub open spec fn are_zero(segments: Seq<u16>, start: int, len: int) -> bool {
    &&& 0 <= start
    &&& 0 <= len
    &&& start + len <= segments.len()
    &&& forall|k: int| start <= k < start + len ==> #[trigger] segments[k] == 0
}

proof fn lemma_zeros_from(segments: Seq<u16>, start: int)
    requires
        0 <= start <= segments.len(),
    ensures
        are_zero(segments, start, zeros_from(segments, start) as int),
        forall|len: int| #[trigger]
            are_zero(segments, start, len) ==> len <= zeros_from(segments, start),
    decreases segments.len() - start,
{
    if start < segments.len() && segments[start] == 0 {
        lemma_zeros_from(segments, start + 1);
        assert forall|len: int| #[trigger] are_zero(segments, start, len) implies len <= zeros_from(
            segments,
            start,
        ) by {
            if len > 0 {
                assert(are_zero(segments, start + 1, len - 1));
            }
        }
    } else {
        assert forall|len: int| #[trigger] are_zero(segments, start, len) implies len <= 0 by {
            if len > 0 {
                assert(segments[start] == 0);
            }
        }
    }
}

proof fn lemma_longest_zeros_is_longest(segments: Seq<u16>, n: nat)
    requires
        n <= segments.len(),
    ensures
        ({
            let (start, len) = longest_zeros(segments, n);
            &&& are_zero(segments, start as int, len as int)
            &&& forall|i: int, m: int|
                0 <= i < n && #[trigger] are_zero(segments, i, m) ==> m <= len && (m == len && m > 0
                    ==> start <= i)
        }),
    decreases n,
{
    if n > 0 {
        lemma_longest_zeros_is_longest(segments, (n - 1) as nat);
        lemma_longest_zeros(segments, (n - 1) as nat);
        lemma_zeros_from(segments, n - 1);
    }
}

/// How an IPv6 address is written. One that stands for an IPv4 address, that is, one whose first
/// five segments are zero and whose sixth has all its bits set, is written as `::ffff:` and that
/// IPv4 address. In any other one, the first of the longest runs of zeros is written as `::`, and
/// the segments around it as they are; where no two zeros follow each other, every segment is
/// written.
pub proof fn law_ipv6_text(segments: Seq<u16>, start: int, len: int)
    requires
        segments.len() == 8,
    ensures
        ({
            let mapped = are_zero(segments, 0, 5) && segments[5] == 0xffff;
            let first_longest = are_zero(segments, start, len) && forall|i: int, m: int| #[trigger]
                are_zero(segments, i, m) ==> m <= len && (m == len ==> start <= i);
            &&& mapped ==> ipv6_text(segments) == seq![':', ':', 'f', 'f', 'f', 'f', ':']
                + ipv4_text(
                segments[6] as nat / 256,
                segments[6] as nat % 256,
                segments[7] as nat / 256,
                segments[7] as nat % 256,
            )
            &&& !mapped && first_longest && len >= 2 ==> ipv6_text(segments) == colon_separated(
                segments.subrange(0, start),
            ) + seq![':', ':'] + colon_separated(segments.subrange(start + len, 8))
            &&& !mapped && (forall|i: int| !#[trigger] are_zero(segments, i, 2)) ==> ipv6_text(
                segments,
            ) == colon_separated(segments)
        }),
{
    reveal_strlit("::ffff:");
    reveal_strlit("::");
    assert("::ffff:"@ =~= seq![':', ':', 'f', 'f', 'f', 'f', ':']);
    assert("::"@ =~= seq![':', ':']);
    lemma_zeros_from(segments, 0);
    lemma_longest_zeros_is_longest(segments, 8);
    let zeros = zeros_from(segments, 0);
    let mapped = are_zero(segments, 0, 5) && segments[5] == 0xffff;
    assert(is_ipv4_mapped(segments) == mapped) by {
        if mapped && zeros > 5 {
            assert(segments[5] == 0);
        }
    }
    let (s, l) = longest_zeros(segments, 8);
    if !mapped && are_zero(segments, start, len) && len >= 2 && (forall|i: int, m: int| #[trigger]
        are_zero(segments, i, m) ==> m <= len && (m == len ==> start <= i)) {
        assert(start < 8);
        assert(are_zero(segments, s as int, l as int));
        assert(len <= l);
        assert(start == s && len == l);
        assert(segments.take(start) =~= segments.subrange(0, start));
        assert(segments.skip(start + len) =~= segments.subrange(start + len, 8));
    }
    if forall|i: int| !#[trigger] are_zero(segments, i, 2) {
        assert(are_zero(segments, s as int, l as int));
        if l > 1 {
            assert(are_zero(segments, s as int, 2));
        }
    }
}

/// An address is written by its octets, or by its segments.
pub proof fn law_address_text(ip: IpAddr)
    ensures
        ip matches IpAddr::V4(a, b, c, d) ==> ip.text() == ipv4_text(
            a as nat,
            b as nat,
            c as nat,
            d as nat,
        ),
        ip matches IpAddr::V6(segments) ==> ip.text() == ipv6_text(segments@),
        ip.is_localhost() <==> (ip matches IpAddr::V4(a, b, c, d) && a == 127 && b == 0 && c == 0
            && d == 1),
{
}

} // verus!
