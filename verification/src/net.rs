use vstd::prelude::*;

verus! {

/// An IPv4 address, kept as its four dotted-decimal octets.
#[derive(Clone, Copy, PartialEq, Eq, Structural, Debug, Hash)]
pub struct Ipv4 {
    pub o0: u8,
    pub o1: u8,
    pub o2: u8,
    pub o3: u8,
}

impl Ipv4 {
    /// The all-zero address `0.0.0.0`.
    pub open spec fn spec_unspecified() -> Ipv4 {
        Ipv4 { o0: 0, o1: 0, o2: 0, o3: 0 }
    }

    pub fn unspecified() -> (r: Ipv4)
        ensures
            r == Ipv4::spec_unspecified(),
    {
        Ipv4 { o0: 0, o1: 0, o2: 0, o3: 0 }
    }

    pub open spec fn is_unspecified(self) -> bool {
        self == Ipv4::spec_unspecified()
    }
}

/// An IPv4 socket address: address plus port.
#[derive(Clone, Copy, PartialEq, Eq, Structural, Debug, Hash)]
pub struct SockAddrV4 {
    pub ip: Ipv4,
    pub port: u16,
}

/// An endpoint as it appears in a rendezvous response attribute:
/// a 4-byte or a 16-byte address, with a 16-bit port.
#[derive(Clone, Copy, Debug, PartialEq, Eq)]
pub enum ProbeAddr {
    V4(SockAddrV4),
    V6([u8; 16], u16),
}

impl ProbeAddr {
    /// The port the attribute carries, for either address family.
    pub open spec fn spec_port(self) -> u16 {
        match self {
            ProbeAddr::V4(sa) => sa.port,
            ProbeAddr::V6(_, p) => p,
        }
    }

    pub fn port(&self) -> (p: u16)
        ensures
            p == self.spec_port(),
    {
        match self {
            ProbeAddr::V4(sa) => sa.port,
            ProbeAddr::V6(_, p) => *p,
        }
    }
}

/// A decimal digit character.
pub open spec fn is_dec_digit(c: char) -> bool {
    48 <= c as u32 <= 57
}

/// The numeric value of a decimal digit character.
pub open spec fn digit_value(c: char) -> int {
    c as u32 - 48
}

/// The position of the first `.` in `s` at or after `from`, or `s.len()`
/// when there is none.
pub open spec fn dot_or_end(s: Seq<char>, from: int) -> int
    recommends
        0 <= from <= s.len(),
    decreases s.len() - from,
{
    if from < 0 || from >= s.len() {
        s.len() as int
    } else if s[from] == '.' {
        from
    } else {
        dot_or_end(s, from + 1)
    }
}

/// The value of one dotted-decimal octet: one to three digits, no leading
/// zero, at most 255.  Anything else is no octet.
pub open spec fn spec_octet_value(s: Seq<char>) -> Option<u8> {
    if 1 <= s.len() <= 3 && (forall|i: int| 0 <= i < s.len() ==> is_dec_digit(#[trigger] s[i])) && (
    s.len() > 1 ==> s[0] != '0') {
        let v = if s.len() == 1 {
            digit_value(s[0])
        } else if s.len() == 2 {
            10 * digit_value(s[0]) + digit_value(s[1])
        } else {
            100 * digit_value(s[0]) + 10 * digit_value(s[1]) + digit_value(s[2])
        };
        if v <= 255 {
            Some(v as u8)
        } else {
            None
        }
    } else {
        None
    }
}

/// A dotted-quad IPv4 literal: four octets separated by `.`, nothing else.
pub open spec fn spec_parse_ipv4(s: Seq<char>) -> Option<Ipv4> {
    let n = s.len() as int;
    let i = dot_or_end(s, 0);
    let j = if i < n {
        dot_or_end(s, i + 1)
    } else {
        n
    };
    let k = if j < n {
        dot_or_end(s, j + 1)
    } else {
        n
    };
    if i < n && j < n && k < n {
        match (
            spec_octet_value(s.subrange(0, i)),
            spec_octet_value(s.subrange(i + 1, j)),
            spec_octet_value(s.subrange(j + 1, k)),
            spec_octet_value(s.subrange(k + 1, n)),
        ) {
            (Some(o0), Some(o1), Some(o2), Some(o3)) => Some(Ipv4 { o0, o1, o2, o3 }),
            _ => None,
        }
    } else {
        None
    }
}

proof fn lemma_dot_or_end_at(s: Seq<char>, from: int, r: int)
    requires
        0 <= from <= r <= s.len(),
        forall|t: int| from <= t < r ==> s[t] != '.',
        r < s.len() ==> s[r] == '.',
    ensures
        dot_or_end(s, from) == r,
    decreases r - from,
{
    if from < r {
        lemma_dot_or_end_at(s, from + 1, r);
    }
}

fn find_dot(s: &str, from: usize) -> (r: usize)
    requires
        from <= s@.len(),
    ensures
        r == dot_or_end(s@, from as int),
        from <= r <= s@.len(),
{
    let n = s.unicode_len();
    let mut i = from;
    while i < n
        invariant
            from <= i <= n,
            n == s@.len(),
            forall|t: int| from <= t < i ==> s@[t] != '.',
        decreases n - i,
    {
        if s.get_char(i) == '.' {
            proof {
                lemma_dot_or_end_at(s@, from as int, i as int);
            }
            return i;
        }
        i += 1;
    }
    proof {
        lemma_dot_or_end_at(s@, from as int, n as int);
    }
    n
}

fn parse_octet(s: &str, lo: usize, hi: usize) -> (r: Option<u8>)
    requires
        lo <= hi <= s@.len(),
    ensures
        r == spec_octet_value(s@.subrange(lo as int, hi as int)),
{
    let ghost seg = s@.subrange(lo as int, hi as int);
    let len = hi - lo;
    if len == 0 || len > 3 {
        return None;
    }
    let c0 = s.get_char(lo);
    assert(c0 == seg[0]);
    if !(c0 >= '0' && c0 <= '9') {
        return None;
    }
    if len == 1 {
        return Some((c0 as u32 - 48) as u8);
    }
    if c0 == '0' {
        return None;
    }
    let c1 = s.get_char(lo + 1);
    assert(c1 == seg[1]);
    if !(c1 >= '0' && c1 <= '9') {
        return None;
    }
    if len == 2 {
        let v: u32 = 10 * (c0 as u32 - 48) + (c1 as u32 - 48);
        assert(v <= 99);
        return Some(v as u8);
    }
    let c2 = s.get_char(lo + 2);
    assert(c2 == seg[2]);
    if !(c2 >= '0' && c2 <= '9') {
        return None;
    }
    let v: u32 = 100 * (c0 as u32 - 48) + 10 * (c1 as u32 - 48) + (c2 as u32 - 48);
    assert(v <= 999);
    if v <= 255 {
        Some(v as u8)
    } else {
        None
    }
}

/// Parse a dotted-quad IPv4 literal, exactly as `spec_parse_ipv4` reads it:
/// four decimal octets separated by dots, no leading zeros, nothing else.
pub fn parse_ipv4(s: &str) -> (r: Option<Ipv4>)
    ensures
        r == spec_parse_ipv4(s@),
{
    let n = s.unicode_len();
    let i = find_dot(s, 0);
    if i == n {
        return None;
    }
    let j = find_dot(s, i + 1);
    if j == n {
        return None;
    }
    let k = find_dot(s, j + 1);
    if k == n {
        return None;
    }
    let o0 = parse_octet(s, 0, i);
    let o1 = parse_octet(s, i + 1, j);
    let o2 = parse_octet(s, j + 1, k);
    let o3 = parse_octet(s, k + 1, n);
    match (o0, o1, o2, o3) {
        (Some(o0), Some(o1), Some(o2), Some(o3)) => Some(Ipv4 { o0, o1, o2, o3 }),
        _ => None,
    }
}

} // verus!
