use vstd::prelude::*;

use crate::errors::{joined, AppError};
use crate::keba_payload::{ascii_lower, chars_of};
use crate::models::opt_view;
use crate::numeric::{digits_value, is_digit};

verus! {

/// Which transport reads the charger.
#[derive(Debug, Clone, Copy, PartialEq, Eq, Structural)]
pub enum KebaSource {
    Udp,
    Modbus,
    DebugFile,
}

/// A station whose status is polled for the console.
#[derive(Debug, Clone, PartialEq, Eq)]
pub struct StatusStationConfig {
    pub name: String,
    pub ip: String,
    pub port: u16,
}

/// The stations polled when none are configured.
pub const DEFAULT_STATUS_STATIONS: &'static str = "KEBA Carport@192.168.233.98:7090;KEBA Eingang@192.168.233.91:7090";

/// The transport's label, as stored with sessions and log events.
pub fn keba_source_label(source: KebaSource) -> (r: &'static str)
    ensures
        r@ == match source {
            KebaSource::Udp => "udp"@,
            KebaSource::Modbus => "modbus"@,
            KebaSource::DebugFile => "debug_file"@,
        },
{
    match source {
        KebaSource::Udp => "udp",
        KebaSource::Modbus => "modbus",
        KebaSource::DebugFile => "debug_file",
    }
}

/// Unicode's White_Space characters, which `str::trim` removes.
pub open spec fn is_white_space(c: char) -> bool {
    let u = c as u32;
    (0x09 <= u && u <= 0x0d) || u == 0x20 || u == 0x85 || u == 0xa0 || u == 0x1680
        || (0x2000 <= u && u <= 0x200a) || u == 0x2028 || u == 0x2029 || u == 0x202f
        || u == 0x205f || u == 0x3000
}

fn white_space(c: char) -> (r: bool)
    ensures
        r == is_white_space(c),
{
    let u = c as u32;
    (0x09 <= u && u <= 0x0d) || u == 0x20 || u == 0x85 || u == 0xa0 || u == 0x1680
        || (0x2000 <= u && u <= 0x200a) || u == 0x2028 || u == 0x2029 || u == 0x202f
        || u == 0x205f || u == 0x3000
}

/// `a` is where the text of `s` starts: white space before it, none at it.
pub open spec fn is_trim_start(s: Seq<char>, a: int) -> bool {
    0 <= a < s.len() && !is_white_space(s[a]) && forall|i: int| 0 <= i < a ==> is_white_space(#[trigger] s[i])
}

/// `b` is where the text of `s` that starts at `a` ends: none at `b - 1`, white space after.
pub open spec fn is_trim_end(s: Seq<char>, a: int, b: int) -> bool {
    a < b <= s.len() && !is_white_space(s[b - 1]) && forall|i: int| b <= i < s.len() ==> is_white_space(#[trigger] s[i])
}

/// `s` without leading and trailing white space.
pub open spec fn trimmed(s: Seq<char>) -> Seq<char> {
    if forall|i: int| 0 <= i < s.len() ==> is_white_space(#[trigger] s[i]) {
        Seq::empty()
    } else {
        let a = choose|a: int| #[trigger] is_trim_start(s, a);
        let b = choose|b: int| #[trigger] is_trim_end(s, a, b);
        s.subrange(a, b)
    }
}

/// The range of `s[from..to]` that remains once white space is trimmed from both ends.
pub(crate) fn trim_range(s: &Vec<char>, from: usize, to: usize) -> (r: (usize, usize))
    requires
        from <= to <= s.len(),
    ensures
        from <= r.0 <= r.1 <= to,
        s@.subrange(r.0 as int, r.1 as int) == trimmed(s@.subrange(from as int, to as int)),
{
    let ghost t = s@.subrange(from as int, to as int);
    let mut a = from;
    while a < to && white_space(s[a])
        invariant
            from <= a <= to <= s.len(),
            forall|i: int| from <= i < a ==> is_white_space(#[trigger] s@[i]),
        decreases to - a,
    {
        a += 1;
    }
    if a == to {
        assert forall|i: int| 0 <= i < t.len() implies is_white_space(#[trigger] t[i]) by {
            assert(t[i] == s@[from + i]);
        }
        assert(s@.subrange(a as int, a as int) =~= Seq::<char>::empty());
        return (a, a);
    }
    let mut b = to;
    while b > a && white_space(s[b - 1])
        invariant
            from <= a < b <= to <= s.len() || (from <= a <= b <= to <= s.len() && b == a),
            a < to,
            !is_white_space(s@[a as int]),
            forall|i: int| b <= i < to ==> is_white_space(#[trigger] s@[i]),
        decreases b - a,
    {
        b -= 1;
    }
    proof {
        assert(!(forall|i: int| 0 <= i < t.len() ==> is_white_space(#[trigger] t[i]))) by {
            assert(t[a - from] == s@[a as int]);
        }
        let a0 = a - from;
        let b0 = b - from;
        assert(is_trim_start(t, a0)) by {
            assert forall|i: int| 0 <= i < a0 implies is_white_space(#[trigger] t[i]) by {
                assert(t[i] == s@[from + i]);
            }
        }
        let ca = choose|ca: int| #[trigger] is_trim_start(t, ca);
        if ca < a0 {
            assert(is_white_space(t[ca]));
        }
        if a0 < ca {
            assert(is_white_space(t[a0]));
        }
        assert(ca == a0);
        assert(is_trim_end(t, a0, b0)) by {
            assert(t[b0 - 1] == s@[b - 1]);
            assert forall|i: int| b0 <= i < t.len() implies is_white_space(#[trigger] t[i]) by {
                assert(t[i] == s@[from + i]);
            }
        }
        let cb = choose|cb: int| #[trigger] is_trim_end(t, ca, cb);
        if cb < b0 {
            assert(is_white_space(t[b0 - 1]));
        }
        if b0 < cb {
            assert(is_white_space(t[cb - 1]));
        }
        assert(cb == b0);
        assert(s@.subrange(a as int, b as int) =~= t.subrange(a0, b0));
    }
    (a, b)
}

fn sub_string(s: &Vec<char>, from: usize, to: usize) -> (r: String)
    requires
        from <= to <= s.len(),
    ensures
        r@ == s@.subrange(from as int, to as int),
{
    let mut text = String::new();
    let mut i = from;
    while i < to
        invariant
            from <= i <= to <= s.len(),
            text@ == s@.subrange(from as int, i as int),
        decreases to - i,
    {
        text.append(char_text(s[i]).as_str());
        i += 1;
        assert(text@ =~= s@.subrange(from as int, i as int));
    }
    text
}

/// Relies on `char::to_string`: the string of that one character.
#[verifier::external_body]
fn char_text(c: char) -> (r: String)
    ensures
        r@ == seq![c],
{
    c.to_string()
}

pub open spec fn lowercase(s: Seq<char>) -> Seq<char> {
    Seq::new(s.len(), |i: int| ascii_lower(s[i]))
}

/// The transport named by `KEBA_SOURCE`: udp when unset or blank, else one of the three
/// names in any ASCII case.
pub open spec fn keba_source_of(raw: Option<Seq<char>>) -> Result<KebaSource, Seq<char>> {
    let name = match raw {
        Some(r) => if trimmed(r).len() == 0 { "udp"@ } else { lowercase(trimmed(r)) },
        None => "udp"@,
    };
    if name == "udp"@ {
        Ok(KebaSource::Udp)
    } else if name == "modbus"@ {
        Ok(KebaSource::Modbus)
    } else if name == "debug_file"@ {
        Ok(KebaSource::DebugFile)
    } else {
        Err("KEBA_SOURCE must be one of: udp, modbus, debug_file"@)
    }
}

pub(crate) fn chars_equal_str(a: &Vec<char>, from: usize, to: usize, b: &str) -> (r: bool)
    requires
        from <= to <= a.len(),
    ensures
        r == (a@.subrange(from as int, to as int).map_values(|c: char| ascii_lower(c)) == b@),
{
    let bc = chars_of(b);
    if to - from != bc.len() {
        return false;
    }
    let mut i: usize = 0;
    while i < bc.len()
        invariant
            from <= to <= a.len(),
            to - from == bc.len(),
            bc@ == b@,
            i <= bc.len(),
            forall|j: int| 0 <= j < i ==> ascii_lower(a@[from + j]) == bc@[j],
        decreases bc.len() - i,
    {
        let c = a[from + i];
        let lower = if 'A' <= c && c <= 'Z' { (((c as u32) + 32) as u8) as char } else { c };
        if lower != bc[i] {
            assert(a@.subrange(from as int, to as int).map_values(|c: char| ascii_lower(c))[i as int] != b@[i as int]);
            return false;
        }
        i += 1;
    }
    assert(a@.subrange(from as int, to as int).map_values(|c: char| ascii_lower(c)) =~= b@);
    true
}

/// Reads `KEBA_SOURCE`.
pub fn parse_keba_source(raw: Option<&str>) -> (r: Result<KebaSource, AppError>)
    ensures
        match (r, keba_source_of(match raw { Some(s) => Some(s@), None => None })) {
            (Ok(a), Ok(b)) => a == b,
            (Err(AppError::Config(m)), Err(n)) => m@ == n,
            _ => false,
        },
{
    let (chars, from, to) = match raw {
        Some(s) => {
            let c = chars_of(s);
            let (a, b) = trim_range(&c, 0, c.len());
            assert(c@.subrange(0, c@.len() as int) =~= c@);
            (c, a, b)
        },
        None => (Vec::new(), 0, 0),
    };
    let blank = from == to;
    let ghost name = if blank { "udp"@ } else { lowercase(chars@.subrange(from as int, to as int)) };
    proof {
        reveal_strlit("udp");
        reveal_strlit("modbus");
        reveal_strlit("debug_file");
        assert(lowercase(chars@.subrange(from as int, to as int)) =~= chars@.subrange(from as int, to as int).map_values(|c: char| ascii_lower(c)));
    }
    if blank || chars_equal_str(&chars, from, to, "udp") {
        Ok(KebaSource::Udp)
    } else if chars_equal_str(&chars, from, to, "modbus") {
        Ok(KebaSource::Modbus)
    } else if chars_equal_str(&chars, from, to, "debug_file") {
        Ok(KebaSource::DebugFile)
    } else {
        Err(AppError::config("KEBA_SOURCE must be one of: udp, modbus, debug_file"))
    }
}

/// An unsigned decimal as `str::parse` reads it: an optional '+', then digits only.
pub open spec fn unsigned_of(s: Seq<char>) -> Option<nat> {
    unsigned_digits(if s.len() > 0 && s[0] == '+' { s.subrange(1, s.len() as int) } else { s })
}

pub open spec fn unsigned_digits(ds: Seq<char>) -> Option<nat> {
    if ds.len() > 0 && forall|i: int| 0 <= i < ds.len() ==> is_digit(#[trigger] ds[i]) {
        Some(digits_value(ds))
    } else {
        None
    }
}

/// The unsigned number in `s[from..to]` when it is at most `max`.
fn parse_unsigned(s: &Vec<char>, from: usize, to: usize, max: u64) -> (r: Option<u64>)
    requires
        from <= to <= s.len(),
    ensures
        r == (match unsigned_of(s@.subrange(from as int, to as int)) {
            Some(v) => if v <= max { Some(v as u64) } else { None },
            None => None,
        }),
{
    let ghost text = s@.subrange(from as int, to as int);
    let start = if from < to && s[from] == '+' { from + 1 } else { from };
    let ghost ds = if text.len() > 0 && text[0] == '+' { text.subrange(1, text.len() as int) } else { text };
    assert(text.len() > 0 ==> text[0] == s@[from as int]);
    assert(ds =~= s@.subrange(start as int, to as int));
    if start == to {
        return None;
    }
    assert(unsigned_of(text) == unsigned_digits(ds));
    let mut value: u64 = 0;
    let mut i = start;
    while i < to
        invariant
            from <= start < to <= s.len(),
            unsigned_of(text) == unsigned_digits(ds),
            start <= i <= to,
            ds == s@.subrange(start as int, to as int),
            text == s@.subrange(from as int, to as int),
            forall|j: int| start <= j < i ==> is_digit(#[trigger] s@[j]),
            value == digits_value(s@.subrange(start as int, i as int)),
            value <= max,
        decreases to - i,
    {
        assert(s@.subrange(start as int, i + 1).drop_last() =~= s@.subrange(start as int, i as int));
        let c = s[i];
        if !('0' <= c && c <= '9') {
            assert(ds[i - start] == c);
            return None;
        }
        let d = (c as u32 - 48) as u64;
        if d > max || value > (max - d) / 10 {
            proof {
                assert(digits_value(s@.subrange(start as int, i + 1)) == value * 10 + d);
                if forall|j: int| 0 <= j < ds.len() ==> is_digit(#[trigger] ds[j]) {
                    crate::numeric::lemma_digits_value_prefix_grows(ds, (i + 1 - start) as int);
                    assert(ds.subrange(0, i + 1 - start) =~= s@.subrange(start as int, i + 1));
                    assert(value * 10 + d > max) by (nonlinear_arith)
                        requires d > max || value > (max - d) / 10, 0 <= d <= 9, value >= 0;
                }
            }
            return None;
        }
        assert(value * 10 + d <= max) by (nonlinear_arith)
            requires value <= (max - d) / 10, d <= max, 0 <= d;
        value = value * 10 + d;
        i += 1;
    }
    assert(s@.subrange(start as int, to as int) == ds);
    Some(value)
}

/// A numeric setting: its default when unset, else the trimmed text read as a number no
/// larger than `max`, or an error naming the setting.
pub fn parse_or_default(raw: Option<&str>, key: &str, default: u64, max: u64) -> (r: Result<u64, AppError>)
    ensures
        raw is None ==> r == Ok::<u64, AppError>(default),
        raw matches Some(s) ==> match unsigned_of(trimmed(s@)) {
            Some(v) => if v <= max {
                r == Ok::<u64, AppError>(v as u64)
            } else {
                r matches Err(AppError::Config(m)) && m@ == key@ + " must be a valid number"@
            },
            None => r matches Err(AppError::Config(m)) && m@ == key@ + " must be a valid number"@,
        },
{
    match raw {
        None => Ok(default),
        Some(s) => {
            let c = chars_of(s);
            let (a, b) = trim_range(&c, 0, c.len());
            assert(c@.subrange(0, c@.len() as int) =~= c@);
            match parse_unsigned(&c, a, b, max) {
                Some(v) => Ok(v),
                None => Err(AppError::Config(joined(key, " must be a valid number"))),
            }
        },
    }
}

/// The pieces of `s` between the separators, as `str::split` yields them.
pub open spec fn split_pieces(s: Seq<char>, sep: char) -> Seq<Seq<char>>
    decreases s.len(),
{
    if s.len() == 0 {
        seq![Seq::empty()]
    } else {
        let p = split_pieces(s.drop_last(), sep);
        if s.last() == sep {
            p.push(Seq::empty())
        } else {
            p.update(p.len() - 1, p.last().push(s.last()))
        }
    }
}

/// Index of the first `c` in `s`, or -1.
pub open spec fn first_index_of(s: Seq<char>, c: char) -> int
    decreases s.len(),
{
    if s.len() == 0 {
        -1
    } else if first_index_of(s.drop_last(), c) >= 0 {
        first_index_of(s.drop_last(), c)
    } else if s.last() == c {
        s.len() - 1
    } else {
        -1
    }
}

/// One `Name@IP:Port` entry: the name before the first '@', the port after the last ':'.
pub open spec fn station_of(entry: Seq<char>) -> Result<(Seq<char>, Seq<char>, u16), Seq<char>> {
    let at = first_index_of(entry, '@');
    if at < 0 {
        Err("STATUS_STATIONS entry must look like Name@IP:Port: "@ + entry)
    } else {
        let endpoint = entry.subrange(at + 1, entry.len() as int);
        let colon = crate::numeric::last_index_of(endpoint, ':');
        if colon < 0 {
            Err("STATUS_STATIONS endpoint must look like IP:Port: "@ + endpoint)
        } else {
            let port_raw = endpoint.subrange(colon + 1, endpoint.len() as int);
            let name = trimmed(entry.subrange(0, at));
            let ip = trimmed(endpoint.subrange(0, colon));
            match unsigned_of(trimmed(port_raw)) {
                Some(port) if port <= u16::MAX => if name.len() == 0 {
                    Err("STATUS_STATIONS entry has empty station name"@)
                } else if ip.len() == 0 {
                    Err("STATUS_STATIONS entry has empty station ip"@)
                } else {
                    Ok((name, ip, port as u16))
                },
                _ => Err("STATUS_STATIONS has invalid port: "@ + port_raw),
            }
        }
    }
}

/// The stations of the list's non-blank entries, in order, or the first entry's error.
pub open spec fn stations_from(pieces: Seq<Seq<char>>) -> Result<Seq<(Seq<char>, Seq<char>, u16)>, Seq<char>>
    decreases pieces.len(),
{
    if pieces.len() == 0 {
        Ok(Seq::empty())
    } else {
        let rest = stations_from(pieces.subrange(1, pieces.len() as int));
        let entry = trimmed(pieces[0]);
        if entry.len() == 0 {
            rest
        } else {
            match station_of(entry) {
                Err(m) => Err(m),
                Ok(st) => match rest {
                    Ok(l) => Ok(seq![st] + l),
                    Err(m) => Err(m),
                },
            }
        }
    }
}

/// `STATUS_STATIONS`: `;`-separated `Name@IP:Port` entries, at least one.
pub open spec fn status_stations_of(raw: Seq<char>) -> Result<Seq<(Seq<char>, Seq<char>, u16)>, Seq<char>> {
    match stations_from(split_pieces(raw, ';')) {
        Ok(l) => if l.len() == 0 { Err("STATUS_STATIONS must contain at least one station"@) } else { Ok(l) },
        Err(m) => Err(m),
    }
}

pub open spec fn station_view(s: StatusStationConfig) -> (Seq<char>, Seq<char>, u16) {
    (s.name@, s.ip@, s.port)
}

/// The piece boundaries of `s[..]` split at `sep`: each piece is `s[start..end]`.
fn split_ranges(s: &Vec<char>, sep: char) -> (r: Vec<(usize, usize)>)
    ensures
        r@.len() == split_pieces(s@, sep).len(),
        forall|k: int| 0 <= k < r@.len() ==> (#[trigger] r@[k]).0 <= r@[k].1 <= s.len()
            && s@.subrange(r@[k].0 as int, r@[k].1 as int) == split_pieces(s@, sep)[k],
{
    let mut ranges: Vec<(usize, usize)> = Vec::new();
    let mut start: usize = 0;
    let mut i: usize = 0;
    while i < s.len()
        invariant
            start <= i <= s.len(),
            ranges@.len() + 1 == split_pieces(s@.subrange(0, i as int), sep).len(),
            forall|k: int| 0 <= k < ranges@.len() ==> (#[trigger] ranges@[k]).0 <= ranges@[k].1 <= i
                && s@.subrange(ranges@[k].0 as int, ranges@[k].1 as int) == split_pieces(s@.subrange(0, i as int), sep)[k],
            s@.subrange(start as int, i as int) == split_pieces(s@.subrange(0, i as int), sep).last(),
        decreases s.len() - i,
    {
        let ghost before = split_pieces(s@.subrange(0, i as int), sep);
        assert(s@.subrange(0, i + 1).drop_last() =~= s@.subrange(0, i as int));
        if s[i] == sep {
            ranges.push((start, i));
            start = i + 1;
            assert(s@.subrange(start as int, i + 1) =~= Seq::<char>::empty());
        } else {
            assert(s@.subrange(start as int, i + 1) =~= s@.subrange(start as int, i as int).push(s@[i as int]));
        }
        i += 1;
    }
    assert(s@.subrange(0, s.len() as int) =~= s@);
    ranges.push((start, s.len()));
    ranges
}

fn find_first(s: &Vec<char>, from: usize, to: usize, c: char) -> (r: Option<usize>)
    requires
        from <= to <= s.len(),
    ensures
        match r {
            Some(k) => from <= k < to && first_index_of(s@.subrange(from as int, to as int), c) == k - from,
            None => first_index_of(s@.subrange(from as int, to as int), c) == -1,
        },
{
    let mut k = from;
    while k < to
        invariant
            from <= k <= to <= s.len(),
            first_index_of(s@.subrange(from as int, k as int), c) == -1,
        decreases to - k,
    {
        assert(s@.subrange(from as int, k + 1).drop_last() =~= s@.subrange(from as int, k as int));
        if s[k] == c {
            assert(s@.subrange(from as int, to as int).subrange(0, k + 1 - from) =~= s@.subrange(from as int, k + 1));
            assert(first_index_of(s@.subrange(from as int, k + 1), c) == k - from);
            proof { lemma_first_index_extends(s@.subrange(from as int, to as int), (k + 1 - from) as int, (k - from) as int, c); }
            return Some(k);
        }
        k += 1;
    }
    None
}

proof fn lemma_first_index_extends(s: Seq<char>, n: int, m: int, c: char)
    requires
        0 <= m < n <= s.len(),
        first_index_of(s.subrange(0, n), c) == m,
    ensures
        first_index_of(s, c) == m,
    decreases s.len() - n,
{
    if n < s.len() {
        assert(s.subrange(0, n + 1).drop_last() =~= s.subrange(0, n));
        lemma_first_index_extends(s, n + 1, m, c);
    } else {
        assert(s.subrange(0, n) =~= s);
    }
}

fn find_last(s: &Vec<char>, from: usize, to: usize, c: char) -> (r: Option<usize>)
    requires
        from <= to <= s.len(),
    ensures
        match r {
            Some(k) => from <= k < to && crate::numeric::last_index_of(s@.subrange(from as int, to as int), c) == k - from,
            None => crate::numeric::last_index_of(s@.subrange(from as int, to as int), c) == -1,
        },
{
    let mut k = to;
    while k > from
        invariant
            from <= k <= to <= s.len(),
            crate::numeric::last_index_of(s@.subrange(from as int, to as int), c)
                == crate::numeric::last_index_of(s@.subrange(from as int, k as int), c),
        decreases k - from,
    {
        assert(s@.subrange(from as int, k as int).drop_last() =~= s@.subrange(from as int, k - 1));
        if s[k - 1] == c {
            return Some(k - 1);
        }
        k -= 1;
    }
    assert(s@.subrange(from as int, k as int).len() == 0);
    None
}

fn parse_station(s: &Vec<char>, a: usize, b: usize) -> (r: Result<StatusStationConfig, AppError>)
    requires
        a <= b <= s.len(),
    ensures
        match (r, station_of(s@.subrange(a as int, b as int))) {
            (Ok(st), Ok(v)) => station_view(st) == v,
            (Err(AppError::Config(m)), Err(n)) => m@ == n,
            _ => false,
        },
{
    let ghost entry = s@.subrange(a as int, b as int);
    let at = match find_first(s, a, b, '@') {
        Some(k) => k,
        None => return Err(AppError::Config(joined("STATUS_STATIONS entry must look like Name@IP:Port: ", sub_string(s, a, b).as_str()))),
    };
    let ghost endpoint = entry.subrange(at + 1 - a, entry.len() as int);
    assert(endpoint =~= s@.subrange(at + 1, b as int));
    let colon = match find_last(s, at + 1, b, ':') {
        Some(k) => k,
        None => return Err(AppError::Config(joined("STATUS_STATIONS endpoint must look like IP:Port: ", sub_string(s, at + 1, b).as_str()))),
    };
    assert(endpoint.subrange(colon + 1 - (at + 1), endpoint.len() as int) =~= s@.subrange(colon + 1, b as int));
    assert(entry.subrange(0, at - a) =~= s@.subrange(a as int, at as int));
    assert(endpoint.subrange(0, colon - (at + 1)) =~= s@.subrange(at + 1, colon as int));
    let (pa, pb) = trim_range(s, colon + 1, b);
    let port = match parse_unsigned(s, pa, pb, 65535) {
        Some(p) => p as u16,
        None => return Err(AppError::Config(joined("STATUS_STATIONS has invalid port: ", sub_string(s, colon + 1, b).as_str()))),
    };
    let (na, nb) = trim_range(s, a, at);
    let (ia, ib) = trim_range(s, at + 1, colon);
    if na == nb {
        return Err(AppError::config("STATUS_STATIONS entry has empty station name"));
    }
    if ia == ib {
        return Err(AppError::config("STATUS_STATIONS entry has empty station ip"));
    }
    Ok(StatusStationConfig { name: sub_string(s, na, nb), ip: sub_string(s, ia, ib), port })
}

/// Reads `STATUS_STATIONS`, or the default list when it is unset.
pub fn parse_status_stations(raw: Option<&str>) -> (r: Result<Vec<StatusStationConfig>, AppError>)
    ensures
        match (r, status_stations_of(match raw { Some(t) => t@, None => DEFAULT_STATUS_STATIONS@ })) {
            (Ok(v), Ok(l)) => v@.len() == l.len() && forall|k: int| 0 <= k < l.len() ==> station_view(#[trigger] v@[k]) == l[k],
            (Err(AppError::Config(m)), Err(n)) => m@ == n,
            _ => false,
        },
{
    let text = match raw {
        Some(t) => t,
        None => DEFAULT_STATUS_STATIONS,
    };
    let s = chars_of(text);
    let ranges = split_ranges(&s, ';');
    let ghost pieces = split_pieces(s@, ';');
    let mut stations: Vec<StatusStationConfig> = Vec::new();
    let mut k: usize = 0;
    assert(pieces.subrange(0, pieces.len() as int) =~= pieces);
    while k < ranges.len()
        invariant
            k <= ranges@.len() == pieces.len(),
            pieces == split_pieces(s@, ';'),
            s@ == (match raw { Some(t) => t@, None => DEFAULT_STATUS_STATIONS@ }),
            forall|j: int| 0 <= j < ranges@.len() ==> (#[trigger] ranges@[j]).0 <= ranges@[j].1 <= s.len()
                && s@.subrange(ranges@[j].0 as int, ranges@[j].1 as int) == pieces[j],
            match stations_from(pieces) {
                Ok(all) => match stations_from(pieces.subrange(k as int, pieces.len() as int)) {
                    Ok(rest) => all.len() == stations@.len() + rest.len()
                        && (forall|j: int| 0 <= j < stations@.len() ==> station_view(#[trigger] stations@[j]) == all[j])
                        && rest == all.subrange(stations@.len() as int, all.len() as int),
                    Err(_) => false,
                },
                Err(m) => stations_from(pieces.subrange(k as int, pieces.len() as int)) == Err::<Seq<(Seq<char>, Seq<char>, u16)>, Seq<char>>(m),
            },
        decreases ranges.len() - k,
    {
        let ghost rest = pieces.subrange(k as int, pieces.len() as int);
        assert(rest[0] == pieces[k as int]);
        assert(rest.subrange(1, rest.len() as int) =~= pieces.subrange(k + 1, pieces.len() as int));
        let (p, q) = ranges[k];
        let (a, b) = trim_range(&s, p, q);
        let ghost entry = s@.subrange(a as int, b as int);
        let ghost tail = pieces.subrange(k + 1, pieces.len() as int);
        let ghost n: int = stations@.len() as int;
        assert(entry == trimmed(rest[0]));
        assert(stations_from(rest) == (if entry.len() == 0 {
            stations_from(tail)
        } else {
            match station_of(entry) {
                Err(m) => Err(m),
                Ok(st) => match stations_from(tail) {
                    Ok(l) => Ok(seq![st] + l),
                    Err(m) => Err(m),
                },
            }
        }));
        if a < b {
            match parse_station(&s, a, b) {
                Ok(st) => {
                    stations.push(st);
                    proof {
                        if let Ok(all) = stations_from(pieces) {
                            let l = stations_from(tail)->Ok_0;
                            assert(stations_from(tail) is Ok);
                            assert(all.subrange(n, all.len() as int) == seq![station_view(st)] + l);
                            assert(all[n] == all.subrange(n, all.len() as int)[0]);
                            assert forall|i: int| 0 <= i < l.len() implies l[i] == all[n + 1 + i] by {
                                assert((seq![station_view(st)] + l)[1 + i] == l[i]);
                                assert(all.subrange(n, all.len() as int)[1 + i] == all[n + 1 + i]);
                            }
                            assert(l =~= all.subrange(n + 1, all.len() as int));
                        }
                    }
                },
                Err(e) => {
                    assert(stations_from(pieces) is Err);
                    return Err(e);
                },
            }
        }
        k += 1;
    }
    assert(pieces.subrange(k as int, pieces.len() as int) =~= Seq::<Seq<char>>::empty());
    if stations.len() == 0 {
        return Err(AppError::config("STATUS_STATIONS must contain at least one station"));
    }
    Ok(stations)
}

pub open spec fn str_view(raw: Option<&str>) -> Option<Seq<char>> {
    match raw {
        Some(s) => Some(s@),
        None => None,
    }
}

/// An optional text setting: trimmed, and absent when blank.
pub open spec fn optional_of(raw: Option<Seq<char>>) -> Option<Seq<char>> {
    match raw {
        Some(r) => if trimmed(r).len() == 0 { None } else { Some(trimmed(r)) },
        None => None,
    }
}

/// Reads an optional text setting.
pub fn optional_setting(raw: Option<&str>) -> (r: Option<String>)
    ensures
        opt_view(r) == optional_of(str_view(raw)),
{
    match raw {
        Some(s) => {
            let c = chars_of(s);
            let (a, b) = trim_range(&c, 0, c.len());
            assert(c@.subrange(0, c@.len() as int) =~= c@);
            if a == b {
                None
            } else {
                Some(sub_string(&c, a, b))
            }
        },
        None => None,
    }
}

/// Reads `KEBA_IP`, which must be set and not blank.
pub fn required_keba_ip(raw: Option<&str>) -> (r: Result<String, AppError>)
    ensures
        match (r, optional_of(str_view(raw))) {
            (Ok(ip), Some(v)) => ip@ == v,
            (Err(AppError::Config(m)), None) => m@ == "KEBA_IP is required"@,
            _ => false,
        },
{
    match optional_setting(raw) {
        Some(ip) => Ok(ip),
        None => Err(AppError::config("KEBA_IP is required")),
    }
}

/// The replay transport needs its script file.
pub fn check_debug_source(source: KebaSource, debug_data_file: &Option<String>) -> (r: Result<(), AppError>)
    ensures
        source == KebaSource::DebugFile && debug_data_file.is_none() ==> (r matches Err(AppError::Config(m))
            && m@ == "KEBA_DEBUG_DATA_FILE is required when KEBA_SOURCE=debug_file"@),
        !(source == KebaSource::DebugFile && debug_data_file.is_none()) ==> r is Ok,
{
    match source {
        KebaSource::DebugFile => match debug_data_file {
            None => Err(AppError::config("KEBA_DEBUG_DATA_FILE is required when KEBA_SOURCE=debug_file")),
            Some(_) => Ok(()),
        },
        _ => Ok(()),
    }
}

} // verus!
