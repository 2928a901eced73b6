use vstd::prelude::*;

verus! {

pub open spec fn is_digit(c: char) -> bool {
    '0' <= c && c <= '9'
}

/// Characters that can be part of a number written in free text.
pub open spec fn is_token_char(c: char) -> bool {
    is_digit(c) || c == ',' || c == '.' || c == '-'
}

/// Splitting text into maximal runs of number characters, left to right: the runs
/// completed so far and the one still open.
pub open spec fn scan_tokens(s: Seq<char>) -> (Seq<Seq<char>>, Seq<char>)
    decreases s.len(),
{
    if s.len() == 0 {
        (Seq::empty(), Seq::empty())
    } else {
        let (done, cur) = scan_tokens(s.drop_last());
        let c = s.last();
        if is_token_char(c) {
            (done, cur.push(c))
        } else if cur.len() > 0 {
            (done.push(cur), Seq::empty())
        } else {
            (done, cur)
        }
    }
}

/// The maximal runs of number characters in `s`, in order.
pub open spec fn numeric_tokens(s: Seq<char>) -> Seq<Seq<char>> {
    let (done, cur) = scan_tokens(s);
    if cur.len() > 0 {
        done.push(cur)
    } else {
        done
    }
}

pub open spec fn count_char(s: Seq<char>, c: char) -> nat
    decreases s.len(),
{
    if s.len() == 0 {
        0
    } else {
        count_char(s.drop_last(), c) + if s.last() == c { 1nat } else { 0nat }
    }
}

/// Index of the last `c` in `s`, or -1.
pub open spec fn last_index_of(s: Seq<char>, c: char) -> int
    decreases s.len(),
{
    if s.len() == 0 {
        -1
    } else if s.last() == c {
        s.len() - 1
    } else {
        last_index_of(s.drop_last(), c)
    }
}

/// `s` without any `c`.
pub open spec fn remove_char(s: Seq<char>, c: char) -> Seq<char>
    decreases s.len(),
{
    if s.len() == 0 {
        s
    } else if s.last() == c {
        remove_char(s.drop_last(), c)
    } else {
        remove_char(s.drop_last(), c).push(s.last())
    }
}

/// `s` with every `from` written as `to`.
pub open spec fn replace_char(s: Seq<char>, from: char, to: char) -> Seq<char>
    decreases s.len(),
{
    if s.len() == 0 {
        s
    } else {
        replace_char(s.drop_last(), from, to).push(if s.last() == from { to } else { s.last() })
    }
}

/// Decides which of ',' and '.' is the decimal separator. With both present, the one
/// that comes last is; a lone kind of separator is decimal, except several dots, which
/// group thousands.
pub open spec fn normalize_numeric_token(t: Seq<char>) -> Seq<char> {
    let commas = count_char(t, ',');
    let dots = count_char(t, '.');
    if commas > 0 && dots > 0 {
        if last_index_of(t, ',') > last_index_of(t, '.') {
            replace_char(remove_char(t, '.'), ',', '.')
        } else {
            remove_char(t, ',')
        }
    } else if commas > 0 {
        replace_char(t, ',', '.')
    } else if dots > 1 {
        remove_char(t, '.')
    } else {
        t
    }
}

/// A decimal number: `digits` with a point before the last `frac_len` of them, times
/// ten to the power `exp`. `plain` when it was written without point or exponent.
pub struct Decimal {
    pub negative: bool,
    pub digits: Seq<char>,
    pub frac_len: nat,
    pub exp: int,
    pub plain: bool,
}

/// Reading digits with at most one point: (well formed so far, point seen, digits, digits after the point).
pub open spec fn body_scan(s: Seq<char>) -> (bool, bool, Seq<char>, nat)
    decreases s.len(),
{
    if s.len() == 0 {
        (true, false, Seq::empty(), 0)
    } else {
        let (ok, dot, ds, f) = body_scan(s.drop_last());
        let c = s.last();
        if is_digit(c) {
            (ok, dot, ds.push(c), if dot { f + 1 } else { f })
        } else if c == '.' && !dot {
            (ok, true, ds, f)
        } else {
            (false, dot, ds, f)
        }
    }
}

/// `-?` followed by digits with at most one point, and at least one digit.
pub open spec fn parse_plain(s: Seq<char>) -> Option<Decimal> {
    let negative = s.len() > 0 && s[0] == '-';
    let body = if negative { s.subrange(1, s.len() as int) } else { s };
    let (ok, dot, ds, f) = body_scan(body);
    if ok && ds.len() > 0 {
        Some(Decimal { negative, digits: ds, frac_len: f, exp: 0, plain: !dot })
    } else {
        None
    }
}

pub open spec fn digits_value(ds: Seq<char>) -> nat
    decreases ds.len(),
{
    if ds.len() == 0 {
        0
    } else {
        digits_value(ds.drop_last()) * 10 + ((ds.last() as u32) - 48) as nat
    }
}

pub open spec fn all_digits(s: Seq<char>) -> bool {
    forall|i: int| 0 <= i < s.len() ==> is_digit(#[trigger] s[i])
}

/// Index of the first 'e' or 'E', or -1.
pub open spec fn exp_marker_index(s: Seq<char>) -> int
    decreases s.len(),
{
    if s.len() == 0 {
        -1
    } else if exp_marker_index(s.drop_last()) >= 0 {
        exp_marker_index(s.drop_last())
    } else if s.last() == 'e' || s.last() == 'E' {
        s.len() - 1
    } else {
        -1
    }
}

/// The exponent after the marker: an optional sign and one to four digits.
pub open spec fn parse_exponent(s: Seq<char>) -> Option<int> {
    let signed = s.len() > 0 && (s[0] == '-' || s[0] == '+');
    let ds = if signed { s.subrange(1, s.len() as int) } else { s };
    if 1 <= ds.len() <= 4 && all_digits(ds) {
        Some(if signed && s[0] == '-' { -(digits_value(ds) as int) } else { digits_value(ds) as int })
    } else {
        None
    }
}

/// A JSON number as its text: a plain decimal, optionally followed by an exponent.
pub open spec fn parse_json_number(s: Seq<char>) -> Option<Decimal> {
    let k = exp_marker_index(s);
    if k < 0 {
        parse_plain(s)
    } else {
        match (parse_plain(s.subrange(0, k)), parse_exponent(s.subrange(k + 1, s.len() as int))) {
            (Some(d), Some(e)) => Some(Decimal { exp: e, plain: false, ..d }),
            _ => None,
        }
    }
}

/// The first number token of free text that reads as a number once normalized.
pub open spec fn first_number_in(tokens: Seq<Seq<char>>) -> Option<Decimal>
    decreases tokens.len(),
{
    if tokens.len() == 0 {
        None
    } else {
        match parse_plain(normalize_numeric_token(tokens[0])) {
            Some(d) => Some(d),
            None => first_number_in(tokens.subrange(1, tokens.len() as int)),
        }
    }
}

pub open spec fn number_in_text(s: Seq<char>) -> Option<Decimal> {
    first_number_in(numeric_tokens(s))
}

pub open spec fn pow10(n: nat) -> nat
    decreases n,
{
    if n == 0 {
        1
    } else {
        10 * pow10((n - 1) as nat)
    }
}

pub open spec fn has_nonzero_digit(ds: Seq<char>) -> bool {
    exists|i: int| 0 <= i < ds.len() && ds[i] != '0'
}

/// Strictly greater than zero.
pub open spec fn is_positive(d: Decimal) -> bool {
    !d.negative && has_nonzero_digit(d.digits)
}

/// Strictly less than zero.
pub open spec fn is_negative(d: Decimal) -> bool {
    d.negative && has_nonzero_digit(d.digits)
}

/// The magnitude of `d * 10^k`, truncated to an integer.
pub open spec fn scaled_magnitude(d: Decimal, k: int) -> nat {
    let shift = k + d.exp - d.frac_len;
    if shift >= 0 {
        digits_value(d.digits) * pow10(shift as nat)
    } else if d.digits.len() + shift <= 0 {
        0
    } else {
        digits_value(d.digits.subrange(0, d.digits.len() + shift))
    }
}

/// `d * 10^k` truncated toward zero, when it fits an `i64`.
pub open spec fn scaled_i64(d: Decimal, k: int) -> Option<i64> {
    let m = scaled_magnitude(d, k);
    if m <= i64::MAX {
        Some((if d.negative { -(m as int) } else { m as int }) as i64)
    } else {
        None
    }
}

/// The whole part of a non-negative `d`, when it fits a `u64`.
pub open spec fn whole_u64(d: Decimal) -> Option<u64> {
    if is_negative(d) || scaled_magnitude(d, 0) > u64::MAX {
        None
    } else {
        Some(scaled_magnitude(d, 0) as u64)
    }
}

/// A decimal number held in executable form.
pub struct DecimalParts {
    pub negative: bool,
    pub digits: Vec<char>,
    pub frac_len: usize,
    pub exp: i64,
    pub plain: bool,
}

impl View for DecimalParts {
    type V = Decimal;

    open spec fn view(&self) -> Decimal {
        Decimal {
            negative: self.negative,
            digits: self.digits@,
            frac_len: self.frac_len as nat,
            exp: self.exp as int,
            plain: self.plain,
        }
    }
}

impl DecimalParts {
    pub open spec fn bounded(&self) -> bool {
        &&& self.frac_len <= self.digits.len()
        &&& -9999 <= self.exp <= 9999
        &&& all_digits(self.digits@)
    }
}

pub(crate) proof fn lemma_digits_value_prefix_grows(ds: Seq<char>, j: int)
    requires
        0 <= j <= ds.len(),
    ensures
        digits_value(ds.subrange(0, j)) <= digits_value(ds),
    decreases ds.len() - j,
{
    if j < ds.len() {
        lemma_digits_value_prefix_grows(ds, j + 1);
        assert(ds.subrange(0, j + 1).drop_last() =~= ds.subrange(0, j));
    } else {
        assert(ds.subrange(0, j) =~= ds);
    }
}

proof fn lemma_pow10_positive(n: nat)
    ensures
        pow10(n) >= 1,
    decreases n,
{
    if n > 0 {
        lemma_pow10_positive((n - 1) as nat);
    }
}

/// The maximal runs of number characters in `s`.
pub fn extract_numeric_tokens(s: &Vec<char>) -> (r: Vec<Vec<char>>)
    ensures
        r@.len() == numeric_tokens(s@).len(),
        forall|i: int| 0 <= i < r@.len() ==> (#[trigger] r@[i])@ == numeric_tokens(s@)[i],
{
    let mut tokens: Vec<Vec<char>> = Vec::new();
    let mut current: Vec<char> = Vec::new();
    let mut i: usize = 0;
    while i < s.len()
        invariant
            i <= s.len(),
            tokens@.len() == scan_tokens(s@.subrange(0, i as int)).0.len(),
            forall|j: int| 0 <= j < tokens@.len() ==> (#[trigger] tokens@[j])@ == scan_tokens(s@.subrange(0, i as int)).0[j],
            current@ == scan_tokens(s@.subrange(0, i as int)).1,
        decreases s.len() - i,
    {
        let c = s[i];
        assert(s@.subrange(0, i + 1).drop_last() =~= s@.subrange(0, i as int));
        if c == '0' || c == '1' || c == '2' || c == '3' || c == '4' || c == '5' || c == '6' || c == '7' || c == '8' || c == '9' || c == ',' || c == '.' || c == '-' {
            current.push(c);
        } else if current.len() > 0 {
            tokens.push(current);
            current = Vec::new();
        }
        i += 1;
    }
    assert(s@.subrange(0, s.len() as int) =~= s@);
    if current.len() > 0 {
        tokens.push(current);
    }
    tokens
}

/// Applies the decimal-separator rules to one token.
pub fn normalize_token(t: &Vec<char>) -> (r: Vec<char>)
    ensures
        r@ == normalize_numeric_token(t@),
{
    let mut commas: usize = 0;
    let mut dots: usize = 0;
    let mut last_comma: usize = 0;
    let mut last_dot: usize = 0;
    let mut i: usize = 0;
    while i < t.len()
        invariant
            i <= t.len(),
            commas == count_char(t@.subrange(0, i as int), ','),
            dots == count_char(t@.subrange(0, i as int), '.'),
            commas > 0 ==> last_comma as int == last_index_of(t@.subrange(0, i as int), ','),
            dots > 0 ==> last_dot as int == last_index_of(t@.subrange(0, i as int), '.'),
            commas <= i,
            dots <= i,
        decreases t.len() - i,
    {
        assert(t@.subrange(0, i + 1).drop_last() =~= t@.subrange(0, i as int));
        if t[i] == ',' {
            commas += 1;
            last_comma = i;
        } else if t[i] == '.' {
            dots += 1;
            last_dot = i;
        }
        i += 1;
    }
    assert(t@.subrange(0, t.len() as int) =~= t@);
    if commas > 0 && dots > 0 {
        if last_comma > last_dot {
            let removed = remove_all(t, '.');
            replace_all(&removed, ',', '.')
        } else {
            remove_all(t, ',')
        }
    } else if commas > 0 {
        replace_all(t, ',', '.')
    } else if dots > 1 {
        remove_all(t, '.')
    } else {
        t.clone()
    }
}

fn remove_all(t: &Vec<char>, c: char) -> (r: Vec<char>)
    ensures
        r@ == remove_char(t@, c),
{
    let mut out: Vec<char> = Vec::new();
    let mut i: usize = 0;
    while i < t.len()
        invariant
            i <= t.len(),
            out@ == remove_char(t@.subrange(0, i as int), c),
        decreases t.len() - i,
    {
        assert(t@.subrange(0, i + 1).drop_last() =~= t@.subrange(0, i as int));
        if t[i] != c {
            out.push(t[i]);
        }
        i += 1;
    }
    assert(t@.subrange(0, t.len() as int) =~= t@);
    out
}

fn replace_all(t: &Vec<char>, from: char, to: char) -> (r: Vec<char>)
    ensures
        r@ == replace_char(t@, from, to),
{
    let mut out: Vec<char> = Vec::new();
    let mut i: usize = 0;
    while i < t.len()
        invariant
            i <= t.len(),
            out@ == replace_char(t@.subrange(0, i as int), from, to),
        decreases t.len() - i,
    {
        assert(t@.subrange(0, i + 1).drop_last() =~= t@.subrange(0, i as int));
        if t[i] == from {
            out.push(to);
        } else {
            out.push(t[i]);
        }
        i += 1;
    }
    assert(t@.subrange(0, t.len() as int) =~= t@);
    out
}

fn is_digit_char(c: char) -> (r: bool)
    ensures
        r == is_digit(c),
{
    '0' <= c && c <= '9'
}

/// Reads `s[from..to]` as a plain decimal.
pub(crate) fn parse_plain_range(s: &Vec<char>, from: usize, to: usize) -> (r: Option<DecimalParts>)
    requires
        from <= to <= s.len(),
    ensures
        r is Some <==> parse_plain(s@.subrange(from as int, to as int)) is Some,
        r matches Some(d) ==> d@ == parse_plain(s@.subrange(from as int, to as int))->0 && d.bounded() && d.exp == 0,
{
    let ghost text = s@.subrange(from as int, to as int);
    let negative = from < to && s[from] == '-';
    let start = if negative { from + 1 } else { from };
    let ghost body = if negative { text.subrange(1, text.len() as int) } else { text };
    assert(body =~= s@.subrange(start as int, to as int));
    let mut ok = true;
    let mut dot = false;
    let mut digits: Vec<char> = Vec::new();
    let mut frac_len: usize = 0;
    let mut i: usize = start;
    while i < to
        invariant
            start <= i <= to <= s.len(),
            body == s@.subrange(start as int, to as int),
            (ok, dot, digits@, frac_len as nat) == body_scan(s@.subrange(start as int, i as int)),
            frac_len <= digits@.len() <= i - start,
            all_digits(digits@),
        decreases to - i,
    {
        assert(s@.subrange(start as int, i + 1).drop_last() =~= s@.subrange(start as int, i as int));
        let c = s[i];
        if is_digit_char(c) {
            digits.push(c);
            if dot {
                frac_len += 1;
            }
        } else if c == '.' && !dot {
            dot = true;
        } else {
            ok = false;
        }
        i += 1;
    }
    if ok && digits.len() > 0 {
        Some(DecimalParts { negative, digits, frac_len, exp: 0, plain: !dot })
    } else {
        None
    }
}

/// The number in a text, as `number_in_text` describes.
pub fn parse_number_text(s: &Vec<char>) -> (r: Option<DecimalParts>)
    ensures
        r is Some <==> number_in_text(s@) is Some,
        r matches Some(d) ==> d@ == number_in_text(s@)->0 && d.bounded(),
{
    let tokens = extract_numeric_tokens(s);
    let ghost all = numeric_tokens(s@);
    assert(all.subrange(0, all.len() as int) =~= all);
    let mut i: usize = 0;
    while i < tokens.len()
        invariant
            all == numeric_tokens(s@),
            i <= tokens@.len() == all.len(),
            forall|j: int| 0 <= j < tokens@.len() ==> (#[trigger] tokens@[j])@ == all[j],
            first_number_in(all) == first_number_in(all.subrange(i as int, all.len() as int)),
        decreases tokens.len() - i,
    {
        let normalized = normalize_token(&tokens[i]);
        let parsed = parse_plain_range(&normalized, 0, normalized.len());
        assert(normalized@.subrange(0, normalized@.len() as int) =~= normalized@);
        let ghost rest = all.subrange(i as int, all.len() as int);
        assert(rest[0] == all[i as int]);
        assert(rest.subrange(1, rest.len() as int) =~= all.subrange(i + 1, all.len() as int));
        assert(first_number_in(rest) == match parse_plain(normalize_numeric_token(rest[0])) {
            Some(d) => Some(d),
            None => first_number_in(rest.subrange(1, rest.len() as int)),
        });
        if parsed.is_some() {
            return parsed;
        }
        i += 1;
    }
    assert(all.subrange(i as int, all.len() as int).len() == 0);
    None
}

/// A JSON number, from its text.
pub fn parse_json_number_text(s: &Vec<char>) -> (r: Option<DecimalParts>)
    ensures
        r is Some <==> parse_json_number(s@) is Some,
        r matches Some(d) ==> d@ == parse_json_number(s@)->0 && d.bounded(),
{
    let mut k: usize = 0;
    while k < s.len() && s[k] != 'e' && s[k] != 'E'
        invariant
            k <= s.len(),
            exp_marker_index(s@.subrange(0, k as int)) == -1,
        decreases s.len() - k,
    {
        assert(s@.subrange(0, k + 1).drop_last() =~= s@.subrange(0, k as int));
        k += 1;
    }
    if k == s.len() {
        assert(s@.subrange(0, k as int) =~= s@);
        return parse_plain_range(s, 0, s.len());
    }
    proof {
        assert(s@.subrange(0, k + 1).drop_last() =~= s@.subrange(0, k as int));
        lemma_exp_marker_prefix(s@, k as int + 1, k as int);
    }
    let mantissa = parse_plain_range(s, 0, k);
    let exponent = parse_exponent_range(s, k + 1);
    match (mantissa, exponent) {
        (Some(d), Some(e)) => Some(DecimalParts { exp: e, plain: false, ..d }),
        _ => None,
    }
}

proof fn lemma_exp_marker_prefix(s: Seq<char>, n: int, m: int)
    requires
        0 <= m < n <= s.len(),
        exp_marker_index(s.subrange(0, n)) == m,
    ensures
        exp_marker_index(s) == m,
    decreases s.len() - n,
{
    if n < s.len() {
        assert(s.subrange(0, n + 1).drop_last() =~= s.subrange(0, n));
        lemma_exp_marker_prefix(s, n + 1, m);
    } else {
        assert(s.subrange(0, n) =~= s);
    }
}

fn parse_exponent_range(s: &Vec<char>, from: usize) -> (r: Option<i64>)
    requires
        from <= s.len(),
    ensures
        r is Some <==> parse_exponent(s@.subrange(from as int, s.len() as int)) is Some,
        r matches Some(e) ==> e == parse_exponent(s@.subrange(from as int, s.len() as int))->0 && -9999 <= e <= 9999,
{
    let ghost text = s@.subrange(from as int, s.len() as int);
    let signed = from < s.len() && (s[from] == '-' || s[from] == '+');
    let start = if signed { from + 1 } else { from };
    let ghost ds = if signed { text.subrange(1, text.len() as int) } else { text };
    assert(ds =~= s@.subrange(start as int, s.len() as int));
    assert(text.len() > 0 ==> text[0] == s@[from as int]);
    if s.len() - start < 1 || s.len() - start > 4 {
        return None;
    }
    let ghost negative_exp = signed && s@[from as int] == '-';
    assert(parse_exponent(text) == (if all_digits(ds) {
        Some(if negative_exp { -(digits_value(ds) as int) } else { digits_value(ds) as int })
    } else {
        None::<int>
    }));
    let mut value: i64 = 0;
    let mut i: usize = start;
    assert(pow10(0) == 1);
    while i < s.len()
        invariant
            start <= i <= s.len(),
            text == s@.subrange(from as int, s.len() as int),
            negative_exp == (signed && s@[from as int] == '-'),
            from < s.len() || !signed,
            parse_exponent(text) == (if all_digits(ds) {
                Some(if negative_exp { -(digits_value(ds) as int) } else { digits_value(ds) as int })
            } else {
                None::<int>
            }),
            s.len() - start <= 4,
            ds == s@.subrange(start as int, s.len() as int),
            all_digits(s@.subrange(start as int, i as int)),
            value == digits_value(s@.subrange(start as int, i as int)),
            0 <= value < pow10((i - start) as nat),
        decreases s.len() - i,
    {
        assert(s@.subrange(start as int, i + 1).drop_last() =~= s@.subrange(start as int, i as int));
        let c = s[i];
        if !is_digit_char(c) {
            assert(ds[i - start] == c);
            assert(!all_digits(ds));
            return None;
        }
        let d = (c as u32 - 48) as i64;
        proof {
            assert(pow10((i + 1 - start) as nat) == 10 * pow10((i - start) as nat));
            assert(value * 10 + d < 10 * pow10((i - start) as nat)) by (nonlinear_arith)
                requires value < pow10((i - start) as nat), 0 <= d <= 9;
            lemma_pow10_small((i - start) as nat);
        }
        value = value * 10 + d;
        i += 1;
        proof {
            assert forall|j: int| 0 <= j < s@.subrange(start as int, i as int).len() implies is_digit(#[trigger] s@.subrange(start as int, i as int)[j]) by {
                if j < i - 1 - start {
                    assert(s@.subrange(start as int, i as int)[j] == s@.subrange(start as int, i - 1)[j]);
                }
            }
        }
    }
    assert(s@.subrange(start as int, i as int) == ds);
    proof {
        lemma_pow10_small((i - start - 1) as nat);
    }
    if signed && s[from] == '-' {
        Some(-value)
    } else {
        Some(value)
    }
}

proof fn lemma_pow10_small(n: nat)
    requires
        n <= 3,
    ensures
        pow10(n + 1) <= 10000,
{
    assert(pow10(0) == 1);
    assert(pow10(1) == 10);
    assert(pow10(2) == 100);
    assert(pow10(3) == 1000);
    assert(pow10(4) == 10000);
}

/// The value of `ds[..n]` when it fits a `u64`.
fn checked_digits_value(ds: &Vec<char>, n: usize) -> (r: Option<u64>)
    requires
        n <= ds.len(),
        all_digits(ds@),
    ensures
        r is Some <==> digits_value(ds@.subrange(0, n as int)) <= u64::MAX,
        r matches Some(v) ==> v == digits_value(ds@.subrange(0, n as int)),
{
    let mut value: u64 = 0;
    let mut i: usize = 0;
    while i < n
        invariant
            i <= n <= ds.len(),
            all_digits(ds@),
            value == digits_value(ds@.subrange(0, i as int)),
        decreases n - i,
    {
        assert(ds@.subrange(0, i + 1).drop_last() =~= ds@.subrange(0, i as int));
        assert(is_digit(ds@[i as int]));
        let d = (ds[i] as u32 - 48) as u64;
        proof {
            lemma_digits_value_prefix_grows(ds@.subrange(0, n as int), i + 1);
            assert(ds@.subrange(0, n as int).subrange(0, i + 1) =~= ds@.subrange(0, i + 1));
        }
        if value > (u64::MAX - d) / 10 {
            assert(value * 10 + d > u64::MAX) by (nonlinear_arith)
                requires value > (u64::MAX - d) / 10, 0 <= d <= 9;
            return None;
        }
        assert(value * 10 + d <= u64::MAX) by (nonlinear_arith)
            requires value <= (u64::MAX - d) / 10, 0 <= d <= 9;
        value = value * 10 + d;
        i += 1;
    }
    Some(value)
}

/// The magnitude of `d * 10^k`, truncated, when it fits a `u64`.
pub fn scale_magnitude(d: &DecimalParts, k: i64) -> (r: Option<u64>)
    requires
        d.bounded(),
        0 <= k <= 6,
    ensures
        r is Some <==> scaled_magnitude(d@, k as int) <= u64::MAX,
        r matches Some(v) ==> v == scaled_magnitude(d@, k as int),
{
    let shift: i128 = k as i128 + d.exp as i128 - d.frac_len as i128;
    if shift >= 0 {
        assert(d.digits@.subrange(0, d.digits@.len() as int) =~= d.digits@);
        let base = match checked_digits_value(&d.digits, d.digits.len()) {
            Some(v) => v,
            None => {
                proof {
                    lemma_pow10_positive(shift as nat);
                    assert(digits_value(d.digits@) * pow10(shift as nat) >= digits_value(d.digits@)) by (nonlinear_arith)
                        requires pow10(shift as nat) >= 1;
                }
                return None;
            },
        };
        let mut value: u64 = base;
        let mut i: i128 = 0;
        assert(pow10(0) == 1);
        assert(base * pow10(0) == base);
        while i < shift
            invariant
                0 <= i <= shift,
                shift == k + d.exp - d.frac_len,
                value == base * pow10(i as nat),
                base == digits_value(d.digits@),
            decreases shift - i,
        {
            assert(pow10((i + 1) as nat) == 10 * pow10(i as nat));
            if value > u64::MAX / 10 {
                proof {
                    lemma_pow10_monotone((i + 1) as nat, shift as nat);
                    assert(base * pow10((i + 1) as nat) == value * 10) by (nonlinear_arith)
                        requires value == base * pow10(i as nat), pow10((i + 1) as nat) == 10 * pow10(i as nat);
                    assert(base * pow10(shift as nat) >= base * pow10((i + 1) as nat)) by (nonlinear_arith)
                        requires pow10(shift as nat) >= pow10((i + 1) as nat), base >= 0;
                    assert(value * 10 > u64::MAX) by (nonlinear_arith)
                        requires value > u64::MAX / 10;
                }
                return None;
            }
            assert(base * pow10((i + 1) as nat) == value * 10) by (nonlinear_arith)
                requires value == base * pow10(i as nat), pow10((i + 1) as nat) == 10 * pow10(i as nat);
            value = value * 10;
            i += 1;
        }
        Some(value)
    } else {
        let keep: i128 = d.digits.len() as i128 + shift;
        if keep <= 0 {
            Some(0)
        } else {
            checked_digits_value(&d.digits, keep as usize)
        }
    }
}

proof fn lemma_pow10_monotone(a: nat, b: nat)
    requires
        a <= b,
    ensures
        pow10(a) <= pow10(b),
    decreases b - a,
{
    if a < b {
        lemma_pow10_monotone(a, (b - 1) as nat);
        lemma_pow10_positive((b - 1) as nat);
    }
}

/// `d * 10^k` truncated toward zero, when it fits an `i64`.
pub fn scale_to_i64(d: &DecimalParts, k: i64) -> (r: Option<i64>)
    requires
        d.bounded(),
        0 <= k <= 6,
    ensures
        r == scaled_i64(d@, k as int),
{
    match scale_magnitude(d, k) {
        Some(m) => {
            if m <= i64::MAX as u64 {
                let v = m as i64;
                if d.negative {
                    Some(-v)
                } else {
                    Some(v)
                }
            } else {
                None
            }
        },
        None => None,
    }
}

/// True when some digit is not zero.
pub(crate) fn any_nonzero_digit(ds: &Vec<char>) -> (r: bool)
    ensures
        r == has_nonzero_digit(ds@),
{
    let mut i: usize = 0;
    while i < ds.len()
        invariant
            i <= ds.len(),
            forall|j: int| 0 <= j < i ==> ds@[j] == '0',
        decreases ds.len() - i,
    {
        if ds[i] != '0' {
            return true;
        }
        i += 1;
    }
    false
}

/// True when `d` is greater than zero.
pub fn decimal_is_positive(d: &DecimalParts) -> (r: bool)
    ensures
        r == is_positive(d@),
{
    !d.negative && any_nonzero_digit(&d.digits)
}

/// The whole part of `d` when it is not negative and fits a `u64`.
pub fn decimal_whole_u64(d: &DecimalParts) -> (r: Option<u64>)
    requires
        d.bounded(),
    ensures
        r == whole_u64(d@),
{
    if d.negative && any_nonzero_digit(&d.digits) {
        return None;
    }
    scale_magnitude(d, 0)
}

} // verus!
