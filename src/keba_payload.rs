use vstd::prelude::*;

use crate::numeric::{
    any_nonzero_digit, decimal_is_positive, decimal_whole_u64, has_nonzero_digit, is_positive, number_in_text, parse_json_number,
    parse_json_number_text, parse_number_text, scale_to_i64, scaled_i64, whole_u64, Decimal,
    DecimalParts,
};
use crate::session_state::TimestampMs;

verus! {

/// A JSON value as the report parser reads it: numbers keep their JSON text.
#[derive(Debug, Clone, PartialEq, Eq)]
pub enum PayloadValue {
    Number(String),
    Text(String),
    Other,
}

#[derive(Debug, Clone, PartialEq, Eq)]
pub struct PayloadField {
    pub key: String,
    pub value: PayloadValue,
}

/// A charger response: a JSON object's fields in order, or anything that is not an object.
#[derive(Debug, Clone, PartialEq, Eq)]
pub enum Payload {
    Object(Vec<PayloadField>),
    NotObject,
}

#[derive(Debug, Clone, PartialEq, Eq)]
pub struct Report2 {
    pub plugged: bool,
    pub seconds: Option<u64>,
}

/// The energy counters of a report, in milliwatt-hours.
#[derive(Debug, Clone, PartialEq, Eq)]
pub struct Report3 {
    pub present_session_mwh: Option<i64>,
    pub total_mwh: Option<i64>,
}

#[derive(Debug, Clone, PartialEq, Eq)]
pub enum ParseError {
    InvalidPayloadType,
    MissingField(&'static str),
}

pub uninterp spec fn json_payload_of(text: Seq<char>) -> Option<Payload>;

/// Relies on serde_json::from_str: the text's JSON value, or none when it is not JSON.
/// An object's fields come in the order of serde_json's map, which depends on the text alone.
#[verifier::external_body]
pub(crate) fn parse_json_payload(text: &str) -> (r: Option<Payload>)
    ensures
        r == json_payload_of(text@),
{
    match serde_json::from_str::<serde_json::Value>(text) {
        Ok(serde_json::Value::Object(map)) => Some(Payload::Object(map.into_iter().map(|(key, value)| PayloadField {
            key,
            value: match value {
                serde_json::Value::Number(n) => PayloadValue::Number(n.to_string()),
                serde_json::Value::String(s) => PayloadValue::Text(s),
                _ => PayloadValue::Other,
            },
        }).collect())),
        Ok(_) => Some(Payload::NotObject),
        Err(_) => None,
    }
}

pub open spec fn is_ascii_alnum(c: char) -> bool {
    ('0' <= c && c <= '9') || ('a' <= c && c <= 'z') || ('A' <= c && c <= 'Z')
}

pub open spec fn ascii_lower(c: char) -> char {
    if 'A' <= c && c <= 'Z' {
        (((c as u32) + 32) as u8) as char
    } else {
        c
    }
}

/// A key with everything but ASCII letters and digits dropped, in lower case.
pub open spec fn normalize_key(s: Seq<char>) -> Seq<char>
    decreases s.len(),
{
    if s.len() == 0 {
        s
    } else if is_ascii_alnum(s.last()) {
        normalize_key(s.drop_last()).push(ascii_lower(s.last()))
    } else {
        normalize_key(s.drop_last())
    }
}

/// The first field whose key is exactly `alias`.
pub open spec fn find_exact(fields: Seq<PayloadField>, alias: Seq<char>) -> Option<PayloadValue>
    decreases fields.len(),
{
    if fields.len() == 0 {
        None
    } else if fields[0].key@ == alias {
        Some(fields[0].value)
    } else {
        find_exact(fields.subrange(1, fields.len() as int), alias)
    }
}

/// The exact match of the first alias that has one.
pub open spec fn find_any_exact(fields: Seq<PayloadField>, aliases: Seq<Seq<char>>) -> Option<PayloadValue>
    decreases aliases.len(),
{
    if aliases.len() == 0 {
        None
    } else {
        match find_exact(fields, aliases[0]) {
            Some(v) => Some(v),
            None => find_any_exact(fields, aliases.subrange(1, aliases.len() as int)),
        }
    }
}

pub open spec fn key_matches(key: Seq<char>, aliases: Seq<Seq<char>>) -> bool {
    exists|j: int| 0 <= j < aliases.len() && normalize_key(#[trigger] aliases[j]) == normalize_key(key)
}

/// The first field whose normalized key is that of some alias.
pub open spec fn find_normalized(fields: Seq<PayloadField>, aliases: Seq<Seq<char>>) -> Option<PayloadValue>
    decreases fields.len(),
{
    if fields.len() == 0 {
        None
    } else if key_matches(fields[0].key@, aliases) {
        Some(fields[0].value)
    } else {
        find_normalized(fields.subrange(1, fields.len() as int), aliases)
    }
}

/// Lenient lookup: an exact match on any alias first, else a match on normalized keys.
pub open spec fn find_value(fields: Seq<PayloadField>, aliases: Seq<Seq<char>>) -> Option<PayloadValue> {
    match find_any_exact(fields, aliases) {
        Some(v) => Some(v),
        None => find_normalized(fields, aliases),
    }
}

/// The number a value holds: a JSON number, or the first number in a string.
pub open spec fn number_of(v: PayloadValue) -> Option<Decimal> {
    match v {
        PayloadValue::Number(t) => parse_json_number(t@),
        PayloadValue::Text(t) => number_in_text(t@),
        PayloadValue::Other => None,
    }
}

pub open spec fn find_number(fields: Seq<PayloadField>, aliases: Seq<Seq<char>>) -> Option<Decimal> {
    match find_value(fields, aliases) {
        Some(v) => number_of(v),
        None => None,
    }
}

pub open spec fn plug_keys() -> Seq<Seq<char>> {
    seq!["Plug"@, "plug"@, "plugged"@]
}

pub open spec fn state_keys() -> Seq<Seq<char>> {
    seq!["State"@, "state"@, "Charging state"@, "charging_state"@]
}

pub open spec fn seconds_keys() -> Seq<Seq<char>> {
    seq!["Seconds"@, "seconds"@, "Sec"@, "sec"@, "plugged seconds"@]
}

/// Present-session energy aliases, each with the power of ten that takes its unit to
/// milliwatt-hours: 3 for Wh, 6 for kWh.
pub open spec fn present_energy_keys() -> Seq<(Seq<char>, int)> {
    seq![("E pres"@, 3), ("Energy (present session)"@, 6), ("energy_present_session"@, 6), ("EnergyPresentSession"@, 6)]
}

pub open spec fn total_energy_keys() -> Seq<(Seq<char>, int)> {
    seq![("Total energy"@, 3), ("Energy (total)"@, 6), ("energy_total"@, 6), ("EnergyTotal"@, 6)]
}

/// Whether the report says a vehicle is plugged: a non-zero plug value, else a positive state.
pub open spec fn plugged_of(fields: Seq<PayloadField>) -> Option<bool> {
    match find_number(fields, plug_keys()) {
        Some(d) => Some(has_nonzero_digit(d.digits)),
        None => match find_number(fields, state_keys()) {
            Some(d) => Some(is_positive(d)),
            None => None,
        },
    }
}

pub open spec fn seconds_of(fields: Seq<PayloadField>) -> Option<u64> {
    match find_number(fields, seconds_keys()) {
        Some(d) => whole_u64(d),
        None => None,
    }
}

/// The energy under the first alias, in order, that holds a usable number.
pub open spec fn find_energy(fields: Seq<PayloadField>, aliases: Seq<(Seq<char>, int)>) -> Option<i64>
    decreases aliases.len(),
{
    if aliases.len() == 0 {
        None
    } else {
        let here = match find_number(fields, seq![aliases[0].0]) {
            Some(d) => scaled_i64(d, aliases[0].1),
            None => None,
        };
        match here {
            Some(v) => Some(v),
            None => find_energy(fields, aliases.subrange(1, aliases.len() as int)),
        }
    }
}

pub open spec fn report2_of(p: Payload) -> Result<Report2, ParseError> {
    match p {
        Payload::NotObject => Err(ParseError::InvalidPayloadType),
        Payload::Object(fields) => match plugged_of(fields@) {
            Some(plugged) => Ok(Report2 { plugged, seconds: seconds_of(fields@) }),
            None => Err(ParseError::MissingField("Plug|State")),
        },
    }
}

pub open spec fn report3_of(p: Payload) -> Result<Report3, ParseError> {
    match p {
        Payload::NotObject => Err(ParseError::InvalidPayloadType),
        Payload::Object(fields) => {
            let present = find_energy(fields@, present_energy_keys());
            let total = find_energy(fields@, total_energy_keys());
            if present is None && total is None {
                Err(ParseError::MissingField("E pres|Energy (present session)|Total energy"))
            } else {
                Ok(Report3 { present_session_mwh: present, total_mwh: total })
            }
        },
    }
}

/// The payload's own timestamp: an integer `__tsMs` field.
pub open spec fn observed_at_of(p: Payload) -> Option<TimestampMs> {
    match p {
        Payload::Object(fields) => match find_exact(fields@, "__tsMs"@) {
            Some(PayloadValue::Number(t)) => match parse_json_number(t@) {
                Some(d) => if d.plain {
                    match scaled_i64(d, 0) {
                        Some(v) => Some(TimestampMs(v)),
                        None => None,
                    }
                } else {
                    None
                },
                None => None,
            },
            _ => None,
        },
        Payload::NotObject => None,
    }
}

/// The character sequences of several keys.
pub open spec fn views(v: Seq<Vec<char>>) -> Seq<Seq<char>> {
    Seq::new(v.len(), |i: int| v[i]@)
}

/// The characters of `s`.
pub fn chars_of(s: &str) -> (r: Vec<char>)
    ensures
        r@ == s@,
{
    let n = s.unicode_len();
    let mut out: Vec<char> = Vec::new();
    let mut i: usize = 0;
    while i < n
        invariant
            i <= n,
            n == s@.len(),
            out@ == s@.subrange(0, i as int),
        decreases n - i,
    {
        out.push(s.get_char(i));
        i += 1;
        assert(out@ =~= s@.subrange(0, i as int));
    }
    assert(s@.subrange(0, n as int) =~= s@);
    out
}

pub(crate) fn chars_equal(a: &Vec<char>, b: &Vec<char>) -> (r: bool)
    ensures
        r == (a@ == b@),
{
    if a.len() != b.len() {
        return false;
    }
    let mut i: usize = 0;
    while i < a.len()
        invariant
            i <= a.len() == b.len(),
            forall|j: int| 0 <= j < i ==> a@[j] == b@[j],
        decreases a.len() - i,
    {
        if a[i] != b[i] {
            return false;
        }
        i += 1;
    }
    assert(a@ =~= b@);
    true
}

/// `normalize_key` in executable form.
pub fn normalized_key(s: &Vec<char>) -> (r: Vec<char>)
    ensures
        r@ == normalize_key(s@),
{
    let mut out: Vec<char> = Vec::new();
    let mut i: usize = 0;
    while i < s.len()
        invariant
            i <= s.len(),
            out@ == normalize_key(s@.subrange(0, i as int)),
        decreases s.len() - i,
    {
        assert(s@.subrange(0, i + 1).drop_last() =~= s@.subrange(0, i as int));
        let c = s[i];
        if ('0' <= c && c <= '9') || ('a' <= c && c <= 'z') {
            out.push(c);
        } else if 'A' <= c && c <= 'Z' {
            out.push((((c as u32) + 32) as u8) as char);
        }
        i += 1;
    }
    assert(s@.subrange(0, s.len() as int) =~= s@);
    out
}

fn key_chars(fields: &Vec<PayloadField>, i: usize) -> (r: Vec<char>)
    requires
        i < fields.len(),
    ensures
        r@ == fields@[i as int].key@,
{
    chars_of(fields[i].key.as_str())
}

/// Index of the first field whose key is exactly `alias`.
fn find_exact_index(fields: &Vec<PayloadField>, alias: &Vec<char>) -> (r: Option<usize>)
    ensures
        match r {
            Some(i) => i < fields.len() && find_exact(fields@, alias@) == Some(fields@[i as int].value),
            None => find_exact(fields@, alias@) is None,
        },
{
    let mut i: usize = 0;
    assert(fields@.subrange(0, fields@.len() as int) =~= fields@);
    while i < fields.len()
        invariant
            i <= fields.len(),
            find_exact(fields@, alias@) == find_exact(fields@.subrange(i as int, fields@.len() as int), alias@),
        decreases fields.len() - i,
    {
        let ghost rest = fields@.subrange(i as int, fields@.len() as int);
        assert(rest.subrange(1, rest.len() as int) =~= fields@.subrange(i + 1, fields@.len() as int));
        assert(rest[0] == fields@[i as int]);
        let key = key_chars(fields, i);
        if chars_equal(&key, alias) {
            return Some(i);
        }
        i += 1;
    }
    None
}

/// Index of the field that `find_value` picks.
pub fn find_value_index(fields: &Vec<PayloadField>, aliases: &Vec<Vec<char>>) -> (r: Option<usize>)
    ensures
        match r {
            Some(i) => i < fields.len() && find_value(fields@, views(aliases@)) == Some(fields@[i as int].value),
            None => find_value(fields@, views(aliases@)) is None,
        },
{
    let ghost al = views(aliases@);
    let mut a: usize = 0;
    assert(al.subrange(0, al.len() as int) =~= al);
    while a < aliases.len()
        invariant
            a <= aliases.len() == al.len(),
            al == views(aliases@),
            find_any_exact(fields@, al) == find_any_exact(fields@, al.subrange(a as int, al.len() as int)),
        decreases aliases.len() - a,
    {
        let ghost rest = al.subrange(a as int, al.len() as int);
        assert(rest.subrange(1, rest.len() as int) =~= al.subrange(a + 1, al.len() as int));
        assert(rest[0] == aliases@[a as int]@);
        if let Some(i) = find_exact_index(fields, &aliases[a]) {
            return Some(i);
        }
        a += 1;
    }
    let mut normalized_aliases: Vec<Vec<char>> = Vec::new();
    let mut k: usize = 0;
    while k < aliases.len()
        invariant
            k <= aliases.len() == al.len(),
            al == views(aliases@),
            normalized_aliases@.len() == k,
            forall|j: int| 0 <= j < k ==> (#[trigger] normalized_aliases@[j])@ == normalize_key(al[j]),
        decreases aliases.len() - k,
    {
        normalized_aliases.push(normalized_key(&aliases[k]));
        k += 1;
    }
    let mut i: usize = 0;
    assert(fields@.subrange(0, fields@.len() as int) =~= fields@);
    while i < fields.len()
        invariant
            i <= fields.len(),
            al == views(aliases@),
            find_any_exact(fields@, al) is None,
            normalized_aliases@.len() == al.len(),
            forall|j: int| 0 <= j < al.len() ==> (#[trigger] normalized_aliases@[j])@ == normalize_key(al[j]),
            find_normalized(fields@, al) == find_normalized(fields@.subrange(i as int, fields@.len() as int), al),
        decreases fields.len() - i,
    {
        let ghost rest = fields@.subrange(i as int, fields@.len() as int);
        assert(rest.subrange(1, rest.len() as int) =~= fields@.subrange(i + 1, fields@.len() as int));
        assert(rest[0] == fields@[i as int]);
        let key = normalized_key(&key_chars(fields, i));
        let mut j: usize = 0;
        let mut found = false;
        while j < normalized_aliases.len() && !found
            invariant
                i < fields.len(),
                j <= normalized_aliases@.len() == al.len(),
                key@ == normalize_key(fields@[i as int].key@),
                forall|m: int| 0 <= m < al.len() ==> (#[trigger] normalized_aliases@[m])@ == normalize_key(al[m]),
                !found ==> forall|m: int| 0 <= m < j ==> normalize_key(#[trigger] al[m]) != key@,
                found ==> key_matches(fields@[i as int].key@, al),
            decreases normalized_aliases.len() - j,
        {
            if chars_equal(&normalized_aliases[j], &key) {
                assert(normalize_key(al[j as int]) == normalize_key(fields@[i as int].key@));
                found = true;
            }
            j += 1;
        }
        if found {
            assert(find_normalized(rest, al) == Some(fields@[i as int].value));
            return Some(i);
        }
        assert(!key_matches(fields@[i as int].key@, al));
        i += 1;
    }
    None
}

/// The number a value holds, as `number_of` describes.
pub fn value_number(v: &PayloadValue) -> (r: Option<DecimalParts>)
    ensures
        r is Some <==> number_of(*v) is Some,
        r matches Some(d) ==> d@ == number_of(*v)->0 && d.bounded(),
{
    match v {
        PayloadValue::Number(t) => parse_json_number_text(&chars_of(t.as_str())),
        PayloadValue::Text(t) => parse_number_text(&chars_of(t.as_str())),
        PayloadValue::Other => None,
    }
}

fn find_number_in(fields: &Vec<PayloadField>, aliases: &Vec<Vec<char>>) -> (r: Option<DecimalParts>)
    ensures
        r is Some <==> find_number(fields@, views(aliases@)) is Some,
        r matches Some(d) ==> d@ == find_number(fields@, views(aliases@))->0 && d.bounded(),
{
    match find_value_index(fields, aliases) {
        Some(i) => value_number(&fields[i].value),
        None => None,
    }
}

fn keys_of(names: &[&str]) -> (r: Vec<Vec<char>>)
    ensures
        r@.len() == names@.len(),
        forall|i: int| 0 <= i < names@.len() ==> (#[trigger] r@[i])@ == names@[i]@,
{
    let mut out: Vec<Vec<char>> = Vec::new();
    let mut i: usize = 0;
    while i < names.len()
        invariant
            i <= names@.len(),
            out@.len() == i,
            forall|j: int| 0 <= j < i ==> (#[trigger] out@[j])@ == names@[j]@,
        decreases names.len() - i,
    {
        out.push(chars_of(names[i]));
        i += 1;
    }
    out
}

/// Reads a plug report: whether a vehicle is plugged, and the seconds counter if given.
pub fn parse_report2(payload: &Payload) -> (r: Result<Report2, ParseError>)
    ensures
        r == report2_of(*payload),
{
    let fields = match payload {
        Payload::Object(fields) => fields,
        Payload::NotObject => return Err(ParseError::InvalidPayloadType),
    };
    let plug = keys_of(&["Plug", "plug", "plugged"]);
    let state = keys_of(&["State", "state", "Charging state", "charging_state"]);
    let seconds = keys_of(&["Seconds", "seconds", "Sec", "sec", "plugged seconds"]);
    assert(views(plug@) =~= plug_keys());
    assert(views(state@) =~= state_keys());
    assert(views(seconds@) =~= seconds_keys());
    let plugged = match find_number_in(fields, &plug) {
        Some(d) => any_nonzero_digit(&d.digits),
        None => match find_number_in(fields, &state) {
            Some(d) => decimal_is_positive(&d),
            None => return Err(ParseError::MissingField("Plug|State")),
        },
    };
    let seconds = match find_number_in(fields, &seconds) {
        Some(d) => decimal_whole_u64(&d),
        None => None,
    };
    Ok(Report2 { plugged, seconds })
}

fn find_energy_in(fields: &Vec<PayloadField>, names: &[&str], units: &[i64]) -> (r: Option<i64>)
    requires
        names@.len() == units@.len(),
        forall|i: int| 0 <= i < units@.len() ==> 0 <= #[trigger] units@[i] <= 6,
    ensures
        r == find_energy(fields@, Seq::new(names@.len(), |i: int| (names@[i]@, units@[i] as int))),
{
    let ghost all = Seq::new(names@.len(), |i: int| (names@[i]@, units@[i] as int));
    assert(all.subrange(0, all.len() as int) =~= all);
    let mut i: usize = 0;
    while i < names.len()
        invariant
            i <= names@.len() == units@.len() == all.len(),
            all == Seq::new(names@.len(), |i: int| (names@[i]@, units@[i] as int)),
            forall|i: int| 0 <= i < units@.len() ==> 0 <= #[trigger] units@[i] <= 6,
            find_energy(fields@, all) == find_energy(fields@, all.subrange(i as int, all.len() as int)),
        decreases names.len() - i,
    {
        let ghost rest = all.subrange(i as int, all.len() as int);
        assert(rest.subrange(1, rest.len() as int) =~= all.subrange(i + 1, all.len() as int));
        assert(rest[0] == (names@[i as int]@, units@[i as int] as int));
        let key = vec![chars_of(names[i])];
        assert(views(key@) =~= seq![rest[0].0]);
        let here = match find_number_in(fields, &key) {
            Some(d) => scale_to_i64(&d, units[i]),
            None => None,
        };
        if here.is_some() {
            return here;
        }
        i += 1;
    }
    None
}

/// Reads an energy report. `E pres` and `Total energy` are in Wh, the other aliases in kWh.
pub fn parse_report3(payload: &Payload) -> (r: Result<Report3, ParseError>)
    ensures
        r == report3_of(*payload),
{
    let fields = match payload {
        Payload::Object(fields) => fields,
        Payload::NotObject => return Err(ParseError::InvalidPayloadType),
    };
    let present_names = ["E pres", "Energy (present session)", "energy_present_session", "EnergyPresentSession"];
    let total_names = ["Total energy", "Energy (total)", "energy_total", "EnergyTotal"];
    let units = [3i64, 6, 6, 6];
    let present = find_energy_in(fields, &present_names, &units);
    let total = find_energy_in(fields, &total_names, &units);
    assert(Seq::new(4, |i: int| (present_names@[i]@, units@[i] as int)) =~= present_energy_keys());
    assert(Seq::new(4, |i: int| (total_names@[i]@, units@[i] as int)) =~= total_energy_keys());
    if present.is_none() && total.is_none() {
        return Err(ParseError::MissingField("E pres|Energy (present session)|Total energy"));
    }
    Ok(Report3 { present_session_mwh: present, total_mwh: total })
}

/// The timestamp a payload carries for its own observation, if any.
pub fn extract_observed_at(payload: &Payload) -> (r: Option<TimestampMs>)
    ensures
        r == observed_at_of(*payload),
{
    let fields = match payload {
        Payload::Object(fields) => fields,
        Payload::NotObject => return None,
    };
    let key = chars_of("__tsMs");
    match find_exact_index(fields, &key) {
        Some(i) => match &fields[i].value {
            PayloadValue::Number(t) => match parse_json_number_text(&chars_of(t.as_str())) {
                Some(d) => {
                    if d.plain {
                        match scale_to_i64(&d, 0) {
                            Some(v) => Some(TimestampMs(v)),
                            None => None,
                        }
                    } else {
                        None
                    }
                },
                None => None,
            },
            _ => None,
        },
        None => None,
    }
}

} // verus!
