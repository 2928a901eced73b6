use vstd::prelude::*;

use crate::keba_payload::{chars_of, find_exact, key_matches, normalized_key, Payload, PayloadField, PayloadValue};
use crate::numeric::{
    decimal_is_positive, is_positive, numeric_tokens, parse_json_number, parse_json_number_text, parse_plain,
    replace_char, scale_to_i64, scaled_i64, Decimal, DecimalParts,
};

verus! {

/// A number in free text as the console reads it: commas become points, and the first run
/// of number characters must read as a number.
pub open spec fn console_number_in_text(s: Seq<char>) -> Option<Decimal> {
    let tokens = numeric_tokens(replace_char(s, ',', '.'));
    if tokens.len() == 0 {
        None
    } else {
        parse_plain(tokens[0])
    }
}

pub open spec fn console_number_of(v: PayloadValue) -> Option<Decimal> {
    match v {
        PayloadValue::Number(t) => parse_json_number(t@),
        PayloadValue::Text(t) => console_number_in_text(t@),
        PayloadValue::Other => None,
    }
}

/// The number under the first alias whose exact key holds one.
pub open spec fn exact_number(fields: Seq<PayloadField>, aliases: Seq<Seq<char>>) -> Option<Decimal>
    decreases aliases.len(),
{
    if aliases.len() == 0 {
        None
    } else {
        let here = match find_exact(fields, aliases[0]) {
            Some(v) => console_number_of(v),
            None => None,
        };
        match here {
            Some(d) => Some(d),
            None => exact_number(fields, aliases.subrange(1, aliases.len() as int)),
        }
    }
}

/// The number of the first field, in order, whose normalized key matches and that holds one.
pub open spec fn normalized_number(fields: Seq<PayloadField>, aliases: Seq<Seq<char>>) -> Option<Decimal>
    decreases fields.len(),
{
    if fields.len() == 0 {
        None
    } else if key_matches(fields[0].key@, aliases) && console_number_of(fields[0].value) is Some {
        console_number_of(fields[0].value)
    } else {
        normalized_number(fields.subrange(1, fields.len() as int), aliases)
    }
}

pub open spec fn console_number(p: Payload, aliases: Seq<Seq<char>>) -> Option<Decimal> {
    match p {
        Payload::Object(fields) => match exact_number(fields@, aliases) {
            Some(d) => Some(d),
            None => normalized_number(fields@, aliases),
        },
        Payload::NotObject => None,
    }
}

/// Exactly one: a single non-zero digit, a 1, in the units place.
pub open spec fn is_one(d: Decimal) -> bool {
    &&& !d.negative
    &&& exists|p: int| 0 <= p < d.digits.len() && d.digits[p] == '1'
        && (forall|i: int| 0 <= i < d.digits.len() && i != p ==> d.digits[i] == '0')
        && d.digits.len() - 1 - p - d.frac_len + d.exp == 0
}

pub open spec fn nonzero(d: Option<Decimal>) -> bool {
    d matches Some(v) && crate::numeric::has_nonzero_digit(v.digits)
}

pub open spec fn positive(d: Option<Decimal>) -> bool {
    d matches Some(v) && is_positive(v)
}

pub open spec fn one(d: Option<Decimal>) -> bool {
    d matches Some(v) && is_one(v)
}

/// How a station is doing, from its plug and energy reports.
#[derive(Debug, Clone, Copy, PartialEq, Eq, Structural)]
pub enum ConsoleStatus {
    Fault,
    NotPlugged,
    Charging,
    PluggedDisabled,
    PluggedReady,
}

pub open spec fn console_status_of(report2: Payload, report3: Payload) -> ConsoleStatus {
    let plugged = nonzero(console_number(report2, seq!["Plug"@]));
    let enabled = one(console_number(report2, seq!["Enable sys"@])) && one(console_number(report2, seq!["Enable user"@]))
        && positive(console_number(report2, seq!["Max curr"@]));
    let fault = nonzero(console_number(report2, seq!["Error1"@])) || nonzero(console_number(report2, seq!["Error2"@]));
    let charging = positive(console_number(report3, seq!["P"@]));
    if fault {
        ConsoleStatus::Fault
    } else if !plugged {
        ConsoleStatus::NotPlugged
    } else if charging {
        ConsoleStatus::Charging
    } else if !enabled {
        ConsoleStatus::PluggedDisabled
    } else {
        ConsoleStatus::PluggedReady
    }
}

impl ConsoleStatus {
    pub fn text(&self) -> (r: &'static str)
        ensures
            r@ == match *self {
                ConsoleStatus::Fault => "Fehler"@,
                ConsoleStatus::NotPlugged => "Nicht angesteckt"@,
                ConsoleStatus::Charging => "Laedt"@,
                ConsoleStatus::PluggedDisabled => "Angesteckt, gesperrt/deaktiviert"@,
                ConsoleStatus::PluggedReady => "Angesteckt, wartet/bereit"@,
            },
    {
        match self {
            ConsoleStatus::Fault => "Fehler",
            ConsoleStatus::NotPlugged => "Nicht angesteckt",
            ConsoleStatus::Charging => "Laedt",
            ConsoleStatus::PluggedDisabled => "Angesteckt, gesperrt/deaktiviert",
            ConsoleStatus::PluggedReady => "Angesteckt, wartet/bereit",
        }
    }
}

fn value_console_number(v: &PayloadValue) -> (r: Option<DecimalParts>)
    ensures
        r is Some <==> console_number_of(*v) is Some,
        r matches Some(d) ==> d@ == console_number_of(*v)->0 && d.bounded(),
{
    match v {
        PayloadValue::Number(t) => parse_json_number_text(&chars_of(t.as_str())),
        PayloadValue::Text(t) => {
            let chars = chars_of(t.as_str());
            let mut dotted: Vec<char> = Vec::new();
            let mut i: usize = 0;
            while i < chars.len()
                invariant
                    i <= chars.len(),
                    dotted@ == replace_char(chars@.subrange(0, i as int), ',', '.'),
                decreases chars.len() - i,
            {
                assert(chars@.subrange(0, i + 1).drop_last() =~= chars@.subrange(0, i as int));
                if chars[i] == ',' {
                    dotted.push('.');
                } else {
                    dotted.push(chars[i]);
                }
                i += 1;
            }
            assert(chars@.subrange(0, chars.len() as int) =~= chars@);
            let tokens = crate::numeric::extract_numeric_tokens(&dotted);
            if tokens.len() == 0 {
                None
            } else {
                assert(tokens@[0]@.subrange(0, tokens@[0]@.len() as int) =~= tokens@[0]@);
                crate::numeric::parse_plain_range(&tokens[0], 0, tokens[0].len())
            }
        },
        PayloadValue::Other => None,
    }
}

fn exact_index(fields: &Vec<PayloadField>, alias: &Vec<char>) -> (r: Option<usize>)
    ensures
        match r {
            Some(i) => i < fields.len() && find_exact(fields@, alias@) == Some(fields@[i as int].value),
            None => find_exact(fields@, alias@) is None,
        },
{
    let mut i: usize = 0;
    assert(fields@.subrange(0, fields@.len() as int) =~= fields@);
    while i < fields.len()
        invariant
            i <= fields.len(),
            find_exact(fields@, alias@) == find_exact(fields@.subrange(i as int, fields@.len() as int), alias@),
        decreases fields.len() - i,
    {
        let ghost rest = fields@.subrange(i as int, fields@.len() as int);
        assert(rest.subrange(1, rest.len() as int) =~= fields@.subrange(i + 1, fields@.len() as int));
        assert(rest[0] == fields@[i as int]);
        let key = chars_of(fields[i].key.as_str());
        if crate::keba_payload::chars_equal(&key, alias) {
            return Some(i);
        }
        i += 1;
    }
    None
}

/// The number the console reads under `alias`, as `console_number` describes.
fn number_at(payload: &Payload, alias: &str) -> (r: Option<DecimalParts>)
    ensures
        r is Some <==> console_number(*payload, seq![alias@]) is Some,
        r matches Some(d) ==> d@ == console_number(*payload, seq![alias@])->0 && d.bounded(),
{
    let fields = match payload {
        Payload::Object(fields) => fields,
        Payload::NotObject => return None,
    };
    let key = chars_of(alias);
    let ghost al = seq![alias@];
    assert(al.subrange(1, al.len() as int) =~= Seq::<Seq<char>>::empty());
    assert(exact_number(fields@, Seq::<Seq<char>>::empty()) == None::<Decimal>);
    assert(al[0] == alias@);
    assert(exact_number(fields@, al) == match find_exact(fields@, alias@) {
        Some(v) => console_number_of(v),
        None => None,
    });
    if let Some(i) = exact_index(fields, &key) {
        let found = value_console_number(&fields[i].value);
        if found.is_some() {
            return found;
        }
    }
    let normalized_alias = normalized_key(&key);
    let mut i: usize = 0;
    assert(fields@.subrange(0, fields@.len() as int) =~= fields@);
    while i < fields.len()
        invariant
            i <= fields.len(),
            al == seq![alias@],
            console_number(*payload, al) == normalized_number(fields@, al),
            normalized_alias@ == crate::keba_payload::normalize_key(alias@),
            normalized_number(fields@, al) == normalized_number(fields@.subrange(i as int, fields@.len() as int), al),
        decreases fields.len() - i,
    {
        let ghost rest = fields@.subrange(i as int, fields@.len() as int);
        assert(rest.subrange(1, rest.len() as int) =~= fields@.subrange(i + 1, fields@.len() as int));
        assert(rest[0] == fields@[i as int]);
        let key_i = normalized_key(&chars_of(fields[i].key.as_str()));
        let matches_alias = crate::keba_payload::chars_equal(&key_i, &normalized_alias);
        assert(matches_alias == key_matches(fields@[i as int].key@, al)) by {
            if key_matches(fields@[i as int].key@, al) {
                let j = choose|j: int| 0 <= j < al.len() && crate::keba_payload::normalize_key(#[trigger] al[j])
                    == crate::keba_payload::normalize_key(fields@[i as int].key@);
                assert(j == 0);
            }
            if matches_alias {
                assert(crate::keba_payload::normalize_key(al[0]) == crate::keba_payload::normalize_key(fields@[i as int].key@));
            }
        }
        if matches_alias {
            let found = value_console_number(&fields[i].value);
            if found.is_some() {
                assert(normalized_number(rest, al) == console_number_of(fields@[i as int].value));
                return found;
            }
        }
        i += 1;
    }
    assert(fields@.subrange(i as int, fields@.len() as int).len() == 0);
    None
}

fn is_one_decimal(d: &DecimalParts) -> (r: bool)
    requires
        d.bounded(),
    ensures
        r == is_one(d@),
{
    let mut first: Option<usize> = None;
    let mut multiple = false;
    let mut i: usize = 0;
    while i < d.digits.len()
        invariant
            i <= d.digits.len(),
            first is None ==> !multiple && forall|k: int| 0 <= k < i ==> d.digits@[k] == '0',
            first matches Some(p) ==> p < i && d.digits@[p as int] != '0'
                && (forall|k: int| 0 <= k < p ==> d.digits@[k] == '0')
                && (!multiple ==> forall|k: int| p < k < i ==> d.digits@[k] == '0')
                && (multiple ==> exists|k: int| p < k < i && d.digits@[k] != '0'),
        decreases d.digits.len() - i,
    {
        if d.digits[i] != '0' {
            match first {
                None => {
                    first = Some(i);
                },
                Some(p) => {
                    multiple = true;
                    assert(p < i && d.digits@[i as int] != '0');
                },
            }
        }
        i += 1;
    }
    let p = match first {
        None => {
            proof {
                if is_one(d@) {
                    let q = choose|q: int| 0 <= q < d@.digits.len() && d@.digits[q] == '1'
                        && (forall|k: int| 0 <= k < d@.digits.len() && k != q ==> d@.digits[k] == '0')
                        && d@.digits.len() - 1 - q - d@.frac_len + d@.exp == 0;
                    assert(d.digits@[q] == '0');
                }
            }
            return false;
        },
        Some(p) => p,
    };
    if d.negative || multiple || d.digits[p] != '1' {
        proof {
            if is_one(d@) {
                let q = choose|q: int| 0 <= q < d@.digits.len() && d@.digits[q] == '1'
                    && (forall|k: int| 0 <= k < d@.digits.len() && k != q ==> d@.digits[k] == '0')
                    && d@.digits.len() - 1 - q - d@.frac_len + d@.exp == 0;
                assert(q == p);
                if multiple {
                    let k = choose|k: int| p < k < d.digits@.len() && d.digits@[k] != '0';
                    assert(d@.digits[k] == '0');
                }
            }
        }
        return false;
    }
    let place: i128 = d.digits.len() as i128 - 1 - p as i128 - d.frac_len as i128 + d.exp as i128;
    proof {
        if place == 0 {
            assert(forall|k: int| 0 <= k < d@.digits.len() && k != p ==> d@.digits[k] == '0');
            assert(d@.digits[p as int] == '1');
            assert(d@.digits.len() - 1 - p - d@.frac_len + d@.exp == 0);
            assert(is_one(d@));
        } else if is_one(d@) {
            let q = choose|q: int| 0 <= q < d@.digits.len() && d@.digits[q] == '1'
                && (forall|k: int| 0 <= k < d@.digits.len() && k != q ==> d@.digits[k] == '0')
                && d@.digits.len() - 1 - q - d@.frac_len + d@.exp == 0;
            if q != p {
                assert(d@.digits[p as int] == '0');
            }
            assert(q == p);
        }
    }
    place == 0
}

fn nonzero_at(payload: &Payload, alias: &str) -> (r: bool)
    ensures
        r == nonzero(console_number(*payload, seq![alias@])),
{
    match number_at(payload, alias) {
        Some(d) => crate::numeric::any_nonzero_digit(&d.digits),
        None => false,
    }
}

fn positive_at(payload: &Payload, alias: &str) -> (r: bool)
    ensures
        r == positive(console_number(*payload, seq![alias@])),
{
    match number_at(payload, alias) {
        Some(d) => decimal_is_positive(&d),
        None => false,
    }
}

fn one_at(payload: &Payload, alias: &str) -> (r: bool)
    ensures
        r == one(console_number(*payload, seq![alias@])),
{
    match number_at(payload, alias) {
        Some(d) => is_one_decimal(&d),
        None => false,
    }
}

/// A station's status: a fault, else unplugged, else charging, else disabled or ready.
pub fn derive_console_status(report2: &Payload, report3: &Payload) -> (r: ConsoleStatus)
    ensures
        r == console_status_of(*report2, *report3),
{
    let plugged = nonzero_at(report2, "Plug");
    let enabled = one_at(report2, "Enable sys") && one_at(report2, "Enable user") && positive_at(report2, "Max curr");
    let fault = nonzero_at(report2, "Error1") || nonzero_at(report2, "Error2");
    let charging = positive_at(report3, "P");
    if fault {
        ConsoleStatus::Fault
    } else if !plugged {
        ConsoleStatus::NotPlugged
    } else if charging {
        ConsoleStatus::Charging
    } else if !enabled {
        ConsoleStatus::PluggedDisabled
    } else {
        ConsoleStatus::PluggedReady
    }
}

/// Whether the plug report says a vehicle is connected.
pub fn console_plugged(report2: &Payload) -> (r: bool)
    ensures
        r == nonzero(console_number(*report2, seq!["Plug"@])),
{
    nonzero_at(report2, "Plug")
}

/// Whether the energy report shows power flowing.
pub fn console_charging(report3: &Payload) -> (r: bool)
    ensures
        r == positive(console_number(*report3, seq!["P"@])),
{
    positive_at(report3, "P")
}

/// The present session's energy in milliwatt-hours: `E pres` in tenths of a watt-hour,
/// else `Energy (present session)` in kWh.
pub fn console_session_energy_mwh(report3: &Payload) -> (r: Option<i64>)
    ensures
        r == match console_number(*report3, seq!["E pres"@]) {
            Some(d) => scaled_i64(d, 2),
            None => match console_number(*report3, seq!["Energy (present session)"@]) {
                Some(d) => scaled_i64(d, 6),
                None => None,
            },
        },
{
    match number_at(report3, "E pres") {
        Some(d) => scale_to_i64(&d, 2),
        None => match number_at(report3, "Energy (present session)") {
            Some(d) => scale_to_i64(&d, 6),
            None => None,
        },
    }
}

} // verus!
