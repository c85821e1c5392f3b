//! Bindings: the validated form of a configured input.

use vstd::prelude::*;
use crate::conf::{ExecModel, Input};
use crate::press::{get_action, Action};
use crate::text::to_chars;

verus! {

/// The highest note number that MIDI knows.
pub const MAX_NOTE: u8 = 127;

/// What a binding holds, as plain values.
pub struct BindingModel {
    pub port_pattern: Seq<char>,
    pub note: u8,
    pub action: ExecModel,
    pub hold_nanos: u128,
}

/// One rule: a note on a port, the action that it triggers, and how long the
/// note must be held for that. A hold time of zero means that the action is
/// triggered as soon as the note is pressed.
#[derive(Debug, PartialEq, Eq)]
pub struct Binding {
    /// A part of the name of the port to listen on.
    pub port_pattern: String,
    /// The note number, at most `MAX_NOTE`.
    pub note: u8,
    /// What to run.
    pub action: Action,
    /// The hold time in nanoseconds; zero where none is asked for.
    pub hold_nanos: u128,
}

impl View for Binding {
    type V = BindingModel;

    open spec fn view(&self) -> BindingModel {
        BindingModel {
            port_pattern: self.port_pattern@,
            note: self.note,
            action: self.action@,
            hold_nanos: self.hold_nanos,
        }
    }
}

impl Binding {
    /// The note is one that a MIDI message can carry.
    pub open spec fn well_formed(&self) -> bool {
        self.note <= MAX_NOTE
    }
}

/// Why a configured input is refused.
#[derive(Debug, PartialEq, Eq, Clone, Copy)]
pub enum ConfigError {
    /// The note is not a decimal number.
    InvalidNote,
    /// The note is a number above `MAX_NOTE`.
    NoteOutOfRange,
    /// The hold time is not a duration.
    InvalidHoldTime,
}

/// A decimal digit.
pub open spec fn is_digit(c: char) -> bool {
    '0' <= c <= '9'
}

/// The number that a decimal digit stands for.
pub open spec fn digit_value(c: char) -> nat {
    (c as u32 - '0' as u32) as nat
}

/// The number that a run of decimal digits stands for.
pub open spec fn decimal_value(digits: Seq<char>) -> nat
    decreases digits.len(),
{
    if digits.len() == 0 {
        0
    } else {
        decimal_value(digits.drop_last()) * 10 + digit_value(digits.last())
    }
}

/// The digits of a note's text: the text without a leading `+`.
pub open spec fn note_digits(text: Seq<char>) -> Seq<char> {
    if text.len() > 0 && text[0] == '+' {
        text.skip(1)
    } else {
        text
    }
}

/// The note that a text stands for: one or more decimal digits, after a `+`
/// or not, whose value is at most `MAX_NOTE`.
pub open spec fn note_value(text: Seq<char>) -> Result<u8, ConfigError> {
    let digits = note_digits(text);
    if digits.len() == 0 || exists|i: int| 0 <= i < digits.len() && !is_digit(#[trigger] digits[i]) {
        Err(ConfigError::InvalidNote)
    } else if decimal_value(digits) > MAX_NOTE {
        Err(ConfigError::NoteOutOfRange)
    } else {
        Ok(decimal_value(digits) as u8)
    }
}

/// A run of digits is worth at least as much as each of its beginnings.
pub proof fn decimal_value_grows(digits: Seq<char>, n: int)
    requires
        0 <= n <= digits.len(),
    ensures
        decimal_value(digits.take(n)) <= decimal_value(digits),
    decreases digits.len(),
{
    if n == digits.len() {
        assert(digits.take(n) =~= digits);
    } else {
        assert(digits.drop_last().take(n) =~= digits.take(n));
        decimal_value_grows(digits.drop_last(), n);
    }
}

/// Reads a note number.
pub fn parse_note(text: &str) -> (note: Result<u8, ConfigError>)
    ensures
        note == note_value(text@),
{
    let chars = to_chars(text);
    let first: usize = if chars.len() > 0 && chars[0] == '+' {
        1
    } else {
        0
    };
    let ghost digits = note_digits(text@);
    let count: usize = chars.len() - first;
    if count == 0 {
        return Err(ConfigError::InvalidNote);
    }
    let mut k: usize = 0;
    while k < count
        invariant
            chars@ == text@,
            digits == note_digits(text@),
            first + count == chars.len(),
            digits.len() == count,
            forall|i: int| 0 <= i < count ==> digits[i] == chars[first + i],
            k <= count,
            forall|i: int| 0 <= i < k ==> is_digit(#[trigger] digits[i]),
        decreases count - k,
    {
        let c: char = chars[first + k];
        if c < '0' || c > '9' {
            assert(!is_digit(digits[k as int]));
            return Err(ConfigError::InvalidNote);
        }
        k += 1;
    }
    let mut value: u32 = 0;
    k = 0;
    while k < count
        invariant
            chars@ == text@,
            digits == note_digits(text@),
            first + count == chars.len(),
            digits.len() == count,
            forall|i: int| 0 <= i < count ==> digits[i] == chars[first + i],
            forall|i: int| 0 <= i < count ==> is_digit(#[trigger] digits[i]),
            k <= count,
            value == decimal_value(digits.take(k as int)),
            value <= MAX_NOTE,
        decreases count - k,
    {
        let c: char = chars[first + k];
        assert(is_digit(digits[k as int]));
        let digit: u32 = c as u32 - '0' as u32;
        proof {
            assert(digits.take(k + 1).drop_last() =~= digits.take(k as int));
            assert(digits.take(k + 1).last() == c);
        }
        value = value * 10 + digit;
        k += 1;
        if value > MAX_NOTE as u32 {
            proof {
                decimal_value_grows(digits, k as int);
            }
            return Err(ConfigError::NoteOutOfRange);
        }
    }
    assert(digits.take(count as int) =~= digits);
    Ok(value as u8)
}

/// What `parse_duration::parse` makes of a text: nothing where it refuses the
/// text, else the whole seconds and the nanoseconds beyond them.
pub uninterp spec fn parsed_duration(text: Seq<char>) -> Option<(u64, u32)>;

/// A character that cannot begin an exponent's digits: an ASCII character
/// that is neither a digit nor a sign.
pub open spec fn cannot_begin_exponent(c: char) -> bool {
    (c as u32) < 128 && !is_digit(c) && c != '+' && c != '-'
}

/// The letter `e` at position `at` may begin an exponent.
pub open spec fn may_begin_exponent(text: Seq<char>, at: int) -> bool {
    0 <= at && at + 1 < text.len() && (text[at] == 'e' || text[at] == 'E') && !cannot_begin_exponent(
        text[at + 1],
    )
}

/// The text may hold a number in scientific notation. Hold times are written
/// without: the duration parser raises ten to the exponent whatever its size.
pub open spec fn has_exponent(text: Seq<char>) -> bool {
    exists|at: int| may_begin_exponent(text, at)
}

/// Whether a text may hold a number in scientific notation.
pub fn find_exponent(text: &str) -> (found: bool)
    ensures
        found == has_exponent(text@),
{
    let chars = to_chars(text);
    if chars.len() < 2 {
        assert(forall|at: int| !may_begin_exponent(text@, at));
        return false;
    }
    let mut at: usize = 0;
    while at + 1 < chars.len()
        invariant
            chars@ == text@,
            at + 1 <= chars.len(),
            forall|k: int| 0 <= k < at ==> !may_begin_exponent(text@, k),
        decreases chars.len() - at,
    {
        let c: char = chars[at];
        let next: char = chars[at + 1];
        let plain: bool = (next as u32) < 128 && !('0' <= next && next <= '9') && next != '+'
            && next != '-';
        if (c == 'e' || c == 'E') && !plain {
            assert(may_begin_exponent(text@, at as int));
            return true;
        }
        at += 1;
    }
    assert(forall|k: int| !may_begin_exponent(text@, k));
    false
}

/// The error of `parse_duration::parse`, carried through unread.
#[verifier::external_type_specification]
#[verifier::external_body]
pub struct ExDurationError(parse_duration::parse::Error);

/// Calls `parse_duration::parse` and takes the duration apart with
/// `Duration::as_secs` and `Duration::subsec_nanos`. Trusted: the outcome
/// depends on the text alone, and on a text without an exponent the parser
/// returns.
#[verifier::external_body]
fn parse_duration_text(text: &str) -> (parsed: Result<(u64, u32), parse_duration::parse::Error>)
    requires
        !has_exponent(text@),
    ensures
        parsed is Ok <==> parsed_duration(text@) is Some,
        parsed matches Ok(d) ==> parsed_duration(text@) == Some(d),
{
    parse_duration::parse(text).map(|d| (d.as_secs(), d.subsec_nanos()))
}

/// A duration in nanoseconds.
pub open spec fn nanos_of(secs: u64, nanos: u32) -> u128 {
    (secs * 1_000_000_000 + nanos) as u128
}

/// Puts the two parts of a duration together.
pub fn total_nanos(secs: u64, nanos: u32) -> (total: u128)
    ensures
        total == nanos_of(secs, nanos),
        total == secs * 1_000_000_000 + nanos,
{
    let whole: u128 = secs as u128;
    assert(whole * 1_000_000_000 + nanos <= u128::MAX) by (nonlinear_arith)
        requires
            whole <= u64::MAX,
            nanos <= u32::MAX,
    ;
    whole * 1_000_000_000 + (nanos as u128)
}

/// The view of a text that may be missing.
pub open spec fn option_text(text: Option<String>) -> Option<Seq<char>> {
    match text {
        Some(t) => Some(t@),
        None => None,
    }
}

/// The hold time, in nanoseconds, that a configured text stands for: zero
/// where there is none.
pub open spec fn hold_of(hold_time: Option<Seq<char>>) -> Result<u128, ConfigError> {
    match hold_time {
        None => Ok(0u128),
        Some(text) => if has_exponent(text) {
            Err(ConfigError::InvalidHoldTime)
        } else {
            match parsed_duration(text) {
                Some((secs, nanos)) => Ok(nanos_of(secs, nanos)),
                None => Err(ConfigError::InvalidHoldTime),
            }
        },
    }
}

/// Reads a hold time.
pub fn parse_hold_time(hold_time: &Option<String>) -> (hold: Result<u128, ConfigError>)
    ensures
        hold == hold_of(option_text(*hold_time)),
{
    match hold_time {
        None => Ok(0),
        Some(text) => {
            if find_exponent(text.as_str()) {
                return Err(ConfigError::InvalidHoldTime);
            }
            match parse_duration_text(text.as_str()) {
                Ok((secs, nanos)) => Ok(total_nanos(secs, nanos)),
                Err(_) => Err(ConfigError::InvalidHoldTime),
            }
        },
    }
}

/// The binding that a configured input stands for.
pub open spec fn binding_of(input: Input) -> Result<BindingModel, ConfigError> {
    match note_value(input.note@) {
        Err(e) => Err(e),
        Ok(note) => match hold_of(option_text(input.hold_time)) {
            Err(e) => Err(e),
            Ok(hold_nanos) => Ok(
                BindingModel {
                    port_pattern: input.port@,
                    note,
                    action: input.command@,
                    hold_nanos,
                },
            ),
        },
    }
}

/// Validates a configured input. The note is looked at first, then the hold
/// time.
pub fn resolve_binding(input: &Input) -> (binding: Result<Binding, ConfigError>)
    ensures
        match binding {
            Ok(b) => binding_of(*input) == Ok::<BindingModel, ConfigError>(b@) && b.well_formed(),
            Err(e) => binding_of(*input) == Err::<BindingModel, ConfigError>(e),
        },
{
    let note = match parse_note(input.note.as_str()) {
        Ok(n) => n,
        Err(e) => { return Err(e); },
    };
    let hold_nanos = match parse_hold_time(&input.hold_time) {
        Ok(h) => h,
        Err(e) => { return Err(e); },
    };
    Ok(Binding { port_pattern: input.port.clone(), note, action: get_action(input), hold_nanos })
}

} // verus!
