//! Turns Android telephony diagnostics (`dumpsys telephony.registry`,
//! `dumpsys telecom`) into a normalized call state and the caller's number.
//!
//! The diagnostics are matched with the `regex` crate; what a pattern
//! captures is named below (`regex_group1_matches`) and the rest of the
//! parser is proved over those names.
use vstd::prelude::*;
use crate::call::state::{CallMetadata, CallState};
use crate::text::{
    chars_eq_str, chars_of, count_digits, digit_count, str_to_uppercase, string_of, trim_chars,
    trim_seq, trim_text, to_uppercase_text, utf8_len, utf8_len_capped,
};

verus! {

// ---------------------------------------------------------------------------
// The regex crate
// ---------------------------------------------------------------------------

/// `regex::Error`, the error of `Regex::new`, carried opaquely.
#[verifier::external_type_specification]
#[verifier::external_body]
pub struct ExRegexError(regex::Error);

/// Whether `regex::Regex::new` accepts `pattern`.
pub uninterp spec fn regex_accepts(pattern: Seq<char>) -> bool;

/// For each match that `regex::Regex::captures_iter` yields on `haystack`,
/// in order, the text of capture group 1, or `None` where that group did
/// not take part in the match.
pub uninterp spec fn regex_group1_matches(pattern: Seq<char>, haystack: Seq<char>) -> Seq<
    Option<Seq<char>>,
>;

/// Compiles `pattern` with `regex::Regex::new` and runs
/// `Regex::captures_iter` over `haystack`, keeping group 1 of every match.
/// The contract claims that compilation succeeds exactly when the pattern is
/// accepted, and that the group texts are those the crate yields; it does not
/// restate the regex semantics.
#[verifier::external_body]
fn group_one_captures(pattern: &str, haystack: &str) -> (r: Result<
    Vec<Option<Vec<char>>>,
    regex::Error,
>)
    ensures
        r is Ok <==> regex_accepts(pattern@),
        r matches Ok(v) ==> v.deep_view() == regex_group1_matches(pattern@, haystack@),
{
    let re = regex::Regex::new(pattern)?;
    Ok(re.captures_iter(haystack).map(|c| c.get(1).map(|m| m.as_str().chars().collect())).collect())
}

/// Group-1 texts of `pattern` on `raw`; a pattern the crate refuses
/// contributes no match (the fixed patterns below are all valid, so this
/// only keeps the parser total).
pub open spec fn captures(pattern: Seq<char>, raw: Seq<char>) -> Seq<Option<Seq<char>>> {
    if regex_accepts(pattern) {
        regex_group1_matches(pattern, raw)
    } else {
        Seq::empty()
    }
}

fn capture_tokens(pattern: &str, raw: &str) -> (r: Vec<Option<Vec<char>>>)
    ensures
        r.deep_view() == captures(pattern@, raw@),
{
    match group_one_captures(pattern, raw) {
        Ok(v) => v,
        Err(_) => {
            let v: Vec<Option<Vec<char>>> = Vec::new();
            assert(v.deep_view() =~= Seq::<Option<Seq<char>>>::empty());
            v
        },
    }
}

// ---------------------------------------------------------------------------
// Patterns
// ---------------------------------------------------------------------------

pub open spec fn ringing_call_state_pattern() -> Seq<char> {
    r"(?i)\bmRingingCallState\s*=\s*([0-9A-Z_]+)"@
}

pub open spec fn foreground_call_state_pattern() -> Seq<char> {
    r"(?i)\bmForegroundCallState\s*=\s*([0-9A-Z_]+)"@
}

pub open spec fn call_state_pattern() -> Seq<char> {
    r"(?i)\bmCallState\s*=\s*([0-9A-Z_]+)"@
}

pub open spec fn call_state_sub_pattern() -> Seq<char> {
    r"(?i)\bmCallState(?:\[\d+\]|\s*\(subId=\d+\))?\s*[:=]\s*([0-9A-Z_]+)"@
}

pub open spec fn call_state_val_pattern() -> Seq<char> {
    r"(?i)\bcall_?state\s*[:=]\s*([0-9A-Z_]+)"@
}

pub open spec fn incoming_number_pattern() -> Seq<char> {
    r"(?i)\bm?CallIncomingNumber\s*=\s*([+0-9A-Za-z\-_]+)"@
}

pub open spec fn telecom_active_call_pattern() -> Seq<char> {
    r"(?i)\[Call\s+id=[^,]+,\s*state=([A-Z_]+)"@
}

pub open spec fn telecom_state_pattern() -> Seq<char> {
    r"(?i)\bState:\s*([A-Z_]+)"@
}

fn ringing_call_state_regex() -> (r: &'static str)
    ensures
        r@ == ringing_call_state_pattern(),
{
    r"(?i)\bmRingingCallState\s*=\s*([0-9A-Z_]+)"
}

fn foreground_call_state_regex() -> (r: &'static str)
    ensures
        r@ == foreground_call_state_pattern(),
{
    r"(?i)\bmForegroundCallState\s*=\s*([0-9A-Z_]+)"
}

fn call_state_regex() -> (r: &'static str)
    ensures
        r@ == call_state_pattern(),
{
    r"(?i)\bmCallState\s*=\s*([0-9A-Z_]+)"
}

fn call_state_sub_regex() -> (r: &'static str)
    ensures
        r@ == call_state_sub_pattern(),
{
    r"(?i)\bmCallState(?:\[\d+\]|\s*\(subId=\d+\))?\s*[:=]\s*([0-9A-Z_]+)"
}

fn call_state_val_regex() -> (r: &'static str)
    ensures
        r@ == call_state_val_pattern(),
{
    r"(?i)\bcall_?state\s*[:=]\s*([0-9A-Z_]+)"
}

fn incoming_number_regex() -> (r: &'static str)
    ensures
        r@ == incoming_number_pattern(),
{
    r"(?i)\bm?CallIncomingNumber\s*=\s*([+0-9A-Za-z\-_]+)"
}

fn telecom_active_call_regex() -> (r: &'static str)
    ensures
        r@ == telecom_active_call_pattern(),
{
    r"(?i)\[Call\s+id=[^,]+,\s*state=([A-Z_]+)"
}

fn telecom_state_regex() -> (r: &'static str)
    ensures
        r@ == telecom_state_pattern(),
{
    r"(?i)\bState:\s*([A-Z_]+)"
}

// ---------------------------------------------------------------------------
// State tokens and priorities
// ---------------------------------------------------------------------------

/// State named by an upper-cased token.
pub open spec fn keyword_state(k: Seq<char>) -> CallState {
    if k == "0"@ || k == "IDLE"@ || k == "CALL_STATE_IDLE"@ || k == "DISCONNECTED"@ {
        CallState::Idle
    } else if k == "1"@ || k == "RINGING"@ || k == "CALL_STATE_RINGING"@ {
        CallState::Ringing
    } else if k == "2"@ || k == "OFFHOOK"@ || k == "CALL_STATE_OFFHOOK"@ || k == "ACTIVE"@ || k
        == "DIALING"@ || k == "CONNECTING"@ || k == "HOLDING"@ {
        CallState::Offhook
    } else {
        CallState::Unknown
    }
}

/// State named by a raw token: trimmed, upper-cased, then looked up.
pub open spec fn token_state(token: Seq<char>) -> CallState {
    keyword_state(str_to_uppercase(trim_seq(token)))
}

/// Maps an upper-cased state token to its state; anything not listed is `Unknown`.
pub fn call_state_from_keyword(k: &Vec<char>) -> (r: CallState)
    ensures
        r == keyword_state(k@),
{
    if chars_eq_str(k, "0") || chars_eq_str(k, "IDLE") || chars_eq_str(k, "CALL_STATE_IDLE")
        || chars_eq_str(k, "DISCONNECTED") {
        CallState::Idle
    } else if chars_eq_str(k, "1") || chars_eq_str(k, "RINGING") || chars_eq_str(
        k,
        "CALL_STATE_RINGING",
    ) {
        CallState::Ringing
    } else if chars_eq_str(k, "2") || chars_eq_str(k, "OFFHOOK") || chars_eq_str(
        k,
        "CALL_STATE_OFFHOOK",
    ) || chars_eq_str(k, "ACTIVE") || chars_eq_str(k, "DIALING") || chars_eq_str(k, "CONNECTING")
        || chars_eq_str(k, "HOLDING") {
        CallState::Offhook
    } else {
        CallState::Unknown
    }
}

/// Normalizes a raw state token (`0`/`IDLE`/`CALL_STATE_IDLE`/`DISCONNECTED`,
/// `1`/`RINGING`/…, `2`/`OFFHOOK`/`ACTIVE`/`DIALING`/…), ignoring case and
/// surrounding whitespace.
pub fn parse_state_token(token: &str) -> (r: CallState)
    ensures
        r == token_state(token@),
{
    let t = trim_text(token);
    let upper = to_uppercase_text(t.as_str());
    let k = chars_of(upper.as_str());
    call_state_from_keyword(&k)
}

/// Rank of a state when several readings disagree.
pub open spec fn priority(s: CallState) -> nat {
    match s {
        CallState::Ringing => 3,
        CallState::Offhook => 2,
        CallState::Idle => 1,
        CallState::Unknown => 0,
    }
}

/// The reading that wins: `Ringing` over `Offhook` over `Idle` over `Unknown`.
pub open spec fn higher_priority(current: CallState, next: CallState) -> CallState {
    if priority(next) >= priority(current) {
        next
    } else {
        current
    }
}

/// Picks the higher-priority state: `Ringing` over `Offhook` over `Idle` over `Unknown`.
pub fn pick_highest_priority_state(current: CallState, next: CallState) -> (r: CallState)
    ensures
        r == higher_priority(current, next),
{
    match (current, next) {
        (_, CallState::Ringing) => CallState::Ringing,
        (CallState::Ringing, _) => CallState::Ringing,
        (_, CallState::Offhook) => CallState::Offhook,
        (CallState::Offhook, _) => CallState::Offhook,
        (_, CallState::Idle) => CallState::Idle,
        (CallState::Idle, _) => CallState::Idle,
        _ => CallState::Unknown,
    }
}

// ---------------------------------------------------------------------------
// Phone numbers
// ---------------------------------------------------------------------------

/// The number check of the parser, on the trimmed token: between 7 and 20
/// bytes long and holding at least 7 ASCII digits.
pub open spec fn phone_number_ok(token: Seq<char>) -> bool {
    let s = trim_seq(token);
    !(s.len() == 0 || utf8_len(s) < 7 || utf8_len(s) > 20) && digit_count(s) >= 7
}

/// Whether a captured token looks like a phone number (see `phone_number_ok`).
pub fn is_valid_phone_number(token: &str) -> (r: bool)
    ensures
        r == phone_number_ok(token@),
{
    let v = chars_of(token);
    let s = trim_chars(&v);
    let bytes = utf8_len_capped(&s, 20);
    if s.len() == 0 || bytes < 7 || bytes > 20 {
        return false;
    }
    count_digits(&s) >= 7
}

// ---------------------------------------------------------------------------
// The parser
// ---------------------------------------------------------------------------

/// What one `mRingingCallState` match says: ringing unless the value is `0`.
pub open spec fn ringing_reading(c: Option<Seq<char>>) -> CallState {
    match c {
        Some(m) => if trim_seq(m) != "0"@ {
            CallState::Ringing
        } else {
            CallState::Unknown
        },
        None => CallState::Unknown,
    }
}

/// What one `mForegroundCallState` match says: off-hook unless the value is `0`.
pub open spec fn foreground_reading(c: Option<Seq<char>>) -> CallState {
    match c {
        Some(m) => if trim_seq(m) != "0"@ {
            CallState::Offhook
        } else {
            CallState::Unknown
        },
        None => CallState::Unknown,
    }
}

/// What one normalized state-token match says.
pub open spec fn keyword_reading(c: Option<Seq<char>>) -> CallState {
    match c {
        Some(k) => keyword_state(k),
        None => CallState::Unknown,
    }
}

/// `best` combined, left to right, with the reading of every match.
pub open spec fn fold_readings(
    best: CallState,
    caps: Seq<Option<Seq<char>>>,
    reading: spec_fn(Option<Seq<char>>) -> CallState,
) -> CallState
    decreases caps.len(),
{
    if caps.len() == 0 {
        best
    } else {
        higher_priority(fold_readings(best, caps.drop_last(), reading), reading(caps.last()))
    }
}

/// A fallback stage over normalized tokens: consulted only while nothing is known.
pub open spec fn fallback(best: CallState, tokens: Seq<Option<Seq<char>>>) -> CallState {
    if best == CallState::Unknown {
        fold_readings(CallState::Unknown, tokens, |c| keyword_reading(c))
    } else {
        best
    }
}

/// State tokens as the parser compares them: trimmed and upper-cased.
pub open spec fn normalized_tokens(caps: Seq<Option<Seq<char>>>) -> Seq<Option<Seq<char>>> {
    caps.map_values(
        |c: Option<Seq<char>>|
            match c {
                Some(m) => Some(str_to_uppercase(trim_seq(m))),
                None => None,
            },
    )
}

/// The call state read from the matches of the patterns: the precise
/// sub-states first (`ringing`, `foreground`: raw values), then the
/// `mCallState` forms, then the telecom fallbacks (normalized tokens).
pub open spec fn state_of_matches(
    ringing: Seq<Option<Seq<char>>>,
    foreground: Seq<Option<Seq<char>>>,
    call_state: Seq<Option<Seq<char>>>,
    call_state_sub: Seq<Option<Seq<char>>>,
    call_state_val: Seq<Option<Seq<char>>>,
    telecom_active: Seq<Option<Seq<char>>>,
    telecom_state: Seq<Option<Seq<char>>>,
) -> CallState {
    let s0 = fold_readings(CallState::Unknown, ringing, |c| ringing_reading(c));
    let s1 = fold_readings(s0, foreground, |c| foreground_reading(c));
    let s2 = fallback(s1, call_state);
    let s3 = fallback(s2, call_state_sub);
    let s4 = fallback(s3, call_state_val);
    let s5 = fallback(s4, telecom_active);
    fallback(s5, telecom_state)
}

/// The call state that `parse` reads from `raw`.
pub open spec fn parsed_state(raw: Seq<char>) -> CallState {
    state_of_matches(
        captures(ringing_call_state_pattern(), raw),
        captures(foreground_call_state_pattern(), raw),
        normalized_tokens(captures(call_state_pattern(), raw)),
        normalized_tokens(captures(call_state_sub_pattern(), raw)),
        normalized_tokens(captures(call_state_val_pattern(), raw)),
        normalized_tokens(captures(telecom_active_call_pattern(), raw)),
        normalized_tokens(captures(telecom_state_pattern(), raw)),
    )
}

/// The caller number read from the `mCallIncomingNumber` matches: the
/// first value, trimmed, if it passes `phone_number_ok`.
pub open spec fn caller_of_matches(caps: Seq<Option<Seq<char>>>) -> Option<Seq<char>> {
    if caps.len() > 0 && caps[0] is Some && phone_number_ok(caps[0]->0) {
        Some(trim_seq(caps[0]->0))
    } else {
        None
    }
}

/// The caller number that `parse` reads from `raw`.
pub open spec fn parsed_caller(raw: Seq<char>) -> Option<Seq<char>> {
    caller_of_matches(captures(incoming_number_pattern(), raw))
}

enum Reading {
    Ringing,
    Foreground,
    Keyword,
}

spec fn reading_fn(kind: Reading) -> spec_fn(Option<Seq<char>>) -> CallState {
    match kind {
        Reading::Ringing => |c| ringing_reading(c),
        Reading::Foreground => |c| foreground_reading(c),
        Reading::Keyword => |c| keyword_reading(c),
    }
}

fn read_capture(kind: &Reading, c: &Option<Vec<char>>) -> (r: CallState)
    ensures
        r == (reading_fn(*kind))(c.deep_view()),
{
    match c {
        None => CallState::Unknown,
        Some(m) => {
            proof {
                crate::text::lemma_chars_deep_view(*m);
            }
            match kind {
                Reading::Keyword => call_state_from_keyword(m),
                _ => {
                    let t = trim_chars(m);
                    if chars_eq_str(&t, "0") {
                        CallState::Unknown
                    } else {
                        match kind {
                            Reading::Ringing => CallState::Ringing,
                            _ => CallState::Offhook,
                        }
                    }
                },
            }
        },
    }
}

fn fold_captures(best: CallState, caps: &Vec<Option<Vec<char>>>, kind: Reading) -> (r: CallState)
    ensures
        r == fold_readings(best, caps.deep_view(), reading_fn(kind)),
{
    let ghost caps_view = caps.deep_view();
    let mut acc = best;
    let mut i: usize = 0;
    while i < caps.len()
        invariant
            i <= caps@.len(),
            caps_view == caps.deep_view(),
            acc == fold_readings(best, caps_view.take(i as int), reading_fn(kind)),
        decreases caps@.len() - i,
    {
        assert(caps_view.take(i + 1).drop_last() =~= caps_view.take(i as int));
        let reading = read_capture(&kind, &caps[i]);
        acc = pick_highest_priority_state(acc, reading);
        i = i + 1;
    }
    assert(caps_view.take(caps@.len() as int) =~= caps_view);
    acc
}

fn fallback_stage(best: CallState, tokens: &Vec<Option<Vec<char>>>) -> (r: CallState)
    ensures
        r == fallback(best, tokens.deep_view()),
{
    if best == CallState::Unknown {
        let r = fold_captures(CallState::Unknown, tokens, Reading::Keyword);
        assert(reading_fn(Reading::Keyword) == (|c| keyword_reading(c)));
        r
    } else {
        best
    }
}

/// What the patterns matched in a dump: raw values of the two precise
/// registers, normalized tokens (trimmed, upper-cased) of the other forms.
pub struct DumpMatches {
    pub ringing: Vec<Option<Vec<char>>>,
    pub foreground: Vec<Option<Vec<char>>>,
    pub call_state: Vec<Option<Vec<char>>>,
    pub call_state_sub: Vec<Option<Vec<char>>>,
    pub call_state_val: Vec<Option<Vec<char>>>,
    pub telecom_active: Vec<Option<Vec<char>>>,
    pub telecom_state: Vec<Option<Vec<char>>>,
}

/// The call state the matches of a dump give (see `state_of_matches`).
pub fn state_from_matches(m: &DumpMatches) -> (r: CallState)
    ensures
        r == state_of_matches(
            m.ringing.deep_view(),
            m.foreground.deep_view(),
            m.call_state.deep_view(),
            m.call_state_sub.deep_view(),
            m.call_state_val.deep_view(),
            m.telecom_active.deep_view(),
            m.telecom_state.deep_view(),
        ),
{
    let s0 = fold_captures(CallState::Unknown, &m.ringing, Reading::Ringing);
    let s1 = fold_captures(s0, &m.foreground, Reading::Foreground);
    assert(reading_fn(Reading::Ringing) == (|c| ringing_reading(c)));
    assert(reading_fn(Reading::Foreground) == (|c| foreground_reading(c)));
    let s2 = fallback_stage(s1, &m.call_state);
    let s3 = fallback_stage(s2, &m.call_state_sub);
    let s4 = fallback_stage(s3, &m.call_state_val);
    let s5 = fallback_stage(s4, &m.telecom_active);
    fallback_stage(s5, &m.telecom_state)
}

/// The caller number the `mCallIncomingNumber` matches give (see `caller_of_matches`).
pub fn caller_from_matches(caps: &Vec<Option<Vec<char>>>) -> (r: Option<String>)
    ensures
        r.deep_view() == caller_of_matches(caps.deep_view()),
{
    if caps.len() > 0 {
        match &caps[0] {
            Some(m) => {
                proof {
                    crate::text::lemma_chars_deep_view(*m);
                }
                let s = string_of(m.as_slice());
                if is_valid_phone_number(s.as_str()) {
                    let token = trim_chars(m);
                    return Some(string_of(token.as_slice()));
                }
            },
            None => {},
        }
    }
    None
}

/// Trims and upper-cases every matched state token.
fn normalize_tokens(caps: Vec<Option<Vec<char>>>) -> (r: Vec<Option<Vec<char>>>)
    ensures
        r.deep_view() == normalized_tokens(caps.deep_view()),
{
    let ghost cv = caps.deep_view();
    let mut out: Vec<Option<Vec<char>>> = Vec::new();
    let mut i: usize = 0;
    while i < caps.len()
        invariant
            i <= caps@.len(),
            cv == caps.deep_view(),
            out.deep_view() == normalized_tokens(cv.take(i as int)),
        decreases caps@.len() - i,
    {
        let ghost before = out.deep_view();
        let item: Option<Vec<char>> = match &caps[i] {
            Some(m) => {
                proof {
                    crate::text::lemma_chars_deep_view(*m);
                }
                let t = trim_text(string_of(m.as_slice()).as_str());
                let upper = to_uppercase_text(t.as_str());
                let k = chars_of(upper.as_str());
                proof {
                    crate::text::lemma_chars_deep_view(k);
                }
                Some(k)
            },
            None => None,
        };
        out.push(item);
        assert(out.deep_view() =~= before.push(item.deep_view()));
        assert(normalized_tokens(cv.take(i + 1)) =~= normalized_tokens(cv.take(i as int)).push(
            item.deep_view(),
        ));
        i = i + 1;
    }
    assert(cv.take(caps@.len() as int) =~= cv);
    out
}

/// A reader of telephony diagnostics: each parser says, through
/// `parse_spec`, what it reads from a dump, and `parse` reads exactly that.
pub trait TelephonyParser: Send + Sync {
    /// The state and caller number this parser reads from `raw`.
    spec fn parse_spec(&self, raw: Seq<char>) -> (CallState, Option<Seq<char>>);

    fn parse(&self, raw: &str) -> (r: (CallState, CallMetadata))
        ensures
            (r.0, r.1.caller_number.deep_view()) == self.parse_spec(raw@),
    ;
}

pub struct AndroidTelephonyParser;

impl AndroidTelephonyParser {
    pub fn new() -> (r: Self) {
        AndroidTelephonyParser
    }
}

impl Default for AndroidTelephonyParser {
    fn default() -> (r: Self) {
        AndroidTelephonyParser::new()
    }
}

impl TelephonyParser for AndroidTelephonyParser {
    open spec fn parse_spec(&self, raw: Seq<char>) -> (CallState, Option<Seq<char>>) {
        (parsed_state(raw), parsed_caller(raw))
    }

    /// Call state and caller number read from a telephony or telecom dump.
    fn parse(&self, raw: &str) -> (r: (CallState, CallMetadata))
        ensures
            r.0 == parsed_state(raw@),
            r.1.caller_number.deep_view() == parsed_caller(raw@),
    {
        let matches = DumpMatches {
            // 1. Precise sub-states first (mRingingCallState > mForegroundCallState)
            ringing: capture_tokens(ringing_call_state_regex(), raw),
            foreground: capture_tokens(foreground_call_state_regex(), raw),
            // 2. Standard mCallState forms
            call_state: normalize_tokens(capture_tokens(call_state_regex(), raw)),
            call_state_sub: normalize_tokens(capture_tokens(call_state_sub_regex(), raw)),
            call_state_val: normalize_tokens(capture_tokens(call_state_val_regex(), raw)),
            // 3. Telecom dumpsys fallbacks
            telecom_active: normalize_tokens(capture_tokens(telecom_active_call_regex(), raw)),
            telecom_state: normalize_tokens(capture_tokens(telecom_state_regex(), raw)),
        };
        let state = state_from_matches(&matches);
        // 4. Incoming phone number, if valid
        let numbers = capture_tokens(incoming_number_regex(), raw);
        let metadata = CallMetadata { caller_number: caller_from_matches(&numbers) };
        (state, metadata)
    }
}

// ---------------------------------------------------------------------------
// Laws
// ---------------------------------------------------------------------------

/// Combining readings does not depend on their order.
pub proof fn law_priority_commutative(a: CallState, b: CallState)
    ensures
        higher_priority(a, b) == higher_priority(b, a),
{
}

/// Combining readings can be regrouped.
pub proof fn law_priority_associative(a: CallState, b: CallState, c: CallState)
    ensures
        higher_priority(higher_priority(a, b), c) == higher_priority(a, higher_priority(b, c)),
{
}

/// A reading combined with itself is itself, and `Unknown` adds nothing.
pub proof fn law_priority_idempotent_and_unknown_neutral(a: CallState)
    ensures
        higher_priority(a, a) == a,
        higher_priority(a, CallState::Unknown) == a,
        higher_priority(CallState::Unknown, a) == a,
{
}

/// The combined reading of a stage is the highest-priority one among the
/// starting state and every match (for several SIMs: any ringing SIM makes
/// the phone ringing).
pub proof fn law_fold_is_highest(
    best: CallState,
    caps: Seq<Option<Seq<char>>>,
    reading: spec_fn(Option<Seq<char>>) -> CallState,
)
    ensures
        priority(fold_readings(best, caps, reading)) >= priority(best),
        forall|i: int|
            0 <= i < caps.len() ==> priority(fold_readings(best, caps, reading)) >= priority(
                #[trigger] reading(caps[i]),
            ),
        fold_readings(best, caps, reading) == best || exists|i: int|
            0 <= i < caps.len() && fold_readings(best, caps, reading) == #[trigger] reading(caps[i]),
    decreases caps.len(),
{
    if caps.len() > 0 {
        let prev = caps.drop_last();
        law_fold_is_highest(best, prev, reading);
        assert forall|i: int| 0 <= i < caps.len() implies priority(
            fold_readings(best, caps, reading),
        ) >= priority(#[trigger] reading(caps[i])) by {
            if i < caps.len() - 1 {
                assert(caps[i] == prev[i]);
            }
        }
        let f = fold_readings(best, caps, reading);
        if f != best {
            if f == reading(caps.last()) {
                assert(reading(caps[caps.len() - 1]) == f);
            } else {
                let j = choose|j: int| 0 <= j < prev.len() && fold_readings(best, prev, reading) == #[trigger] reading(prev[j]);
                assert(caps[j] == prev[j]);
            }
        }
    }
}

/// The state tokens of Android and vendor dumps: `0`, `IDLE`,
/// `CALL_STATE_IDLE` and `DISCONNECTED` read as idle; `1`, `RINGING` and
/// `CALL_STATE_RINGING` as ringing; `2`, `OFFHOOK`, `CALL_STATE_OFFHOOK`,
/// `ACTIVE`, `DIALING`, `CONNECTING` and `HOLDING` as off-hook; any other
/// token (such as `UNKNOWN`) as unknown.
pub proof fn law_state_token_table()
    ensures
        keyword_state("0"@) == CallState::Idle,
        keyword_state("IDLE"@) == CallState::Idle,
        keyword_state("CALL_STATE_IDLE"@) == CallState::Idle,
        keyword_state("DISCONNECTED"@) == CallState::Idle,
        keyword_state("1"@) == CallState::Ringing,
        keyword_state("RINGING"@) == CallState::Ringing,
        keyword_state("CALL_STATE_RINGING"@) == CallState::Ringing,
        keyword_state("2"@) == CallState::Offhook,
        keyword_state("OFFHOOK"@) == CallState::Offhook,
        keyword_state("CALL_STATE_OFFHOOK"@) == CallState::Offhook,
        keyword_state("ACTIVE"@) == CallState::Offhook,
        keyword_state("DIALING"@) == CallState::Offhook,
        keyword_state("CONNECTING"@) == CallState::Offhook,
        keyword_state("HOLDING"@) == CallState::Offhook,
        keyword_state("UNKNOWN"@) == CallState::Unknown,
        keyword_state("CALL_STATE_UNKNOWN"@) == CallState::Unknown,
{
    reveal_strlit("0");
    reveal_strlit("IDLE");
    reveal_strlit("CALL_STATE_IDLE");
    reveal_strlit("DISCONNECTED");
    reveal_strlit("1");
    reveal_strlit("RINGING");
    reveal_strlit("CALL_STATE_RINGING");
    reveal_strlit("2");
    reveal_strlit("OFFHOOK");
    reveal_strlit("CALL_STATE_OFFHOOK");
    reveal_strlit("ACTIVE");
    reveal_strlit("DIALING");
    reveal_strlit("CONNECTING");
    reveal_strlit("HOLDING");
    reveal_strlit("UNKNOWN");
    reveal_strlit("CALL_STATE_UNKNOWN");
    assert("0"@[0] != "1"@[0]);
    assert("0"@[0] != "2"@[0]);
    assert("1"@[0] != "2"@[0]);
    assert("RINGING"@[0] != "OFFHOOK"@[0]);
    assert("RINGING"@[0] != "DIALING"@[0]);
    assert("RINGING"@[0] != "HOLDING"@[0]);
    assert("RINGING"@[0] != "UNKNOWN"@[0]);
    assert("CALL_STATE_RINGING"@[11] != "CALL_STATE_OFFHOOK"@[11]);
    assert("CALL_STATE_RINGING"@[11] != "CALL_STATE_UNKNOWN"@[11]);
    assert("OFFHOOK"@[0] != "DIALING"@[0]);
    assert("OFFHOOK"@[0] != "HOLDING"@[0]);
    assert("OFFHOOK"@[0] != "UNKNOWN"@[0]);
    assert("CALL_STATE_OFFHOOK"@[11] != "CALL_STATE_UNKNOWN"@[11]);
    assert("DIALING"@[0] != "HOLDING"@[0]);
    assert("DIALING"@[0] != "UNKNOWN"@[0]);
    assert("HOLDING"@[0] != "UNKNOWN"@[0]);
    assert("0"@.len() == 1);
    assert("IDLE"@.len() == 4);
    assert("CALL_STATE_IDLE"@.len() == 15);
    assert("DISCONNECTED"@.len() == 12);
    assert("1"@.len() == 1);
    assert("RINGING"@.len() == 7);
    assert("CALL_STATE_RINGING"@.len() == 18);
    assert("2"@.len() == 1);
    assert("OFFHOOK"@.len() == 7);
    assert("CALL_STATE_OFFHOOK"@.len() == 18);
    assert("ACTIVE"@.len() == 6);
    assert("DIALING"@.len() == 7);
    assert("CONNECTING"@.len() == 10);
    assert("HOLDING"@.len() == 7);
    assert("UNKNOWN"@.len() == 7);
    assert("CALL_STATE_UNKNOWN"@.len() == 18);
    assert(keyword_state("0"@) == CallState::Idle);
    assert(keyword_state("IDLE"@) == CallState::Idle);
    assert(keyword_state("CALL_STATE_IDLE"@) == CallState::Idle);
    assert(keyword_state("DISCONNECTED"@) == CallState::Idle);
    assert(keyword_state("1"@) == CallState::Ringing);
    assert(keyword_state("RINGING"@) == CallState::Ringing);
    assert(keyword_state("CALL_STATE_RINGING"@) == CallState::Ringing);
    assert(keyword_state("2"@) == CallState::Offhook);
    assert(keyword_state("OFFHOOK"@) == CallState::Offhook);
    assert(keyword_state("CALL_STATE_OFFHOOK"@) == CallState::Offhook);
    assert(keyword_state("ACTIVE"@) == CallState::Offhook);
    assert(keyword_state("DIALING"@) == CallState::Offhook);
    assert(keyword_state("CONNECTING"@) == CallState::Offhook);
    assert(keyword_state("HOLDING"@) == CallState::Offhook);
    assert(keyword_state("UNKNOWN"@) == CallState::Unknown);
    assert(keyword_state("CALL_STATE_UNKNOWN"@) == CallState::Unknown);
}

/// A dump whose only state match is one `mCallState` token reads as that
/// token's state (see `law_state_token_table`): a lone
/// `mCallState=CALL_STATE_OFFHOOK` gives `Offhook`.
pub proof fn law_lone_call_state_token(k: Seq<char>)
    ensures
        state_of_matches(seq![], seq![], seq![Some(k)], seq![], seq![], seq![], seq![])
            == keyword_state(k),
        state_of_matches(
            seq![],
            seq![],
            seq![Some("CALL_STATE_OFFHOOK"@)],
            seq![],
            seq![],
            seq![],
            seq![],
        ) == CallState::Offhook,
{
    let caps = seq![Some(k)];
    assert(caps.drop_last() =~= Seq::<Option<Seq<char>>>::empty());
    let off = seq![Some("CALL_STATE_OFFHOOK"@)];
    assert(off.drop_last() =~= Seq::<Option<Seq<char>>>::empty());
    law_state_token_table();
}

proof fn lemma_priority_injective(a: CallState, b: CallState)
    requires
        priority(a) == priority(b),
    ensures
        a == b,
{
}

/// The combined reading of a stage does not depend on the order of the
/// matches: two match lists that hold the same matches, each as often,
/// combine to the same state (as with the `mCallState` lines of several SIMs
/// in any order).
pub proof fn law_fold_order_independent(
    best: CallState,
    caps1: Seq<Option<Seq<char>>>,
    caps2: Seq<Option<Seq<char>>>,
    reading: spec_fn(Option<Seq<char>>) -> CallState,
)
    requires
        caps1.to_multiset() == caps2.to_multiset(),
    ensures
        fold_readings(best, caps1, reading) == fold_readings(best, caps2, reading),
{
    law_fold_is_highest(best, caps1, reading);
    law_fold_is_highest(best, caps2, reading);
    caps1.to_multiset_ensures();
    caps2.to_multiset_ensures();
    let f1 = fold_readings(best, caps1, reading);
    let f2 = fold_readings(best, caps2, reading);
    if f1 != best {
        let k = choose|k: int| 0 <= k < caps1.len() && f1 == #[trigger] reading(caps1[k]);
        assert(caps1.contains(caps1[k]));
        assert(caps1.to_multiset().count(caps1[k]) > 0);
        assert(caps2.to_multiset().count(caps1[k]) > 0);
        assert(caps2.contains(caps1[k]));
        let j = choose|j: int| 0 <= j < caps2.len() && caps2[j] == caps1[k];
        assert(priority(f2) >= priority(reading(caps2[j])));
    }
    if f2 != best {
        let k = choose|k: int| 0 <= k < caps2.len() && f2 == #[trigger] reading(caps2[k]);
        assert(caps2.contains(caps2[k]));
        assert(caps2.to_multiset().count(caps2[k]) > 0);
        assert(caps1.to_multiset().count(caps2[k]) > 0);
        assert(caps1.contains(caps2[k]));
        let j = choose|j: int| 0 <= j < caps1.len() && caps1[j] == caps2[k];
        assert(priority(f1) >= priority(reading(caps1[j])));
    }
    lemma_priority_injective(f1, f2);
}

/// A non-zero `mRingingCallState` anywhere in the dump makes the parsed
/// state `Ringing`, whatever else the dump says.
pub proof fn law_ringing_register_wins(raw: Seq<char>, i: int)
    requires
        0 <= i < captures(ringing_call_state_pattern(), raw).len(),
        ringing_reading(captures(ringing_call_state_pattern(), raw)[i]) == CallState::Ringing,
    ensures
        parsed_state(raw) == CallState::Ringing,
{
    let caps0 = captures(ringing_call_state_pattern(), raw);
    let f0 = |c| ringing_reading(c);
    law_fold_is_highest(CallState::Unknown, caps0, f0);
    assert(f0(caps0[i]) == CallState::Ringing);
    let s0 = fold_readings(CallState::Unknown, caps0, f0);
    assert(s0 == CallState::Ringing);
    let caps1 = captures(foreground_call_state_pattern(), raw);
    let f1 = |c| foreground_reading(c);
    law_fold_is_highest(s0, caps1, f1);
    let s1 = fold_readings(s0, caps1, f1);
    assert(s1 == CallState::Ringing);
}

} // verus!
