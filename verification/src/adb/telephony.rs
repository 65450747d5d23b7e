//! Querying a device's call state over ADB, as a sequence of shell commands.
//!
//! The library decides which command to run next and what each answer
//! means; the caller runs the commands and hands back their outputs.
use vstd::prelude::*;
use std::sync::Arc;
use crate::adb::client::AdbClient;
use crate::call::parser::{parsed_caller, parsed_state, AndroidTelephonyParser, TelephonyParser};
use crate::call::state::{CallMetadata, CallState};
use crate::error::AppError;
use crate::text::{
    chars_of, contains_seq, contains_str, count_digits, digit_count, is_ascii_digit,
    is_ascii_digit_char, lines_of, lines_seq, piece_scan, pieces_seq, push_str, split_commas,
    split_once_seq, split_once_str, strip_prefix_seq, strip_prefix_str, starts_with_str, has_prefix,
    string_of, trim_chars, trim_seq, is_comma,
};

verus! {

// ---------------------------------------------------------------------------
// Phone numbers in free text
// ---------------------------------------------------------------------------

/// Characters a phone number is made of.
pub open spec fn is_phone_char(c: char) -> bool {
    is_ascii_digit(c) || c == '+'
}

/// Whether a run of phone characters holds 10 to 15 digits.
pub open spec fn phone_digits_ok(word: Seq<char>) -> bool {
    10 <= digit_count(trim_seq(word)) <= 15
}

/// The first of `words` with 10 to 15 digits, trimmed.
pub open spec fn first_phone_word(words: Seq<Seq<char>>) -> Option<Seq<char>>
    decreases words.len(),
{
    if words.len() == 0 {
        None
    } else if phone_digits_ok(words[0]) {
        Some(trim_seq(words[0]))
    } else {
        first_phone_word(words.drop_first())
    }
}

/// The number `extract_phone_number` finds: `text` is cut at every
/// character that is neither an ASCII digit nor `+`, and the first piece
/// with 10 to 15 digits is taken.
pub open spec fn phone_number_in(text: Seq<char>) -> Option<Seq<char>> {
    first_phone_word(pieces_seq(text, |c: char| !is_phone_char(c)))
}

fn split_phone_pieces(s: &Vec<char>) -> (r: Vec<Vec<char>>)
    ensures
        r.deep_view() == pieces_seq(s@, |c: char| !is_phone_char(c)),
{
    let ghost sep = |c: char| !is_phone_char(c);
    let mut done: Vec<Vec<char>> = Vec::new();
    let mut cur: Vec<char> = Vec::new();
    let mut i: usize = 0;
    while i < s.len()
        invariant
            i <= s@.len(),
            sep == (|c: char| !is_phone_char(c)),
            (done.deep_view(), cur@) == piece_scan(s@.take(i as int), sep),
        decreases s@.len() - i,
    {
        let c = s[i];
        assert(s@.take(i + 1).drop_last() =~= s@.take(i as int));
        if !is_ascii_digit_char(c) && c != '+' {
            let ghost before = done.deep_view();
            let finished = cur;
            proof {
                crate::text::lemma_chars_deep_view(finished);
            }
            done.push(finished);
            assert(done.deep_view() =~= before.push(finished@));
            cur = Vec::new();
        } else {
            cur.push(c);
        }
        i = i + 1;
    }
    assert(s@.take(s@.len() as int) =~= s@);
    let ghost before = done.deep_view();
    let last = cur;
    proof {
        crate::text::lemma_chars_deep_view(last);
    }
    done.push(last);
    assert(done.deep_view() =~= before.push(last@));
    done
}

/// Scans a text block for a telephone number (`+XX…` or 10 to 15 digits).
pub fn extract_phone_number(text: &str) -> (r: Option<String>)
    ensures
        r.deep_view() == phone_number_in(text@),
{
    let v = chars_of(text);
    let words = split_phone_pieces(&v);
    let ghost ws = words.deep_view();
    assert(ws.skip(0) =~= ws);
    let mut i: usize = 0;
    while i < words.len()
        invariant
            i <= words@.len(),
            ws == words.deep_view(),
            ws == pieces_seq(text@, |c: char| !is_phone_char(c)),
            first_phone_word(ws.skip(i as int)) == phone_number_in(text@),
        decreases words@.len() - i,
    {
        proof {
            crate::text::lemma_chars_deep_view(words@[i as int]);
        }
        assert(ws.skip(i as int)[0] == ws[i as int]);
        assert(ws.skip(i as int).drop_first() =~= ws.skip(i + 1));
        let trimmed = trim_chars(&words[i]);
        let digits = count_digits(&trimmed);
        if digits >= 10 && digits <= 15 {
            return Some(string_of(trimmed.as_slice()));
        }
        i = i + 1;
    }
    assert(ws.skip(i as int).len() == 0);
    None
}

// ---------------------------------------------------------------------------
// Answers of the individual commands
// ---------------------------------------------------------------------------

/// Caller number after a telecom reading: kept when already known.
pub open spec fn merged_caller(caller: Option<Seq<char>>, telecom: Option<Seq<char>>) -> Option<
    Seq<char>,
> {
    if caller is None {
        telecom
    } else {
        caller
    }
}

/// State after a telecom reading: a ringing or active telecom call wins over
/// an idle or unknown registry.
pub open spec fn merged_state(state: CallState, telecom: CallState) -> CallState {
    if (state == CallState::Unknown || state == CallState::Idle) && (telecom != CallState::Unknown
        && telecom != CallState::Idle) {
        telecom
    } else {
        state
    }
}

/// Combines the registry reading with the telecom reading.
pub fn merge_telecom_reading(
    state: CallState,
    metadata: CallMetadata,
    telecom: (CallState, CallMetadata),
) -> (r: (CallState, CallMetadata))
    ensures
        r.0 == merged_state(state, telecom.0),
        r.1.caller_number.deep_view() == merged_caller(
            metadata.caller_number.deep_view(),
            telecom.1.caller_number.deep_view(),
        ),
{
    let (telecom_state, telecom_meta) = telecom;
    let mut state = state;
    let mut metadata = metadata;
    if state == CallState::Unknown || state == CallState::Idle {
        if telecom_state != CallState::Unknown && telecom_state != CallState::Idle {
            state = telecom_state;
        }
    }
    if metadata.caller_number.is_none() {
        metadata.caller_number = telecom_meta.caller_number;
    }
    (state, metadata)
}

/// Whether the caller must be looked up elsewhere: a call is ringing or
/// active and no number is known.
pub open spec fn lookup_needed(state: CallState, caller: Option<Seq<char>>) -> bool {
    (state == CallState::Ringing || state == CallState::Offhook) && caller is None
}

/// Whether a (trimmed) line of `cmd notification list` is a call
/// notification of a dialer or messenger, and not a missed call.
pub open spec fn caller_notification(line: Seq<char>) -> bool {
    &&& !(contains_seq(line, "MissedCall"@) || contains_seq(line, "missed_call"@))
    &&& (contains_seq(line, "dialer"@) || contains_seq(line, "whatsapp"@) || contains_seq(
        line,
        "w4b"@,
    ) || contains_seq(line, "telecom"@) || contains_seq(line, "phone"@))
    &&& (contains_seq(line, "Call"@) || contains_seq(line, "call"@) || contains_seq(
        line,
        "Incoming"@,
    ) || contains_seq(line, "Ongoing"@))
}

pub fn is_caller_notification(line: &Vec<char>) -> (r: bool)
    ensures
        r == caller_notification(line@),
{
    if contains_str(line, "MissedCall") || contains_str(line, "missed_call") {
        return false;
    }
    (contains_str(line, "dialer") || contains_str(line, "whatsapp") || contains_str(line, "w4b")
        || contains_str(line, "telecom") || contains_str(line, "phone")) && (contains_str(
        line,
        "Call",
    ) || contains_str(line, "call") || contains_str(line, "Incoming") || contains_str(
        line,
        "Ongoing",
    ))
}

/// The command that fetches one notification by its key.
pub open spec fn notification_get_command(key: Seq<char>) -> Seq<char> {
    "cmd notification get '"@ + key + "'"@
}

pub fn notification_get_command_text(key: &Vec<char>) -> (r: String)
    ensures
        r@ == notification_get_command(key@),
{
    let mut out: Vec<char> = Vec::new();
    push_str(&mut out, "cmd notification get '");
    crate::text::push_chars(&mut out, key);
    push_str(&mut out, "'");
    assert(out@ =~= notification_get_command(key@));
    string_of(out.as_slice())
}

/// Whether a `number=` field value names a number.
pub open spec fn number_value_ok(v: Seq<char>) -> bool {
    v.len() > 0 && v != "null"@
}

/// The number a comma-separated field of a call-log row gives, if any: the
/// value after a leading `number=`, or else after the first `number=` in it.
pub open spec fn field_number(field: Seq<char>) -> Option<Seq<char>> {
    let part = trim_seq(field);
    match strip_prefix_seq(part, "number="@) {
        Some(v) => if number_value_ok(trim_seq(v)) {
            Some(trim_seq(v))
        } else {
            None
        },
        None => match split_once_seq(part, "number="@) {
            Some(kv) => if number_value_ok(trim_seq(kv.1)) {
                Some(trim_seq(kv.1))
            } else {
                None
            },
            None => None,
        },
    }
}

pub open spec fn first_field_number(fields: Seq<Seq<char>>) -> Option<Seq<char>>
    decreases fields.len(),
{
    if fields.len() == 0 {
        None
    } else if field_number(fields[0]) is Some {
        field_number(fields[0])
    } else {
        first_field_number(fields.drop_first())
    }
}

/// The first line that starts with `Row: 0`, if any.
pub open spec fn first_row_line(lines: Seq<Seq<char>>) -> Option<Seq<char>>
    decreases lines.len(),
{
    if lines.len() == 0 {
        None
    } else if has_prefix(lines[0], "Row: 0"@) {
        Some(lines[0])
    } else {
        first_row_line(lines.drop_first())
    }
}

/// The most recent number of a `content query` of the call log: in the
/// first `Row: 0` line, the first field that gives a number.
pub open spec fn call_log_number_in(output: Seq<char>) -> Option<Seq<char>> {
    match first_row_line(lines_seq(output)) {
        Some(row) => first_field_number(pieces_seq(row, |c: char| is_comma(c))),
        None => None,
    }
}

fn number_of_field(field: &Vec<char>) -> (r: Option<Vec<char>>)
    ensures
        r.deep_view() == field_number(field@),
{
    let part = trim_chars(field);
    match strip_prefix_str(&part, "number=") {
        Some(v) => {
            proof {
                crate::text::lemma_chars_deep_view(v);
            }
            let num = trim_chars(&v);
            if num.len() > 0 && !crate::text::chars_eq_str(&num, "null") {
                proof {
                    crate::text::lemma_chars_deep_view(num);
                }
                Some(num)
            } else {
                None
            }
        },
        None => match split_once_str(&part, "number=") {
            Some((_k, v)) => {
                proof {
                    crate::text::lemma_chars_deep_view(v);
                }
                let num = trim_chars(&v);
                if num.len() > 0 && !crate::text::chars_eq_str(&num, "null") {
                    proof {
                        crate::text::lemma_chars_deep_view(num);
                    }
                    Some(num)
                } else {
                    None
                }
            },
            None => None,
        },
    }
}

/// Reads the most recent number from a `content query` of the call log
/// (see `call_log_number_in`).
pub fn call_log_number(output: &str) -> (r: Option<String>)
    ensures
        r.deep_view() == call_log_number_in(output@),
{
    let v = chars_of(output);
    let lines = lines_of(&v);
    let ghost ls = lines.deep_view();
    assert(ls.skip(0) =~= ls);
    let mut i: usize = 0;
    while i < lines.len()
        invariant
            i <= lines@.len(),
            ls == lines.deep_view(),
            ls == lines_seq(output@),
            first_row_line(ls.skip(i as int)) == first_row_line(ls),
        decreases lines@.len() - i,
    {
        proof {
            crate::text::lemma_chars_deep_view(lines@[i as int]);
        }
        assert(ls.skip(i as int)[0] == ls[i as int]);
        assert(ls.skip(i as int).drop_first() =~= ls.skip(i + 1));
        if starts_with_str(&lines[i], "Row: 0") {
            let fields = split_commas(&lines[i]);
            let ghost fs = fields.deep_view();
            assert(first_row_line(ls) == Some(ls[i as int]));
            assert(fs.skip(0) =~= fs);
            let mut k: usize = 0;
            while k < fields.len()
                invariant
                    k <= fields@.len(),
                    i < ls.len(),
                    ls == lines_seq(output@),
                    first_row_line(ls) == Some(ls[i as int]),
                    fs == fields.deep_view(),
                    fs == pieces_seq(ls[i as int], |c: char| is_comma(c)),
                    first_field_number(fs.skip(k as int)) == first_field_number(fs),
                decreases fields@.len() - k,
            {
                proof {
                    crate::text::lemma_chars_deep_view(fields@[k as int]);
                }
                assert(fs.skip(k as int)[0] == fs[k as int]);
                assert(fs.skip(k as int).drop_first() =~= fs.skip(k + 1));
                match number_of_field(&fields[k]) {
                    Some(num) => {
                        proof {
                            crate::text::lemma_chars_deep_view(num);
                        }
                        return Some(string_of(num.as_slice()));
                    },
                    None => {},
                }
                k = k + 1;
            }
            assert(fs.skip(k as int).len() == 0);
            return None;
        }
        i = i + 1;
    }
    assert(ls.skip(i as int).len() == 0);
    None
}

// ---------------------------------------------------------------------------
// The query
// ---------------------------------------------------------------------------

pub open spec fn registry_command() -> Seq<char> {
    "dumpsys telephony.registry"@
}

pub open spec fn telecom_command() -> Seq<char> {
    "dumpsys telecom"@
}

pub open spec fn notification_list_command() -> Seq<char> {
    "cmd notification list"@
}

pub open spec fn call_log_command() -> Seq<char> {
    "content query --uri content://call_log/calls --projection number:date:type --sort 'date DESC'"@
}

/// Which answer a query waits for.
#[derive(Debug, Clone, Copy, PartialEq, Eq, Structural)]
pub enum QueryStage {
    /// `dumpsys telephony.registry`
    Registry,
    /// `dumpsys telecom`
    Telecom,
    /// `cmd notification list`
    NotificationList,
    /// `cmd notification get '<key>'`
    NotificationDetail,
    /// `content query` of the call log
    CallLog,
    /// Nothing: the query is over.
    Done,
}

/// A call-state query in progress.
#[derive(Debug)]
pub struct CallStateQuery {
    stage: QueryStage,
    state: CallState,
    metadata: CallMetadata,
    notification_keys: Vec<Vec<char>>,
    next_key: usize,
}

/// What a query holds: stage, reading so far, notification keys and the
/// index of the next key to look at.
pub struct QueryView {
    pub stage: QueryStage,
    pub state: CallState,
    pub caller: Option<Seq<char>>,
    pub keys: Seq<Seq<char>>,
    pub next: int,
}

impl CallStateQuery {
    /// The next key to look at is never past the keys.
    #[verifier::type_invariant]
    spec fn inv(self) -> bool {
        self.next_key <= self.notification_keys@.len()
    }
}

impl View for CallStateQuery {
    type V = QueryView;

    closed spec fn view(&self) -> QueryView {
        QueryView {
            stage: self.stage,
            state: self.state,
            caller: self.metadata.caller_number.deep_view(),
            keys: self.notification_keys.deep_view(),
            next: self.next_key as int,
        }
    }
}

/// The next thing to do for a query.
#[derive(Debug)]
pub enum QueryStep {
    /// Run this command with `adb -s <serial> shell` and hand back its result.
    RunShell(String),
    /// The query is over, with this result.
    Finished(Result<(CallState, CallMetadata), AppError>),
}

/// A step, with texts as characters and an error step only marked.
pub enum StepView {
    RunShell(Seq<char>),
    Finished(CallState, Option<Seq<char>>),
    Failed,
}

pub open spec fn step_view(s: QueryStep) -> StepView {
    match s {
        QueryStep::RunShell(c) => StepView::RunShell(c@),
        QueryStep::Finished(Ok(r)) => StepView::Finished(r.0, r.1.caller_number.deep_view()),
        QueryStep::Finished(Err(_)) => StepView::Failed,
    }
}

/// Index of the first caller notification among `keys` at or after `from`.
pub open spec fn next_caller_key(keys: Seq<Seq<char>>, from: int) -> Option<int>
    decreases keys.len() - from,
{
    if from < 0 || from >= keys.len() {
        None
    } else if caller_notification(keys[from]) {
        Some(from)
    } else {
        next_caller_key(keys, from + 1)
    }
}

/// Moving on from `q` to the caller notifications from index `from`, or to
/// the call log when none is left.
pub open spec fn scan_from(q: QueryView, from: int) -> (QueryView, StepView) {
    match next_caller_key(q.keys, from) {
        Some(j) => (
            QueryView { stage: QueryStage::NotificationDetail, next: j + 1, ..q },
            StepView::RunShell(notification_get_command(q.keys[j])),
        ),
        None => (
            QueryView { stage: QueryStage::CallLog, next: q.keys.len() as int, ..q },
            StepView::RunShell(call_log_command()),
        ),
    }
}

/// Moving on once the diagnostics are read: a ringing or active call with
/// no known caller goes on to the notifications; otherwise the query ends.
pub open spec fn after_reading(q: QueryView) -> (QueryView, StepView) {
    if lookup_needed(q.state, q.caller) {
        (
            QueryView { stage: QueryStage::NotificationList, ..q },
            StepView::RunShell(notification_list_command()),
        )
    } else {
        (QueryView { stage: QueryStage::Done, ..q }, StepView::Finished(q.state, q.caller))
    }
}

/// How a query moves on when the command it waited for answered `out`
/// (`None` for a failed command). `parsed` stands for what the query's
/// parser read from a diagnostics dump; the other stages do not use it.
pub open spec fn query_advance(
    q: QueryView,
    out: Option<Seq<char>>,
    parsed: (CallState, Option<Seq<char>>),
) -> (QueryView, StepView) {
    match q.stage {
        QueryStage::Registry => match out {
            None => (QueryView { stage: QueryStage::Done, ..q }, StepView::Failed),
            Some(_) => (
                QueryView { stage: QueryStage::Telecom, state: parsed.0, caller: parsed.1, ..q },
                StepView::RunShell(telecom_command()),
            ),
        },
        QueryStage::Telecom => match out {
            None => after_reading(q),
            Some(_) => after_reading(
                QueryView {
                    state: merged_state(q.state, parsed.0),
                    caller: merged_caller(q.caller, parsed.1),
                    ..q
                },
            ),
        },
        QueryStage::NotificationList => match out {
            None => (
                QueryView { stage: QueryStage::CallLog, ..q },
                StepView::RunShell(call_log_command()),
            ),
            Some(text) => scan_from(
                QueryView { keys: lines_seq(text).map_values(|l: Seq<char>| trim_seq(l)), ..q },
                0,
            ),
        },
        QueryStage::NotificationDetail => match out {
            Some(text) if phone_number_in(text) is Some => (
                QueryView { stage: QueryStage::Done, caller: phone_number_in(text), ..q },
                StepView::Finished(q.state, phone_number_in(text)),
            ),
            _ => scan_from(q, q.next),
        },
        QueryStage::CallLog => {
            let caller = match out {
                Some(text) => call_log_number_in(text),
                None => None,
            };
            (
                QueryView { stage: QueryStage::Done, caller: caller, ..q },
                StepView::Finished(q.state, caller),
            )
        },
        QueryStage::Done => (q, StepView::Finished(q.state, q.caller)),
    }
}

/// The command output as the query sees it.
pub open spec fn output_view(out: Result<String, AppError>) -> Option<Seq<char>> {
    match out {
        Ok(t) => Some(t@),
        Err(_) => None,
    }
}

fn trimmed_lines(text: &str) -> (r: Vec<Vec<char>>)
    ensures
        r.deep_view() == lines_seq(text@).map_values(|l: Seq<char>| trim_seq(l)),
{
    let v = chars_of(text);
    let lines = lines_of(&v);
    let ghost ls = lines.deep_view();
    let mut out: Vec<Vec<char>> = Vec::new();
    let mut i: usize = 0;
    while i < lines.len()
        invariant
            i <= lines@.len(),
            ls == lines.deep_view(),
            ls == lines_seq(text@),
            out.deep_view() == ls.take(i as int).map_values(|l: Seq<char>| trim_seq(l)),
        decreases lines@.len() - i,
    {
        proof {
            crate::text::lemma_chars_deep_view(lines@[i as int]);
        }
        let t = trim_chars(&lines[i]);
        let ghost before = out.deep_view();
        proof {
            crate::text::lemma_chars_deep_view(t);
        }
        out.push(t);
        assert(out.deep_view() =~= before.push(trim_seq(ls[i as int])));
        assert(ls.take(i + 1).map_values(|l: Seq<char>| trim_seq(l)) =~= ls.take(i as int).map_values(
            |l: Seq<char>| trim_seq(l),
        ).push(trim_seq(ls[i as int])));
        i = i + 1;
    }
    assert(ls.take(lines@.len() as int) =~= ls);
    out
}

fn command_text(s: &str) -> (r: QueryStep)
    ensures
        step_view(r) == StepView::RunShell(s@),
{
    QueryStep::RunShell(String::from_str(s))
}

/// Queries a device's call state; `P` is the parser of the diagnostics
/// dumps (a `dyn TelephonyParser` for a parser chosen at run time).
pub struct AdbCallStateProvider<P: TelephonyParser + ?Sized = AndroidTelephonyParser> {
    adb: Arc<AdbClient>,
    parser: Arc<P>,
}

impl AdbCallStateProvider<AndroidTelephonyParser> {
    pub fn new(adb: Arc<AdbClient>) -> (r: Self)
        ensures
            r.client_spec() == adb,
    {
        AdbCallStateProvider { adb, parser: Arc::new(AndroidTelephonyParser::new()) }
    }
}

impl<P: TelephonyParser + ?Sized> AdbCallStateProvider<P> {
    pub fn with_parser(adb: Arc<AdbClient>, parser: Arc<P>) -> (r: Self)
        ensures
            r.client_spec() == adb,
            r.parser_spec() == parser,
    {
        AdbCallStateProvider { adb, parser }
    }

    /// The parser that reads this provider's diagnostics dumps.
    pub closed spec fn parser_spec(&self) -> Arc<P> {
        self.parser
    }

    pub closed spec fn client_spec(&self) -> Arc<AdbClient> {
        self.adb
    }

    /// The ADB client the query commands are meant for.
    pub fn client(&self) -> (r: Arc<AdbClient>)
        ensures
            r == self.client_spec(),
    {
        Arc::clone(&self.adb)
    }

    /// Starts a query of the call state: first `dumpsys telephony.registry`.
    pub fn begin_query(&self) -> (r: (CallStateQuery, QueryStep))
        ensures
            r.0@.stage == QueryStage::Registry,
            r.0@.state == CallState::Unknown,
            r.0@.caller is None,
            r.0@.keys.len() == 0,
            r.0@.next == 0,
            step_view(r.1) == StepView::RunShell(registry_command()),
    {
        let q = CallStateQuery {
            stage: QueryStage::Registry,
            state: CallState::Unknown,
            metadata: CallMetadata::default(),
            notification_keys: Vec::new(),
            next_key: 0,
        };
        (q, command_text("dumpsys telephony.registry"))
    }
}

/// What the query takes the parser's reading to be: the reading itself,
/// or, where the parser was not asked, the query's own state and caller
/// (which no stage that goes without a reading looks at).
pub open spec fn reading_view(q: QueryView, reading: Option<(CallState, CallMetadata)>) -> (
    CallState,
    Option<Seq<char>>,
) {
    match reading {
        Some(r) => (r.0, r.1.caller_number.deep_view()),
        None => (q.state, q.caller),
    }
}

impl CallStateQuery {
    fn scan_keys(&mut self, from: usize) -> (r: QueryStep)
        requires
            from <= old(self)@.keys.len(),
        ensures
            (final(self)@, step_view(r)) == scan_from(old(self)@, from as int),
            final(self)@.next <= final(self)@.keys.len(),
            final(self)@.keys == old(self)@.keys,
    {
        let ghost keys = self.notification_keys.deep_view();
        proof {
            use_type_invariant(&*self);
        }
        let mut j = from;
        while j < self.notification_keys.len()
            invariant
                from <= j <= self.notification_keys@.len(),
                self@ == old(self)@,
                self.next_key <= self.notification_keys@.len(),
                keys == self.notification_keys.deep_view(),
                next_caller_key(keys, j as int) == next_caller_key(keys, from as int),
            decreases self.notification_keys@.len() - j,
        {
            proof {
                crate::text::lemma_chars_deep_view(self.notification_keys@[j as int]);
            }
            if is_caller_notification(&self.notification_keys[j]) {
                assert(next_caller_key(keys, j as int) == Some(j as int));
                let cmd = notification_get_command_text(&self.notification_keys[j]);
                self.stage = QueryStage::NotificationDetail;
                self.next_key = j + 1;
                return QueryStep::RunShell(cmd);
            }
            j = j + 1;
        }
        assert(next_caller_key(keys, j as int) is None);
        self.stage = QueryStage::CallLog;
        self.next_key = self.notification_keys.len();
        command_text(
            "content query --uri content://call_log/calls --projection number:date:type --sort 'date DESC'",
        )
    }

    fn after_reading_step(&mut self) -> (r: QueryStep)
        ensures
            (final(self)@, step_view(r)) == after_reading(old(self)@),
    {
        proof {
            use_type_invariant(&*self);
        }
        if (self.state == CallState::Ringing || self.state == CallState::Offhook)
            && self.metadata.caller_number.is_none() {
            self.stage = QueryStage::NotificationList;
            command_text("cmd notification list")
        } else {
            self.stage = QueryStage::Done;
            QueryStep::Finished(Ok((self.state, self.metadata.clone())))
        }
    }

    /// Moves the query on with the result of the command it asked for and,
    /// for a diagnostics dump, what the parser read from it (see
    /// `query_advance`). A failed registry dump fails the query with its
    /// error; every other failure only skips that source.
    pub fn advance(
        &mut self,
        output: Result<String, AppError>,
        reading: Option<(CallState, CallMetadata)>,
    ) -> (r: QueryStep)
        ensures
            (final(self)@, step_view(r)) == query_advance(
                old(self)@,
                output_view(output),
                reading_view(old(self)@, reading),
            ),
            final(self)@.next <= final(self)@.keys.len(),
            (old(self)@.stage == QueryStage::Registry && output is Err) ==> (r matches QueryStep::Finished(Err(e))
                && output == Err::<String, AppError>(e)),
    {
        proof {
            use_type_invariant(&*self);
        }
        let ghost parsed = reading_view(self@, reading);
        match self.stage {
            QueryStage::Registry => match output {
                Err(e) => {
                    self.stage = QueryStage::Done;
                    QueryStep::Finished(Err(e))
                },
                Ok(text) => {
                    match reading {
                        Some((state, metadata)) => {
                            self.state = state;
                            self.metadata = metadata;
                        },
                        None => {},
                    }
                    self.stage = QueryStage::Telecom;
                    let r = command_text("dumpsys telecom");
                    assert((self@, step_view(r)) == query_advance(old(self)@, Some(text@), parsed));
                    r
                },
            },
            QueryStage::Telecom => {
                match output {
                    Ok(_) => {
                        let telecom = match reading {
                            Some(rd) => rd,
                            None => (self.state, self.metadata.clone()),
                        };
                        let metadata = self.metadata.clone();
                        let (state, metadata) = merge_telecom_reading(self.state, metadata, telecom);
                        self.state = state;
                        self.metadata = metadata;
                    },
                    Err(_) => {},
                }
                let r = self.after_reading_step();
                assert((self@, step_view(r)) == query_advance(old(self)@, output_view(output), parsed));
                r
            },
            QueryStage::NotificationList => {
                match output {
                    Ok(text) => {
                        self.next_key = 0;
                        self.notification_keys = trimmed_lines(text.as_str());
                        let r = self.scan_keys(0);
                        assert((self@, step_view(r)) == query_advance(old(self)@, Some(text@), parsed));
                        r
                    },
                    Err(_) => {
                        self.stage = QueryStage::CallLog;
                        let r = command_text(
                            "content query --uri content://call_log/calls --projection number:date:type --sort 'date DESC'",
                        );
                        assert((self@, step_view(r)) == query_advance(old(self)@, None, parsed));
                        r
                    },
                }
            },
            QueryStage::NotificationDetail => {
                let found = match &output {
                    Ok(text) => extract_phone_number(text.as_str()),
                    Err(_) => None,
                };
                match found {
                    Some(num) => {
                        self.stage = QueryStage::Done;
                        self.metadata.caller_number = Some(num);
                        let r = QueryStep::Finished(Ok((self.state, self.metadata.clone())));
                        assert((self@, step_view(r)) == query_advance(old(self)@, output_view(output), parsed));
                        r
                    },
                    None => {
                        let from = self.next_key;
                        let r = self.scan_keys(from);
                        assert((self@, step_view(r)) == query_advance(old(self)@, output_view(output), parsed));
                        r
                    },
                }
            },
            QueryStage::CallLog => {
                let caller = match &output {
                    Ok(text) => call_log_number(text.as_str()),
                    Err(_) => None,
                };
                self.stage = QueryStage::Done;
                self.metadata.caller_number = caller;
                let r = QueryStep::Finished(Ok((self.state, self.metadata.clone())));
                assert((self@, step_view(r)) == query_advance(old(self)@, output_view(output), parsed));
                r
            },
            QueryStage::Done => {
                let r = QueryStep::Finished(Ok((self.state, self.metadata.clone())));
                assert((self@, step_view(r)) == query_advance(old(self)@, output_view(output), parsed));
                r
            },
        }
    }
}

/// Whether the query, waiting at `stage`, hands the answer to its parser:
/// only the two diagnostics dumps are parsed.
pub open spec fn reads_dump(stage: QueryStage) -> bool {
    stage == QueryStage::Registry || stage == QueryStage::Telecom
}

/// The reading `AndroidTelephonyParser` takes from the answer `out` of the
/// command the query waits for: the parsed state and caller of a dump, and
/// the query's own state and caller where nothing is parsed.
pub open spec fn android_reading(q: QueryView, out: Option<Seq<char>>) -> (
    CallState,
    Option<Seq<char>>,
) {
    match out {
        Some(t) => if reads_dump(q.stage) {
            (parsed_state(t), parsed_caller(t))
        } else {
            (q.state, q.caller)
        },
        None => (q.state, q.caller),
    }
}

fn wants_reading(query: &CallStateQuery) -> (r: bool)
    ensures
        r == reads_dump(query@.stage),
{
    match query.stage {
        QueryStage::Registry => true,
        QueryStage::Telecom => true,
        _ => false,
    }
}

impl AdbCallStateProvider<AndroidTelephonyParser> {
    /// Moves a query on with the result of the command it asked for: the
    /// registry and telecom dumps are read with `AndroidTelephonyParser`, and
    /// the query goes on as `CallStateQuery::advance` says for that reading
    /// (see `query_advance`).
    pub fn advance_query(&self, query: &mut CallStateQuery, output: Result<String, AppError>) -> (r:
        QueryStep)
        ensures
            (final(query)@, step_view(r)) == query_advance(
                old(query)@,
                output_view(output),
                android_reading(old(query)@, output_view(output)),
            ),
            final(query)@.next <= final(query)@.keys.len(),
            (old(query)@.stage == QueryStage::Registry && output is Err) ==> (r matches QueryStep::Finished(Err(e))
                && output == Err::<String, AppError>(e)),
    {
        let wants = wants_reading(query);
        let reading = match &output {
            Ok(text) => if wants {
                let parsed = self.parser.parse(text.as_str());
                Some(parsed)
            } else {
                None
            },
            Err(_) => None,
        };
        assert(reading_view(query@, reading) == android_reading(query@, output_view(output)));
        query.advance(output, reading)
    }
}

impl<P: TelephonyParser + ?Sized> AdbCallStateProvider<P> {
    /// Moves a query on with the result of the command it asked for, for a
    /// provider with any parser: the provider's parser reads the registry and
    /// telecom dumps (the trait promises nothing of what it reads), and the
    /// query goes on as `CallStateQuery::advance` says for that reading.
    pub fn advance_query_using_parser(
        &self,
        query: &mut CallStateQuery,
        output: Result<String, AppError>,
    ) -> (r: QueryStep)
        ensures
            final(query)@.next <= final(query)@.keys.len(),
            exists|parsed: (CallState, Option<Seq<char>>)|
                (final(query)@, step_view(r)) == #[trigger] query_advance(
                    old(query)@,
                    output_view(output),
                    parsed,
                ),
            match output {
                Ok(t) => reads_dump(old(query)@.stage) ==> (final(query)@, step_view(r))
                    == query_advance(
                    old(query)@,
                    output_view(output),
                    (*self.parser_spec()).parse_spec(t@),
                ),
                Err(_) => true,
            },
            !(reads_dump(old(query)@.stage) && output is Ok) ==> (final(query)@, step_view(r))
                == query_advance(
                old(query)@,
                output_view(output),
                (old(query)@.state, old(query)@.caller),
            ),
            (old(query)@.stage == QueryStage::Registry && output is Err) ==> (r matches QueryStep::Finished(Err(e))
                && output == Err::<String, AppError>(e)),
    {
        let wants = wants_reading(query);
        let reading = match &output {
            Ok(text) => if wants {
                Some(self.parser.parse(text.as_str()))
            } else {
                None
            },
            Err(_) => None,
        };
        query.advance(output, reading)
    }
}

// ---------------------------------------------------------------------------
// Laws
// ---------------------------------------------------------------------------

/// Whether `app` names one of the apps whose call notifications carry the
/// caller: a dialer, WhatsApp (also `w4b`, WhatsApp Business), the telecom
/// service or the phone app.
pub open spec fn caller_app_word(app: Seq<char>) -> bool {
    app == "dialer"@ || app == "whatsapp"@ || app == "w4b"@ || app == "telecom"@ || app == "phone"@
}

/// Whether `word` marks a notification as being about a call.
pub open spec fn call_word(word: Seq<char>) -> bool {
    word == "Call"@ || word == "call"@ || word == "Incoming"@ || word == "Ongoing"@
}

/// A notification line of a dialer, WhatsApp or the phone service that
/// speaks of a call, and not of a missed call, is a caller notification.
pub proof fn law_call_notifications_are_read(line: Seq<char>, app: Seq<char>, word: Seq<char>)
    requires
        caller_app_word(app),
        call_word(word),
        contains_seq(line, app),
        contains_seq(line, word),
        !contains_seq(line, "MissedCall"@),
        !contains_seq(line, "missed_call"@),
    ensures
        caller_notification(line),
{
}

/// A missed-call notification is never a caller notification.
pub proof fn law_missed_calls_are_skipped(line: Seq<char>)
    requires
        contains_seq(line, "MissedCall"@) || contains_seq(line, "missed_call"@),
    ensures
        !caller_notification(line),
{
}

/// When the first line of the notification list is a call notification
/// of a dialer or messenger (WhatsApp included), the query asks for that
/// notification's details next, before any call-log lookup.
pub proof fn law_first_call_notification_is_fetched(
    q: QueryView,
    text: Seq<char>,
    parsed: (CallState, Option<Seq<char>>),
    app: Seq<char>,
    word: Seq<char>,
)
    requires
        q.stage == QueryStage::NotificationList,
        lines_seq(text).len() > 0,
        caller_app_word(app),
        call_word(word),
        contains_seq(trim_seq(lines_seq(text)[0]), app),
        contains_seq(trim_seq(lines_seq(text)[0]), word),
        !contains_seq(trim_seq(lines_seq(text)[0]), "MissedCall"@),
        !contains_seq(trim_seq(lines_seq(text)[0]), "missed_call"@),
    ensures
        query_advance(q, Some(text), parsed).1 == StepView::RunShell(
            notification_get_command(trim_seq(lines_seq(text)[0])),
        ),
        query_advance(q, Some(text), parsed).0.stage == QueryStage::NotificationDetail,
{
    let keys = lines_seq(text).map_values(|l: Seq<char>| trim_seq(l));
    assert(keys[0] == trim_seq(lines_seq(text)[0]));
    law_call_notifications_are_read(keys[0], app, word);
    assert(next_caller_key(keys, 0) == Some(0int));
}

/// Rank of a stage: every stage waits for an answer of lower rank next.
pub open spec fn stage_rank(s: QueryStage) -> int {
    match s {
        QueryStage::Registry => 5,
        QueryStage::Telecom => 4,
        QueryStage::NotificationList => 3,
        QueryStage::NotificationDetail => 2,
        QueryStage::CallLog => 1,
        QueryStage::Done => 0,
    }
}

proof fn lemma_next_caller_key_bounds(keys: Seq<Seq<char>>, from: int)
    ensures
        next_caller_key(keys, from) matches Some(j) ==> from <= j < keys.len(),
    decreases keys.len() - from,
{
    if 0 <= from < keys.len() && !caller_notification(keys[from]) {
        lemma_next_caller_key_bounds(keys, from + 1);
    }
}

/// Every query ends: each answer either ends the query or moves it to a
/// later stage, or, among the notifications, to a later notification key.
pub proof fn law_query_progresses(
    q: QueryView,
    out: Option<Seq<char>>,
    parsed: (CallState, Option<Seq<char>>),
)
    requires
        0 <= q.next <= q.keys.len(),
    ensures
        ({
            let (q2, step) = query_advance(q, out, parsed);
            (step is Finished || step is Failed) || stage_rank(q2.stage) < stage_rank(q.stage) || (
            q2.stage == q.stage && q2.keys == q.keys && q.next < q2.next <= q2.keys.len())
        }),
        (query_advance(q, out, parsed).1 is Finished || query_advance(q, out, parsed).1 is Failed)
            ==> query_advance(q, out, parsed).0.stage == QueryStage::Done,
{
    lemma_next_caller_key_bounds(q.keys, q.next);
    lemma_next_caller_key_bounds(lines_seq(out->0).map_values(|l: Seq<char>| trim_seq(l)), 0);
}

} // verus!
