//! Parsing daily templates from plain text.
//!
//! One template line is a whitespace-token list: an optional leading list
//! marker (`-` or `*`), at most one time-slot token (e.g. `7:30`, `+0:15`,
//! `%H:%M--%H:%M`), at most one activity-kind token (e.g. `meal:`), and the
//! activity text, which runs to the end of the line.

use crate::dom::Activity;
use crate::dom::ActivityKind;
use crate::dom::ActivityDeserializationError;
use crate::template::Template;
use crate::template::TimeBoxTemplate;
use crate::template::TimeBoxTemplateView;
use crate::template::TimeSlotTemplate;
use crate::template::TimeTemplate;
use crate::text::push_char;
use crate::text::spec_split_ws;
use crate::text::spec_trim;
use crate::text::split_ws;
use crate::text::str_eq;
use crate::text::trim;
use crate::time::Duration;
use vstd::prelude::*;
use vstd::string::StrSliceExecFns;
use vstd::string::StringExecFns;

verus! {

/// What can go wrong reading a template.
#[derive(Debug)]
pub enum ParseError {
    /// Attempted to parse a template from an empty string
    EmptyString,
    /// A time box has no associated activity
    NoActivity,
    /// Could not parse the activity
    InvalidActivity(ActivityDeserializationError),
    /// Could not parse a time (the offending text is carried along)
    CantParseTime(String),
}

/// The character views of a token list.
pub open spec fn tokens_view(ts: Seq<String>) -> Seq<Seq<char>> {
    ts.map_values(|t: String| t@)
}

/// Whether the character is a decimal digit.
pub open spec fn is_digit(c: char) -> bool {
    48 <= c as u32 <= 57
}

/// The value of a digit string read in base 10.
pub open spec fn digits_value(s: Seq<char>) -> int
    decreases s.len(),
{
    if s.len() == 0 {
        0
    } else {
        digits_value(s.drop_last()) * 10 + (s.last() as u32 - 48)
    }
}

/// Whether every character is a decimal digit.
pub open spec fn all_digits(s: Seq<char>) -> bool {
    forall|i: int| 0 <= i < s.len() ==> is_digit(#[trigger] s[i])
}

/// The signed 8-bit integer a string reads as: an optional `+` or `-` sign,
/// then one or more digits; `None` where the shape or the range fails.
pub open spec fn spec_parse_i8(s: Seq<char>) -> Option<i8> {
    let neg = s.len() > 0 && s[0] == '-';
    let digits = if s.len() > 0 && (s[0] == '-' || s[0] == '+') {
        s.drop_first()
    } else {
        s
    };
    if digits.len() == 0 || !all_digits(digits) {
        None
    } else {
        let v = if neg {
            -digits_value(digits)
        } else {
            digits_value(digits)
        };
        if -128 <= v <= 127 {
            Some(v as i8)
        } else {
            None
        }
    }
}

/// Reads a signed 8-bit integer.
fn parse_i8(s: &str) -> (r: Option<i8>)
    ensures
        r == spec_parse_i8(s@),
{
    let n = s.unicode_len();
    if n == 0 {
        return None;
    }
    let first = s.get_char(0);
    let neg = first == '-';
    let start: usize = if first == '-' || first == '+' {
        1
    } else {
        0
    };
    proof {
        if start == 1 {
            assert(s@.drop_first() =~= s@.subrange(1, n as int));
        } else {
            assert(s@ =~= s@.subrange(0, n as int));
        }
    }
    if n == start {
        return None;
    }
    // The accumulator follows the true value until it passes the 8-bit
    // range, where it is pinned at 129.
    let mut acc: i32 = 0;
    let mut i: usize = start;
    while i < n
        invariant
            start <= i <= n,
            start <= 1,
            n == s@.len(),
            s@.len() > 0,
            start as int == (if s@[0] == '-' || s@[0] == '+' { 1int } else { 0int }),
            all_digits(s@.subrange(start as int, i as int)),
            0 <= acc <= 129,
            ({
                let v = digits_value(s@.subrange(start as int, i as int));
                (acc == v && v <= 128) || (acc == 129 && v >= 129)
            }),
        decreases n - i,
    {
        let c = s.get_char(i);
        let u = c as u32;
        if u < 48 || u > 57 {
            proof {
                if start == 1 {
                    assert(s@.drop_first() =~= s@.subrange(1, n as int));
                } else {
                    assert(s@ =~= s@.subrange(0, n as int));
                }
                assert(s@.subrange(start as int, n as int)[i - start] == s@[i as int]);
                assert(!is_digit(s@.subrange(start as int, n as int)[i - start]));
            }
            return None;
        }
        let d = (u - 48) as i32;
        let ghost prev = s@.subrange(start as int, i as int);
        acc = if acc * 10 + d > 128 {
            129
        } else {
            acc * 10 + d
        };
        i = i + 1;
        proof {
            let cur = s@.subrange(start as int, i as int);
            assert(cur.drop_last() =~= prev);
            assert(cur.last() == s@[i - 1]);
        }
    }
    proof {
        assert(s@.subrange(start as int, n as int) =~= if start == 1 {
            s@.drop_first()
        } else {
            s@
        });
    }
    if neg {
        if acc <= 128 {
            Some((-acc) as i8)
        } else {
            None
        }
    } else {
        if acc <= 127 {
            Some(acc as i8)
        } else {
            None
        }
    }
}

/// The first position of `c` in `s` at or after `from`.
pub open spec fn spec_find_char(s: Seq<char>, c: char, from: int) -> Option<int>
    decreases s.len() - from when 0 <= from <= s.len()
{
    if from >= s.len() {
        None
    } else if s[from] == c {
        Some(from)
    } else {
        spec_find_char(s, c, from + 1)
    }
}

/// Finds the first position of `c` at or after `from`.
fn find_char(s: &str, c: char, from: usize) -> (r: Option<usize>)
    requires
        from <= s@.len(),
    ensures
        r matches Some(i) ==> Some(i as int) == spec_find_char(s@, c, from as int) && from <= i
            < s@.len(),
        r is None ==> spec_find_char(s@, c, from as int) is None,
{
    let n = s.unicode_len();
    let mut i = from;
    while i < n
        invariant
            from <= i <= n,
            n == s@.len(),
            spec_find_char(s@, c, from as int) == spec_find_char(s@, c, i as int),
        decreases n - i,
    {
        if s.get_char(i) == c {
            return Some(i);
        }
        i = i + 1;
    }
    None
}

/// The time template a string reads as: `HH` and `MM` parts around the first
/// colon, each either the clock format (`%H`/`%M`) or a signed number; a
/// leading `+` or `-` makes the time relative.  `None` where a part is
/// missing, mixed with the format, or unreadable.
pub open spec fn spec_time_template(s: Seq<char>) -> Option<TimeTemplate> {
    match spec_find_char(s, ':', 0) {
        None => None,
        Some(sep) => {
            let hours_tok = s.subrange(0, sep);
            let rest_end = match spec_find_char(s, ':', sep + 1) {
                Some(j) => j,
                None => s.len() as int,
            };
            let minutes_tok = s.subrange(sep + 1, rest_end);
            if hours_tok.len() == 0 {
                None
            } else {
                let relative = hours_tok[0] == '+' || hours_tok[0] == '-';
                let h_fmt = hours_tok == "%H"@;
                let m_fmt = minutes_tok == "%M"@;
                if h_fmt && m_fmt {
                    Some(TimeTemplate::TimeFormat)
                } else if h_fmt || m_fmt {
                    None
                } else {
                    match (spec_parse_i8(hours_tok), spec_parse_i8(minutes_tok)) {
                        (Some(h), Some(m)) => {
                            let d = Duration { minutes: (h * 60 + m) as i32 };
                            if relative {
                                Some(TimeTemplate::RelativeTime(d))
                            } else {
                                Some(TimeTemplate::AbsoluteTime(d))
                            }
                        },
                        _ => None,
                    }
                }
            }
        },
    }
}

impl TimeTemplate {
    /// Reads a time template from text like `+3:00`, `%H:%M` or `14:00`.
    pub fn from_str(s: &str) -> (r: Result<TimeTemplate, ParseError>)
        ensures
            spec_time_template(s@) matches Some(t) ==> (r matches Ok(t2) && t2 == t),
            spec_time_template(s@) is None ==> (r matches Err(e) && e matches
                ParseError::CantParseTime(m) && m@ == s@),
    {
        let n = s.unicode_len();
        let sep = match find_char(s, ':', 0) {
            Some(i) => i,
            None => {
                return Err(ParseError::CantParseTime(text_of(s)));
            }
        };
        let rest_end = match find_char(s, ':', sep + 1) {
            Some(j) => j,
            None => n,
        };
        let hours_tok = s.substring_char(0, sep);
        let minutes_tok = s.substring_char(sep + 1, rest_end);
        if hours_tok.unicode_len() == 0 {
            return Err(ParseError::CantParseTime(text_of(s)));
        }
        let first = hours_tok.get_char(0);
        let relative = first == '+' || first == '-';
        let h_fmt = str_eq(hours_tok, "%H");
        let m_fmt = str_eq(minutes_tok, "%M");
        if h_fmt && m_fmt {
            Ok(TimeTemplate::TimeFormat)
        } else if h_fmt || m_fmt {
            Err(ParseError::CantParseTime(text_of(s)))
        } else {
            match (parse_i8(hours_tok), parse_i8(minutes_tok)) {
                (Some(h), Some(m)) => {
                    let d = Duration::hm(h, m);
                    if relative {
                        Ok(TimeTemplate::RelativeTime(d))
                    } else {
                        Ok(TimeTemplate::AbsoluteTime(d))
                    }
                }
                _ => Err(ParseError::CantParseTime(text_of(s))),
            }
        }
    }
}

/// Copies a string slice into an owned string.
fn text_of(s: &str) -> (r: String)
    ensures
        r@ == s@,
{
    let mut r = String::new();
    r.append(s);
    proof {
        assert(r@ =~= s@);
    }
    r
}

/// The first position where `--` starts in `s`.
pub open spec fn spec_find_span_sep(s: Seq<char>, from: int) -> Option<int>
    decreases s.len() - from when 0 <= from
{
    if from + 2 > s.len() {
        None
    } else if s[from] == '-' && s[from + 1] == '-' {
        Some(from)
    } else {
        spec_find_span_sep(s, from + 1)
    }
}

/// Finds the first position where `--` starts.
fn find_span_sep(s: &str) -> (r: Option<usize>)
    ensures
        r matches Some(i) ==> Some(i as int) == spec_find_span_sep(s@, 0) && i + 2 <= s@.len(),
        r is None ==> spec_find_span_sep(s@, 0) is None,
{
    let n = s.unicode_len();
    if n < 2 {
        return None;
    }
    let mut i: usize = 0;
    while i <= n - 2
        invariant
            i <= n - 1,
            2 <= n == s@.len(),
            spec_find_span_sep(s@, 0) == spec_find_span_sep(s@, i as int),
        decreases n - i,
    {
        if s.get_char(i) == '-' && s.get_char(i + 1) == '-' {
            return Some(i);
        }
        i = i + 1;
    }
    None
}

/// The slot template a string reads as: two time templates around the first
/// `--`, or a single time template.
pub open spec fn spec_slot_template(s: Seq<char>) -> Option<TimeSlotTemplate> {
    match spec_find_span_sep(s, 0) {
        Some(sep) => {
            match (spec_time_template(s.subrange(0, sep)), spec_time_template(
                s.subrange(sep + 2, s.len() as int),
            )) {
                (Some(a), Some(b)) => Some(TimeSlotTemplate::Span(a, b)),
                _ => None,
            }
        },
        None => match spec_time_template(s) {
            Some(t) => Some(TimeSlotTemplate::Time(t)),
            None => None,
        },
    }
}

impl TimeSlotTemplate {
    /// Reads a full time-slot template, e.g. `+3:00--%H:%M`, from text.
    pub fn from_str(s: &str) -> (r: Result<TimeSlotTemplate, ParseError>)
        ensures
            spec_slot_template(s@) matches Some(t) ==> (r matches Ok(t2) && t2 == t),
            spec_slot_template(s@) is None ==> (r matches Err(e) && e is CantParseTime),
    {
        let n = s.unicode_len();
        let sep = find_span_sep(s);
        match sep {
            Some(sep_pos) => {
                let first = s.substring_char(0, sep_pos);
                let second = s.substring_char(sep_pos + 2, n);
                let time_1 = match TimeTemplate::from_str(first) {
                    Ok(t) => t,
                    Err(e) => {
                        return Err(e);
                    }
                };
                let time_2 = match TimeTemplate::from_str(second) {
                    Ok(t) => t,
                    Err(e) => {
                        return Err(e);
                    }
                };
                Ok(TimeSlotTemplate::Span(time_1, time_2))
            }
            None => {
                match TimeTemplate::from_str(s) {
                    Ok(t) => Ok(TimeSlotTemplate::Time(t)),
                    Err(e) => Err(e),
                }
            }
        }
    }
}

/// The activity kind a tag reads as: `meal` and `sprint` name their kinds;
/// anything else is unknown.
pub open spec fn spec_activity_kind(s: Seq<char>) -> ActivityKind {
    if s == "meal"@ {
        ActivityKind::Meal
    } else if s == "sprint"@ {
        ActivityKind::Sprint
    } else {
        ActivityKind::Unknown
    }
}

impl ActivityKind {
    /// Reads an activity kind tag; unknown tags are accepted as `Unknown`.
    pub fn from_str(s: &str) -> (r: Result<ActivityKind, ParseError>)
        ensures
            r matches Ok(k) && k == spec_activity_kind(s@),
    {
        if str_eq(s, "meal") {
            Ok(ActivityKind::Meal)
        } else if str_eq(s, "sprint") {
            Ok(ActivityKind::Sprint)
        } else {
            Ok(ActivityKind::Unknown)
        }
    }
}

/// What a token within a template line is.
enum TokenKind {
    ListInitializer,
    Time(TimeSlotTemplate),
    ActivityKind(ActivityKind),
    ActivityText,
}

/// The classification of one (trimmed) token: a lone list marker; the
/// line's time slot, if none was seen yet and the token reads as one; the
/// activity kind, if none was seen yet and the token is a known tag ending
/// in a colon; otherwise the start of the activity text.
pub open spec fn spec_token_kind(tok: Seq<char>, slot_seen: bool, kind_seen: bool) -> (
    int,
    Option<TimeSlotTemplate>,
    ActivityKind,
) {
    let t = spec_trim(tok);
    if t.len() == 1 && (t[0] == '-' || t[0] == '*') {
        (0int, None, ActivityKind::Unknown)
    } else if !slot_seen && spec_slot_template(t) is Some {
        (1int, spec_slot_template(t), ActivityKind::Unknown)
    } else if !kind_seen && t.len() > 0 && t.last() == ':' && spec_activity_kind(t.drop_last())
        != ActivityKind::Unknown {
        (2int, None, spec_activity_kind(t.drop_last()))
    } else {
        (3int, None, ActivityKind::Unknown)
    }
}

/// The raw tokens from `from` on, joined with single spaces.
pub open spec fn spec_join_ws(ts: Seq<Seq<char>>, from: int) -> Seq<char>
    decreases ts.len() - from when 0 <= from
{
    if from >= ts.len() {
        Seq::empty()
    } else if from == ts.len() - 1 {
        ts[from]
    } else {
        ts[from] + seq![' '] + spec_join_ws(ts, from + 1)
    }
}

fn join_tokens(tokens: &Vec<String>, from: usize) -> (r: String)
    ensures
        r@ == spec_join_ws(tokens_view(tokens@), from as int),
    decreases tokens@.len() - from,
{
    if from >= tokens.len() {
        let r = String::new();
        proof {
            assert(r@ =~= spec_join_ws(tokens_view(tokens@), from as int));
        }
        r
    } else if from == tokens.len() - 1 {
        tokens[from].clone()
    } else {
        let mut r = tokens[from].clone();
        push_char(&mut r, ' ');
        let rest = join_tokens(tokens, from + 1);
        r.append(rest.as_str());
        proof {
            assert(r@ =~= spec_join_ws(tokens_view(tokens@), from as int));
        }
        r
    }
}

/// The (slot, activity) state after scanning the tokens from `i` on: a list
/// marker is skipped, the first slot token and the first kind tag are
/// recorded, and the first content token ends the scan with everything from
/// it on joined as the activity text.
pub open spec fn spec_scan(
    tokens: Seq<Seq<char>>,
    i: int,
    slot_seen: bool,
    kind_seen: bool,
    time: Option<TimeSlotTemplate>,
    activity: Option<crate::dom::ActivityView>,
) -> (Option<TimeSlotTemplate>, Option<crate::dom::ActivityView>)
    decreases tokens.len() - i when 0 <= i
{
    if i >= tokens.len() {
        (time, activity)
    } else {
        let (kind, slot, tag) = spec_token_kind(tokens[i], slot_seen, kind_seen);
        if kind == 0 {
            spec_scan(tokens, i + 1, slot_seen, kind_seen, time, activity)
        } else if kind == 1 {
            spec_scan(tokens, i + 1, true, kind_seen, slot, activity)
        } else if kind == 2 {
            let summary = match activity {
                Some(a) => a.summary,
                None => Seq::empty(),
            };
            spec_scan(
                tokens,
                i + 1,
                slot_seen,
                true,
                time,
                Some(crate::dom::ActivityView { summary, kind: tag }),
            )
        } else {
            let kind0 = match activity {
                Some(a) => a.kind,
                None => ActivityKind::Unknown,
            };
            (
                time,
                Some(
                    crate::dom::ActivityView { summary: spec_join_ws(tokens, i), kind: kind0 },
                ),
            )
        }
    }
}

/// What a token list parses to: an error for an empty list or an empty
/// first token; otherwise the scan of the tokens (skipping a leading list
/// marker), failing where no activity text was found.
pub open spec fn spec_generate(tokens: Seq<Seq<char>>) -> Result<TimeBoxTemplateView, ParseError> {
    if tokens.len() == 0 {
        Err(ParseError::EmptyString)
    } else {
        let t0 = spec_trim(tokens[0]);
        if t0.len() == 0 {
            Err(ParseError::EmptyString)
        } else {
            let start: int = if t0[0] == '-' || t0[0] == '*' {
                1
            } else {
                0
            };
            let (time, activity) = spec_scan(tokens, start, false, false, None, None);
            match activity {
                Some(a) => Ok(TimeBoxTemplateView { time, activity: a }),
                None => Err(ParseError::NoActivity),
            }
        }
    }
}

/// A state machine reading one template line out of its whitespace tokens.
#[derive(Debug)]
pub struct TemplateTimeBoxParser {
    pub tokens: Vec<String>,
    pub timeslot_detected: bool,
    pub activity_kind_identified: bool,
}

impl TemplateTimeBoxParser {
    /// The tokens the parser was built over.
    pub open spec fn spec_tokens(self) -> Seq<Seq<char>> {
        tokens_view(self.tokens@)
    }

    /// Builds a parser over the whitespace tokens of one line.
    pub fn from_tokens(tokens: Vec<String>) -> (r: Self)
        ensures
            r.spec_tokens() == tokens_view(tokens@),
            !r.timeslot_detected_spec() && !r.kind_identified_spec(),
    {
        TemplateTimeBoxParser {
            tokens,
            timeslot_detected: false,
            activity_kind_identified: false,
        }
    }

    /// Whether a time slot token was already taken.
    pub open spec fn timeslot_detected_spec(self) -> bool {
        self.timeslot_detected
    }

    /// Whether an activity kind tag was already taken.
    pub open spec fn kind_identified_spec(self) -> bool {
        self.activity_kind_identified
    }

    /// Figures out which kind of token this is, updating the parser's
    /// memory of what was already seen.
    fn token_kind(&mut self, token: &str) -> (r: TokenKind)
        ensures
            ({
                let (kind, slot, tag) = spec_token_kind(
                    token@,
                    old(self).timeslot_detected,
                    old(self).activity_kind_identified,
                );
                &&& (kind == 0 ==> r is ListInitializer && *final(self) == *old(self))
                &&& (kind == 1 ==> (r matches TokenKind::Time(ts) && Some(ts) == slot)
                    && final(self).timeslot_detected && final(self).activity_kind_identified
                    == old(self).activity_kind_identified && final(self).tokens == old(self).tokens)
                &&& (kind == 2 ==> (r matches TokenKind::ActivityKind(k) && k == tag)
                    && final(self).activity_kind_identified && final(self).timeslot_detected
                    == old(self).timeslot_detected && final(self).tokens == old(self).tokens)
                &&& (kind == 3 ==> r is ActivityText && *final(self) == *old(self))
            }),
    {
        let trimmed = trim(token);
        let t = trimmed.as_str();
        let n = t.unicode_len();

        // List initializer, e.g. '-' or '*'
        if n == 1 && (t.get_char(0) == '-' || t.get_char(0) == '*') {
            return TokenKind::ListInitializer;
        }

        // If no time slot was taken yet and the token reads as one, take it
        if !self.timeslot_detected {
            match TimeSlotTemplate::from_str(t) {
                Ok(time_slot) => {
                    self.timeslot_detected = true;
                    return TokenKind::Time(time_slot);
                }
                Err(_) => {}
            }
        }

        // If no kind was taken for the activity, try to read a tag
        if !self.activity_kind_identified && n > 0 && t.get_char(n - 1) == ':' {
            let tag = t.substring_char(0, n - 1);
            proof {
                assert(t@.drop_last() =~= t@.subrange(0, t@.len() - 1));
            }
            let kind = match ActivityKind::from_str(tag) {
                Ok(k) => k,
                Err(_) => ActivityKind::Unknown,
            };
            match kind {
                ActivityKind::Unknown => {}
                _ => {
                    self.activity_kind_identified = true;
                    return TokenKind::ActivityKind(kind);
                }
            }
        }

        // If nothing else applies, this token is content
        TokenKind::ActivityText
    }

    /// Reads the whole line: an error for no tokens or an empty first
    /// token; else the optional slot, the optional kind tag, and the
    /// activity text from the first content token to the end of the line.
    pub fn generate(self) -> (r: Result<TimeBoxTemplate, ParseError>)
        requires
            !self.timeslot_detected_spec(),
            !self.kind_identified_spec(),
        ensures
            spec_generate(self.spec_tokens()) matches Ok(tb) ==> (r matches Ok(out) && out@
                == tb),
            spec_generate(self.spec_tokens()) matches Err(e) ==> (r matches Err(e2) && e2 is
                EmptyString == e is EmptyString && e2 is NoActivity == e is NoActivity),
    {
        let ghost all = self.spec_tokens();
        let mut parser = self;
        if parser.tokens.len() == 0 {
            return Err(ParseError::EmptyString);
        }
        let first_trimmed = trim(parser.tokens[0].as_str());
        if first_trimmed.as_str().unicode_len() == 0 {
            return Err(ParseError::EmptyString);
        }
        let c0 = first_trimmed.as_str().get_char(0);
        let start: usize = if c0 == '-' || c0 == '*' {
            // Skip the list token
            1
        } else {
            0
        };

        let mut time: Option<TimeSlotTemplate> = None;
        let mut activity: Option<Activity> = None;

        let n = parser.tokens.len();
        let mut i: usize = start;
        while i < n
            invariant
                start <= i <= n,
                n == all.len(),
                all == tokens_view(parser.tokens@),
                all == self.spec_tokens(),
                all.len() > 0,
                spec_trim(all[0]).len() > 0,
                start as int == (if spec_trim(all[0])[0] == '-' || spec_trim(all[0])[0] == '*' {
                    1int
                } else {
                    0int
                }),
                activity matches Some(a) ==> a@.summary == Seq::<char>::empty(),
                spec_scan(all, start as int, false, false, None, None) == spec_scan(
                    all,
                    i as int,
                    parser.timeslot_detected,
                    parser.activity_kind_identified,
                    time,
                    match activity {
                        Some(a) => Some(a@),
                        None => None,
                    },
                ),
            decreases n - i,
        {
            let ghost pre_flags = (parser.timeslot_detected, parser.activity_kind_identified);
            let ghost pre_time = time;
            let ghost pre_activity_view: Option<crate::dom::ActivityView> = match &activity {
                Some(a) => Some(a@),
                None => None,
            };
            let token = parser.tokens[i].clone();
            match parser.token_kind(token.as_str()) {
                TokenKind::ListInitializer => {
                    // A stray list marker mid-line carries no content
                }
                TokenKind::Time(timeslot_template) => {
                    time = Some(timeslot_template);
                }
                TokenKind::ActivityKind(kind) => {
                    let summary = match &activity {
                        Some(a) => a.summary.clone(),
                        None => String::new(),
                    };
                    activity = Some(Activity { summary, kind });
                }
                TokenKind::ActivityText => {
                    let all_text = join_tokens(&parser.tokens, i);
                    let kind0 = match &activity {
                        Some(a) => a.kind,
                        None => ActivityKind::Unknown,
                    };
                    let built = Activity { summary: all_text, kind: kind0 };
                    proof {
                        assert(spec_scan(
                            all,
                            i as int,
                            pre_flags.0,
                            pre_flags.1,
                            pre_time,
                            pre_activity_view,
                        ) == (pre_time, Some(built@)));
                    }
                    return Ok(TimeBoxTemplate { time, activity: built });
                }
            }
            i = i + 1;
        }

        match activity {
            Some(a) => Ok(TimeBoxTemplate { time, activity: a }),
            None => Err(ParseError::NoActivity),
        }
    }
}

impl TimeBoxTemplate {
    /// Reads one template line from text by splitting it into whitespace
    /// tokens.
    pub fn from_str(s: &str) -> (r: Result<TimeBoxTemplate, ParseError>)
        ensures
            spec_generate(spec_split_ws(s@)) matches Ok(tb) ==> (r matches Ok(out) && out@
                == tb),
            spec_generate(spec_split_ws(s@)) matches Err(e) ==> (r matches Err(e2) && e2 is
                EmptyString == e is EmptyString && e2 is NoActivity == e is NoActivity),
    {
        let tokens = split_ws(s);
        let parser = TemplateTimeBoxParser::from_tokens(tokens);
        parser.generate()
    }
}

/// What a list of template lines parses to: empty lines are skipped, each
/// other line becomes one time-box template, and the first failing line's
/// error ends the read.
pub open spec fn spec_template_lines(lines: Seq<Seq<char>>, i: int) -> Result<
    Seq<TimeBoxTemplateView>,
    ParseError,
>
    decreases lines.len() - i when 0 <= i
{
    if i >= lines.len() {
        Ok(Seq::empty())
    } else if lines[i].len() == 0 {
        spec_template_lines(lines, i + 1)
    } else {
        match spec_generate(spec_split_ws(lines[i])) {
            Err(e) => Err(e),
            Ok(tb) => match spec_template_lines(lines, i + 1) {
                Ok(rest) => Ok(seq![tb] + rest),
                Err(e) => Err(e),
            },
        }
    }
}

impl Template {
    /// Reads a whole template: one time box per non-empty line, in order;
    /// the first unreadable line's error is reported.
    pub fn from_lines(lines: &Vec<String>) -> (r: Result<Template, ParseError>)
        ensures
            spec_template_lines(tokens_view(lines@), 0) matches Ok(ts) ==> (r matches Ok(t) && t@
                == ts),
            spec_template_lines(tokens_view(lines@), 0) matches Err(e) ==> (r matches Err(e2)
                && e2 is EmptyString == e is EmptyString && e2 is NoActivity == e is NoActivity),
    {
        let ghost all = tokens_view(lines@);
        let mut timeboxes: Vec<TimeBoxTemplate> = Vec::new();
        let n = lines.len();
        let mut i: usize = 0;
        while i < n
            invariant
                i <= n,
                n == all.len(),
                all == tokens_view(lines@),
                spec_template_lines(all, 0) == (match spec_template_lines(all, i as int) {
                    Ok(rest) => Ok::<Seq<TimeBoxTemplateView>, ParseError>(
                        timeboxes@.map_values(|t: TimeBoxTemplate| t@) + rest,
                    ),
                    Err(e) => Err(e),
                }),
            decreases n - i,
        {
            let ghost prev = timeboxes@.map_values(|t: TimeBoxTemplate| t@);
            // Skip empty lines
            if lines[i].as_str().unicode_len() > 0 {
                match TimeBoxTemplate::from_str(lines[i].as_str()) {
                    Ok(time_box) => {
                        timeboxes.push(time_box);
                        proof {
                            assert(timeboxes@.map_values(|t: TimeBoxTemplate| t@) =~= prev.push(
                                timeboxes@[timeboxes@.len() - 1]@,
                            ));
                            match spec_template_lines(all, i as int + 1) {
                                Ok(rest) => {
                                    assert(prev + (seq![timeboxes@[timeboxes@.len() - 1]@] + rest)
                                        =~= timeboxes@.map_values(|t: TimeBoxTemplate| t@) + rest);
                                }
                                Err(_) => {}
                            }
                        }
                    }
                    Err(e) => {
                        return Err(e);
                    }
                }
            }
            i = i + 1;
        }
        proof {
            assert(timeboxes@.map_values(|t: TimeBoxTemplate| t@) + Seq::<
                TimeBoxTemplateView,
            >::empty() =~= timeboxes@.map_values(|t: TimeBoxTemplate| t@));
        }
        Ok(Template(timeboxes))
    }
}

} // verus!
