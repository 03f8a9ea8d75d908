//! The cron clock: when a schedule fires next.
//!
//! A schedule is a cron expression and the name of a time zone. Expressions
//! are evaluated by the `cron` crate, which wants a seconds field in front of
//! the five classic fields (minute, hour, day of month, month, day of week);
//! an expression of exactly five fields is given a seconds field of `0`
//! before it is handed over, any other expression is handed over as it is.
//! The fields mean what they mean to that crate: days of the week, for one,
//! count from 1 for Sunday to 7 for Saturday. Time zones are the names of
//! the IANA database as `chrono-tz` knows them, upper and lower case told
//! apart. Instants are whole seconds since the Unix epoch.

use vstd::prelude::*;

verus! {

/// A point in time: whole seconds since 1970-01-01T00:00:00Z.
#[derive(Clone, Copy, Debug, PartialEq, Eq, Structural)]
pub struct TriggerInstant {
    pub epoch_seconds: i64,
}

/// Why a schedule cannot be used at all.
#[derive(Clone, Copy, Debug, PartialEq, Eq, Structural)]
pub enum ConfigError {
    /// The cron expression cannot be parsed.
    MalformedExpression,
    /// The time zone is not a known zone.
    UnknownTimezone,
    /// No repository location is given.
    EmptyRepository,
    /// No passphrase is given.
    EmptyPassphrase,
}

/// Why no next trigger was computed.
#[derive(Clone, Copy, Debug, PartialEq, Eq, Structural)]
pub enum TriggerError {
    /// The schedule cannot be used at all.
    Config(ConfigError),
    /// The schedule has no occurrence after the reference instant.
    ScheduleExhausted,
}

/// Earliest reference instant for which a schedule is evaluated.
pub const EARLIEST_REFERENCE: i64 = -8_000_000_000_000;

/// Latest reference instant for which a schedule is evaluated.
pub const LATEST_REFERENCE: i64 = 8_000_000_000_000;

/// How many upcoming occurrences are looked at for the next trigger. The
/// first is not always the one: where a wall-clock time occurs twice, at the
/// end of daylight saving, the `cron` crate yields both occurrences, and the
/// earlier of the two may lie before the reference instant.
pub const LOOKAHEAD: usize = 2;

/// Whether a character separates the fields of a cron expression.
pub open spec fn is_blank(c: char) -> bool {
    c == ' ' || c == '\t' || c == '\n' || c == '\r'
}

/// Whether a field of `text` starts at position `i`.
pub open spec fn starts_field(text: Seq<char>, i: int) -> bool {
    !is_blank(text[i]) && (i == 0 || is_blank(text[i - 1]))
}

/// The number of fields of `text`: its maximal runs of characters that are
/// not blank.
pub open spec fn field_count(text: Seq<char>) -> nat
    decreases text.len(),
{
    if text.len() == 0 {
        0
    } else {
        field_count(text.drop_last()) + if starts_field(text, text.len() - 1) {
            1nat
        } else {
            0nat
        }
    }
}

/// The expression that is handed to the `cron` crate for `expression`.
pub open spec fn normalized(expression: Seq<char>) -> Seq<char> {
    if field_count(expression) == 5 {
        "0 "@ + expression
    } else {
        expression
    }
}

/// Tells whether a character separates the fields of a cron expression.
fn blank(c: char) -> (b: bool)
    ensures
        b == is_blank(c),
{
    c == ' ' || c == '\t' || c == '\n' || c == '\r'
}

/// Counts the fields of `text`.
pub fn count_fields(text: &str) -> (count: usize)
    ensures
        count == field_count(text@),
{
    let length = text.unicode_len();
    let mut count: usize = 0;
    let mut after_blank = true;
    for c in it: text.chars()
        invariant
            length == text@.len(),
            it.seq() == text@,
            count <= it.index(),
            count == field_count(text@.take(it.index() as int)),
            after_blank == (it.index() == 0 || is_blank(text@[it.index() - 1])),
    {
        proof {
            let i = it.index() as int;
            let shorter = text@.take(i);
            let longer = text@.take(i + 1);
            assert(longer.drop_last() =~= shorter);
            assert(longer[i] == text@[i]);
            assert(i > 0 ==> longer[i - 1] == text@[i - 1]);
        }
        let is_blank_here = blank(c);
        if !is_blank_here && after_blank {
            count += 1;
        }
        after_blank = is_blank_here;
    }
    assert(text@.take(text@.len() as int) =~= text@);
    count
}

/// Writes the expression that is handed to the `cron` crate for `expression`.
pub fn normalize_expression(expression: &str) -> (normal: String)
    ensures
        normal@ == normalized(expression@),
{
    if count_fields(expression) == 5 {
        let mut normal = String::from_str("0 ");
        normal.append(expression);
        normal
    } else {
        String::from_str(expression)
    }
}

/// Whether `cron::Schedule::from_str` accepts `expression`.
pub uninterp spec fn cron_accepts(expression: Seq<char>) -> bool;

/// Whether `chrono_tz::Tz::from_str` knows `timezone`.
pub uninterp spec fn timezone_known(timezone: Seq<char>) -> bool;

/// The first occurrences, at most `limit`, that a `cron::Schedule` parsed
/// from `expression` yields after the instant `after` in the zone
/// `timezone`, each as whole seconds since the Unix epoch.
pub uninterp spec fn occurrences_after(
    expression: Seq<char>,
    timezone: Seq<char>,
    after: i64,
    limit: usize,
) -> Seq<i64>;

/// Parses `expression` with `cron::Schedule::from_str` and tells whether
/// that succeeded.
#[verifier::external_body]
fn expression_parses(expression: &str) -> (accepted: bool)
    ensures
        accepted == cron_accepts(expression@),
{
    expression.parse::<cron::Schedule>().is_ok()
}

/// Looks `timezone` up with `chrono_tz::Tz::from_str` and tells whether it
/// is a known zone.
#[verifier::external_body]
fn timezone_resolves(timezone: &str) -> (known: bool)
    ensures
        known == timezone_known(timezone@),
{
    timezone.parse::<chrono_tz::Tz>().is_ok()
}

/// Walks `cron::Schedule::after` from the instant `after`, seen in the zone
/// `timezone`, and hands out the first occurrences, at most `limit`, as
/// `DateTime::timestamp` gives them. The claim is that the walk is a
/// function of its arguments, nothing more. The bounds on `after` keep the
/// crates away from instants that `chrono` cannot count a second on from.
#[verifier::external_body]
fn schedule_occurrences(expression: &str, timezone: &str, after: i64, limit: usize) -> (found: Vec<
    i64,
>)
    requires
        cron_accepts(expression@),
        timezone_known(timezone@),
        EARLIEST_REFERENCE <= after <= LATEST_REFERENCE,
    ensures
        found@ == occurrences_after(expression@, timezone@, after, limit),
{
    let schedule = expression.parse::<cron::Schedule>().unwrap();
    let zone = timezone.parse::<chrono_tz::Tz>().unwrap();
    let start = chrono::DateTime::from_timestamp(after, 0).unwrap().with_timezone(&zone);
    schedule.after(&start).take(limit).map(|at| at.timestamp()).collect()
}

/// The first of `found` that lies after `reference`, if there is one.
pub open spec fn first_after_spec(reference: i64, found: Seq<i64>) -> Option<i64>
    decreases found.len(),
{
    if found.len() == 0 {
        None
    } else if found[0] > reference {
        Some(found[0])
    } else {
        first_after_spec(reference, found.drop_first())
    }
}

/// What [`first_after_spec`] finds lies after the reference, is one of the
/// instants given, and has only instants before it that do not lie after the
/// reference; it finds nothing only where no instant lies after the
/// reference.
pub proof fn lemma_first_after(reference: i64, found: Seq<i64>)
    ensures
        match first_after_spec(reference, found) {
            Some(instant) => instant > reference && exists|i: int|
                0 <= i < found.len() && found[i] == instant && forall|j: int|
                    0 <= j < i ==> found[j] <= reference,
            None => forall|i: int| 0 <= i < found.len() ==> found[i] <= reference,
        },
    decreases found.len(),
{
    if found.len() == 0 {
    } else if found[0] > reference {
        assert(found[0] == found[0] && forall|j: int| 0 <= j < 0 ==> found[j] <= reference);
    } else {
        let rest = found.drop_first();
        lemma_first_after(reference, rest);
        match first_after_spec(reference, rest) {
            Some(instant) => {
                let i = choose|i: int|
                    0 <= i < rest.len() && rest[i] == instant && forall|j: int|
                        0 <= j < i ==> rest[j] <= reference;
                assert(found[i + 1] == instant);
                assert forall|j: int| 0 <= j < i + 1 implies found[j] <= reference by {
                    if j > 0 {
                        assert(rest[j - 1] == found[j]);
                    }
                }
            },
            None => {
                assert forall|i: int| 0 <= i < found.len() implies found[i] <= reference by {
                    if i > 0 {
                        assert(rest[i - 1] == found[i]);
                    }
                }
            },
        }
    }
}

/// Picks the first of `found` that lies after `reference`.
pub fn first_after(reference: i64, found: &Vec<i64>) -> (first: Option<i64>)
    ensures
        first == first_after_spec(reference, found@),
        first matches Some(instant) ==> instant > reference,
{
    let mut i: usize = 0;
    assert(found@.skip(0) =~= found@);
    while i < found.len()
        invariant
            i <= found.len(),
            first_after_spec(reference, found@) == first_after_spec(
                reference,
                found@.skip(i as int),
            ),
        decreases found.len() - i,
    {
        let ghost rest = found@.skip(i as int);
        assert(rest[0] == found@[i as int]);
        assert(rest.drop_first() =~= found@.skip(i + 1));
        if found[i] > reference {
            return Some(found[i]);
        }
        i += 1;
    }
    assert(found@.skip(i as int).len() == 0);
    None
}

/// Whether a schedule can be used at all: `Ok` where the expression, once
/// normalised, is accepted and the time zone is known; else the first of the
/// two that fails, the expression before the time zone.
pub open spec fn schedule_validity(expression: Seq<char>, timezone: Seq<char>) -> Result<
    (),
    ConfigError,
> {
    if !cron_accepts(normalized(expression)) {
        Err(ConfigError::MalformedExpression)
    } else if !timezone_known(timezone) {
        Err(ConfigError::UnknownTimezone)
    } else {
        Ok(())
    }
}

/// Tells whether a schedule can be used at all. A scheduler asks this once,
/// when it starts.
pub fn validate_schedule(expression: &str, timezone: &str) -> (validity: Result<(), ConfigError>)
    ensures
        validity == schedule_validity(expression@, timezone@),
{
    let normal = normalize_expression(expression);
    if !expression_parses(normal.as_str()) {
        Err(ConfigError::MalformedExpression)
    } else if !timezone_resolves(timezone) {
        Err(ConfigError::UnknownTimezone)
    } else {
        Ok(())
    }
}

/// The next trigger of a schedule after `reference`.
///
/// A schedule that cannot be used gives its configuration error. A reference
/// outside [`EARLIEST_REFERENCE`] to [`LATEST_REFERENCE`] has no next
/// trigger. Otherwise the next trigger is the first of the schedule's
/// [`LOOKAHEAD`] upcoming occurrences that lies after the reference; where
/// none does, the schedule is exhausted.
pub open spec fn next_trigger_spec(
    expression: Seq<char>,
    timezone: Seq<char>,
    reference: TriggerInstant,
) -> Result<TriggerInstant, TriggerError> {
    match schedule_validity(expression, timezone) {
        Err(error) => Err(TriggerError::Config(error)),
        Ok(()) => if reference.epoch_seconds < EARLIEST_REFERENCE || reference.epoch_seconds
            > LATEST_REFERENCE {
            Err(TriggerError::ScheduleExhausted)
        } else {
            match first_after_spec(
                reference.epoch_seconds,
                occurrences_after(
                    normalized(expression),
                    timezone,
                    reference.epoch_seconds,
                    LOOKAHEAD,
                ),
            ) {
                Some(instant) => Ok(TriggerInstant { epoch_seconds: instant }),
                None => Err(TriggerError::ScheduleExhausted),
            }
        },
    }
}

/// Computes the next trigger of a schedule after `reference`.
///
/// The result is never the reference itself nor an instant before it.
pub fn next_trigger(expression: &str, timezone: &str, reference: TriggerInstant) -> (next: Result<
    TriggerInstant,
    TriggerError,
>)
    ensures
        next == next_trigger_spec(expression@, timezone@, reference),
        next matches Ok(instant) ==> instant.epoch_seconds > reference.epoch_seconds,
        next matches Err(TriggerError::Config(error)) ==> schedule_validity(
            expression@,
            timezone@,
        ) == Err::<(), ConfigError>(error),
{
    let normal = normalize_expression(expression);
    if !expression_parses(normal.as_str()) {
        return Err(TriggerError::Config(ConfigError::MalformedExpression));
    }
    if !timezone_resolves(timezone) {
        return Err(TriggerError::Config(ConfigError::UnknownTimezone));
    }
    if reference.epoch_seconds < EARLIEST_REFERENCE || reference.epoch_seconds > LATEST_REFERENCE {
        return Err(TriggerError::ScheduleExhausted);
    }
    let found = schedule_occurrences(normal.as_str(), timezone, reference.epoch_seconds, LOOKAHEAD);
    match first_after(reference.epoch_seconds, &found) {
        Some(instant) => Ok(TriggerInstant { epoch_seconds: instant }),
        None => Err(TriggerError::ScheduleExhausted),
    }
}

/// The triggers of a schedule from `start` on, each computed from the one
/// before it: at most `length` of them, fewer where the schedule ends.
pub open spec fn trigger_chain(
    expression: Seq<char>,
    timezone: Seq<char>,
    start: TriggerInstant,
    length: nat,
) -> Seq<TriggerInstant>
    decreases length,
{
    if length == 0 {
        Seq::empty()
    } else {
        match next_trigger_spec(expression, timezone, start) {
            Ok(next) => seq![next] + trigger_chain(
                expression,
                timezone,
                next,
                (length - 1) as nat,
            ),
            Err(_) => Seq::empty(),
        }
    }
}

/// A trigger lies strictly after the instant it was computed from.
pub proof fn lemma_trigger_after_reference(
    expression: Seq<char>,
    timezone: Seq<char>,
    reference: TriggerInstant,
)
    ensures
        next_trigger_spec(expression, timezone, reference) matches Ok(next) ==> next.epoch_seconds
            > reference.epoch_seconds,
{
    lemma_first_after(
        reference.epoch_seconds,
        occurrences_after(normalized(expression), timezone, reference.epoch_seconds, LOOKAHEAD),
    );
}

/// Triggers computed one from the other come strictly later and later: every
/// trigger of a chain lies after the start, each is the schedule's next
/// trigger after the one before it, and a later one lies after an earlier
/// one.
pub proof fn lemma_trigger_chain_increases(
    expression: Seq<char>,
    timezone: Seq<char>,
    start: TriggerInstant,
    length: nat,
)
    ensures
        ({
            let chain = trigger_chain(expression, timezone, start, length);
            &&& chain.len() <= length
            &&& chain.len() > 0 ==> next_trigger_spec(expression, timezone, start) == Ok::<
                TriggerInstant,
                TriggerError,
            >(chain[0])
            &&& forall|i: int|
                0 <= i < chain.len() ==> (#[trigger] chain[i]).epoch_seconds > start.epoch_seconds
            &&& forall|i: int|
                0 < i < chain.len() ==> next_trigger_spec(expression, timezone, chain[i - 1])
                    == Ok::<TriggerInstant, TriggerError>(#[trigger] chain[i])
            &&& forall|i: int, j: int|
                0 <= i < j < chain.len() ==> (#[trigger] chain[i]).epoch_seconds < (
                #[trigger] chain[j]).epoch_seconds
        }),
    decreases length,
{
    if length > 0 {
        lemma_trigger_after_reference(expression, timezone, start);
        match next_trigger_spec(expression, timezone, start) {
            Ok(next) => {
                let rest = trigger_chain(expression, timezone, next, (length - 1) as nat);
                let chain = trigger_chain(expression, timezone, start, length);
                lemma_trigger_chain_increases(expression, timezone, next, (length - 1) as nat);
                assert(chain =~= seq![next] + rest);
                assert(chain[0] == next);
                assert forall|i: int| 0 < i < chain.len() implies chain[i] == rest[i - 1] by {}
                assert forall|i: int| 0 <= i < chain.len() implies (#[trigger] chain[i]).epoch_seconds
                    > start.epoch_seconds by {
                    if i > 0 {
                        assert(chain[i] == rest[i - 1]);
                    }
                }
                assert forall|i: int| 0 < i < chain.len() implies next_trigger_spec(
                    expression,
                    timezone,
                    chain[i - 1],
                ) == Ok::<TriggerInstant, TriggerError>(#[trigger] chain[i]) by {
                    assert(chain[i] == rest[i - 1]);
                    if i > 1 {
                        assert(chain[i - 1] == rest[i - 2]);
                    }
                }
                assert forall|i: int, j: int| 0 <= i < j < chain.len() implies (
                #[trigger] chain[i]).epoch_seconds < (#[trigger] chain[j]).epoch_seconds by {
                    assert(chain[j] == rest[j - 1]);
                    if i > 0 {
                        assert(chain[i] == rest[i - 1]);
                    }
                }
            },
            Err(_) => {},
        }
    }
}

/// A length of time: whole seconds and the nanoseconds beyond them.
#[derive(Clone, Copy, Debug, PartialEq, Eq, Structural)]
pub struct WaitTime {
    pub seconds: u64,
    pub nanos: u32,
}

/// Nanoseconds in a second.
pub const NANOS_PER_SECOND: u32 = 1_000_000_000;

impl WaitTime {
    /// The whole length in nanoseconds.
    pub open spec fn total_nanos(&self) -> int {
        self.seconds * NANOS_PER_SECOND + self.nanos
    }
}

/// The nanoseconds from the moment `now_nanos` nanoseconds after the second
/// `now_seconds` to the instant `target`; negative where the instant has
/// passed.
pub open spec fn nanos_until(now_seconds: i64, now_nanos: u32, target: TriggerInstant) -> int {
    target.epoch_seconds * NANOS_PER_SECOND - (now_seconds * NANOS_PER_SECOND + now_nanos)
}

/// How long to wait from the moment `now_nanos` nanoseconds after the second
/// `now_seconds` until the instant `target`: the time between the two, and
/// no time at all where the instant has passed.
pub fn time_until(now_seconds: i64, now_nanos: u32, target: TriggerInstant) -> (wait: WaitTime)
    ensures
        wait.nanos < NANOS_PER_SECOND,
        nanos_until(now_seconds, now_nanos, target) > 0 ==> wait.total_nanos() == nanos_until(
            now_seconds,
            now_nanos,
            target,
        ),
        nanos_until(now_seconds, now_nanos, target) <= 0 ==> wait.total_nanos() == 0,
{
    let scale: i128 = 1_000_000_000;
    let target_nanos: i128 = target.epoch_seconds as i128 * scale;
    let now_total: i128 = now_seconds as i128 * scale + now_nanos as i128;
    let remaining: i128 = target_nanos - now_total;
    if remaining <= 0 {
        WaitTime { seconds: 0, nanos: 0 }
    } else {
        let seconds: i128 = remaining / scale;
        let nanos: i128 = remaining % scale;
        assert(seconds <= 0xffff_ffff_ffff_ffff);
        WaitTime { seconds: seconds as u64, nanos: nanos as u32 }
    }
}

} // verus!
