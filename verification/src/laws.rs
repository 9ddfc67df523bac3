//! Properties that hold across the library's operations, stated over the
//! same models that the operations' contracts use.

use vstd::prelude::*;

use crate::clock::{
    clock_text, is_clock_reading_text, is_clock_text, lemma_clock_reading_text_is_clock_text,
};
use crate::logger::{
    last_level_setting, last_timestamp_setting, written_since_clear, EntryView, LogLevel,
    LoggerOp, LoggerView,
};
use crate::platform::PlatformKind;

verus! {

/// A timestamp is twelve characters `HH:MM:SS.mmm`: digits everywhere but at
/// the two colons and the dot, with hours below 24 and minutes and seconds
/// below 60.
pub proof fn law_clock_text_shape(secs: u64, millis: u32)
    requires
        millis < 1000,
    ensures
        clock_text(secs as int, millis as int).len() == 12,
        clock_text(secs as int, millis as int)[2] == ':',
        clock_text(secs as int, millis as int)[5] == ':',
        clock_text(secs as int, millis as int)[8] == '.',
        forall|i: int|
            0 <= i < 12 && i != 2 && i != 5 && i != 8 ==> 48 <= (#[trigger] clock_text(
                secs as int,
                millis as int,
            )[i]) as int <= 57,
        (clock_text(secs as int, millis as int)[0] as int - 48) * 10 + (clock_text(
            secs as int,
            millis as int,
        )[1] as int - 48) < 24,
        clock_text(secs as int, millis as int)[3] as int - 48 < 6,
        clock_text(secs as int, millis as int)[6] as int - 48 < 6,
{
    let t = clock_text(secs as int, millis as int);
    let total = secs as int % 86400;
    assert(t[0] == ((total / 3600) / 10 + 48) as char);
    assert(t[1] == ((total / 3600) % 10 + 48) as char);
    assert(t[3] == (((total % 3600) / 60) / 10 + 48) as char);
    assert(t[4] == (((total % 3600) / 60) % 10 + 48) as char);
    assert(t[6] == ((total % 60) / 10 + 48) as char);
    assert(t[7] == ((total % 60) % 10 + 48) as char);
    assert(t[9] == ((millis as int / 100) + 48) as char);
    assert(t[10] == (((millis as int / 10) % 10) + 48) as char);
    assert(t[11] == ((millis as int % 10) + 48) as char);
}

/// The value of the digit character `c`.
pub open spec fn digit_value(c: char) -> int {
    c as int - 48
}

/// A timestamp reads back as the instant it was written from: its hours,
/// minutes and seconds make up the seconds elapsed since midnight (UTC) of
/// `secs`, and its last three digits are `millis`.
pub proof fn law_clock_text_reads_back(secs: u64, millis: u32)
    requires
        millis < 1000,
    ensures
        ({
            let t = clock_text(secs as int, millis as int);
            &&& (digit_value(t[0]) * 10 + digit_value(t[1])) * 3600 + (digit_value(t[3]) * 10
                + digit_value(t[4])) * 60 + digit_value(t[6]) * 10 + digit_value(t[7]) == secs as int
                % 86400
            &&& digit_value(t[9]) * 100 + digit_value(t[10]) * 10 + digit_value(t[11]) == millis
        }),
{
    let t = clock_text(secs as int, millis as int);
    let total = secs as int % 86400;
    let h = total / 3600;
    let m = (total % 3600) / 60;
    let sec = total % 60;
    assert(digit_value(t[0]) == h / 10 && digit_value(t[1]) == h % 10);
    assert(digit_value(t[3]) == m / 10 && digit_value(t[4]) == m % 10);
    assert(digit_value(t[6]) == sec / 10 && digit_value(t[7]) == sec % 10);
    assert(digit_value(t[9]) == millis / 100 && digit_value(t[10]) == (millis / 10) % 10
        && digit_value(t[11]) == millis % 10);
    assert(h * 3600 + m * 60 + sec == total);
}

/// The timestamp names a time of day: instants a whole day apart get the
/// same text.
pub proof fn law_clock_text_repeats_daily(secs: nat, millis: nat)
    ensures
        clock_text(secs + 86400int, millis as int) == clock_text(secs as int, millis as int),
{
    assert((secs + 86400) % 86400 == secs % 86400);
}

/// The three level labels differ from one another.
pub proof fn law_level_labels_distinct(a: LogLevel, b: LogLevel)
    requires
        a != b,
    ensures
        a.label_text() != b.label_text(),
{
    reveal_strlit("INFO");
    reveal_strlit("WARN");
    reveal_strlit("ERROR");
    if a.label_text().len() == b.label_text().len() {
        assert(a.label_text()[0] != b.label_text()[0]);
    }
}

/// The three platform-kind labels differ from one another.
pub proof fn law_kind_labels_distinct(a: PlatformKind, b: PlatformKind)
    requires
        a != b,
    ensures
        a.label_text() != b.label_text(),
{
    reveal_strlit("Virtual Platform (Mock)");
    reveal_strlit("Windows (Real)");
    reveal_strlit("Linux (Real)");
    if a.label_text().len() == b.label_text().len() {
        assert(a.label_text()[0] != b.label_text()[0]);
    }
}

/// Writing an entry puts it last and leaves every earlier entry, and both
/// display switches, as they were.
pub proof fn law_append_keeps_earlier_entries(v: LoggerView, e: EntryView)
    ensures
        v.appended(e).entries.len() == v.entries.len() + 1,
        v.appended(e).entries.last() == e,
        forall|i: int| 0 <= i < v.entries.len() ==> #[trigger] v.appended(e).entries[i] == v.entries[i],
        v.appended(e).show_timestamp == v.show_timestamp,
        v.appended(e).show_level == v.show_level,
{
}

/// Writing entries stamped with times of day keeps every timestamp in the
/// log a time of day.
pub proof fn law_append_keeps_clock_timestamps(v: LoggerView, e: EntryView)
    requires
        v.timestamps_are_clock_text(),
        is_clock_text(e.timestamp),
    ensures
        v.appended(e).timestamps_are_clock_text(),
{
    assert forall|i: int| 0 <= i < v.appended(e).entries.len() implies is_clock_text(
        #[trigger] v.appended(e).entries[i].timestamp,
    ) by {
        if i < v.entries.len() {
            assert(v.appended(e).entries[i] == v.entries[i]);
        }
    }
}

/// After a clear, the next entry written is the only one in the log.
pub proof fn law_clear_then_append(v: LoggerView, e: EntryView)
    ensures
        v.cleared().appended(e).entries == seq![e],
        v.cleared().show_timestamp == v.show_timestamp,
        v.cleared().show_level == v.show_level,
{
    assert(v.cleared().appended(e).entries =~= seq![e]);
}

/// A switch reads back as it was last set, and setting it changes neither
/// the entries nor the other switch.
pub proof fn law_switches_read_back(v: LoggerView, value: bool)
    ensures
        v.with_show_timestamp(value).show_timestamp == value,
        v.with_show_timestamp(value).show_level == v.show_level,
        v.with_show_timestamp(value).entries == v.entries,
        v.with_show_level(value).show_level == value,
        v.with_show_level(value).show_timestamp == v.show_timestamp,
        v.with_show_level(value).entries == v.entries,
{
}

/// The display switches and the log's contents are independent: setting a
/// switch before or after writing an entry gives the same state.
pub proof fn law_switches_commute_with_append(v: LoggerView, value: bool, e: EntryView)
    ensures
        v.with_show_timestamp(value).appended(e) == v.appended(e).with_show_timestamp(value),
        v.with_show_level(value).appended(e) == v.appended(e).with_show_level(value),
{
    assert(v.with_show_timestamp(value).appended(e) =~= v.appended(e).with_show_timestamp(value));
    assert(v.with_show_level(value).appended(e) =~= v.appended(e).with_show_level(value));
}

/// With both switches off a rendered line is the message alone; with both
/// on it is `[timestamp] [LEVEL] message`.
pub proof fn law_render_extremes(v: LoggerView, e: EntryView)
    ensures
        !v.show_timestamp && !v.show_level ==> v.render(e) == e.message,
        v.show_timestamp && v.show_level ==> v.render(e) == "["@ + e.timestamp + "] "@ + "["@
            + e.level.label_text() + "] "@ + e.message,
{
    if !v.show_timestamp && !v.show_level {
        assert(v.render(e) =~= e.message);
    }
    if v.show_timestamp && v.show_level {
        assert(v.render(e) =~= "["@ + e.timestamp + "] "@ + "["@ + e.level.label_text() + "] "@
            + e.message);
    }
}

/// From a fresh logger (`Logger::new` or `Logger::default`), after any
/// sequence of operations the log holds exactly the entries written after the
/// last clear (after creation where there was none), in the order they were
/// written, each with the level and message it was written with.
pub proof fn law_entries_after_operations(ops: Seq<LoggerOp>)
    ensures
        LoggerView::initial().run(ops).entries == written_since_clear(ops),
    decreases ops.len(),
{
    if ops.len() > 0 {
        law_entries_after_operations(ops.drop_last());
    }
}

/// From a fresh logger, after any sequence of operations the timestamp
/// switch reads as it was last set, or `true` where it was never set.
pub proof fn law_timestamp_switch_after_operations(ops: Seq<LoggerOp>)
    ensures
        LoggerView::initial().run(ops).show_timestamp == last_timestamp_setting(ops, true),
    decreases ops.len(),
{
    if ops.len() > 0 {
        law_timestamp_switch_after_operations(ops.drop_last());
    }
}

/// From a fresh logger, after any sequence of operations the level switch
/// reads as it was last set, or `true` where it was never set.
pub proof fn law_level_switch_after_operations(ops: Seq<LoggerOp>)
    ensures
        LoggerView::initial().run(ops).show_level == last_level_setting(ops, true),
    decreases ops.len(),
{
    if ops.len() > 0 {
        law_level_switch_after_operations(ops.drop_last());
    }
}

/// From a fresh logger, where every entry written is stamped with a time of
/// day, every entry in the log carries one, whatever the operations.
pub proof fn law_timestamps_after_operations(ops: Seq<LoggerOp>)
    requires
        forall|i: int|
            0 <= i < ops.len() ==> (#[trigger] ops[i] matches LoggerOp::Write(e) ==> is_clock_text(
                e.timestamp,
            )),
    ensures
        LoggerView::initial().run(ops).timestamps_are_clock_text(),
    decreases ops.len(),
{
    if ops.len() > 0 {
        let prefix = ops.drop_last();
        assert forall|i: int|
            0 <= i < prefix.len() implies (#[trigger] prefix[i] matches LoggerOp::Write(e)
            ==> is_clock_text(e.timestamp)) by {
            assert(prefix[i] == ops[i]);
        }
        law_timestamps_after_operations(prefix);
        let before = LoggerView::initial().run(prefix);
        assert(ops[ops.len() - 1] == ops.last());
        match ops.last() {
            LoggerOp::Write(e) => {
                law_append_keeps_clock_timestamps(before, e);
            },
            _ => {},
        }
    }
}

/// Showing timestamps puts `[timestamp] ` in front of the rendered line and
/// changes nothing else, for every level and either setting of the level
/// switch.
pub proof fn law_render_timestamp_part(v: LoggerView, e: EntryView)
    ensures
        v.with_show_timestamp(true).render(e) == "["@ + e.timestamp + "] "@ + v.with_show_timestamp(
            false,
        ).render(e),
{
    assert(v.with_show_timestamp(true).render(e) =~= "["@ + e.timestamp + "] "@
        + v.with_show_timestamp(false).render(e));
}

/// Showing levels puts `[LEVEL] ` just before the message and changes
/// nothing else, for every level and either setting of the timestamp switch.
pub proof fn law_render_level_part(v: LoggerView, e: EntryView)
    ensures
        exists|prefix: Seq<char>|
            v.with_show_level(false).render(e) == prefix + e.message && v.with_show_level(true).render(
                e,
            ) == prefix + ("["@ + e.level.label_text() + "] "@) + e.message,
{
    let prefix = if v.show_timestamp {
        "["@ + e.timestamp + "] "@
    } else {
        Seq::<char>::empty()
    };
    assert(v.with_show_level(false).render(e) =~= prefix + e.message);
    assert(v.with_show_level(true).render(e) =~= prefix + ("["@ + e.level.label_text() + "] "@)
        + e.message);
}

/// The time of day written into a log entry comes from the machine's clock:
/// a text that `is_clock_reading_text` accepts is a well-formed time of day.
pub proof fn law_clock_reading_is_time_of_day(text: Seq<char>)
    requires
        is_clock_reading_text(text),
    ensures
        is_clock_text(text),
        text.len() == 12,
{
    lemma_clock_reading_text_is_clock_text(text);
    let (secs, millis) = choose|secs: u64, millis: u32|
        millis < 1000 && text == clock_text(secs as int, millis as int);
    law_clock_text_shape(secs, millis);
}

} // verus!
