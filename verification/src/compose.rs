//! Assembly of a log line from its parts, in the two forms a sink takes:
//! plain text for a receiver that adds its own metadata, and a coloured line
//! for a terminal.

use crate::level::{lemma_label_in_label, lemma_label_shape, LogLevel};
use crate::scope::{scope_label, scope_of};
use crate::text::{
    all_upper, lemma_no_upper_concat, lemma_occurrence_behind, lemma_occurrence_skips,
    lemma_occurrence_stops, no_upper, occurs_at, occurs_in,
};
use crate::timestamp::{
    lemma_pattern_one_capital, lemma_text_matches_pattern, matches_timestamp_pattern,
    three_digits, Timestamp, NANOS_PER_MILLI,
};
use vstd::prelude::*;

verus! {

/// Escape sequence that ends a coloured segment.
pub const RESET: &'static str = "\x1b[0m";

/// Escape sequence that starts the timestamp segment: bright black.
pub const TIMESTAMP_COLOR: &'static str = "\x1b[90m";

/// Escape sequence that starts the scope segment: magenta.
pub const SCOPE_COLOR: &'static str = "\x1b[35m";

/// What a caller passed as module name, as a sequence of characters.
pub open spec fn module_view(module: Option<&str>) -> Option<Seq<char>> {
    match module {
        Some(name) => Some(name@),
        None => None,
    }
}

/// The module segment: `[name] ` with its trailing space, or nothing at all
/// when no module is given.
pub open spec fn module_prefix(module: Option<Seq<char>>) -> Seq<char> {
    match module {
        Some(name) => seq!['['] + name + seq![']', ' '],
        None => Seq::empty(),
    }
}

/// The text handed to a log receiver: the module segment, then the message.
pub open spec fn bridge_text(module: Option<Seq<char>>, message: Seq<char>) -> Seq<char> {
    module_prefix(module) + message
}

/// The coloured timestamp segment that opens a rendered line, with the space
/// that follows it.
pub open spec fn stamp_segment(stamp: Seq<char>) -> Seq<char> {
    TIMESTAMP_COLOR@ + stamp + RESET@ + seq![' ']
}

/// The coloured `[LEVEL]` segment, with the space that follows it.
pub open spec fn level_segment(level: LogLevel) -> Seq<char> {
    level.color() + seq!['['] + level.label() + seq![']'] + RESET@ + seq![' ']
}

/// The coloured `(scope)` segment, with the colon and space that follow it.
pub open spec fn scope_segment(network_id: u32) -> Seq<char> {
    SCOPE_COLOR@ + seq!['('] + scope_of(network_id) + seq![')'] + RESET@ + seq![':', ' ']
}

/// Everything in a rendered line that follows the timestamp segment.
pub open spec fn direct_body(
    level: LogLevel,
    network_id: u32,
    module: Option<Seq<char>>,
    message: Seq<char>,
) -> Seq<char> {
    level_segment(level) + scope_segment(network_id) + module_prefix(module) + message
}

/// A rendered line: `<timestamp> [<LEVEL>] (<scope>): [<module>] <message>`,
/// the first three segments coloured.
pub open spec fn direct_line(
    stamp: Seq<char>,
    level: LogLevel,
    network_id: u32,
    module: Option<Seq<char>>,
    message: Seq<char>,
) -> Seq<char> {
    stamp_segment(stamp) + direct_body(level, network_id, module, message)
}

/// Appends the module segment, if there is a module.
fn append_module_prefix(out: &mut String, module: Option<&str>)
    ensures
        final(out)@ == old(out)@ + module_prefix(module_view(module)),
{
    proof {
        reveal_strlit("[");
        reveal_strlit("] ");
    }
    match module {
        Some(name) => {
            out.append("[");
            out.append(name);
            out.append("] ");
        },
        None => {},
    }
}

/// Composes the plain text that is forwarded to a log receiver.
pub fn compose_bridge(module: Option<&str>, message: &str) -> (text: String)
    ensures
        text@ == bridge_text(module_view(module), message@),
{
    let mut out = String::new();
    append_module_prefix(&mut out, module);
    out.append(message);
    out
}

/// Composes the coloured line that is written to a terminal.
pub fn compose_direct(
    timestamp: &Timestamp,
    level: LogLevel,
    network_id: u32,
    module: Option<&str>,
    message: &str,
) -> (line: String)
    ensures
        line@ == direct_line(timestamp.text(), level, network_id, module_view(module), message@),
{
    proof {
        reveal_strlit(" ");
        reveal_strlit("[");
        reveal_strlit("]");
        reveal_strlit("(");
        reveal_strlit(")");
        reveal_strlit(": ");
    }
    let stamp = timestamp.format();
    let mut out = String::new();
    out.append(TIMESTAMP_COLOR);
    out.append(stamp.as_str());
    out.append(RESET);
    out.append(" ");
    out.append(level.ansi_color());
    out.append("[");
    out.append(level.as_str());
    out.append("]");
    out.append(RESET);
    out.append(" ");
    out.append(SCOPE_COLOR);
    out.append("(");
    out.append(scope_label(network_id));
    out.append(")");
    out.append(RESET);
    out.append(": ");
    append_module_prefix(&mut out, module);
    out.append(message);
    out
}

/// Where the label begins in a rendered line: behind the timestamp
/// segment, the level's colour and the opening bracket.
pub open spec fn label_position(stamp: Seq<char>, level: LogLevel) -> nat {
    stamp_segment(stamp).len() + level.color().len() + 1
}

/// What stands before the label in a rendered line.
spec fn before_label(stamp: Seq<char>, level: LogLevel) -> Seq<char> {
    stamp_segment(stamp) + level.color() + seq!['[']
}

/// What stands between the label and the module segment.
spec fn after_label(network_id: u32) -> Seq<char> {
    seq![']'] + RESET@ + seq![' '] + scope_segment(network_id)
}

/// A rendered line is the label between what stands before and behind it.
proof fn lemma_line_parts(
    stamp: Seq<char>,
    level: LogLevel,
    network_id: u32,
    module: Option<Seq<char>>,
    message: Seq<char>,
)
    ensures
        direct_line(stamp, level, network_id, module, message) == before_label(stamp, level) + (
        level.label() + (after_label(network_id) + (module_prefix(module) + message))),
        before_label(stamp, level).len() == label_position(stamp, level),
{
    assert(direct_line(stamp, level, network_id, module, message) =~= before_label(stamp, level)
        + (level.label() + (after_label(network_id) + (module_prefix(module) + message))));
}

/// The escape sequences hold no upper-case letter.
proof fn lemma_colors_no_upper(level: LogLevel)
    ensures
        no_upper(RESET@),
        no_upper(TIMESTAMP_COLOR@),
        no_upper(SCOPE_COLOR@),
        no_upper(level.color()),
{
    reveal_strlit("\x1b[0m");
    reveal_strlit("\x1b[90m");
    reveal_strlit("\x1b[35m");
    reveal_strlit("\x1b[36m");
    reveal_strlit("\x1b[32m");
    reveal_strlit("\x1b[33m");
    reveal_strlit("\x1b[31m");
}

/// The scope labels hold no upper-case letter.
proof fn lemma_scope_no_upper(network_id: u32)
    ensures
        no_upper(scope_of(network_id)),
{
    reveal_strlit("zeam-n1");
    reveal_strlit("zeam-n2");
    reveal_strlit("zeam-n3");
    reveal_strlit("zeam-default");
}

/// No word of two or more upper-case letters begins before the label: the
/// one upper-case letter there, the month's, is followed by a lower-case one.
proof fn lemma_nothing_before_label(
    now: Timestamp,
    level: LogLevel,
    rest: Seq<char>,
    word: Seq<char>,
    at: int,
)
    requires
        now.wf(),
        all_upper(word),
        word.len() >= 2,
        occurs_at(before_label(now.text(), level) + rest, word, at),
    ensures
        at >= before_label(now.text(), level).len(),
        occurs_at(rest, word, at - before_label(now.text(), level).len()),
{
    lemma_colors_no_upper(level);
    lemma_text_matches_pattern(now);
    lemma_pattern_one_capital(now.text());
    let stamp = now.text();
    let initial = stamp.subrange(0, 1);
    let rest_of_stamp = stamp.subrange(1, stamp.len() as int);
    let closing = RESET@ + seq![' '] + level.color() + seq!['['];
    let from_closing = closing + rest;
    let from_rest = rest_of_stamp + from_closing;
    let from_initial = initial + from_rest;
    assert(before_label(stamp, level) + rest =~= TIMESTAMP_COLOR@ + from_initial);
    assert(before_label(stamp, level).len() == TIMESTAMP_COLOR@.len() + stamp.len()
        + closing.len());

    lemma_occurrence_skips(TIMESTAMP_COLOR@, from_initial, word, at);
    let at_stamp = at - TIMESTAMP_COLOR@.len();
    if at_stamp < 1 {
        assert(from_rest[0] == rest_of_stamp[0]);
        lemma_occurrence_stops(initial, from_rest, word, at_stamp);
        assert(false);
    }
    lemma_occurrence_behind(initial, from_rest, word, at_stamp);
    lemma_occurrence_skips(rest_of_stamp, from_closing, word, at_stamp - 1);
    assert(no_upper(closing)) by {
        lemma_no_upper_concat(RESET@, seq![' ']);
        lemma_no_upper_concat(RESET@ + seq![' '], level.color());
        lemma_no_upper_concat(RESET@ + seq![' '] + level.color(), seq!['[']);
    }
    lemma_occurrence_skips(closing, rest, word, at_stamp - stamp.len());
}

/// Between the label and the module segment stands no upper-case letter.
proof fn lemma_after_label_no_upper(network_id: u32)
    ensures
        no_upper(after_label(network_id)),
        after_label(network_id).len() > 0,
        after_label(network_id)[0] == ']',
{
    lemma_colors_no_upper(LogLevel::Debug);
    lemma_scope_no_upper(network_id);
    let scope = scope_of(network_id);
    lemma_no_upper_concat(SCOPE_COLOR@, seq!['(']);
    lemma_no_upper_concat(SCOPE_COLOR@ + seq!['('], scope);
    lemma_no_upper_concat(SCOPE_COLOR@ + seq!['('] + scope, seq![')']);
    lemma_no_upper_concat(SCOPE_COLOR@ + seq!['('] + scope + seq![')'], RESET@);
    lemma_no_upper_concat(SCOPE_COLOR@ + seq!['('] + scope + seq![')'] + RESET@, seq![':', ' ']);
    lemma_no_upper_concat(seq![']'], RESET@);
    lemma_no_upper_concat(seq![']'] + RESET@, seq![' ']);
    lemma_no_upper_concat(seq![']'] + RESET@ + seq![' '], scope_segment(network_id));
}

/// An upper-case word in the module segment and message stands in the
/// module name or in the message.
proof fn lemma_occurrence_in_tail(
    module: Option<Seq<char>>,
    message: Seq<char>,
    word: Seq<char>,
    at: int,
)
    requires
        all_upper(word),
        word.len() > 0,
        occurs_at(module_prefix(module) + message, word, at),
    ensures
        occurs_in(message, word) || (module matches Some(name) && occurs_in(name, word)),
{
    let tail = module_prefix(module) + message;
    match module {
        None => {
            assert(tail =~= message);
            assert(occurs_at(message, word, at));
        },
        Some(name) => {
            let closing = seq![']', ' '];
            assert(tail =~= seq!['['] + (name + (closing + message)));
            lemma_occurrence_skips(seq!['['], name + (closing + message), word, at);
            if at - 1 < name.len() {
                assert((closing + message)[0] == ']');
                lemma_occurrence_stops(name, closing + message, word, at - 1);
                assert(occurs_at(name, word, at - 1));
            } else {
                lemma_occurrence_behind(name, closing + message, word, at - 1);
                lemma_occurrence_skips(closing, message, word, at - 1 - name.len());
                assert(occurs_at(message, word, at - 1 - name.len() - 2));
            }
        },
    }
}

/// In a rendered line the label of the line's level stands once, in the
/// level segment, and the label of no other level stands anywhere. This
/// holds of a label that neither the module name nor the message contains.
pub proof fn lemma_one_level_token(
    now: Timestamp,
    level: LogLevel,
    token: LogLevel,
    network_id: u32,
    module: Option<Seq<char>>,
    message: Seq<char>,
)
    requires
        now.wf(),
        module matches Some(name) ==> !occurs_in(name, token.label()),
        !occurs_in(message, token.label()),
    ensures
        forall|at: int| #[trigger]
            occurs_at(
                direct_line(now.text(), level, network_id, module, message),
                token.label(),
                at,
            ) <==> token == level && at == label_position(now.text(), level),
{
    let stamp = now.text();
    let line = direct_line(stamp, level, network_id, module, message);
    let word = token.label();
    let tail = module_prefix(module) + message;
    let from_label = level.label() + (after_label(network_id) + tail);
    lemma_line_parts(stamp, level, network_id, module, message);
    lemma_label_shape(token);
    lemma_after_label_no_upper(network_id);
    assert forall|at: int| #[trigger] occurs_at(line, word, at) implies token == level && at
        == label_position(stamp, level) by {
        lemma_nothing_before_label(now, level, from_label, word, at);
        let at_label = at - before_label(stamp, level).len();
        if at_label < level.label().len() {
            lemma_occurrence_stops(level.label(), after_label(network_id) + tail, word, at_label);
            lemma_label_in_label(level, token, at_label);
        } else {
            lemma_occurrence_behind(level.label(), after_label(network_id) + tail, word, at_label);
            lemma_occurrence_skips(
                after_label(network_id),
                tail,
                word,
                at_label - level.label().len(),
            );
            lemma_occurrence_in_tail(
                module,
                message,
                word,
                at_label - level.label().len() - after_label(network_id).len(),
            );
        }
    }
    if token == level {
        let at = label_position(stamp, level) as int;
        assert(line.subrange(at, at + word.len()) =~= word);
    }
}

/// A rendered line is its segments in order, each directly behind the one
/// before: timestamp, level, scope, module and message. The level segment
/// holds the label between brackets, behind the level's colour.
pub proof fn lemma_line_segments(
    stamp: Seq<char>,
    level: LogLevel,
    network_id: u32,
    module: Option<Seq<char>>,
    message: Seq<char>,
)
    ensures
        ({
            let line = direct_line(stamp, level, network_id, module, message);
            let at_level = stamp_segment(stamp).len() as int;
            let at_scope = at_level + level_segment(level).len();
            let at_module = at_scope + scope_segment(network_id).len();
            let at_message = at_module + module_prefix(module).len();
            &&& occurs_at(line, stamp_segment(stamp), 0)
            &&& occurs_at(line, level_segment(level), at_level)
            &&& occurs_at(line, scope_segment(network_id), at_scope)
            &&& occurs_at(line, module_prefix(module), at_module)
            &&& occurs_at(line, message, at_message)
            &&& line.len() == at_message + message.len()
            &&& occurs_at(
                line,
                seq!['['] + level.label() + seq![']'],
                label_position(stamp, level) - 1,
            )
            &&& at_level < label_position(stamp, level)
            &&& label_position(stamp, level) + level.label().len() < at_scope
        }),
{
    let line = direct_line(stamp, level, network_id, module, message);
    let at_level = stamp_segment(stamp).len() as int;
    let at_scope = at_level + level_segment(level).len();
    let at_module = at_scope + scope_segment(network_id).len();
    let at_message = at_module + module_prefix(module).len();
    let bracketed = seq!['['] + level.label() + seq![']'];
    let at_bracket = label_position(stamp, level) - 1;
    assert(line.subrange(0, at_level) =~= stamp_segment(stamp));
    assert(line.subrange(at_level, at_scope) =~= level_segment(level));
    assert(line.subrange(at_scope, at_module) =~= scope_segment(network_id));
    assert(line.subrange(at_module, at_message) =~= module_prefix(module));
    assert(line.subrange(at_message, at_message + message.len()) =~= message);
    assert(line.subrange(at_bracket, at_bracket + bracketed.len()) =~= bracketed);
}

/// The scope segment of a rendered line shows the network's label between
/// round brackets: `zeam-n1`, `zeam-n2` and `zeam-n3` for the networks 0, 1
/// and 2, and `zeam-default` for every other id.
pub proof fn lemma_line_scope(
    stamp: Seq<char>,
    level: LogLevel,
    network_id: u32,
    module: Option<Seq<char>>,
    message: Seq<char>,
)
    ensures
        network_id == 0 ==> scope_of(network_id) == "zeam-n1"@,
        network_id == 1 ==> scope_of(network_id) == "zeam-n2"@,
        network_id == 2 ==> scope_of(network_id) == "zeam-n3"@,
        network_id > 2 ==> scope_of(network_id) == "zeam-default"@,
        occurs_at(
            direct_line(stamp, level, network_id, module, message),
            seq!['('] + scope_of(network_id) + seq![')'],
            (stamp_segment(stamp).len() + level_segment(level).len() + SCOPE_COLOR@.len()) as int,
        ),
{
    let line = direct_line(stamp, level, network_id, module, message);
    let bracketed = seq!['('] + scope_of(network_id) + seq![')'];
    let at = (stamp_segment(stamp).len() + level_segment(level).len() + SCOPE_COLOR@.len()) as int;
    assert(line.subrange(at, at + bracketed.len()) =~= bracketed);
}

/// A line rendered at a valid time begins with the timestamp colour and
/// then the timestamp, which has the fixed shape and shows the milliseconds
/// of the reading, truncated.
pub proof fn lemma_line_timestamp(
    now: Timestamp,
    level: LogLevel,
    network_id: u32,
    module: Option<Seq<char>>,
    message: Seq<char>,
)
    requires
        now.wf(),
    ensures
        ({
            let line = direct_line(now.text(), level, network_id, module, message);
            let at = TIMESTAMP_COLOR@.len() as int;
            &&& occurs_at(line, TIMESTAMP_COLOR@, 0)
            &&& occurs_at(line, now.text(), at)
            &&& matches_timestamp_pattern(line.subrange(at, at + 19))
            &&& line.subrange(at + 16, at + 19) == three_digits(
                now.nanosecond() / (NANOS_PER_MILLI as int) % 1000,
            )
        }),
{
    let line = direct_line(now.text(), level, network_id, module, message);
    let at = TIMESTAMP_COLOR@.len() as int;
    lemma_text_matches_pattern(now);
    assert(line.subrange(0, at) =~= TIMESTAMP_COLOR@);
    assert(line.subrange(at, at + 19) =~= now.text());
    assert(line.subrange(at + 16, at + 19) =~= now.text().subrange(16, 19));
    assert(now.text().subrange(16, 19) =~= three_digits(now.millis()));
}

/// Both forms share their end: a rendered line is the plain text of the
/// same call behind the three coloured segments.
pub proof fn lemma_line_ends_in_bridge_text(
    stamp: Seq<char>,
    level: LogLevel,
    network_id: u32,
    module: Option<Seq<char>>,
    message: Seq<char>,
)
    ensures
        direct_line(stamp, level, network_id, module, message) == stamp_segment(stamp)
            + level_segment(level) + scope_segment(network_id) + bridge_text(module, message),
{
    assert(direct_line(stamp, level, network_id, module, message) =~= stamp_segment(stamp)
        + level_segment(level) + scope_segment(network_id) + bridge_text(module, message));
}

/// Without a module nothing stands between the scope segment and the
/// message, and the plain text is the message alone.
pub proof fn lemma_absent_module_adds_nothing(
    stamp: Seq<char>,
    level: LogLevel,
    network_id: u32,
    message: Seq<char>,
)
    ensures
        bridge_text(None, message) == message,
        direct_line(stamp, level, network_id, None, message) == stamp_segment(stamp)
            + level_segment(level) + scope_segment(network_id) + message,
{
    assert(bridge_text(None, message) =~= message);
    assert(direct_line(stamp, level, network_id, None, message) =~= stamp_segment(stamp)
        + level_segment(level) + scope_segment(network_id) + message);
}

/// With a module, the output ends in `[name] ` and the message, in that
/// order and with nothing between them, in both forms.
pub proof fn lemma_module_segment_precedes_message(
    stamp: Seq<char>,
    level: LogLevel,
    network_id: u32,
    name: Seq<char>,
    message: Seq<char>,
)
    ensures
        module_prefix(Some(name)) == seq!['['] + name + seq![']', ' '],
        bridge_text(Some(name), message) == module_prefix(Some(name)) + message,
        ({
            let line = direct_line(stamp, level, network_id, Some(name), message);
            let segment = module_prefix(Some(name));
            &&& line.len() >= segment.len() + message.len()
            &&& occurs_at(line, segment, line.len() - message.len() - segment.len())
            &&& occurs_at(line, message, line.len() - message.len())
        }),
{
    let segment = module_prefix(Some(name));
    let line = direct_line(stamp, level, network_id, Some(name), message);
    let at = line.len() - message.len() - segment.len();
    assert(line.subrange(at, at + segment.len()) =~= segment);
    assert(line.subrange(line.len() - message.len(), line.len() as int) =~= message);
}

/// Two lines rendered from the same level, network id, module and message
/// differ only in the timestamp: the timestamp segments are equally long,
/// and what follows them is the same body.
pub proof fn lemma_same_call_same_body(
    first: Timestamp,
    second: Timestamp,
    level: LogLevel,
    network_id: u32,
    module: Option<Seq<char>>,
    message: Seq<char>,
)
    requires
        first.wf(),
        second.wf(),
    ensures
        stamp_segment(first.text()).len() == stamp_segment(second.text()).len(),
        direct_line(first.text(), level, network_id, module, message).skip(
            stamp_segment(first.text()).len() as int,
        ) == direct_body(level, network_id, module, message),
        direct_line(second.text(), level, network_id, module, message).skip(
            stamp_segment(second.text()).len() as int,
        ) == direct_body(level, network_id, module, message),
{
    lemma_text_matches_pattern(first);
    lemma_text_matches_pattern(second);
    let body = direct_body(level, network_id, module, message);
    let one = stamp_segment(first.text());
    let two = stamp_segment(second.text());
    assert((one + body).skip(one.len() as int) =~= body);
    assert((two + body).skip(two.len() as int) =~= body);
}

} // verus!
