//! W3C trace context across the protocol boundary.
//!
//! Inbound, a client passes its trace context in the `comment` field of a
//! command, as a JSON object with a `traceparent` member. Outbound, the
//! gateway prepends the context to the backend query as a block comment.

use std::borrow::Cow;
use vstd::prelude::*;
use vstd::string::*;
use crate::numbers::{
    digits_value, hex_digits_text, is_hex_digits, is_lower_hex, lemma_digit_of_lower,
    lemma_hex_digits_value, lemma_lower_hex, lemma_lower_hex_canonical, lemma_lower_hex_is_hex,
    lower_hex, parse_unsigned, parse_unsigned_text, pow16, push_lower_hex, unsigned_digits, Radix,
};
use crate::text::{
    holds_char, lemma_split_joined, lemma_split_whole, split, split_text, text_eq, views_of,
};

verus! {

/// The identity of a span within a trace, as it travels between processes.
#[derive(Clone, Copy, Debug, PartialEq, Eq, Structural)]
pub struct TraceContext {
    /// The 16-byte trace id as a number; zero is no trace id.
    pub trace_id: u128,
    /// The 8-byte span id as a number; zero is no span id.
    pub span_id: u64,
    /// The trace flags; the lowest bit says that the trace is sampled.
    pub trace_flags: u8,
    /// Whether the context came from another process.
    pub is_remote: bool,
}

impl TraceContext {
    /// A context is valid where neither id is zero.
    pub open spec fn valid(self) -> bool {
        self.trace_id != 0 && self.span_id != 0
    }

    /// A context is sampled where the lowest bit of its flags is set.
    pub open spec fn sampled(self) -> bool {
        self.trace_flags & 1 == 1
    }

    /// The context of a request that carries none: it is not valid.
    pub fn none() -> (context: TraceContext)
        ensures
            !context.valid(),
            context == (TraceContext { trace_id: 0, span_id: 0, trace_flags: 0, is_remote: false }),
    {
        TraceContext { trace_id: 0, span_id: 0, trace_flags: 0, is_remote: false }
    }

    pub fn is_valid(&self) -> (r: bool)
        ensures
            r == self.valid(),
    {
        self.trace_id != 0 && self.span_id != 0
    }

    pub fn is_sampled(&self) -> (r: bool)
        ensures
            r == self.sampled(),
    {
        self.trace_flags & 1 == 1
    }
}

/// The number that `text` writes in radix 16, where it fits 128 bits.
pub open spec fn hex_u128(text: Seq<char>) -> Option<u128> {
    match parse_unsigned(text, 16, u128::MAX as int) {
        Some(v) => Some(v as u128),
        None => None,
    }
}

/// The number that `text` writes in radix 16, where it fits 64 bits.
pub open spec fn hex_u64(text: Seq<char>) -> Option<u64> {
    match parse_unsigned(text, 16, u64::MAX as int) {
        Some(v) => Some(v as u64),
        None => None,
    }
}

/// The number that `text` writes in radix 16, where it fits 8 bits.
pub open spec fn hex_u8(text: Seq<char>) -> Option<u8> {
    match parse_unsigned(text, 16, u8::MAX as int) {
        Some(v) => Some(v as u8),
        None => None,
    }
}

/// The context that a `traceparent` value carries. The value has exactly
/// four parts between dashes: the version `00`, the trace id in 32 digits of
/// radix 16, the span id in 16 and the flags in 2, with no sign and nothing
/// else in any of them, and neither id zero. Any other value carries no
/// context.
pub open spec fn traceparent_context(text: Seq<char>) -> Option<TraceContext> {
    let parts = split(text, '-');
    if parts.len() == 4 && parts[0] == "00"@ && is_hex_digits(parts[1], 32) && is_hex_digits(
        parts[2],
        16,
    ) && is_hex_digits(parts[3], 2) {
        let trace_id = digits_value(parts[1], 16)->0;
        let span_id = digits_value(parts[2], 16)->0;
        let trace_flags = digits_value(parts[3], 16)->0;
        if trace_id == 0 || span_id == 0 {
            None
        } else {
            Some(
                TraceContext {
                    trace_id: trace_id as u128,
                    span_id: span_id as u64,
                    trace_flags: trace_flags as u8,
                    is_remote: true,
                },
            )
        }
    } else {
        None
    }
}

/// The canonical `traceparent` value of a context: version `00`, then the
/// trace id in 32, the span id in 16 and the flags in 2 lower-case digits of
/// radix 16, with dashes between.
pub open spec fn traceparent_text(context: TraceContext) -> Seq<char> {
    "00-"@ + lower_hex(context.trace_id as nat, 32) + "-"@ + lower_hex(context.span_id as nat, 16)
        + "-"@ + lower_hex(context.trace_flags as nat, 2)
}

/// The block comment that carries a context in front of a backend query.
pub open spec fn trace_comment(context: TraceContext) -> Seq<char> {
    "/* traceparent='"@ + traceparent_text(context) + "' */ "@
}

/// What a JSON text parses to, if it is well-formed JSON.
pub uninterp spec fn json_document(text: Seq<char>) -> Option<serde_json::Value>;

/// The member that a JSON object holds under a key.
pub uninterp spec fn json_member(value: serde_json::Value, key: Seq<char>) -> Option<
    serde_json::Value,
>;

/// The text of a JSON value that is a string.
pub uninterp spec fn json_string(value: serde_json::Value) -> Option<Seq<char>>;

#[verifier::external_type_specification]
#[verifier::external_body]
pub struct ExJsonValue(serde_json::Value);

/// `serde_json::from_str` for a `serde_json::Value`, with the error dropped.
/// The value depends on the text alone. Empty text is an error.
#[verifier::external_body]
fn json_from_str(text: &str) -> (r: Option<serde_json::Value>)
    ensures
        r == json_document(text@),
        text@.len() == 0 ==> r is None,
{
    serde_json::from_str::<serde_json::Value>(text).ok()
}

/// `serde_json::Value::get` with a string key: the member of an object under
/// that key, `None` for a missing key and for a value that is no object.
#[verifier::external_body]
fn json_get<'a>(value: &'a serde_json::Value, key: &str) -> (r: Option<&'a serde_json::Value>)
    ensures
        r matches Some(member) ==> json_member(*value, key@) == Some(*member),
        r is None ==> json_member(*value, key@) is None,
{
    value.get(key)
}

/// `serde_json::Value::as_str`: the text of a string value, `None` for a
/// value of another kind.
#[verifier::external_body]
fn json_as_str<'a>(value: &'a serde_json::Value) -> (r: Option<&'a str>)
    ensures
        r matches Some(text) ==> json_string(*value) == Some(text@),
        r is None ==> json_string(*value) is None,
{
    value.as_str()
}

/// `opentelemetry::trace::TraceId::from_hex`, which reads the text with
/// `u128::from_str_radix` in radix 16: an optional `+`, then one or more
/// digits of either case, worth no more than 128 bits hold.
#[verifier::external_body]
fn trace_id_from_hex(hex: &str) -> (r: Option<u128>)
    ensures
        r == hex_u128(hex@),
{
    opentelemetry::trace::TraceId::from_hex(hex).ok().map(|id| u128::from_be_bytes(id.to_bytes()))
}

/// `opentelemetry::trace::SpanId::from_hex`, which reads the text with
/// `u64::from_str_radix` in radix 16: an optional `+`, then one or more
/// digits of either case, worth no more than 64 bits hold.
#[verifier::external_body]
fn span_id_from_hex(hex: &str) -> (r: Option<u64>)
    ensures
        r == hex_u64(hex@),
{
    opentelemetry::trace::SpanId::from_hex(hex).ok().map(|id| u64::from_be_bytes(id.to_bytes()))
}

/// The `Display` form of `opentelemetry::trace::TraceId`: the id in 32
/// lower-case digits of radix 16, zeros in front.
#[verifier::external_body]
fn trace_id_to_hex(id: u128) -> (r: String)
    ensures
        r@ == lower_hex(id as nat, 32),
{
    opentelemetry::trace::TraceId::from_bytes(id.to_be_bytes()).to_string()
}

/// The `Display` form of `opentelemetry::trace::SpanId`: the id in 16
/// lower-case digits of radix 16, zeros in front.
#[verifier::external_body]
fn span_id_to_hex(id: u64) -> (r: String)
    ensures
        r@ == lower_hex(id as nat, 16),
{
    opentelemetry::trace::SpanId::from_bytes(id.to_be_bytes()).to_string()
}

/// The `traceparent` member of a comment: the comment is a JSON object, and
/// the member is a string.
pub open spec fn comment_traceparent(comment: Seq<char>) -> Option<Seq<char>> {
    match json_document(comment) {
        Some(document) => match json_member(document, "traceparent"@) {
            Some(member) => json_string(member),
            None => None,
        },
        None => None,
    }
}

/// The context that a comment carries: that of its `traceparent` member.
pub open spec fn comment_context(comment: Seq<char>) -> Option<TraceContext> {
    match comment_traceparent(comment) {
        Some(traceparent) => traceparent_context(traceparent),
        None => None,
    }
}

/// Extracts the trace context from the comment of a command.
///
/// The comment is expected to be a JSON object such as
/// `{"traceparent": "00-{trace_id}-{span_id}-{flags}"}`. A comment that is
/// no JSON, has no such member, or has one that is no valid `traceparent`
/// value, gives `None`: a request never fails over its trace context.
pub fn extract_context_from_comment(comment: &str) -> (r: Option<TraceContext>)
    ensures
        r == comment_context(comment@),
        comment@.len() == 0 ==> r is None,
{
    let document = match json_from_str(comment) {
        Some(document) => document,
        None => {
            return None;
        },
    };
    let member = match json_get(&document, "traceparent") {
        Some(member) => member,
        None => {
            return None;
        },
    };
    match json_as_str(member) {
        Some(traceparent) => parse_traceparent(traceparent),
        None => None,
    }
}

/// Parses a W3C `traceparent` value, `00-{trace_id}-{span_id}-{flags}`, into
/// a remote trace context. The ids and the flags are 32, 16 and 2 digits of
/// radix 16; the widths are looked at before the ids are read. Returns `None`
/// for every other value.
pub fn parse_traceparent(traceparent: &str) -> (r: Option<TraceContext>)
    ensures
        r == traceparent_context(traceparent@),
{
    let parts = split_text(traceparent, '-');
    proof {
        let pieces = split(traceparent@, '-');
        assert(views_of(parts@).len() == parts.len());
        assert forall|i: int| 0 <= i < parts.len() implies (#[trigger] parts[i])@ == pieces[i] by {
            assert(views_of(parts@)[i] == parts[i]@);
        }
    }
    if parts.len() != 4 || !text_eq(parts[0].as_str(), "00") {
        return None;
    }
    if !hex_digits_text(parts[1].as_str(), 32) || !hex_digits_text(parts[2].as_str(), 16)
        || !hex_digits_text(parts[3].as_str(), 2) {
        return None;
    }
    proof {
        lemma_pow16_widths();
        lemma_hex_digits_value(parts[1]@, 32);
        lemma_hex_digits_value(parts[2]@, 16);
        lemma_hex_digits_value(parts[3]@, 2);
    }
    let trace_id = match trace_id_from_hex(parts[1].as_str()) {
        Some(id) => id,
        None => {
            return None;
        },
    };
    let span_id = match span_id_from_hex(parts[2].as_str()) {
        Some(id) => id,
        None => {
            return None;
        },
    };
    let trace_flags = match parse_unsigned_text(parts[3].as_str(), Radix::Hexadecimal, 255) {
        Some(flags) => flags as u8,
        None => {
            return None;
        },
    };
    if trace_id == 0 || span_id == 0 {
        return None;
    }
    Some(TraceContext { trace_id, span_id, trace_flags, is_remote: true })
}

/// Puts the trace context in front of a backend query, as a block comment:
/// `/* traceparent='00-{trace_id}-{span_id}-{flags}' */ {sql}`.
///
/// Only a context that is valid and sampled is written. For any other the
/// query comes back as it was given, borrowed and not copied: that is the
/// path of most requests.
pub fn format_trace_comment<'a>(sql: &'a str, context: &TraceContext) -> (r: Cow<'a, str>)
    ensures
        context.valid() && context.sampled() ==> (r matches Cow::Owned(text) && text@
            == trace_comment(*context) + sql@),
        !(context.valid() && context.sampled()) ==> r == Cow::<'a, str>::Borrowed(sql),
{
    if context.is_valid() && context.is_sampled() {
        let mut text = String::new();
        text.append("/* traceparent='");
        text.append("00-");
        text.append(trace_id_to_hex(context.trace_id).as_str());
        text.append("-");
        text.append(span_id_to_hex(context.span_id).as_str());
        text.append("-");
        push_lower_hex(&mut text, context.trace_flags as u128, 2);
        text.append("' */ ");
        text.append(sql);
        assert(text@ =~= trace_comment(*context) + sql@);
        Cow::Owned(text)
    } else {
        Cow::Borrowed(sql)
    }
}

/// Digits of radix 16 hold no dash and do not start with a plus sign.
pub proof fn lemma_hex_has_no_sign(s: Seq<char>, width: nat)
    requires
        is_lower_hex(s, width),
    ensures
        !holds_char(s, '-'),
        unsigned_digits(s) == s,
{
    assert forall|i: int| 0 <= i < s.len() implies s[i] != '-' && s[i] != '+' by {
        lemma_digit_of_lower(s[i]);
    }
}

/// The widths of the three numbers of a `traceparent` value in digits of
/// radix 16: 16 to the power 2, 16 and 32 are what 8, 64 and 128 bits hold.
pub proof fn lemma_pow16_widths()
    ensures
        pow16(2) == 0x100,
        pow16(16) == 0x1_0000_0000_0000_0000,
        pow16(32) == 0x1_0000_0000_0000_0000_0000_0000_0000_0000,
{
    reveal_with_fuel(pow16, 33);
}

/// The pieces of a text that is a version, a trace id, a span id and flags
/// with dashes between, where none of the four holds a dash.
pub proof fn lemma_split_traceparent(
    version: Seq<char>,
    trace_id: Seq<char>,
    span_id: Seq<char>,
    flags: Seq<char>,
)
    requires
        !holds_char(version, '-'),
        !holds_char(trace_id, '-'),
        !holds_char(span_id, '-'),
        !holds_char(flags, '-'),
    ensures
        split(version + seq!['-'] + trace_id + seq!['-'] + span_id + seq!['-'] + flags, '-')
            == seq![version, trace_id, span_id, flags],
{
    let tail2 = span_id + seq!['-'] + flags;
    let tail1 = trace_id + seq!['-'] + tail2;
    let whole = version + seq!['-'] + tail1;
    lemma_split_whole(flags, '-');
    lemma_split_joined(span_id, '-', flags);
    lemma_split_joined(trace_id, '-', tail2);
    lemma_split_joined(version, '-', tail1);
    assert(whole =~= version + seq!['-'] + trace_id + seq!['-'] + span_id + seq!['-'] + flags);
    assert(split(whole, '-') =~= seq![version, trace_id, span_id, flags]);
}

/// Writing a valid remote context as a `traceparent` value and reading the
/// value gives the context back.
pub proof fn lemma_traceparent_round_trip(context: TraceContext)
    requires
        context.valid(),
        context.is_remote,
    ensures
        traceparent_context(traceparent_text(context)) == Some(context),
{
    let version = seq!['0', '0'];
    let trace_id = lower_hex(context.trace_id as nat, 32);
    let span_id = lower_hex(context.span_id as nat, 16);
    let flags = lower_hex(context.trace_flags as nat, 2);
    reveal_strlit("00-");
    reveal_strlit("00");
    reveal_strlit("-");
    assert("00-"@ =~= version + seq!['-']);
    assert("-"@ =~= seq!['-']);
    assert("00"@ =~= version);
    lemma_pow16_widths();
    lemma_lower_hex(context.trace_id as nat, 32);
    lemma_lower_hex(context.span_id as nat, 16);
    lemma_lower_hex(context.trace_flags as nat, 2);
    lemma_hex_has_no_sign(trace_id, 32);
    lemma_hex_has_no_sign(span_id, 16);
    lemma_hex_has_no_sign(flags, 2);
    lemma_lower_hex_is_hex(trace_id, 32);
    lemma_lower_hex_is_hex(span_id, 16);
    lemma_lower_hex_is_hex(flags, 2);
    assert(!holds_char(version, '-'));
    lemma_split_traceparent(version, trace_id, span_id, flags);
    assert(traceparent_text(context) =~= version + seq!['-'] + trace_id + seq!['-'] + span_id
        + seq!['-'] + flags);
}

/// A well-formed `traceparent` value, version `00` and then 32, 16 and 2
/// lower-case digits of radix 16 with dashes between and neither id zero,
/// carries a context, and that context is written as the same value,
/// character for character.
pub proof fn lemma_traceparent_canonical(trace_id: Seq<char>, span_id: Seq<char>, flags: Seq<char>)
    requires
        is_lower_hex(trace_id, 32),
        is_lower_hex(span_id, 16),
        is_lower_hex(flags, 2),
        digits_value(trace_id, 16) != Some(0int),
        digits_value(span_id, 16) != Some(0int),
    ensures
        (traceparent_context("00-"@ + trace_id + "-"@ + span_id + "-"@ + flags) matches Some(
            context,
        ) && context.valid() && traceparent_text(context) == "00-"@ + trace_id + "-"@ + span_id
            + "-"@ + flags),
{
    let version = seq!['0', '0'];
    let text = "00-"@ + trace_id + "-"@ + span_id + "-"@ + flags;
    reveal_strlit("00-");
    reveal_strlit("00");
    reveal_strlit("-");
    assert("00-"@ =~= version + seq!['-']);
    assert("-"@ =~= seq!['-']);
    assert("00"@ =~= version);
    lemma_pow16_widths();
    lemma_lower_hex_canonical(trace_id, 32);
    lemma_lower_hex_canonical(span_id, 16);
    lemma_lower_hex_canonical(flags, 2);
    lemma_hex_has_no_sign(trace_id, 32);
    lemma_hex_has_no_sign(span_id, 16);
    lemma_hex_has_no_sign(flags, 2);
    lemma_lower_hex_is_hex(trace_id, 32);
    lemma_lower_hex_is_hex(span_id, 16);
    lemma_lower_hex_is_hex(flags, 2);
    assert(!holds_char(version, '-'));
    lemma_split_traceparent(version, trace_id, span_id, flags);
    assert(text =~= version + seq!['-'] + trace_id + seq!['-'] + span_id + seq!['-'] + flags);
}

/// A comment whose `traceparent` member is well-formed carries a valid
/// context, and the block comment written for that context holds the member
/// between its quotes, character for character.
pub proof fn lemma_comment_round_trip(
    comment: Seq<char>,
    trace_id: Seq<char>,
    span_id: Seq<char>,
    flags: Seq<char>,
)
    requires
        comment_traceparent(comment) == Some("00-"@ + trace_id + "-"@ + span_id + "-"@ + flags),
        is_lower_hex(trace_id, 32),
        is_lower_hex(span_id, 16),
        is_lower_hex(flags, 2),
        digits_value(trace_id, 16) != Some(0int),
        digits_value(span_id, 16) != Some(0int),
    ensures
        (comment_context(comment) matches Some(context) && context.valid() && trace_comment(context)
            == "/* traceparent='"@ + ("00-"@ + trace_id + "-"@ + span_id + "-"@ + flags)
            + "' */ "@),
{
    lemma_traceparent_canonical(trace_id, span_id, flags);
}

/// Where the comment is put in front of a query, the result starts with the
/// comment, the query follows it unchanged, and the comment starts with
/// `/* traceparent='`.
pub proof fn lemma_trace_comment_prefix(context: TraceContext, sql: Seq<char>)
    ensures
        (trace_comment(context) + sql).subrange(0, trace_comment(context).len() as int)
            == trace_comment(context),
        (trace_comment(context) + sql).subrange(
            trace_comment(context).len() as int,
            (trace_comment(context) + sql).len() as int,
        ) == sql,
        trace_comment(context).subrange(0, "/* traceparent='"@.len() as int)
            == "/* traceparent='"@,
{
    let c = trace_comment(context);
    assert((c + sql).subrange(0, c.len() as int) =~= c);
    assert((c + sql).subrange(c.len() as int, (c + sql).len() as int) =~= sql);
    assert(c.subrange(0, "/* traceparent='"@.len() as int) =~= "/* traceparent='"@);
}

/// Comments that carry no context: one that is no JSON, one without a
/// `traceparent` member, one whose member is no string, and one whose member
/// carries no context.
pub proof fn lemma_malformed_comment(comment: Seq<char>)
    ensures
        json_document(comment) is None ==> comment_context(comment) is None,
        json_document(comment) matches Some(document) && json_member(document, "traceparent"@)
            is None ==> comment_context(comment) is None,
        json_document(comment) matches Some(document) && json_member(document, "traceparent"@)
            matches Some(member) && json_string(member) is None ==> comment_context(comment)
            is None,
        comment_traceparent(comment) matches Some(traceparent) && traceparent_context(traceparent)
            is None ==> comment_context(comment) is None,
{
}

/// Values that carry no context: the empty text, a text that is not four
/// parts between dashes, a version other than `00`, an id or flags that are
/// not exactly 32, 16 and 2 digits of radix 16, and an id that is zero.
pub proof fn lemma_malformed_traceparent(text: Seq<char>)
    ensures
        text.len() == 0 ==> traceparent_context(text) is None,
        split(text, '-').len() != 4 ==> traceparent_context(text) is None,
        split(text, '-').len() == 4 && split(text, '-')[0] != "00"@ ==> traceparent_context(text)
            is None,
        split(text, '-').len() == 4 && !(is_hex_digits(split(text, '-')[1], 32) && is_hex_digits(
            split(text, '-')[2],
            16,
        ) && is_hex_digits(split(text, '-')[3], 2)) ==> traceparent_context(text) is None,
        split(text, '-').len() == 4 && (digits_value(split(text, '-')[1], 16) == Some(0int)
            || digits_value(split(text, '-')[2], 16) == Some(0int)) ==> traceparent_context(text)
            is None,
{
    if text.len() == 0 {
        assert(split(text, '-') =~= seq![text]);
    }
}

/// A value carries a context exactly where it is well-formed: four parts,
/// the version `00`, ids and flags of 32, 16 and 2 digits of radix 16, and
/// neither id zero. The context holds the numbers that the digits write, and
/// the tracing library reads the same numbers from them.
pub proof fn lemma_well_formed_traceparent(text: Seq<char>)
    ensures
        traceparent_context(text) is Some <==> {
            &&& split(text, '-').len() == 4
            &&& split(text, '-')[0] == "00"@
            &&& is_hex_digits(split(text, '-')[1], 32)
            &&& is_hex_digits(split(text, '-')[2], 16)
            &&& is_hex_digits(split(text, '-')[3], 2)
            &&& digits_value(split(text, '-')[1], 16) != Some(0int)
            &&& digits_value(split(text, '-')[2], 16) != Some(0int)
        },
        traceparent_context(text) matches Some(context) ==> {
            &&& context.valid()
            &&& context.is_remote
            &&& hex_u128(split(text, '-')[1]) == Some(context.trace_id)
            &&& hex_u64(split(text, '-')[2]) == Some(context.span_id)
            &&& hex_u8(split(text, '-')[3]) == Some(context.trace_flags)
        },
{
    let parts = split(text, '-');
    if parts.len() == 4 && is_hex_digits(parts[1], 32) && is_hex_digits(parts[2], 16)
        && is_hex_digits(parts[3], 2) {
        lemma_pow16_widths();
        lemma_hex_digits_value(parts[1], 32);
        lemma_hex_digits_value(parts[2], 16);
        lemma_hex_digits_value(parts[3], 2);
    }
}

} // verus!
