use vstd::prelude::*;

use crate::models::ServiceBusMessage;
use crate::text::{chars_of, find_from, find_spec, i64_text, decimal_text, matches_at, occurs_at, slice, text_of};

verus! {

/// How long a lock request waits on an empty entity, in seconds.
pub const LOCK_WAIT_SECS: u32 = 1;

/// How many workers a purge runs by default.
pub const DEFAULT_PURGE_WORKERS: usize = 32;

/// What the answer to a read of an entity's head means.
#[derive(Debug, Clone, Copy, PartialEq, Eq, Structural)]
pub enum HeadStatus {
    /// Nothing was available within the wait budget.
    Empty,
    /// The broker refused; its status and body are the error.
    Failed,
    /// A message came back.
    Delivered,
}

/// What the status of a lock or receive-and-delete answer means: no content
/// (204) or not found (404) is an empty entity, any other status of 400 or
/// above a failure, anything else a delivered message.
pub open spec fn head_status_spec(status: u16) -> HeadStatus {
    if status == 204 || status == 404 {
        HeadStatus::Empty
    } else if status >= 400 {
        HeadStatus::Failed
    } else {
        HeadStatus::Delivered
    }
}

/// Classifies the status of a lock or receive-and-delete answer.
pub fn classify_head_status(status: u16) -> (r: HeadStatus)
    ensures
        r == head_status_spec(status),
{
    if status == 204 || status == 404 {
        HeadStatus::Empty
    } else if status >= 400 {
        HeadStatus::Failed
    } else {
        HeadStatus::Delivered
    }
}

/// `s` with every non-overlapping occurrence of `pat` from position `i` on,
/// left to right, replaced by `rep`.
pub open spec fn replace_from(s: Seq<char>, pat: Seq<char>, rep: Seq<char>, i: int) -> Seq<char>
    decreases s.len() - i,
{
    if i < 0 || i >= s.len() {
        Seq::empty()
    } else if pat.len() > 0 && occurs_at(s, pat, i) {
        rep + replace_from(s, pat, rep, i + pat.len())
    } else {
        seq![s[i]] + replace_from(s, pat, rep, i + 1)
    }
}

/// The data-plane form of an entity path: the management API writes
/// `/Subscriptions/`, the data plane expects `/subscriptions/`.
pub open spec fn normalized_path(p: Seq<char>) -> Seq<char> {
    replace_from(p, "/Subscriptions/"@, "/subscriptions/"@, 0)
}

fn replace_all(s: &Vec<char>, pat: &Vec<char>, rep: &Vec<char>) -> (r: Vec<char>)
    ensures
        r@ == replace_from(s@, pat@, rep@, 0),
{
    let n = s.len();
    let mut out: Vec<char> = Vec::new();
    let mut i: usize = 0;
    while i < n
        invariant
            n == s@.len(),
            i <= n,
            out@ + replace_from(s@, pat@, rep@, i as int) == replace_from(s@, pat@, rep@, 0),
        decreases n - i,
    {
        let ghost before = out@;
        if pat.len() > 0 && matches_at(s, pat, i) {
            out = crate::text::concat(&out, rep);
            assert(before + (rep@ + replace_from(s@, pat@, rep@, i + pat@.len())) == out@
                + replace_from(s@, pat@, rep@, i + pat@.len()));
            i = i + pat.len();
        } else {
            out.push(s[i]);
            assert(before + (seq![s@[i as int]] + replace_from(s@, pat@, rep@, i + 1)) == out@
                + replace_from(s@, pat@, rep@, i + 1));
            i = i + 1;
        }
    }
    assert(out@ + Seq::<char>::empty() == out@);
    out
}

/// The data-plane form of an entity path.
pub fn normalize_path(entity_path: &str) -> (r: String)
    ensures
        r@ == normalized_path(entity_path@),
{
    text_of(
        &replace_all(&chars_of(entity_path), &chars_of("/Subscriptions/"), &chars_of("/subscriptions/")),
    )
}

/// The dead-letter sub-queue of an entity.
pub open spec fn dead_letter_path_spec(entity: Seq<char>) -> Seq<char> {
    entity + "/$deadletterqueue"@
}

/// The dead-letter sub-queue of an entity.
pub fn dead_letter_path(entity_path: &str) -> (r: String)
    ensures
        r@ == dead_letter_path_spec(entity_path@),
{
    String::from_str(entity_path).concat("/$deadletterqueue")
}

/// The path of one subscription of a topic.
pub open spec fn subscription_path_spec(topic: Seq<char>, sub: Seq<char>) -> Seq<char> {
    topic + "/subscriptions/"@ + sub
}

/// The path of one subscription of a topic.
pub fn subscription_path(topic: &str, sub: &str) -> (r: String)
    ensures
        r@ == subscription_path_spec(topic@, sub@),
{
    String::from_str(topic).concat("/subscriptions/").concat(sub)
}

/// Where messages for an entity are sent: a subscription's messages go to
/// its topic, that is the path before the first `/Subscriptions/` (or, if
/// there is none, `/subscriptions/`); other paths are their own target.
pub open spec fn send_path_spec(p: Seq<char>) -> Seq<char> {
    match find_spec(p, "/Subscriptions/"@, 0) {
        Some(i) => p.take(i),
        None => match find_spec(p, "/subscriptions/"@, 0) {
            Some(i) => p.take(i),
            None => p,
        },
    }
}

/// Where messages for an entity are sent.
pub fn send_path(entity_path: &str) -> (r: String)
    ensures
        r@ == send_path_spec(entity_path@),
{
    let p = chars_of(entity_path);
    let upper = chars_of("/Subscriptions/");
    let lower = chars_of("/subscriptions/");
    match find_from(&p, &upper, 0) {
        Some(i) => {
            proof {
                crate::text::lemma_find_bounds(p@, upper@, 0);
            }
            text_of(&slice(&p, 0, i))
        },
        None => match find_from(&p, &lower, 0) {
            Some(i) => {
                proof {
                    crate::text::lemma_find_bounds(p@, lower@, 0);
                }
                text_of(&slice(&p, 0, i))
            },
            None => String::from_str(entity_path),
        },
    }
}

/// The URL that reads (locks, or receives and deletes) the head of an
/// entity, waiting at most `timeout_secs` on an empty one.
pub open spec fn head_url_spec(endpoint: Seq<char>, path: Seq<char>, timeout_secs: u32) -> Seq<char> {
    endpoint + "/"@ + normalized_path(path) + "/messages/head?api-version=2017-04&timeout="@
        + decimal_text(timeout_secs as int)
}

/// The URL that reads the head of an entity.
pub fn head_url(endpoint: &str, entity_path: &str, timeout_secs: u32) -> (r: String)
    ensures
        r@ == head_url_spec(endpoint@, entity_path@, timeout_secs),
{
    let path = normalize_path(entity_path);
    let t = i64_text(timeout_secs as i64);
    String::from_str(endpoint).concat("/").concat(path.as_str()).concat(
        "/messages/head?api-version=2017-04&timeout=",
    ).concat(t.as_str())
}

/// The URL that sends a message to an entity.
pub open spec fn send_url_spec(endpoint: Seq<char>, path: Seq<char>) -> Seq<char> {
    endpoint + "/"@ + normalized_path(path) + "/messages?api-version=2017-04"@
}

/// The URL that sends a message to an entity.
pub fn send_url(endpoint: &str, entity_path: &str) -> (r: String)
    ensures
        r@ == send_url_spec(endpoint@, entity_path@),
{
    let path = normalize_path(entity_path);
    String::from_str(endpoint).concat("/").concat(path.as_str()).concat("/messages?api-version=2017-04")
}

/// The paths a purge of a topic works through: one per subscription, or
/// its dead-letter sub-queue when `dead_letter` is set.
pub open spec fn purge_path_spec(topic: Seq<char>, sub: Seq<char>, dead_letter: bool) -> Seq<char> {
    if dead_letter {
        dead_letter_path_spec(subscription_path_spec(topic, sub))
    } else {
        subscription_path_spec(topic, sub)
    }
}

/// The per-subscription paths a purge of `topic` works through.
pub fn topic_purge_paths(topic: &str, subscriptions: &Vec<String>, dead_letter: bool) -> (r: Vec<
    String,
>)
    ensures
        r@.len() == subscriptions@.len(),
        forall|i: int|
            0 <= i < r@.len() ==> (#[trigger] r@[i])@ == purge_path_spec(
                topic@,
                subscriptions@[i]@,
                dead_letter,
            ),
{
    let mut out: Vec<String> = Vec::new();
    let mut i: usize = 0;
    while i < subscriptions.len()
        invariant
            i <= subscriptions@.len(),
            out@.len() == i,
            forall|j: int|
                0 <= j < i ==> (#[trigger] out@[j])@ == purge_path_spec(
                    topic@,
                    subscriptions@[j]@,
                    dead_letter,
                ),
        decreases subscriptions@.len() - i,
    {
        let sub = subscription_path(topic, subscriptions[i].as_str());
        if dead_letter {
            out.push(dead_letter_path(sub.as_str()));
        } else {
            out.push(sub);
        }
        i = i + 1;
    }
    out
}

/// The (dead-letter path, destination) pairs of a resend from a topic: one
/// per subscription, all sending to the topic itself.
pub fn topic_resend_pairs(topic: &str, subscriptions: &Vec<String>) -> (r: Vec<(String, String)>)
    ensures
        r@.len() == subscriptions@.len(),
        forall|i: int|
            0 <= i < r@.len() ==> (#[trigger] r@[i]).0@ == dead_letter_path_spec(
                subscription_path_spec(topic@, subscriptions@[i]@),
            ) && r@[i].1@ == topic@,
{
    let mut out: Vec<(String, String)> = Vec::new();
    let mut i: usize = 0;
    while i < subscriptions.len()
        invariant
            i <= subscriptions@.len(),
            out@.len() == i,
            forall|j: int|
                0 <= j < i ==> (#[trigger] out@[j]).0@ == dead_letter_path_spec(
                    subscription_path_spec(topic@, subscriptions@[j]@),
                ) && out@[j].1@ == topic@,
        decreases subscriptions@.len() - i,
    {
        let sub = subscription_path(topic, subscriptions[i].as_str());
        out.push((dead_letter_path(sub.as_str()), String::from_str(topic)));
        i = i + 1;
    }
    out
}

/// The single (dead-letter path, destination) pair of a resend from a queue
/// or a subscription: its dead-letter sub-queue, sent to where the entity
/// receives messages.
pub fn entity_resend_pair(entity_path: &str) -> (r: (String, String))
    ensures
        r.0@ == dead_letter_path_spec(entity_path@),
        r.1@ == send_path_spec(entity_path@),
{
    (dead_letter_path(entity_path), send_path(entity_path))
}

/// The broker properties a message carries when sent, as (name, value)
/// pairs in a fixed order, each only when set. The time to live is not among
/// them: it travels as a number.
pub open spec fn broker_pairs_spec(m: ServiceBusMessage) -> Seq<(Seq<char>, Seq<char>)> {
    pair_of("MessageId"@, m.message_id) + pair_of("CorrelationId"@, m.correlation_id) + pair_of(
        "SessionId"@,
        m.session_id,
    ) + pair_of("Label"@, m.label) + pair_of("To"@, m.to) + pair_of("ReplyTo"@, m.reply_to)
        + pair_of("ScheduledEnqueueTimeUtc"@, m.scheduled_enqueue_time) + pair_of(
        "PartitionKey"@,
        m.partition_key,
    )
}

pub open spec fn pair_of(name: Seq<char>, v: Option<String>) -> Seq<(Seq<char>, Seq<char>)> {
    match v {
        Some(s) => seq![(name, s@)],
        None => Seq::empty(),
    }
}

pub open spec fn pairs_view(v: Seq<(String, String)>) -> Seq<(Seq<char>, Seq<char>)> {
    v.map_values(|p: (String, String)| (p.0@, p.1@))
}

fn push_pair(out: &mut Vec<(String, String)>, name: &str, v: &Option<String>)
    ensures
        pairs_view(final(out)@) == pairs_view(old(out)@) + pair_of(name@, *v),
{
    match v {
        Some(s) => {
            out.push((String::from_str(name), s.clone()));
            assert(pairs_view(out@) =~= pairs_view(old(out)@) + pair_of(name@, *v));
        },
        None => {
            assert(pairs_view(out@) =~= pairs_view(old(out)@) + pair_of(name@, *v));
        },
    }
}

/// The broker properties of an outgoing message, as (name, value) pairs.
pub fn broker_property_pairs(message: &ServiceBusMessage) -> (r: Vec<(String, String)>)
    ensures
        pairs_view(r@) == broker_pairs_spec(*message),
{
    let mut out: Vec<(String, String)> = Vec::new();
    assert(pairs_view(out@) =~= Seq::<(Seq<char>, Seq<char>)>::empty());
    push_pair(&mut out, "MessageId", &message.message_id);
    push_pair(&mut out, "CorrelationId", &message.correlation_id);
    push_pair(&mut out, "SessionId", &message.session_id);
    push_pair(&mut out, "Label", &message.label);
    push_pair(&mut out, "To", &message.to);
    push_pair(&mut out, "ReplyTo", &message.reply_to);
    push_pair(&mut out, "ScheduledEnqueueTimeUtc", &message.scheduled_enqueue_time);
    push_pair(&mut out, "PartitionKey", &message.partition_key);
    assert(Seq::<(Seq<char>, Seq<char>)>::empty() + pair_of("MessageId"@, message.message_id)
        == pair_of("MessageId"@, message.message_id));
    out
}

/// The header value that carries a custom property: the value in double
/// quotes.
pub fn custom_header_value(v: &str) -> (r: String)
    ensures
        r@ == seq!['"'] + v@ + seq!['"'],
{
    let mut c: Vec<char> = Vec::new();
    c.push('"');
    let mut out = crate::text::concat(&c, &chars_of(v));
    out.push('"');
    assert(c@ =~= seq!['"']);
    text_of(&out)
}

/// The reason recorded when a message is dead-lettered without one.
pub open spec fn default_dead_letter_reason() -> Seq<char> {
    "Manual dead-letter"@
}

/// The broker properties that dead-letter a message: the reason, or the
/// default one, and the description when given.
pub fn dead_letter_property_pairs(reason: Option<&str>, description: Option<&str>) -> (r: Vec<
    (String, String),
>)
    ensures
        pairs_view(r@) == seq![
            (
                "DeadLetterReason"@,
                match reason {
                    Some(x) => x@,
                    None => default_dead_letter_reason(),
                },
            ),
        ] + match description {
            Some(d) => seq![("DeadLetterErrorDescription"@, d@)],
            None => Seq::empty(),
        },
{
    let mut out: Vec<(String, String)> = Vec::new();
    let why = match reason {
        Some(x) => String::from_str(x),
        None => String::from_str("Manual dead-letter"),
    };
    out.push((String::from_str("DeadLetterReason"), why));
    match description {
        Some(d) => {
            out.push((String::from_str("DeadLetterErrorDescription"), String::from_str(d)));
        },
        None => {},
    }
    assert(pairs_view(out@) =~= seq![
        (
            "DeadLetterReason"@,
            match reason {
                Some(x) => x@,
                None => default_dead_letter_reason(),
            },
        ),
    ] + match description {
        Some(d) => seq![("DeadLetterErrorDescription"@, d@)],
        None => Seq::<(Seq<char>, Seq<char>)>::empty(),
    });
    out
}

/// Whether `p` is a prefix of `s`.
pub open spec fn has_prefix(s: Seq<char>, p: Seq<char>) -> bool {
    p.len() <= s.len() && s.take(p.len() as int) == p
}

/// Whether a response header (named in lower case) carries a custom message
/// property: anything but content headers, the broker properties, the
/// location of the lock, the broker's own `x-ms-` headers, and the usual
/// transport headers.
pub open spec fn is_custom_header_spec(name: Seq<char>) -> bool {
    &&& !has_prefix(name, "content-"@)
    &&& name != "brokerproperties"@
    &&& name != "date"@
    &&& name != "server"@
    &&& name != "transfer-encoding"@
    &&& name != "strict-transport-security"@
    &&& name != "location"@
    &&& !has_prefix(name, "x-ms-"@)
}

fn starts_with(s: &Vec<char>, p: &str) -> (r: bool)
    ensures
        r == has_prefix(s@, p@),
{
    let pv = chars_of(p);
    let r = matches_at(s, &pv, 0);
    assert(r ==> s@.subrange(0, pv@.len() as int) == s@.take(pv@.len() as int));
    assert(has_prefix(s@, p@) ==> s@.subrange(0, pv@.len() as int) == s@.take(pv@.len() as int));
    r
}

fn same_text(s: &Vec<char>, p: &str) -> (r: bool)
    ensures
        r == (s@ == p@),
{
    let pv = chars_of(p);
    if s.len() != pv.len() {
        return false;
    }
    let r = matches_at(s, &pv, 0);
    assert(r ==> s@.subrange(0, pv@.len() as int) =~= s@);
    assert(s@ == p@ ==> s@.subrange(0, pv@.len() as int) =~= pv@);
    r
}

/// Whether a response header, named in lower case, carries a custom
/// message property.
pub fn is_custom_header(name: &str) -> (r: bool)
    ensures
        r == is_custom_header_spec(name@),
{
    let n = chars_of(name);
    !starts_with(&n, "content-") && !same_text(&n, "brokerproperties") && !same_text(&n, "date")
        && !same_text(&n, "server") && !same_text(&n, "transfer-encoding") && !same_text(
        &n,
        "strict-transport-security",
    ) && !same_text(&n, "location") && !starts_with(&n, "x-ms-")
}

/// Position of the first character at or after `i` that is not `"`.
pub open spec fn unquote_start(s: Seq<char>, i: int) -> int
    decreases s.len() - i,
{
    if i < 0 || i >= s.len() || s[i] != '"' {
        i
    } else {
        unquote_start(s, i + 1)
    }
}

/// Position just after the last character before `e`, not below `lo`, that
/// is not `"`.
pub open spec fn unquote_end(s: Seq<char>, lo: int, e: int) -> int
    decreases e - lo,
{
    if e <= lo || e > s.len() || s[e - 1] != '"' {
        e
    } else {
        unquote_end(s, lo, e - 1)
    }
}

/// `s` without double quotes at either end.
pub open spec fn unquoted(s: Seq<char>) -> Seq<char> {
    let lo = unquote_start(s, 0);
    s.subrange(lo, unquote_end(s, lo, s.len() as int))
}

/// A custom property's value as it came in a header: without the double
/// quotes around it.
pub fn strip_quotes(v: &str) -> (r: String)
    ensures
        r@ == unquoted(v@),
{
    let s = chars_of(v);
    let mut lo: usize = 0;
    while lo < s.len() && s[lo] == '"'
        invariant
            lo <= s@.len(),
            unquote_start(s@, 0) == unquote_start(s@, lo as int),
        decreases s@.len() - lo,
    {
        lo = lo + 1;
    }
    let mut hi: usize = s.len();
    while hi > lo && s[hi - 1] == '"'
        invariant
            lo <= hi <= s@.len(),
            unquote_end(s@, lo as int, s@.len() as int) == unquote_end(s@, lo as int, hi as int),
        decreases hi,
    {
        hi = hi - 1;
    }
    text_of(&slice(&s, lo, hi))
}

} // verus!
