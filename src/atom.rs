use vstd::prelude::*;

use crate::error::ServiceBusError;
use crate::models::{
    QueueDescription, QueueRuntimeInfo, RuleDescription, RuleFilter, SubscriptionDescription,
    SubscriptionRuntimeInfo, TopicDescription, TopicRuntimeInfo,
};
use crate::text::{
    bool_value, chars_of, concat, decimal_text, find_from, find_spec, i32_text, i32_value,
    i64_text, i64_value, lemma_find_bounds, matches_at, opt_view, parse_bool, parse_i32, parse_i64, rfind_char,
    rfind_char_spec, slice, text_of, trim, trim_spec,
};

verus! {

/// `<` followed by `tag`: how an element opens, attributes or not.
pub open spec fn open_prefix(tag: Seq<char>) -> Seq<char> {
    seq!['<'] + tag
}

/// `<tag>`: an opening without attributes.
pub open spec fn open_exact(tag: Seq<char>) -> Seq<char> {
    seq!['<'] + tag + seq!['>']
}

/// `</tag>`.
pub open spec fn close_tag(tag: Seq<char>) -> Seq<char> {
    seq!['<', '/'] + tag + seq!['>']
}

/// The raw content of the first element named `tag` in `xml`: from the end
/// of its opening (whatever attributes it has) to the next closing of that
/// name.
pub open spec fn element_spec(xml: Seq<char>, tag: Seq<char>) -> Option<Seq<char>> {
    match find_spec(xml, open_prefix(tag), 0) {
        Some(start) => match find_spec(xml, seq!['>'], start) {
            Some(gt) => match find_spec(xml, close_tag(tag), gt + 1) {
                Some(end) => Some(xml.subrange(gt + 1, end)),
                None => None,
            },
            None => None,
        },
        None => None,
    }
}

/// The trimmed text of the first `<tag>` element (no attributes) of `xml`;
/// none when absent, unclosed or blank.
pub open spec fn element_value_spec(xml: Seq<char>, tag: Seq<char>) -> Option<Seq<char>> {
    match find_spec(xml, open_exact(tag), 0) {
        Some(start) => {
            let content = start + open_exact(tag).len();
            match find_spec(xml, close_tag(tag), content) {
                Some(end) => {
                    let v = trim_spec(xml.subrange(content, end));
                    if v.len() == 0 {
                        None
                    } else {
                        Some(v)
                    }
                },
                None => None,
            }
        },
        None => None,
    }
}

/// The value of the element whose local name is `local`, unprefixed first,
/// otherwise under the prefix of the first `:local>` found.
pub open spec fn value_any_ns_spec(xml: Seq<char>, local: Seq<char>) -> Option<Seq<char>> {
    if element_value_spec(xml, local) is Some {
        element_value_spec(xml, local)
    } else {
        let suffix = seq![':'] + local + seq!['>'];
        match find_spec(xml, suffix, 0) {
            Some(sp) => match rfind_char_spec(xml, '<', sp) {
                Some(lt) => element_value_spec(xml, xml.subrange(lt + 1, sp + suffix.len() - 1)),
                None => None,
            },
            None => None,
        }
    }
}

pub open spec fn entry_open() -> Seq<char> {
    seq!['<', 'e', 'n', 't', 'r', 'y']
}

pub open spec fn entry_close() -> Seq<char> {
    seq!['<', '/', 'e', 'n', 't', 'r', 'y', '>']
}

/// The `<entry ...>...</entry>` fragments of `xml` from position `from` on,
/// each from its opening to the first closing after it.
pub open spec fn entries_spec(xml: Seq<char>, from: int) -> Seq<Seq<char>>
    decreases xml.len() - from,
{
    match find_spec(xml, entry_open(), from) {
        Some(start) => match find_spec(xml, entry_close(), start) {
            Some(end) => if from < end + 8 <= xml.len() {
                seq![xml.subrange(start, end + 8)] + entries_spec(xml, end + 8)
            } else {
                Seq::empty()
            },
            None => Seq::empty(),
        },
        None => Seq::empty(),
    }
}

proof fn lemma_rfind_bounds(h: Seq<char>, c: char, end: int)
    ensures
        rfind_char_spec(h, c, end) matches Some(i) ==> 0 <= i < end && end <= h.len() && h[i]
            == c,
    decreases end,
{
    if end > 0 && end <= h.len() && h[end - 1] != c {
        lemma_rfind_bounds(h, c, end - 1);
    }
}

fn lit(s: &str) -> (r: Vec<char>)
    ensures
        r@ == s@,
{
    chars_of(s)
}

/// `<tag` built from a tag's characters.
fn open_prefix_of(tag: &Vec<char>) -> (r: Vec<char>)
    ensures
        r@ == open_prefix(tag@),
{
    let mut v: Vec<char> = Vec::new();
    v.push('<');
    let r = concat(&v, tag);
    assert(v@ =~= seq!['<']);
    r
}

fn open_exact_of(tag: &Vec<char>) -> (r: Vec<char>)
    ensures
        r@ == open_exact(tag@),
{
    let mut r = open_prefix_of(tag);
    r.push('>');
    r
}

fn close_tag_of(tag: &Vec<char>) -> (r: Vec<char>)
    ensures
        r@ == close_tag(tag@),
{
    let mut v: Vec<char> = Vec::new();
    v.push('<');
    v.push('/');
    let mut r = concat(&v, tag);
    r.push('>');
    assert(v@ =~= seq!['<', '/']);
    r
}

fn element_chars(xml: &Vec<char>, tag: &Vec<char>) -> (r: Option<Vec<char>>)
    ensures
        match r {
            Some(v) => element_spec(xml@, tag@) == Some(v@),
            None => element_spec(xml@, tag@) is None,
        },
{
    let n = xml.len();
    let open = open_prefix_of(tag);
    let close = close_tag_of(tag);
    let mut gt_pat: Vec<char> = Vec::new();
    gt_pat.push('>');
    assert(gt_pat@ =~= seq!['>']);
    match find_from(xml, &open, 0) {
        Some(start) => match find_from(xml, &gt_pat, start) {
            Some(gt) => {
                proof {
                    lemma_find_bounds(xml@, gt_pat@, start as int);
                }
                match find_from(xml, &close, gt + 1) {
                    Some(end) => {
                        proof {
                            lemma_find_bounds(xml@, close@, gt + 1);
                        }
                        Some(slice(xml, gt + 1, end))
                    },
                    None => None,
                }
            },
            None => None,
        },
        None => None,
    }
}

fn element_value_chars(xml: &Vec<char>, tag: &Vec<char>) -> (r: Option<Vec<char>>)
    ensures
        match r {
            Some(v) => element_value_spec(xml@, tag@) == Some(v@),
            None => element_value_spec(xml@, tag@) is None,
        },
{
    let n = xml.len();
    let open = open_exact_of(tag);
    let close = close_tag_of(tag);
    match find_from(xml, &open, 0) {
        Some(start) => {
            proof {
                lemma_find_bounds(xml@, open@, 0);
            }
            let content = start + open.len();
            match find_from(xml, &close, content) {
                Some(end) => {
                    proof {
                        lemma_find_bounds(xml@, close@, content as int);
                    }
                    let v = trim(&slice(xml, content, end));
                    if v.len() == 0 {
                        None
                    } else {
                        Some(v)
                    }
                },
                None => None,
            }
        },
        None => None,
    }
}

fn some_text(r: Option<Vec<char>>) -> (o: Option<String>)
    ensures
        opt_view(o) == match r {
            Some(v) => Some(v@),
            None => None::<Seq<char>>,
        },
{
    match r {
        Some(v) => Some(text_of(&v)),
        None => None,
    }
}

/// The raw content of the first element named `tag` in `xml`, whatever
/// attributes its opening carries.
pub fn extract_element(xml: &str, tag: &str) -> (r: Option<String>)
    ensures
        opt_view(r) == element_spec(xml@, tag@),
{
    some_text(element_chars(&chars_of(xml), &chars_of(tag)))
}

/// The trimmed text of the first `<tag>` element of `xml`, if present and
/// not blank.
pub fn extract_element_value(xml: &str, tag: &str) -> (r: Option<String>)
    ensures
        opt_view(r) == element_value_spec(xml@, tag@),
{
    some_text(element_value_chars(&chars_of(xml), &chars_of(tag)))
}

/// The value of an element found by local name, whatever namespace prefix
/// the serializer gave it.
pub fn extract_value_any_ns(xml: &str, local_name: &str) -> (r: Option<String>)
    ensures
        opt_view(r) == value_any_ns_spec(xml@, local_name@),
{
    let x = chars_of(xml);
    let local = chars_of(local_name);
    match element_value_chars(&x, &local) {
        Some(v) => return Some(text_of(&v)),
        None => {},
    }
    let mut colon: Vec<char> = Vec::new();
    colon.push(':');
    let mut suffix = concat(&colon, &local);
    suffix.push('>');
    assert(colon@ =~= seq![':']);
    assert(suffix@ =~= seq![':'] + local@ + seq!['>']);
    let n = x.len();
    match find_from(&x, &suffix, 0) {
        Some(sp) => {
            proof {
                lemma_find_bounds(x@, suffix@, 0);
            }
            match rfind_char(&x, '<', sp) {
                Some(lt) => {
                    proof {
                        lemma_rfind_bounds(x@, '<', sp as int);
                    }
                    let full = slice(&x, lt + 1, sp + suffix.len() - 1);
                    some_text(element_value_chars(&x, &full))
                },
                None => None,
            }
        },
        None => None,
    }
}

/// The `<entry>` fragments of an Atom feed, in order.
pub fn extract_entries(xml: &str) -> (r: Vec<String>)
    ensures
        r@.map_values(|s: String| s@) == entries_spec(xml@, 0),
{
    let x = chars_of(xml);
    let open = lit("<entry");
    let close = lit("</entry>");
    proof {
        reveal_strlit("<entry");
        reveal_strlit("</entry>");
        assert(open@ =~= entry_open());
        assert(close@ =~= entry_close());
        assert(close@.len() == 8);
    }
    let n = x.len();
    let mut out: Vec<String> = Vec::new();
    let mut from: usize = 0;
    while from <= x.len()
        invariant
            n == x@.len(),
            x@ == xml@,
            open@ == entry_open(),
            close@ == entry_close(),
            out@.map_values(|s: String| s@) + entries_spec(x@, from as int) == entries_spec(x@, 0),
        decreases x@.len() + 1 - from,
    {
        match find_from(&x, &open, from) {
            Some(start) => {
                proof {
                    lemma_find_bounds(x@, open@, from as int);
                }
                match find_from(&x, &close, start) {
                    Some(end) => {
                        proof {
                            lemma_find_bounds(x@, close@, start as int);
                        }
                        let stop = end + 8;
                        let piece = text_of(&slice(&x, start, stop));
                        let ghost before = out@.map_values(|s: String| s@);
                        out.push(piece);
                        assert(out@.map_values(|s: String| s@) == before.push(piece@));
                        assert(entries_spec(x@, from as int) == seq![piece@] + entries_spec(
                            x@,
                            stop as int,
                        ));
                        assert(before.push(piece@) + entries_spec(x@, stop as int) == before + (
                        seq![piece@] + entries_spec(x@, stop as int)));
                        from = stop;
                    },
                    None => {
                        assert(entries_spec(x@, from as int) == Seq::<Seq<char>>::empty());
                        assert(out@.map_values(|s: String| s@) + Seq::<Seq<char>>::empty() == out@.map_values(|s: String| s@));
                        return out;
                    },
                }
            },
            None => {
                assert(entries_spec(x@, from as int) == Seq::<Seq<char>>::empty());
                assert(out@.map_values(|s: String| s@) + Seq::<Seq<char>>::empty() == out@.map_values(|s: String| s@));
                return out;
            },
        }
    }
    proof {
        assert(find_spec(x@, entry_open(), from as int) is None);
        assert(entries_spec(x@, from as int) == Seq::<Seq<char>>::empty());
        assert(out@.map_values(|s: String| s@) + Seq::<Seq<char>>::empty() == out@.map_values(|s: String| s@));
    }
    out
}


/// The trimmed content of the entry's `title` element, or nothing.
pub open spec fn title_spec(x: Seq<char>) -> Seq<char> {
    match element_spec(x, seq!['t', 'i', 't', 'l', 'e']) {
        Some(v) => trim_spec(v),
        None => Seq::empty(),
    }
}

pub open spec fn opt_i64_spec(xml: Seq<char>, tag: Seq<char>) -> Option<i64> {
    match element_value_spec(xml, tag) {
        Some(v) => i64_value(v),
        None => None,
    }
}

pub open spec fn opt_i32_spec(xml: Seq<char>, tag: Seq<char>) -> Option<i32> {
    match element_value_spec(xml, tag) {
        Some(v) => i32_value(v),
        None => None,
    }
}

pub open spec fn opt_bool_spec(xml: Seq<char>, tag: Seq<char>) -> Option<bool> {
    match element_value_spec(xml, tag) {
        Some(v) => bool_value(v),
        None => None,
    }
}

/// The name of a feed entry: its `title`, trimmed; empty when it has none.
pub fn extract_title(entry_xml: &str) -> (r: String)
    ensures
        r@ == title_spec(entry_xml@),
{
    let tag = lit("title");
    proof {
        reveal_strlit("title");
        assert(tag@ =~= seq!['t', 'i', 't', 'l', 'e']);
    }
    match element_chars(&chars_of(entry_xml), &tag) {
        Some(v) => text_of(&trim(&v)),
        None => String::new(),
    }
}

/// The `i64` held by the element `tag`, if present and well-formed.
pub fn parse_optional_i64(xml: &str, tag: &str) -> (r: Option<i64>)
    ensures
        r == opt_i64_spec(xml@, tag@),
{
    match extract_element_value(xml, tag) {
        Some(v) => parse_i64(v.as_str()),
        None => None,
    }
}

/// The `i32` held by the element `tag`, if present and well-formed.
pub fn parse_optional_i32(xml: &str, tag: &str) -> (r: Option<i32>)
    ensures
        r == opt_i32_spec(xml@, tag@),
{
    match extract_element_value(xml, tag) {
        Some(v) => parse_i32(v.as_str()),
        None => None,
    }
}

/// The `bool` held by the element `tag`, if present and well-formed.
pub fn parse_optional_bool(xml: &str, tag: &str) -> (r: Option<bool>)
    ensures
        r == opt_bool_spec(xml@, tag@),
{
    match extract_element_value(xml, tag) {
        Some(v) => parse_bool(v.as_str()),
        None => None,
    }
}

/// A count read by local name from a `CountDetails` block; zero when absent
/// or malformed.
pub open spec fn count_spec(cd: Seq<char>, local: Seq<char>) -> i64 {
    match value_any_ns_spec(cd, local) {
        Some(v) => match i64_value(v) {
            Some(n) => n,
            None => 0,
        },
        None => 0,
    }
}

/// The `CountDetails` block of `xml`, or nothing.
pub open spec fn count_details_block(xml: Seq<char>) -> Seq<char> {
    match element_spec(xml, "CountDetails"@) {
        Some(v) => v,
        None => Seq::empty(),
    }
}

/// Active, dead-lettered, scheduled, transfer and transfer-dead-lettered
/// message counts of `xml`.
pub open spec fn count_details_spec(xml: Seq<char>) -> (i64, i64, i64, i64, i64) {
    let cd = count_details_block(xml);
    (
        count_spec(cd, "ActiveMessageCount"@),
        count_spec(cd, "DeadLetterMessageCount"@),
        count_spec(cd, "ScheduledMessageCount"@),
        count_spec(cd, "TransferMessageCount"@),
        count_spec(cd, "TransferDeadLetterMessageCount"@),
    )
}

fn count_in(cd: &str, local: &str) -> (r: i64)
    ensures
        r == count_spec(cd@, local@),
{
    match extract_value_any_ns(cd, local) {
        Some(v) => match parse_i64(v.as_str()) {
            Some(n) => n,
            None => 0,
        },
        None => 0,
    }
}

/// The message counts of an entity's `CountDetails` block, each zero when
/// absent: active, dead-lettered, scheduled, transfer, transfer
/// dead-lettered.
pub fn parse_count_details(xml: &str) -> (r: (i64, i64, i64, i64, i64))
    ensures
        r == count_details_spec(xml@),
{
    let cd = match extract_element(xml, "CountDetails") {
        Some(v) => v,
        None => String::new(),
    };
    let c = cd.as_str();
    (
        count_in(c, "ActiveMessageCount"),
        count_in(c, "DeadLetterMessageCount"),
        count_in(c, "ScheduledMessageCount"),
        count_in(c, "TransferMessageCount"),
        count_in(c, "TransferDeadLetterMessageCount"),
    )
}

/// The value of an optional count, or zero.
pub open spec fn or_zero(o: Option<i64>) -> i64 {
    match o {
        Some(v) => v,
        None => 0,
    }
}

fn value_or_zero(o: Option<i64>) -> (r: i64)
    ensures
        r == or_zero(o),
{
    match o {
        Some(v) => v,
        None => 0,
    }
}

/// Every queue of a queue feed, in order.
pub fn parse_queue_feed(xml: &str) -> (r: Result<Vec<QueueDescription>, ServiceBusError>)
    ensures
        r is Ok,
        r->Ok_0@.len() == entries_spec(xml@, 0).len(),
        forall|i: int|
            0 <= i < r->Ok_0@.len() ==> reads_queue_entry(
                entries_spec(xml@, 0)[i],
                #[trigger] r->Ok_0@[i],
            ),
{
    let entries = extract_entries(xml);
    let ghost ev = entries@.map_values(|s: String| s@);
    let mut out: Vec<QueueDescription> = Vec::new();
    let mut i: usize = 0;
    while i < entries.len()
        invariant
            ev == entries_spec(xml@, 0),
            ev == entries@.map_values(|s: String| s@),
            i <= entries@.len(),
            out@.len() == i,
            forall|j: int| 0 <= j < i ==> reads_queue_entry(ev[j], #[trigger] out@[j]),
        decreases entries@.len() - i,
    {
        out.push(parse_queue_from_entry(entries[i].as_str()));
        i = i + 1;
    }
    Ok(out)
}

/// Every queue of a queue feed with its active and dead-lettered counts.
pub fn parse_queue_feed_with_counts(xml: &str) -> (r: Result<
    Vec<(QueueDescription, i64, i64)>,
    ServiceBusError,
>)
    ensures
        r is Ok,
        r->Ok_0@.len() == entries_spec(xml@, 0).len(),
        forall|i: int|
            0 <= i < r->Ok_0@.len() ==> {
                let e = entries_spec(xml@, 0)[i];
                let t = #[trigger] r->Ok_0@[i];
                reads_queue_entry(e, t.0) && t.1 == count_details_spec(e).0 && t.2
                    == count_details_spec(e).1
            },
{
    let entries = extract_entries(xml);
    let ghost ev = entries@.map_values(|s: String| s@);
    let mut out: Vec<(QueueDescription, i64, i64)> = Vec::new();
    let mut i: usize = 0;
    while i < entries.len()
        invariant
            ev == entries_spec(xml@, 0),
            ev == entries@.map_values(|s: String| s@),
            i <= entries@.len(),
            out@.len() == i,
            forall|j: int|
                0 <= j < i ==> {
                    let t = #[trigger] out@[j];
                    reads_queue_entry(ev[j], t.0) && t.1 == count_details_spec(ev[j]).0 && t.2
                        == count_details_spec(ev[j]).1
                },
        decreases entries@.len() - i,
    {
        let e = entries[i].as_str();
        let desc = parse_queue_from_entry(e);
        let (active, dlq, _, _, _) = parse_count_details(e);
        out.push((desc, active, dlq));
        i = i + 1;
    }
    Ok(out)
}

/// The queue described by a single-entity answer.
pub fn parse_single_queue(xml: &str) -> (r: Result<QueueDescription, ServiceBusError>)
    ensures
        r is Ok && reads_queue_entry(xml@, r->Ok_0),
{
    Ok(parse_queue_from_entry(xml))
}

/// The counts and timestamps of the queue `name` from its description.
pub fn parse_queue_runtime_info(name: &str, xml: &str) -> (r: Result<
    QueueRuntimeInfo,
    ServiceBusError,
>)
    ensures
        r is Ok,
        ({
            let q = r->Ok_0;
            let c = count_details_spec(xml@);
            &&& q.name@ == name@
            &&& q.active_message_count == c.0
            &&& q.dead_letter_message_count == c.1
            &&& q.scheduled_message_count == c.2
            &&& q.transfer_message_count == c.3
            &&& q.transfer_dead_letter_message_count == c.4
            &&& q.size_in_bytes == or_zero(opt_i64_spec(xml@, "SizeInBytes"@))
            &&& opt_view(q.created_at) == element_value_spec(xml@, "CreatedAt"@)
            &&& opt_view(q.updated_at) == element_value_spec(xml@, "UpdatedAt"@)
            &&& opt_view(q.accessed_at) == element_value_spec(xml@, "AccessedAt"@)
            &&& q.message_count == or_zero(opt_i64_spec(xml@, "MessageCount"@))
        }),
{
    let (active, dlq, scheduled, transfer, transfer_dlq) = parse_count_details(xml);
    Ok(QueueRuntimeInfo {
        name: String::from_str(name),
        active_message_count: active,
        dead_letter_message_count: dlq,
        scheduled_message_count: scheduled,
        transfer_message_count: transfer,
        transfer_dead_letter_message_count: transfer_dlq,
        size_in_bytes: value_or_zero(parse_optional_i64(xml, "SizeInBytes")),
        created_at: extract_element_value(xml, "CreatedAt"),
        updated_at: extract_element_value(xml, "UpdatedAt"),
        accessed_at: extract_element_value(xml, "AccessedAt"),
        message_count: value_or_zero(parse_optional_i64(xml, "MessageCount")),
    })
}

/// Every topic of a topic feed, in order.
pub fn parse_topic_feed(xml: &str) -> (r: Result<Vec<TopicDescription>, ServiceBusError>)
    ensures
        r is Ok,
        r->Ok_0@.len() == entries_spec(xml@, 0).len(),
        forall|i: int|
            0 <= i < r->Ok_0@.len() ==> reads_topic_entry(
                entries_spec(xml@, 0)[i],
                #[trigger] r->Ok_0@[i],
            ),
{
    let entries = extract_entries(xml);
    let ghost ev = entries@.map_values(|s: String| s@);
    let mut out: Vec<TopicDescription> = Vec::new();
    let mut i: usize = 0;
    while i < entries.len()
        invariant
            ev == entries_spec(xml@, 0),
            ev == entries@.map_values(|s: String| s@),
            i <= entries@.len(),
            out@.len() == i,
            forall|j: int| 0 <= j < i ==> reads_topic_entry(ev[j], #[trigger] out@[j]),
        decreases entries@.len() - i,
    {
        out.push(parse_topic_from_entry(entries[i].as_str()));
        i = i + 1;
    }
    Ok(out)
}

/// The topic described by a single-entity answer.
pub fn parse_single_topic(xml: &str) -> (r: Result<TopicDescription, ServiceBusError>)
    ensures
        r is Ok && reads_topic_entry(xml@, r->Ok_0),
{
    Ok(parse_topic_from_entry(xml))
}

/// The counts and timestamps of the topic `name` from its description.
pub fn parse_topic_runtime_info(name: &str, xml: &str) -> (r: Result<
    TopicRuntimeInfo,
    ServiceBusError,
>)
    ensures
        r is Ok,
        ({
            let t = r->Ok_0;
            &&& t.name@ == name@
            &&& t.subscription_count == or_zero(opt_i64_spec(xml@, "SubscriptionCount"@))
            &&& t.size_in_bytes == or_zero(opt_i64_spec(xml@, "SizeInBytes"@))
            &&& opt_view(t.created_at) == element_value_spec(xml@, "CreatedAt"@)
            &&& opt_view(t.updated_at) == element_value_spec(xml@, "UpdatedAt"@)
            &&& opt_view(t.accessed_at) == element_value_spec(xml@, "AccessedAt"@)
            &&& t.scheduled_message_count == count_details_spec(xml@).2
        }),
{
    let (_, _, scheduled, _, _) = parse_count_details(xml);
    Ok(TopicRuntimeInfo {
        name: String::from_str(name),
        subscription_count: value_or_zero(parse_optional_i64(xml, "SubscriptionCount")),
        size_in_bytes: value_or_zero(parse_optional_i64(xml, "SizeInBytes")),
        created_at: extract_element_value(xml, "CreatedAt"),
        updated_at: extract_element_value(xml, "UpdatedAt"),
        accessed_at: extract_element_value(xml, "AccessedAt"),
        scheduled_message_count: scheduled,
    })
}

/// Every subscription of a subscription feed of `topic_name`, in order.
pub fn parse_subscription_feed(topic_name: &str, xml: &str) -> (r: Result<
    Vec<SubscriptionDescription>,
    ServiceBusError,
>)
    ensures
        r is Ok,
        r->Ok_0@.len() == entries_spec(xml@, 0).len(),
        forall|i: int|
            0 <= i < r->Ok_0@.len() ==> reads_subscription_entry(
                topic_name@,
                entries_spec(xml@, 0)[i],
                #[trigger] r->Ok_0@[i],
            ),
{
    let entries = extract_entries(xml);
    let ghost ev = entries@.map_values(|s: String| s@);
    let mut out: Vec<SubscriptionDescription> = Vec::new();
    let mut i: usize = 0;
    while i < entries.len()
        invariant
            ev == entries_spec(xml@, 0),
            ev == entries@.map_values(|s: String| s@),
            i <= entries@.len(),
            out@.len() == i,
            forall|j: int|
                0 <= j < i ==> reads_subscription_entry(topic_name@, ev[j], #[trigger] out@[j]),
        decreases entries@.len() - i,
    {
        out.push(parse_subscription_from_entry(topic_name, entries[i].as_str()));
        i = i + 1;
    }
    Ok(out)
}

/// Every subscription of a feed with its active and dead-lettered counts.
pub fn parse_subscription_feed_with_counts(topic_name: &str, xml: &str) -> (r: Result<
    Vec<(SubscriptionDescription, i64, i64)>,
    ServiceBusError,
>)
    ensures
        r is Ok,
        r->Ok_0@.len() == entries_spec(xml@, 0).len(),
        forall|i: int|
            0 <= i < r->Ok_0@.len() ==> {
                let e = entries_spec(xml@, 0)[i];
                let t = #[trigger] r->Ok_0@[i];
                reads_subscription_entry(topic_name@, e, t.0) && t.1 == count_details_spec(e).0
                    && t.2 == count_details_spec(e).1
            },
{
    let entries = extract_entries(xml);
    let ghost ev = entries@.map_values(|s: String| s@);
    let mut out: Vec<(SubscriptionDescription, i64, i64)> = Vec::new();
    let mut i: usize = 0;
    while i < entries.len()
        invariant
            ev == entries_spec(xml@, 0),
            ev == entries@.map_values(|s: String| s@),
            i <= entries@.len(),
            out@.len() == i,
            forall|j: int|
                0 <= j < i ==> {
                    let t = #[trigger] out@[j];
                    reads_subscription_entry(topic_name@, ev[j], t.0) && t.1 == count_details_spec(
                        ev[j],
                    ).0 && t.2 == count_details_spec(ev[j]).1
                },
        decreases entries@.len() - i,
    {
        let e = entries[i].as_str();
        let desc = parse_subscription_from_entry(topic_name, e);
        let (active, dlq, _, _, _) = parse_count_details(e);
        out.push((desc, active, dlq));
        i = i + 1;
    }
    Ok(out)
}

/// The subscription described by a single-entity answer; its name is
/// `sub_name` when the answer carries none.
pub fn parse_single_subscription(topic_name: &str, sub_name: &str, xml: &str) -> (r: Result<
    SubscriptionDescription,
    ServiceBusError,
>)
    ensures
        r is Ok,
        title_spec(xml@).len() > 0 ==> reads_subscription_entry(topic_name@, xml@, r->Ok_0),
        title_spec(xml@).len() == 0 ==> r->Ok_0.name@ == sub_name@ && reads_subscription_fields(
            topic_name@,
            xml@,
            r->Ok_0,
        ),
{
    let mut desc = parse_subscription_from_entry(topic_name, xml);
    if desc.name.as_str().unicode_len() == 0 {
        desc.name = String::from_str(sub_name);
    }
    Ok(desc)
}

/// The counts and timestamps of the subscription `sub_name` of `topic_name`.
pub fn parse_subscription_runtime_info(topic_name: &str, sub_name: &str, xml: &str) -> (r: Result<
    SubscriptionRuntimeInfo,
    ServiceBusError,
>)
    ensures
        r is Ok,
        ({
            let s = r->Ok_0;
            let c = count_details_spec(xml@);
            &&& s.name@ == sub_name@
            &&& s.topic_name@ == topic_name@
            &&& s.active_message_count == c.0
            &&& s.dead_letter_message_count == c.1
            &&& s.transfer_message_count == c.3
            &&& s.transfer_dead_letter_message_count == c.4
            &&& s.message_count == or_zero(opt_i64_spec(xml@, "MessageCount"@))
            &&& opt_view(s.created_at) == element_value_spec(xml@, "CreatedAt"@)
            &&& opt_view(s.updated_at) == element_value_spec(xml@, "UpdatedAt"@)
            &&& opt_view(s.accessed_at) == element_value_spec(xml@, "AccessedAt"@)
        }),
{
    let (active, dlq, _, transfer, transfer_dlq) = parse_count_details(xml);
    Ok(SubscriptionRuntimeInfo {
        name: String::from_str(sub_name),
        topic_name: String::from_str(topic_name),
        active_message_count: active,
        dead_letter_message_count: dlq,
        transfer_message_count: transfer,
        transfer_dead_letter_message_count: transfer_dlq,
        message_count: value_or_zero(parse_optional_i64(xml, "MessageCount")),
        created_at: extract_element_value(xml, "CreatedAt"),
        updated_at: extract_element_value(xml, "UpdatedAt"),
        accessed_at: extract_element_value(xml, "AccessedAt"),
    })
}

/// The SQL expression that accepts every message.
pub open spec fn match_all_sql() -> Seq<char> {
    seq!['1', '=', '1']
}

/// Whether `r` is the rule that the feed entry `e` describes: its title as
/// name; a SQL filter from the first `SqlExpression`, the always-true one
/// (`1=1`) or none read as the true filter; the action's expression, if any.
pub open spec fn reads_rule_entry(e: Seq<char>, r: RuleDescription) -> bool {
    &&& r.name@ == title_spec(e)
    &&& match element_value_spec(e, "SqlExpression"@) {
        Some(sql) => if sql == match_all_sql() {
            r.filter is TrueFilter
        } else {
            r.filter is SqlFilter && r.filter->SqlFilter_expression@ == sql
        },
        None => r.filter is TrueFilter,
    }
    &&& opt_view(r.action) == match element_spec(e, "Action"@) {
        Some(a) => element_value_spec(a, "SqlExpression"@),
        None => None,
    }
}

fn same_chars(a: &Vec<char>, b: &Vec<char>) -> (r: bool)
    ensures
        r == (a@ == b@),
{
    if a.len() != b.len() {
        return false;
    }
    let r = matches_at(a, b, 0);
    assert(r ==> a@.subrange(0, b@.len() as int) == a@);
    assert(a@ == b@ ==> a@.subrange(0, b@.len() as int) =~= b@);
    r
}

fn parse_rule_entry(e: &str) -> (r: RuleDescription)
    ensures
        reads_rule_entry(e@, r),
{
    let name = extract_title(e);
    let all = lit("1=1");
    proof {
        reveal_strlit("1=1");
        assert(all@ =~= match_all_sql());
    }
    let filter = match extract_element_value(e, "SqlExpression") {
        Some(sql) => {
            if same_chars(&chars_of(sql.as_str()), &all) {
                RuleFilter::TrueFilter
            } else {
                RuleFilter::SqlFilter { expression: sql }
            }
        },
        None => RuleFilter::TrueFilter,
    };
    let action = match extract_element(e, "Action") {
        Some(a) => extract_element_value(a.as_str(), "SqlExpression"),
        None => None,
    };
    RuleDescription { name, filter, action }
}

/// Every rule of a rule feed, in order.
pub fn parse_rule_feed(xml: &str) -> (r: Result<Vec<RuleDescription>, ServiceBusError>)
    ensures
        r is Ok,
        r->Ok_0@.len() == entries_spec(xml@, 0).len(),
        forall|i: int|
            0 <= i < r->Ok_0@.len() ==> reads_rule_entry(
                entries_spec(xml@, 0)[i],
                #[trigger] r->Ok_0@[i],
            ),
{
    let entries = extract_entries(xml);
    let ghost ev = entries@.map_values(|s: String| s@);
    let mut out: Vec<RuleDescription> = Vec::new();
    let mut i: usize = 0;
    while i < entries.len()
        invariant
            ev == entries_spec(xml@, 0),
            ev == entries@.map_values(|s: String| s@),
            i <= entries@.len(),
            out@.len() == i,
            forall|j: int| 0 <= j < i ==> reads_rule_entry(ev[j], #[trigger] out@[j]),
        decreases entries@.len() - i,
    {
        out.push(parse_rule_entry(entries[i].as_str()));
        i = i + 1;
    }
    Ok(out)
}

pub open spec fn piece_text(o: Option<String>, open: Seq<char>, close: Seq<char>) -> Seq<char> {
    match o {
        Some(v) => open + v@ + close,
        None => Seq::empty(),
    }
}

pub open spec fn piece_i64(o: Option<i64>, open: Seq<char>, close: Seq<char>) -> Seq<char> {
    match o {
        Some(v) => open + decimal_text(v as int) + close,
        None => Seq::empty(),
    }
}

pub open spec fn piece_i32(o: Option<i32>, open: Seq<char>, close: Seq<char>) -> Seq<char> {
    match o {
        Some(v) => open + decimal_text(v as int) + close,
        None => Seq::empty(),
    }
}

pub open spec fn piece_bool(o: Option<bool>, open: Seq<char>, close: Seq<char>) -> Seq<char> {
    match o {
        Some(v) => open + (if v {
            "true"@
        } else {
            "false"@
        }) + close,
        None => Seq::empty(),
    }
}

fn push_piece(xml: &mut Vec<char>, open: &str, value: &Vec<char>, close: &str)
    ensures
        final(xml)@ == old(xml)@ + (open@ + value@ + close@),
{
    let a = concat(xml, &lit(open));
    let b = concat(&a, value);
    let c = concat(&b, &lit(close));
    *xml = c;
    assert(old(xml)@ + open@ + value@ + close@ =~= old(xml)@ + (open@ + value@ + close@));
}

fn push_text(xml: &mut Vec<char>, o: &Option<String>, open: &str, close: &str)
    ensures
        final(xml)@ == old(xml)@ + piece_text(*o, open@, close@),
{
    match o {
        Some(v) => push_piece(xml, open, &chars_of(v.as_str()), close),
        None => {
            assert(old(xml)@ + Seq::<char>::empty() =~= old(xml)@);
        },
    }
}

fn push_i64(xml: &mut Vec<char>, o: &Option<i64>, open: &str, close: &str)
    ensures
        final(xml)@ == old(xml)@ + piece_i64(*o, open@, close@),
{
    match o {
        Some(v) => push_piece(xml, open, &chars_of(i64_text(*v).as_str()), close),
        None => {
            assert(old(xml)@ + Seq::<char>::empty() =~= old(xml)@);
        },
    }
}

fn push_i32(xml: &mut Vec<char>, o: &Option<i32>, open: &str, close: &str)
    ensures
        final(xml)@ == old(xml)@ + piece_i32(*o, open@, close@),
{
    match o {
        Some(v) => push_piece(xml, open, &chars_of(i32_text(*v).as_str()), close),
        None => {
            assert(old(xml)@ + Seq::<char>::empty() =~= old(xml)@);
        },
    }
}

fn push_bool(xml: &mut Vec<char>, o: &Option<bool>, open: &str, close: &str)
    ensures
        final(xml)@ == old(xml)@ + piece_bool(*o, open@, close@),
{
    match o {
        Some(v) => {
            let t = if *v {
                lit("true")
            } else {
                lit("false")
            };
            push_piece(xml, open, &t, close)
        },
        None => {
            assert(old(xml)@ + Seq::<char>::empty() =~= old(xml)@);
        },
    }
}

/// Wraps an entity description in the Atom entry the management API takes.
pub fn wrap_atom_entry(inner_xml: &str) -> (r: String)
    ensures
        r@ == "<entry xmlns=\"http://www.w3.org/2005/Atom\">\n  <content type=\"application/xml\">\n    "@
            + inner_xml@ + "\n  </content>\n</entry>"@,
{
    let head = lit("<entry xmlns=\"http://www.w3.org/2005/Atom\">\n  <content type=\"application/xml\">\n    ");
    let tail = lit("\n  </content>\n</entry>");
    text_of(&concat(&concat(&head, &chars_of(inner_xml)), &tail))
}


/// Whether `d` is what a queue description reads from the entry `x`.
pub open spec fn reads_queue_entry(x: Seq<char>, d: QueueDescription) -> bool {
    &&& d.name@ == title_spec(x)
    &&& opt_view(d.lock_duration) == element_value_spec(x, "LockDuration"@)
    &&& d.max_size_in_megabytes == opt_i64_spec(x, "MaxSizeInMegabytes"@)
    &&& d.requires_duplicate_detection == opt_bool_spec(x, "RequiresDuplicateDetection"@)
    &&& d.requires_session == opt_bool_spec(x, "RequiresSession"@)
    &&& opt_view(d.default_message_time_to_live) == element_value_spec(x, "DefaultMessageTimeToLive"@)
    &&& d.dead_lettering_on_message_expiration == opt_bool_spec(x, "DeadLetteringOnMessageExpiration"@)
    &&& opt_view(d.duplicate_detection_history_time_window) == element_value_spec(x, "DuplicateDetectionHistoryTimeWindow"@)
    &&& d.max_delivery_count == opt_i32_spec(x, "MaxDeliveryCount"@)
    &&& d.enable_batched_operations == opt_bool_spec(x, "EnableBatchedOperations"@)
    &&& opt_view(d.status) == element_value_spec(x, "Status"@)
    &&& opt_view(d.forward_to) == element_value_spec(x, "ForwardTo"@)
    &&& opt_view(d.forward_dead_lettered_messages_to) == element_value_spec(x, "ForwardDeadLetteredMessagesTo"@)
    &&& opt_view(d.auto_delete_on_idle) == element_value_spec(x, "AutoDeleteOnIdle"@)
    &&& d.enable_partitioning == opt_bool_spec(x, "EnablePartitioning"@)
    &&& opt_view(d.user_metadata) == element_value_spec(x, "UserMetadata"@)
}

/// Reads a queue description from one feed entry.
pub fn parse_queue_from_entry(entry_xml: &str) -> (r: QueueDescription)
    ensures
        reads_queue_entry(entry_xml@, r),
{
    QueueDescription {
        name: extract_title(entry_xml),
        lock_duration: extract_element_value(entry_xml, "LockDuration"),
        max_size_in_megabytes: parse_optional_i64(entry_xml, "MaxSizeInMegabytes"),
        requires_duplicate_detection: parse_optional_bool(entry_xml, "RequiresDuplicateDetection"),
        requires_session: parse_optional_bool(entry_xml, "RequiresSession"),
        default_message_time_to_live: extract_element_value(entry_xml, "DefaultMessageTimeToLive"),
        dead_lettering_on_message_expiration: parse_optional_bool(entry_xml, "DeadLetteringOnMessageExpiration"),
        duplicate_detection_history_time_window: extract_element_value(entry_xml, "DuplicateDetectionHistoryTimeWindow"),
        max_delivery_count: parse_optional_i32(entry_xml, "MaxDeliveryCount"),
        enable_batched_operations: parse_optional_bool(entry_xml, "EnableBatchedOperations"),
        status: extract_element_value(entry_xml, "Status"),
        forward_to: extract_element_value(entry_xml, "ForwardTo"),
        forward_dead_lettered_messages_to: extract_element_value(entry_xml, "ForwardDeadLetteredMessagesTo"),
        auto_delete_on_idle: extract_element_value(entry_xml, "AutoDeleteOnIdle"),
        enable_partitioning: parse_optional_bool(entry_xml, "EnablePartitioning"),
        user_metadata: extract_element_value(entry_xml, "UserMetadata"),
    }
}

/// Whether `d` is what a topic description reads from the entry `x`.
pub open spec fn reads_topic_entry(x: Seq<char>, d: TopicDescription) -> bool {
    &&& d.name@ == title_spec(x)
    &&& d.max_size_in_megabytes == opt_i64_spec(x, "MaxSizeInMegabytes"@)
    &&& opt_view(d.default_message_time_to_live) == element_value_spec(x, "DefaultMessageTimeToLive"@)
    &&& d.requires_duplicate_detection == opt_bool_spec(x, "RequiresDuplicateDetection"@)
    &&& opt_view(d.duplicate_detection_history_time_window) == element_value_spec(x, "DuplicateDetectionHistoryTimeWindow"@)
    &&& d.enable_batched_operations == opt_bool_spec(x, "EnableBatchedOperations"@)
    &&& opt_view(d.status) == element_value_spec(x, "Status"@)
    &&& d.support_ordering == opt_bool_spec(x, "SupportOrdering"@)
    &&& opt_view(d.auto_delete_on_idle) == element_value_spec(x, "AutoDeleteOnIdle"@)
    &&& d.enable_partitioning == opt_bool_spec(x, "EnablePartitioning"@)
    &&& opt_view(d.user_metadata) == element_value_spec(x, "UserMetadata"@)
}

/// Reads a topic description from one feed entry.
pub fn parse_topic_from_entry(entry_xml: &str) -> (r: TopicDescription)
    ensures
        reads_topic_entry(entry_xml@, r),
{
    TopicDescription {
        name: extract_title(entry_xml),
        max_size_in_megabytes: parse_optional_i64(entry_xml, "MaxSizeInMegabytes"),
        default_message_time_to_live: extract_element_value(entry_xml, "DefaultMessageTimeToLive"),
        requires_duplicate_detection: parse_optional_bool(entry_xml, "RequiresDuplicateDetection"),
        duplicate_detection_history_time_window: extract_element_value(entry_xml, "DuplicateDetectionHistoryTimeWindow"),
        enable_batched_operations: parse_optional_bool(entry_xml, "EnableBatchedOperations"),
        status: extract_element_value(entry_xml, "Status"),
        support_ordering: parse_optional_bool(entry_xml, "SupportOrdering"),
        auto_delete_on_idle: extract_element_value(entry_xml, "AutoDeleteOnIdle"),
        enable_partitioning: parse_optional_bool(entry_xml, "EnablePartitioning"),
        user_metadata: extract_element_value(entry_xml, "UserMetadata"),
    }
}

/// Whether `d` is what a subscription description reads from the entry `x`.
pub open spec fn reads_subscription_entry(topic_name: Seq<char>, x: Seq<char>, d: SubscriptionDescription) -> bool {
    &&& d.name@ == title_spec(x)
    &&& reads_subscription_fields(topic_name, x, d)
}

/// Whether `d`, its name aside, is what a subscription description reads
/// from the entry `x`.
pub open spec fn reads_subscription_fields(topic_name: Seq<char>, x: Seq<char>, d: SubscriptionDescription) -> bool {
    &&& d.topic_name@ == topic_name
    &&& opt_view(d.lock_duration) == element_value_spec(x, "LockDuration"@)
    &&& d.requires_session == opt_bool_spec(x, "RequiresSession"@)
    &&& opt_view(d.default_message_time_to_live) == element_value_spec(x, "DefaultMessageTimeToLive"@)
    &&& d.dead_lettering_on_message_expiration == opt_bool_spec(x, "DeadLetteringOnMessageExpiration"@)
    &&& d.dead_lettering_on_filter_evaluation_exceptions == opt_bool_spec(x, "DeadLetteringOnFilterEvaluationExceptions"@)
    &&& d.max_delivery_count == opt_i32_spec(x, "MaxDeliveryCount"@)
    &&& d.enable_batched_operations == opt_bool_spec(x, "EnableBatchedOperations"@)
    &&& opt_view(d.status) == element_value_spec(x, "Status"@)
    &&& opt_view(d.forward_to) == element_value_spec(x, "ForwardTo"@)
    &&& opt_view(d.forward_dead_lettered_messages_to) == element_value_spec(x, "ForwardDeadLetteredMessagesTo"@)
    &&& opt_view(d.auto_delete_on_idle) == element_value_spec(x, "AutoDeleteOnIdle"@)
    &&& opt_view(d.user_metadata) == element_value_spec(x, "UserMetadata"@)
}

/// Reads a subscription description from one feed entry.
pub fn parse_subscription_from_entry(topic_name: &str, entry_xml: &str) -> (r: SubscriptionDescription)
    ensures
        reads_subscription_entry(topic_name@, entry_xml@, r),
{
    SubscriptionDescription {
        name: extract_title(entry_xml),
        topic_name: String::from_str(topic_name),
        lock_duration: extract_element_value(entry_xml, "LockDuration"),
        requires_session: parse_optional_bool(entry_xml, "RequiresSession"),
        default_message_time_to_live: extract_element_value(entry_xml, "DefaultMessageTimeToLive"),
        dead_lettering_on_message_expiration: parse_optional_bool(entry_xml, "DeadLetteringOnMessageExpiration"),
        dead_lettering_on_filter_evaluation_exceptions: parse_optional_bool(entry_xml, "DeadLetteringOnFilterEvaluationExceptions"),
        max_delivery_count: parse_optional_i32(entry_xml, "MaxDeliveryCount"),
        enable_batched_operations: parse_optional_bool(entry_xml, "EnableBatchedOperations"),
        status: extract_element_value(entry_xml, "Status"),
        forward_to: extract_element_value(entry_xml, "ForwardTo"),
        forward_dead_lettered_messages_to: extract_element_value(entry_xml, "ForwardDeadLetteredMessagesTo"),
        auto_delete_on_idle: extract_element_value(entry_xml, "AutoDeleteOnIdle"),
        user_metadata: extract_element_value(entry_xml, "UserMetadata"),
    }
}

/// The XML body that describes `d` to the management API: each setting
/// that is present, as one element, in a fixed order.
pub open spec fn queue_xml_spec(d: QueueDescription) -> Seq<char> {
    "<QueueDescription xmlns=\"http://schemas.microsoft.com/netservices/2010/10/servicebus/connect\" xmlns:i=\"http://www.w3.org/2001/XMLSchema-instance\">"@
        + piece_text(d.lock_duration, "<LockDuration>"@, "</LockDuration>"@)
        + piece_i64(d.max_size_in_megabytes, "<MaxSizeInMegabytes>"@, "</MaxSizeInMegabytes>"@)
        + piece_bool(d.requires_duplicate_detection, "<RequiresDuplicateDetection>"@, "</RequiresDuplicateDetection>"@)
        + piece_bool(d.requires_session, "<RequiresSession>"@, "</RequiresSession>"@)
        + piece_text(d.default_message_time_to_live, "<DefaultMessageTimeToLive>"@, "</DefaultMessageTimeToLive>"@)
        + piece_bool(d.dead_lettering_on_message_expiration, "<DeadLetteringOnMessageExpiration>"@, "</DeadLetteringOnMessageExpiration>"@)
        + piece_text(d.duplicate_detection_history_time_window, "<DuplicateDetectionHistoryTimeWindow>"@, "</DuplicateDetectionHistoryTimeWindow>"@)
        + piece_i32(d.max_delivery_count, "<MaxDeliveryCount>"@, "</MaxDeliveryCount>"@)
        + piece_bool(d.enable_batched_operations, "<EnableBatchedOperations>"@, "</EnableBatchedOperations>"@)
        + piece_text(d.status, "<Status>"@, "</Status>"@)
        + piece_text(d.forward_to, "<ForwardTo>"@, "</ForwardTo>"@)
        + piece_text(d.forward_dead_lettered_messages_to, "<ForwardDeadLetteredMessagesTo>"@, "</ForwardDeadLetteredMessagesTo>"@)
        + piece_text(d.auto_delete_on_idle, "<AutoDeleteOnIdle>"@, "</AutoDeleteOnIdle>"@)
        + piece_bool(d.enable_partitioning, "<EnablePartitioning>"@, "</EnablePartitioning>"@)
        + "</QueueDescription>"@
}

/// The XML body that describes a queue to the management API.
pub fn queue_description_xml(desc: &QueueDescription) -> (r: String)
    ensures
        r@ == queue_xml_spec(*desc),
{
    let mut xml = lit("<QueueDescription xmlns=\"http://schemas.microsoft.com/netservices/2010/10/servicebus/connect\" xmlns:i=\"http://www.w3.org/2001/XMLSchema-instance\">");
    push_text(&mut xml, &desc.lock_duration, "<LockDuration>", "</LockDuration>");
    push_i64(&mut xml, &desc.max_size_in_megabytes, "<MaxSizeInMegabytes>", "</MaxSizeInMegabytes>");
    push_bool(&mut xml, &desc.requires_duplicate_detection, "<RequiresDuplicateDetection>", "</RequiresDuplicateDetection>");
    push_bool(&mut xml, &desc.requires_session, "<RequiresSession>", "</RequiresSession>");
    push_text(&mut xml, &desc.default_message_time_to_live, "<DefaultMessageTimeToLive>", "</DefaultMessageTimeToLive>");
    push_bool(&mut xml, &desc.dead_lettering_on_message_expiration, "<DeadLetteringOnMessageExpiration>", "</DeadLetteringOnMessageExpiration>");
    push_text(&mut xml, &desc.duplicate_detection_history_time_window, "<DuplicateDetectionHistoryTimeWindow>", "</DuplicateDetectionHistoryTimeWindow>");
    push_i32(&mut xml, &desc.max_delivery_count, "<MaxDeliveryCount>", "</MaxDeliveryCount>");
    push_bool(&mut xml, &desc.enable_batched_operations, "<EnableBatchedOperations>", "</EnableBatchedOperations>");
    push_text(&mut xml, &desc.status, "<Status>", "</Status>");
    push_text(&mut xml, &desc.forward_to, "<ForwardTo>", "</ForwardTo>");
    push_text(&mut xml, &desc.forward_dead_lettered_messages_to, "<ForwardDeadLetteredMessagesTo>", "</ForwardDeadLetteredMessagesTo>");
    push_text(&mut xml, &desc.auto_delete_on_idle, "<AutoDeleteOnIdle>", "</AutoDeleteOnIdle>");
    push_bool(&mut xml, &desc.enable_partitioning, "<EnablePartitioning>", "</EnablePartitioning>");
    let close = lit("</QueueDescription>");
    text_of(&concat(&xml, &close))
}

/// The XML body that describes `d` to the management API: each setting
/// that is present, as one element, in a fixed order.
pub open spec fn topic_xml_spec(d: TopicDescription) -> Seq<char> {
    "<TopicDescription xmlns=\"http://schemas.microsoft.com/netservices/2010/10/servicebus/connect\" xmlns:i=\"http://www.w3.org/2001/XMLSchema-instance\">"@
        + piece_i64(d.max_size_in_megabytes, "<MaxSizeInMegabytes>"@, "</MaxSizeInMegabytes>"@)
        + piece_text(d.default_message_time_to_live, "<DefaultMessageTimeToLive>"@, "</DefaultMessageTimeToLive>"@)
        + piece_bool(d.requires_duplicate_detection, "<RequiresDuplicateDetection>"@, "</RequiresDuplicateDetection>"@)
        + piece_bool(d.enable_batched_operations, "<EnableBatchedOperations>"@, "</EnableBatchedOperations>"@)
        + piece_text(d.status, "<Status>"@, "</Status>"@)
        + piece_bool(d.support_ordering, "<SupportOrdering>"@, "</SupportOrdering>"@)
        + piece_text(d.auto_delete_on_idle, "<AutoDeleteOnIdle>"@, "</AutoDeleteOnIdle>"@)
        + piece_bool(d.enable_partitioning, "<EnablePartitioning>"@, "</EnablePartitioning>"@)
        + "</TopicDescription>"@
}

/// The XML body that describes a topic to the management API.
pub fn topic_description_xml(desc: &TopicDescription) -> (r: String)
    ensures
        r@ == topic_xml_spec(*desc),
{
    let mut xml = lit("<TopicDescription xmlns=\"http://schemas.microsoft.com/netservices/2010/10/servicebus/connect\" xmlns:i=\"http://www.w3.org/2001/XMLSchema-instance\">");
    push_i64(&mut xml, &desc.max_size_in_megabytes, "<MaxSizeInMegabytes>", "</MaxSizeInMegabytes>");
    push_text(&mut xml, &desc.default_message_time_to_live, "<DefaultMessageTimeToLive>", "</DefaultMessageTimeToLive>");
    push_bool(&mut xml, &desc.requires_duplicate_detection, "<RequiresDuplicateDetection>", "</RequiresDuplicateDetection>");
    push_bool(&mut xml, &desc.enable_batched_operations, "<EnableBatchedOperations>", "</EnableBatchedOperations>");
    push_text(&mut xml, &desc.status, "<Status>", "</Status>");
    push_bool(&mut xml, &desc.support_ordering, "<SupportOrdering>", "</SupportOrdering>");
    push_text(&mut xml, &desc.auto_delete_on_idle, "<AutoDeleteOnIdle>", "</AutoDeleteOnIdle>");
    push_bool(&mut xml, &desc.enable_partitioning, "<EnablePartitioning>", "</EnablePartitioning>");
    let close = lit("</TopicDescription>");
    text_of(&concat(&xml, &close))
}

/// The XML body that describes `d` to the management API: each setting
/// that is present, as one element, in a fixed order.
pub open spec fn subscription_xml_spec(d: SubscriptionDescription) -> Seq<char> {
    "<SubscriptionDescription xmlns=\"http://schemas.microsoft.com/netservices/2010/10/servicebus/connect\" xmlns:i=\"http://www.w3.org/2001/XMLSchema-instance\">"@
        + piece_text(d.lock_duration, "<LockDuration>"@, "</LockDuration>"@)
        + piece_bool(d.requires_session, "<RequiresSession>"@, "</RequiresSession>"@)
        + piece_text(d.default_message_time_to_live, "<DefaultMessageTimeToLive>"@, "</DefaultMessageTimeToLive>"@)
        + piece_bool(d.dead_lettering_on_message_expiration, "<DeadLetteringOnMessageExpiration>"@, "</DeadLetteringOnMessageExpiration>"@)
        + piece_i32(d.max_delivery_count, "<MaxDeliveryCount>"@, "</MaxDeliveryCount>"@)
        + piece_bool(d.enable_batched_operations, "<EnableBatchedOperations>"@, "</EnableBatchedOperations>"@)
        + piece_text(d.status, "<Status>"@, "</Status>"@)
        + piece_text(d.forward_to, "<ForwardTo>"@, "</ForwardTo>"@)
        + piece_text(d.forward_dead_lettered_messages_to, "<ForwardDeadLetteredMessagesTo>"@, "</ForwardDeadLetteredMessagesTo>"@)
        + piece_text(d.auto_delete_on_idle, "<AutoDeleteOnIdle>"@, "</AutoDeleteOnIdle>"@)
        + "</SubscriptionDescription>"@
}

/// The XML body that describes a subscription to the management API.
pub fn subscription_description_xml(desc: &SubscriptionDescription) -> (r: String)
    ensures
        r@ == subscription_xml_spec(*desc),
{
    let mut xml = lit("<SubscriptionDescription xmlns=\"http://schemas.microsoft.com/netservices/2010/10/servicebus/connect\" xmlns:i=\"http://www.w3.org/2001/XMLSchema-instance\">");
    push_text(&mut xml, &desc.lock_duration, "<LockDuration>", "</LockDuration>");
    push_bool(&mut xml, &desc.requires_session, "<RequiresSession>", "</RequiresSession>");
    push_text(&mut xml, &desc.default_message_time_to_live, "<DefaultMessageTimeToLive>", "</DefaultMessageTimeToLive>");
    push_bool(&mut xml, &desc.dead_lettering_on_message_expiration, "<DeadLetteringOnMessageExpiration>", "</DeadLetteringOnMessageExpiration>");
    push_i32(&mut xml, &desc.max_delivery_count, "<MaxDeliveryCount>", "</MaxDeliveryCount>");
    push_bool(&mut xml, &desc.enable_batched_operations, "<EnableBatchedOperations>", "</EnableBatchedOperations>");
    push_text(&mut xml, &desc.status, "<Status>", "</Status>");
    push_text(&mut xml, &desc.forward_to, "<ForwardTo>", "</ForwardTo>");
    push_text(&mut xml, &desc.forward_dead_lettered_messages_to, "<ForwardDeadLetteredMessagesTo>", "</ForwardDeadLetteredMessagesTo>");
    push_text(&mut xml, &desc.auto_delete_on_idle, "<AutoDeleteOnIdle>", "</AutoDeleteOnIdle>");
    let close = lit("</SubscriptionDescription>");
    text_of(&concat(&xml, &close))
}

} // verus!
