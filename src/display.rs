use vstd::prelude::*;

use crate::models::EntityType;
use crate::text::{chars_of, find_from, find_spec, slice, text_of};
use crate::tree::FlatNode;

verus! {

/// The ellipsis that marks a shortened text.
pub const ELLIPSIS: char = '\u{2026}';

/// `input` with all but its last `suffix_chars` characters replaced by `*`.
pub open spec fn masked_spec(input: Seq<char>, suffix_chars: nat) -> Seq<char> {
    let keep = if suffix_chars < input.len() {
        suffix_chars as int
    } else {
        input.len() as int
    };
    Seq::new((input.len() - keep) as nat, |i: int| '*') + input.subrange(
        input.len() - keep,
        input.len() as int,
    )
}

/// Hides a secret as it is typed, showing only its last characters.
pub fn mask_secret_ascii_keep_suffix(input: &str, suffix_chars: usize) -> (r: String)
    ensures
        r@ == masked_spec(input@, suffix_chars as nat),
{
    let s = chars_of(input);
    let keep = if suffix_chars < s.len() {
        suffix_chars
    } else {
        s.len()
    };
    let cut = s.len() - keep;
    let mut out: Vec<char> = Vec::new();
    let mut i: usize = 0;
    while i < cut
        invariant
            i <= cut,
            out@ == Seq::new(i as nat, |j: int| '*'),
        decreases cut - i,
    {
        out.push('*');
        assert(out@ =~= Seq::new((i + 1) as nat, |j: int| '*'));
        i = i + 1;
    }
    let tail = slice(&s, cut, s.len());
    text_of(&crate::text::concat(&out, &tail))
}

/// `s` if it has at most `max_len` characters, else its first `max_len`
/// characters followed by an ellipsis.
pub open spec fn truncated_spec(s: Seq<char>, max_len: nat) -> Seq<char> {
    if s.len() <= max_len {
        s
    } else {
        s.take(max_len as int).push(ELLIPSIS)
    }
}

/// Shortens a text for display.
pub fn truncate(s: &str, max_len: usize) -> (r: String)
    ensures
        r@ == truncated_spec(s@, max_len as nat),
{
    let c = chars_of(s);
    if c.len() <= max_len {
        String::from_str(s)
    } else {
        let mut head = slice(&c, 0, max_len);
        head.push(ELLIPSIS);
        text_of(&head)
    }
}

/// The topic a row of the tree belongs to: for a subscription, the part of
/// its path before the first `/`; for a folder of subscriptions, the path of
/// the nearest topic row above it; nothing otherwise.
pub open spec fn parent_topic_spec(rows: Seq<FlatNode>, selected: int) -> Option<Seq<char>> {
    if selected < 0 || selected >= rows.len() {
        None
    } else if rows[selected].entity_type == EntityType::Subscription {
        let p = rows[selected].path@;
        match find_spec(p, seq!['/'], 0) {
            Some(i) => Some(p.take(i)),
            None => Some(p),
        }
    } else if rows[selected].entity_type == EntityType::SubscriptionFolder {
        topic_above(rows, selected)
    } else {
        None
    }
}

/// The path of the nearest topic row before position `end`.
pub open spec fn topic_above(rows: Seq<FlatNode>, end: int) -> Option<Seq<char>>
    decreases end,
{
    if end <= 0 || end > rows.len() {
        None
    } else if rows[end - 1].entity_type == EntityType::Topic {
        Some(rows[end - 1].path@)
    } else {
        topic_above(rows, end - 1)
    }
}

/// The topic that the selected row of the tree belongs to.
pub fn find_parent_topic(rows: &Vec<FlatNode>, selected: usize) -> (r: Option<String>)
    ensures
        crate::text::opt_view(r) == parent_topic_spec(rows@, selected as int),
{
    if selected >= rows.len() {
        return None;
    }
    let row = &rows[selected];
    if row.entity_type == EntityType::Subscription {
        let p = chars_of(row.path.as_str());
        let mut slash: Vec<char> = Vec::new();
        slash.push('/');
        assert(slash@ =~= seq!['/']);
        match find_from(&p, &slash, 0) {
            Some(i) => {
                proof {
                    crate::text::lemma_find_bounds(p@, slash@, 0);
                }
                Some(text_of(&slice(&p, 0, i)))
            },
            None => Some(row.path.clone()),
        }
    } else if row.entity_type == EntityType::SubscriptionFolder {
        let mut e = selected;
        while e > 0
            invariant
                e <= selected < rows@.len(),
                rows@[selected as int].entity_type == EntityType::SubscriptionFolder,
                topic_above(rows@, selected as int) == topic_above(rows@, e as int),
            decreases e,
        {
            if rows[e - 1].entity_type == EntityType::Topic {
                return Some(rows[e - 1].path.clone());
            }
            e = e - 1;
        }
        None
    } else {
        None
    }
}

} // verus!
