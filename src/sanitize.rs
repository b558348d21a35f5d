use vstd::prelude::*;

use crate::text::{chars_of, concat, text_of};

verus! {

pub const ESC: char = '\u{1b}';

pub const BEL: char = '\u{7}';

pub const REPLACEMENT: char = '\u{fffd}';

/// Whether `c` is a control character (Unicode category Cc: the C0 and C1
/// ranges and DEL), as `char::is_control` decides.
pub open spec fn is_control_char(c: char) -> bool {
    c <= '\u{1f}' || ('\u{7f}' <= c && c <= '\u{9f}')
}

/// Whether `c` ends a CSI sequence.
pub open spec fn is_csi_final(c: char) -> bool {
    '@' <= c && c <= '~'
}

/// Position just after the final byte of a CSI sequence whose parameters
/// start at `j`, or the end of `s`.
pub open spec fn csi_end(s: Seq<char>, j: int) -> int
    decreases s.len() - j,
{
    if j < 0 || j >= s.len() {
        s.len() as int
    } else if is_csi_final(s[j]) {
        j + 1
    } else {
        csi_end(s, j + 1)
    }
}

/// Position just after the terminator (BEL, or ESC `\`) of an OSC sequence
/// whose payload starts at `j`, or the end of `s`.
pub open spec fn osc_end(s: Seq<char>, j: int) -> int
    decreases s.len() - j,
{
    if j < 0 || j >= s.len() {
        s.len() as int
    } else if s[j] == BEL {
        j + 1
    } else if s[j] == ESC && j + 1 < s.len() && s[j + 1] == '\\' {
        j + 2
    } else {
        osc_end(s, j + 1)
    }
}

/// What a control character becomes: kept if it is a tab, a carriage
/// return, or a newline that is allowed; the replacement character otherwise.
pub open spec fn control_out(c: char, allow_newlines: bool) -> char {
    if (allow_newlines && c == '\n') || c == '\t' || c == '\r' {
        c
    } else {
        REPLACEMENT
    }
}

/// The display-safe form of `s` from position `i` on: CSI sequences become
/// `[CSI]`, OSC sequences `[OSC]`, any other escape (with the character after
/// it) `[ESC]`, and other control characters are kept or replaced as
/// [`control_out`] says.
pub open spec fn sanitize_from(s: Seq<char>, i: int, allow_newlines: bool) -> Seq<char>
    decreases s.len() - i,
{
    if i < 0 || i >= s.len() {
        Seq::empty()
    } else if s[i] == ESC {
        if i + 1 >= s.len() {
            "[ESC]"@
        } else if s[i + 1] == '[' {
            let e = csi_end(s, i + 2);
            if i < e <= s.len() {
                "[CSI]"@ + sanitize_from(s, e, allow_newlines)
            } else {
                Seq::empty()
            }
        } else if s[i + 1] == ']' {
            let e = osc_end(s, i + 2);
            if i < e <= s.len() {
                "[OSC]"@ + sanitize_from(s, e, allow_newlines)
            } else {
                Seq::empty()
            }
        } else {
            "[ESC]"@ + sanitize_from(s, i + 2, allow_newlines)
        }
    } else if is_control_char(s[i]) {
        seq![control_out(s[i], allow_newlines)] + sanitize_from(s, i + 1, allow_newlines)
    } else {
        seq![s[i]] + sanitize_from(s, i + 1, allow_newlines)
    }
}

fn control(c: char) -> (r: bool)
    ensures
        r == is_control_char(c),
{
    c <= '\u{1f}' || ('\u{7f}' <= c && c <= '\u{9f}')
}

fn skip_csi(s: &Vec<char>, j: usize) -> (r: usize)
    requires
        j <= s@.len(),
    ensures
        r == csi_end(s@, j as int),
        j <= r <= s@.len(),
{
    let mut k = j;
    while k < s.len()
        invariant
            j <= k <= s@.len(),
            csi_end(s@, j as int) == csi_end(s@, k as int),
        decreases s@.len() - k,
    {
        if '@' <= s[k] && s[k] <= '~' {
            return k + 1;
        }
        k = k + 1;
    }
    k
}

fn skip_osc(s: &Vec<char>, j: usize) -> (r: usize)
    requires
        j <= s@.len(),
    ensures
        r == osc_end(s@, j as int),
        j <= r <= s@.len(),
{
    let mut k = j;
    while k < s.len()
        invariant
            j <= k <= s@.len(),
            osc_end(s@, j as int) == osc_end(s@, k as int),
        decreases s@.len() - k,
    {
        if s[k] == BEL {
            return k + 1;
        }
        if s[k] == ESC && k + 1 < s.len() && s[k + 1] == '\\' {
            return k + 2;
        }
        k = k + 1;
    }
    k
}

/// Makes untrusted text safe to show on a terminal: escape sequences are
/// replaced by short placeholders, and control characters other than tab,
/// carriage return and (when allowed) newline by the replacement character.
pub fn sanitize_for_terminal(input: &str, allow_newlines: bool) -> (r: String)
    ensures
        r@ == sanitize_from(input@, 0, allow_newlines),
{
    let s = chars_of(input);
    let esc_text = chars_of("[ESC]");
    let csi_text = chars_of("[CSI]");
    let osc_text = chars_of("[OSC]");
    let mut out: Vec<char> = Vec::new();
    let mut i: usize = 0;
    while i < s.len()
        invariant
            i <= s@.len(),
            esc_text@ == "[ESC]"@,
            csi_text@ == "[CSI]"@,
            osc_text@ == "[OSC]"@,
            out@ + sanitize_from(s@, i as int, allow_newlines) == sanitize_from(
                s@,
                0,
                allow_newlines,
            ),
        decreases s@.len() - i,
    {
        let c = s[i];
        let ghost before = out@;
        if c == ESC {
            if i + 1 >= s.len() {
                out = concat(&out, &esc_text);
                i = s.len();
                assert(sanitize_from(s@, i as int, allow_newlines) == Seq::<char>::empty());
                assert(out@ + Seq::<char>::empty() == out@);
            } else if s[i + 1] == '[' {
                let e = skip_csi(&s, i + 2);
                out = concat(&out, &csi_text);
                assert(before + ("[CSI]"@ + sanitize_from(s@, e as int, allow_newlines)) == out@
                    + sanitize_from(s@, e as int, allow_newlines));
                i = e;
            } else if s[i + 1] == ']' {
                let e = skip_osc(&s, i + 2);
                out = concat(&out, &osc_text);
                assert(before + ("[OSC]"@ + sanitize_from(s@, e as int, allow_newlines)) == out@
                    + sanitize_from(s@, e as int, allow_newlines));
                i = e;
            } else {
                out = concat(&out, &esc_text);
                assert(before + ("[ESC]"@ + sanitize_from(s@, i + 2, allow_newlines)) == out@
                    + sanitize_from(s@, i + 2, allow_newlines));
                i = i + 2;
            }
        } else if control(c) {
            let kept = if (allow_newlines && c == '\n') || c == '\t' || c == '\r' {
                c
            } else {
                REPLACEMENT
            };
            out.push(kept);
            assert(before + (seq![kept] + sanitize_from(s@, i + 1, allow_newlines)) == out@
                + sanitize_from(s@, i + 1, allow_newlines));
            i = i + 1;
        } else {
            out.push(c);
            assert(before + (seq![c] + sanitize_from(s@, i + 1, allow_newlines)) == out@
                + sanitize_from(s@, i + 1, allow_newlines));
            i = i + 1;
        }
    }
    assert(sanitize_from(s@, i as int, allow_newlines) == Seq::<char>::empty());
    assert(out@ + Seq::<char>::empty() == out@);
    text_of(&out)
}

} // verus!
