//! Desktop notifications for weather alerts.
use crate::text::{chars_of, string_from_chars};
use vstd::prelude::*;
use vstd::string::*;

verus! {

/// The characters of `s` outside markup tags, scanning left to right from the
/// given tag state: `<` opens a tag, `>` closes one, and neither is kept;
/// any other character is kept only outside a tag.
pub open spec fn strip_markup_from(s: Seq<char>, inside_tag: bool) -> Seq<char>
    decreases s.len(),
{
    if s.len() == 0 {
        Seq::empty()
    } else {
        let c = s[0];
        let rest = s.drop_first();
        if c == '<' {
            strip_markup_from(rest, true)
        } else if c == '>' {
            strip_markup_from(rest, false)
        } else if !inside_tag {
            seq![c] + strip_markup_from(rest, inside_tag)
        } else {
            strip_markup_from(rest, inside_tag)
        }
    }
}

/// The characters of `s` outside markup tags.
pub open spec fn strip_markup(s: Seq<char>) -> Seq<char> {
    strip_markup_from(s, false)
}

/// Text fit for a notification: markup removed, then cut to `max_len`
/// characters with `...` appended when it is longer than that.
pub open spec fn sanitized(s: Seq<char>, max_len: nat) -> Seq<char> {
    let stripped = strip_markup(s);
    if stripped.len() > max_len {
        stripped.take(max_len as int) + "..."@
    } else {
        stripped
    }
}

/// One step of markup stripping.
proof fn lemma_strip_step(s: Seq<char>, i: int, inside: bool)
    requires
        0 <= i < s.len(),
    ensures
        strip_markup_from(s.skip(i), inside) == (if s[i] == '<' {
            strip_markup_from(s.skip(i + 1), true)
        } else if s[i] == '>' {
            strip_markup_from(s.skip(i + 1), false)
        } else if !inside {
            seq![s[i]] + strip_markup_from(s.skip(i + 1), inside)
        } else {
            strip_markup_from(s.skip(i + 1), inside)
        }),
{
    assert(s.skip(i).drop_first() =~= s.skip(i + 1));
    assert(s.skip(i)[0] == s[i]);
}

/// Strips HTML/XML tags and truncates to at most `max_len` characters,
/// appending `...` when it cuts. Alert texts from the providers can carry
/// markup that some notification daemons would render.
pub fn sanitize_notification_text(input: &str, max_len: usize) -> (r: String)
    ensures
        r@ == sanitized(input@, max_len as nat),
{
    let chars = chars_of(input);
    let mut output: Vec<char> = Vec::new();
    let mut inside_tag = false;
    let mut i: usize = 0;
    assert(chars@.skip(0) =~= chars@);
    while i < chars.len()
        invariant
            i <= chars@.len(),
            chars@ == input@,
            output@ + strip_markup_from(chars@.skip(i as int), inside_tag) == strip_markup(input@),
        decreases chars@.len() - i,
    {
        let ch = chars[i];
        proof {
            lemma_strip_step(chars@, i as int, inside_tag);
        }
        if ch == '<' {
            inside_tag = true;
        } else if ch == '>' {
            inside_tag = false;
        } else if !inside_tag {
            proof {
                assert(output@.push(ch) + strip_markup_from(chars@.skip(i + 1), inside_tag)
                    =~= output@ + (seq![ch] + strip_markup_from(chars@.skip(i + 1), inside_tag)));
            }
            output.push(ch);
        }
        i = i + 1;
    }
    assert(chars@.skip(i as int) =~= Seq::<char>::empty());
    assert(output@ =~= strip_markup(input@));
    if output.len() > max_len {
        let mut kept: Vec<char> = Vec::new();
        let mut j: usize = 0;
        while j < max_len
            invariant
                j <= max_len < output@.len(),
                kept@ == output@.take(j as int),
            decreases max_len - j,
        {
            assert(output@.take(j + 1) =~= output@.take(j as int).push(output@[j as int]));
            kept.push(output[j]);
            j = j + 1;
        }
        let mut s = string_from_chars(&kept);
        s.append("...");
        s
    } else {
        string_from_chars(&output)
    }
}

/// Stripped text holds no angle bracket.
proof fn lemma_strip_has_no_brackets(s: Seq<char>, inside: bool)
    ensures
        forall|i: int|
            0 <= i < strip_markup_from(s, inside).len() ==> #[trigger] strip_markup_from(
                s,
                inside,
            )[i] != '<' && strip_markup_from(s, inside)[i] != '>',
    decreases s.len(),
{
    if s.len() > 0 {
        let rest = s.drop_first();
        lemma_strip_has_no_brackets(rest, true);
        lemma_strip_has_no_brackets(rest, false);
        let c = s[0];
        let r = strip_markup_from(s, inside);
        if c != '<' && c != '>' && !inside {
            let tail = strip_markup_from(rest, inside);
            assert(r == seq![c] + tail);
            assert forall|i: int| 0 <= i < r.len() implies #[trigger] r[i] != '<' && r[i] != '>' by {
                if i > 0 {
                    assert(r[i] == tail[i - 1]);
                }
            }
        } else {
            let tail = if c == '<' {
                strip_markup_from(rest, true)
            } else if c == '>' {
                strip_markup_from(rest, false)
            } else {
                strip_markup_from(rest, inside)
            };
            assert(r == tail);
            assert forall|i: int| 0 <= i < r.len() implies #[trigger] r[i] != '<' && r[i] != '>' by {
                assert(r[i] == tail[i]);
            }
        }
    }
}

/// Text without angle brackets strips to itself.
proof fn lemma_strip_plain(s: Seq<char>)
    requires
        forall|i: int| 0 <= i < s.len() ==> #[trigger] s[i] != '<' && s[i] != '>',
    ensures
        strip_markup_from(s, false) == s,
    decreases s.len(),
{
    if s.len() > 0 {
        let rest = s.drop_first();
        assert forall|i: int| 0 <= i < rest.len() implies #[trigger] rest[i] != '<' && rest[i]
            != '>' by {
            assert(rest[i] == s[i + 1]);
        }
        lemma_strip_plain(rest);
        assert(seq![s[0]] + rest =~= s);
    }
}

/// Sanitized notification text never holds a tag delimiter, and is at most
/// three characters (the ellipsis) longer than the limit.
pub proof fn sanitized_is_tag_free_and_bounded(s: Seq<char>, max_len: nat)
    ensures
        forall|i: int|
            0 <= i < sanitized(s, max_len).len() ==> #[trigger] sanitized(s, max_len)[i] != '<'
                && sanitized(s, max_len)[i] != '>',
        sanitized(s, max_len).len() <= max_len + 3,
{
    reveal_strlit("...");
    lemma_strip_has_no_brackets(s, false);
    let stripped = strip_markup(s);
    if stripped.len() > max_len {
        let r = stripped.take(max_len as int) + "..."@;
        assert forall|i: int| 0 <= i < r.len() implies #[trigger] r[i] != '<' && r[i] != '>' by {
            if i < max_len {
                assert(r[i] == stripped[i]);
            }
        }
    }
}

/// Text without tag delimiters that fits the limit is passed through verbatim.
pub proof fn plain_text_within_limit_is_unchanged(s: Seq<char>, max_len: nat)
    requires
        forall|i: int| 0 <= i < s.len() ==> #[trigger] s[i] != '<' && s[i] != '>',
        s.len() <= max_len,
    ensures
        sanitized(s, max_len) == s,
{
    lemma_strip_plain(s);
}

/// Severity of a weather alert as the providers classify it.
#[derive(Debug, Clone, Copy, PartialEq, Eq, Structural)]
pub enum AlertSeverity {
    Minor,
    Moderate,
    Severe,
    Extreme,
    Unknown,
}

/// Urgency level of a desktop notification.
#[derive(Debug, Clone, Copy, PartialEq, Eq, Structural)]
pub enum Urgency {
    Low,
    Normal,
    Critical,
}

/// Extreme and severe alerts are critical, moderate ones normal, the rest low.
pub open spec fn urgency_of(severity: AlertSeverity) -> Urgency {
    match severity {
        AlertSeverity::Extreme | AlertSeverity::Severe => Urgency::Critical,
        AlertSeverity::Moderate => Urgency::Normal,
        _ => Urgency::Low,
    }
}

/// Notification urgency for an alert severity.
pub fn alert_urgency(severity: AlertSeverity) -> (r: Urgency)
    ensures
        r == urgency_of(severity),
{
    match severity {
        AlertSeverity::Extreme | AlertSeverity::Severe => Urgency::Critical,
        AlertSeverity::Moderate => Urgency::Normal,
        _ => Urgency::Low,
    }
}

/// Content of the desktop notification for one alert.
pub struct AlertNotice {
    pub summary: String,
    pub body: String,
    pub urgency: Urgency,
}

/// The notification for an alert: the event name as summary (at most 100
/// characters), the headline as body (at most 300), both stripped of markup,
/// and the urgency of its severity.
pub fn alert_notice(severity: AlertSeverity, event: &str, headline: &str) -> (r: AlertNotice)
    ensures
        r.summary@ == sanitized(event@, 100),
        r.body@ == sanitized(headline@, 300),
        r.urgency == urgency_of(severity),
{
    AlertNotice {
        summary: sanitize_notification_text(event, 100),
        body: sanitize_notification_text(headline, 300),
        urgency: alert_urgency(severity),
    }
}

} // verus!
