//! The silence record model and its renderer: one record becomes the text
//! of one message section, with status, formatted time window, creator,
//! matchers and a bounded comment preview.

use vstd::prelude::*;
use vstd::string::StrSliceExecFns;
use vstd::string::StringExecFns;

use crate::timestamp::format_timestamp;
use crate::timestamp::spec_format_timestamp;

verus! {

/// One label condition of a silence: rendered as
/// `name<op><regex-marker>value` with `=`/`!=` for the equality flag and
/// `~` when the value is a regex.
pub struct Matcher {
    pub name: String,
    pub value: String,
    pub is_regex: bool,
    pub is_equal: bool,
}

/// The state wrapper of a silence: `active`, `pending`, `expired`, or any
/// other string (counted as "other" but still rendered).
pub struct SilenceStatus {
    pub state: String,
}

/// One alert silence, immutable input to the report builder.
pub struct Silence {
    pub id: String,
    pub status: SilenceStatus,
    pub matchers: Vec<Matcher>,
    pub starts_at: String,
    pub ends_at: String,
    pub updated_at: String,
    pub created_by: String,
    pub comment: String,
}

/// Longest comment prefix that is rendered before the ellipsis marker.
pub const COMMENT_PREVIEW_CHARS: usize = 100;

/// The bullet line for one matcher.
pub open spec fn spec_render_matcher(m: Matcher) -> Seq<char> {
    "  \u{2022} `"@ + m.name@ + (if m.is_equal {
        "="@
    } else {
        "!="@
    }) + (if m.is_regex {
        "~"@
    } else {
        Seq::<char>::empty()
    }) + m.value@ + "`"@
}

/// The matcher lines of a record, joined by newlines, input order kept.
pub open spec fn spec_render_matchers(ms: Seq<Matcher>) -> Seq<char>
    decreases ms.len(),
{
    if ms.len() == 0 {
        Seq::<char>::empty()
    } else if ms.len() == 1 {
        spec_render_matcher(ms[0])
    } else {
        spec_render_matchers(ms.drop_last()) + "\n"@ + spec_render_matcher(ms.last())
    }
}

/// Whether the comment is shown at all: placeholders `-` and `.` and the
/// empty comment produce no comment line.
pub open spec fn comment_is_shown(c: Seq<char>) -> bool {
    c.len() > 0 && c != "-"@ && c != "."@
}

/// The comment as rendered: at most `COMMENT_PREVIEW_CHARS` characters,
/// with an ellipsis marker appended when it was cut.
pub open spec fn spec_comment_preview(c: Seq<char>) -> Seq<char> {
    if c.len() > COMMENT_PREVIEW_CHARS {
        c.subrange(0, COMMENT_PREVIEW_CHARS as int) + "..."@
    } else {
        c
    }
}

/// The comment line of a record, empty when the comment is not shown.
pub open spec fn spec_comment_suffix(c: Seq<char>) -> Seq<char> {
    if comment_is_shown(c) {
        "\n*Comment:* _"@ + spec_comment_preview(c) + "_"@
    } else {
        Seq::<char>::empty()
    }
}

/// The full section text for one record.
pub open spec fn spec_render_silence(s: Silence) -> Seq<char> {
    "*Status:* "@ + s.status.state@ + "\n*Date:* "@ + spec_format_timestamp(s.starts_at@)
        + " \u{2192} "@ + spec_format_timestamp(s.ends_at@) + "\n*CreatedBy:* "@ + s.created_by@
        + "\n*Matchers:*\n"@ + spec_render_matchers(s.matchers@) + spec_comment_suffix(s.comment@)
}

/// Renders one matcher as its bullet line.
pub fn render_matcher(m: &Matcher) -> (r: String)
    ensures
        r@ == spec_render_matcher(*m),
{
    let mut r = String::from_str("  \u{2022} `");
    r.append(m.name.as_str());
    if m.is_equal {
        r.append("=");
    } else {
        r.append("!=");
    }
    if m.is_regex {
        r.append("~");
    }
    r.append(m.value.as_str());
    r.append("`");
    proof {
        assert(r@ =~= spec_render_matcher(*m));
    }
    r
}

/// Renders the matcher list of a record, one bullet line per matcher,
/// in input order.
pub fn render_matchers(ms: &Vec<Matcher>) -> (r: String)
    ensures
        r@ == spec_render_matchers(ms@),
{
    let mut r = String::new();
    let mut i: usize = 0;
    while i < ms.len()
        invariant
            i <= ms@.len(),
            r@ == spec_render_matchers(ms@.take(i as int)),
        decreases ms@.len() - i,
    {
        if i > 0 {
            r.append("\n");
        }
        let line = render_matcher(&ms[i]);
        r.append(line.as_str());
        proof {
            assert(ms@.take(i + 1 as int).drop_last() =~= ms@.take(i as int));
            assert(ms@.take(i + 1 as int).last() == ms@[i as int]);
        }
        i = i + 1;
    }
    proof {
        assert(ms@.take(ms@.len() as int) =~= ms@);
    }
    r
}

/// The comment preview: the comment itself, or its first
/// `COMMENT_PREVIEW_CHARS` characters plus an ellipsis marker. Truncation
/// counts characters, never splitting one.
pub fn comment_preview(c: &str) -> (r: String)
    ensures
        r@ == spec_comment_preview(c@),
{
    if c.unicode_len() > COMMENT_PREVIEW_CHARS {
        let mut r = String::from_str(c.substring_char(0, COMMENT_PREVIEW_CHARS));
        r.append("...");
        proof {
            assert(r@ =~= spec_comment_preview(c@));
        }
        r
    } else {
        String::from_str(c)
    }
}

/// Renders the section text for one record: status, formatted start and
/// end timestamps, creator, the matcher list, and — for a non-empty,
/// non-placeholder comment — a comment line bounded to
/// `COMMENT_PREVIEW_CHARS` characters.
pub fn render_silence(s: &Silence) -> (r: String)
    ensures
        r@ == spec_render_silence(*s),
{
    let mut r = String::from_str("*Status:* ");
    r.append(s.status.state.as_str());
    r.append("\n*Date:* ");
    let starts = format_timestamp(s.starts_at.as_str());
    r.append(starts.as_str());
    r.append(" \u{2192} ");
    let ends = format_timestamp(s.ends_at.as_str());
    r.append(ends.as_str());
    r.append("\n*CreatedBy:* ");
    r.append(s.created_by.as_str());
    r.append("\n*Matchers:*\n");
    let matchers = render_matchers(&s.matchers);
    r.append(matchers.as_str());
    if !s.comment.as_str().is_empty() && !crate::text::str_eq(s.comment.as_str(), "-")
        && !crate::text::str_eq(s.comment.as_str(), ".") {
        r.append("\n*Comment:* _");
        let preview = comment_preview(s.comment.as_str());
        r.append(preview.as_str());
        r.append("_");
    }
    proof {
        assert(r@ =~= spec_render_silence(*s));
    }
    r
}

} // verus!
