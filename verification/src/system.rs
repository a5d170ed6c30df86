//! Facts about the running system: whether the process runs as root, and
//! which GDK log messages are cursor noise to be dropped.

use vstd::prelude::*;
use crate::text::{
    has_prefix, has_sub, lines, lines_of, parse_u32, parse_u32_spec, starts_with, words, words_of,
    contains, views,
};

verus! {

/// The first line that starts with the prefix.
pub open spec fn first_with_prefix(lines: Seq<Seq<char>>, prefix: Seq<char>) -> Option<Seq<char>>
    decreases lines.len(),
{
    if lines.len() == 0 {
        None
    } else if has_prefix(lines[0], prefix) {
        Some(lines[0])
    } else {
        first_with_prefix(lines.drop_first(), prefix)
    }
}

/// The prefix of the line of `/proc/self/status` that gives the user ids.
pub open spec fn uid_prefix() -> Seq<char> {
    "Uid:"@
}

/// The UID assumed when the status cannot be read: not root.
pub open spec fn fallback_uid() -> u32 {
    1000
}

/// The effective UID that the text of `/proc/self/status` gives: on the
/// first line that starts with `Uid:` (real, effective, saved, file system),
/// the third field; the fallback UID when that is missing or not a number.
pub open spec fn effective_uid_of(status: Seq<char>) -> u32 {
    match first_with_prefix(lines_of(status), uid_prefix()) {
        None => fallback_uid(),
        Some(line) => {
            let fields = words_of(line);
            if fields.len() > 2 {
                match parse_u32_spec(fields[2]) {
                    Some(v) => v,
                    None => fallback_uid(),
                }
            } else {
                fallback_uid()
            }
        },
    }
}

/// The effective UID of the process, from the text of `/proc/self/status`,
/// or the fallback UID when that file could not be read.
pub fn effective_uid(status: Option<&str>) -> (r: u32)
    ensures
        r == match status {
            Some(s) => effective_uid_of(s@),
            None => fallback_uid(),
        },
{
    let s = match status {
        Some(s) => s,
        None => {
            return 1000;
        },
    };
    let all = lines(s);
    let prefix = "Uid:";
    let mut i: usize = 0;
    let ghost ls = lines_of(s@);
    assert(ls.skip(0) =~= ls);
    while i < all.len()
        invariant
            i <= all.len(),
            ls == lines_of(s@),
            status == Some(s),
            ls.len() == all.len(),
            forall|k: int| 0 <= k < all.len() ==> #[trigger] ls[k] == all@[k]@,
            first_with_prefix(ls, uid_prefix()) == first_with_prefix(ls.skip(i as int), uid_prefix()),
            prefix@ == uid_prefix(),
        decreases all.len() - i,
    {
        let ghost rest = ls.skip(i as int);
        assert(rest[0] == ls[i as int]);
        assert(rest.drop_first() =~= ls.skip(i + 1));
        if starts_with(all[i].as_str(), prefix) {
            let fields = words(all[i].as_str());
            if fields.len() > 2 {
                assert(views(fields@)[2] == fields@[2]@);
                assert(fields@[2]@ == words_of(ls[i as int])[2]);
                assert(first_with_prefix(rest, uid_prefix()) == Some(ls[i as int]));
                match parse_u32(fields[2].as_str()) {
                    Some(v) => {
                        return v;
                    },
                    None => {
                        return 1000;
                    },
                }
            } else {
                return 1000;
            }
        }
        i = i + 1;
    }
    assert(ls.skip(all.len() as int).len() == 0);
    1000
}

/// Whether the process runs as root, from the text of `/proc/self/status`
/// (none when it could not be read).
pub fn check_is_root(status: Option<&str>) -> (r: bool)
    ensures
        r == (match status {
            Some(s) => effective_uid_of(s@),
            None => fallback_uid(),
        } == 0),
{
    effective_uid(status) == 0
}

/// A GDK message about cursors, which is dropped rather than logged.
pub open spec fn cursor_noise(msg: Seq<char>) -> bool {
    has_sub(msg, "cursor"@) || has_sub(msg, "Cursor"@) || has_sub(msg, "Unable to load"@)
}

/// Returns `true` for GDK cursor-theme warnings, which are suppressed.
pub fn is_cursor_noise(msg: &str) -> (r: bool)
    ensures
        r == cursor_noise(msg@),
{
    contains(msg, "cursor") || contains(msg, "Cursor") || contains(msg, "Unable to load")
}

/// The GLib level bit of a warning.
pub open spec fn level_warning() -> u32 {
    16
}

/// The GLib level bit of a message.
pub open spec fn level_message() -> u32 {
    32
}

/// The level word of a forwarded GDK message: `WARNING` when the warning
/// bit is set, else `Message` when the message bit is, else `Info`.
pub open spec fn gdk_level_text(level: u32) -> Seq<char> {
    if level & level_warning() != 0 {
        "WARNING"@
    } else if level & level_message() != 0 {
        "Message"@
    } else {
        "Info"@
    }
}

/// The level word of a forwarded GDK message.
pub fn gdk_level_label(level: u32) -> (r: &'static str)
    ensures
        r@ == gdk_level_text(level),
{
    if level & 16u32 != 0 {
        "WARNING"
    } else if level & 32u32 != 0 {
        "Message"
    } else {
        "Info"
    }
}

/// The line printed for a GDK message that is not dropped.
pub fn gdk_log_line(level: u32, msg: &str) -> (r: String)
    ensures
        r@ == "Gdk-"@ + gdk_level_text(level) + ": "@ + msg@,
{
    String::from_str("Gdk-").concat(gdk_level_label(level)).concat(": ").concat(msg)
}

/// What a GDK message handler does with an old-style message: nothing for
/// cursor noise, else the line to print.
pub fn gdk_handle(level: u32, msg: &str) -> (r: Option<String>)
    ensures
        cursor_noise(msg@) ==> r is None,
        !cursor_noise(msg@) ==> (r matches Some(line) && line@ == "Gdk-"@ + gdk_level_text(level)
            + ": "@ + msg@),
{
    if is_cursor_noise(msg) {
        None
    } else {
        Some(gdk_log_line(level, msg))
    }
}

/// A field of a structured log record, each part absent when its pointer
/// was null.
pub struct LogField {
    pub key: Option<String>,
    pub value: Option<String>,
}

/// The message of a structured log record: the value of its first field
/// with both parts whose key is `MESSAGE`.
pub open spec fn record_message(fields: Seq<LogField>) -> Option<Seq<char>>
    decreases fields.len(),
{
    if fields.len() == 0 {
        None
    } else {
        match (fields[0].key, fields[0].value) {
            (Some(k), Some(v)) => if k@ == "MESSAGE"@ {
                Some(v@)
            } else {
                record_message(fields.drop_first())
            },
            _ => record_message(fields.drop_first()),
        }
    }
}

/// Whether the structured log writer drops a record: exactly when its
/// message is cursor noise. Other records go on to GLib's default writer.
pub fn drops_record(fields: &Vec<LogField>) -> (r: bool)
    ensures
        r == (record_message(fields@) matches Some(m) && cursor_noise(m)),
{
    let message_key = String::from_str("MESSAGE");
    let mut i: usize = 0;
    assert(fields@.skip(0) =~= fields@);
    while i < fields.len()
        invariant
            i <= fields.len(),
            message_key@ == "MESSAGE"@,
            record_message(fields@) == record_message(fields@.skip(i as int)),
        decreases fields.len() - i,
    {
        let ghost rest = fields@.skip(i as int);
        assert(rest[0] == fields@[i as int]);
        assert(rest.drop_first() =~= fields@.skip(i + 1));
        let f = &fields[i];
        match (&f.key, &f.value) {
            (Some(k), Some(v)) => {
                if *k == message_key {
                    return is_cursor_noise(v.as_str());
                }
            },
            _ => {},
        }
        i = i + 1;
    }
    assert(fields@.skip(fields.len() as int).len() == 0);
    false
}

} // verus!
