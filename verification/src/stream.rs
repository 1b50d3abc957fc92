//! What one line of the edge process's output tells: the interface's
//! addresses, a notice, or the sign that the supernode was reached.

use crate::notice::{classify_notice, notice_of, opt_notice, Notice, NoticeView};
use crate::status::{opt_info, NetworkInfo, NetworkInfoView};
use crate::text::{
    chars_of, contains_str, contains_text, find_in, find_text, slice_of, trim_bounds, trimmed,
};
use vstd::prelude::*;
use vstd::string::{StrSliceExecFns, StringExecFns};

verus! {

/// The value that follows the marker `field` in `line`: the text after the
/// first occurrence of the marker up to the next comma or the end of the
/// line, without surrounding white space. `None` if the marker is absent.
pub open spec fn field_value(line: Seq<char>, field: Seq<char>) -> Option<Seq<char>> {
    match find_text(line, field) {
        None => None,
        Some(i) => {
            let rest = trimmed(line.subrange(i + field.len(), line.len() as int));
            let end = match find_text(rest, ","@) {
                Some(j) => j,
                None => rest.len() as int,
            };
            Some(trimmed(rest.subrange(0, end)))
        },
    }
}

/// The interface's addresses as `line` announces them: the values of the
/// markers `IP:`, `Mask:` and `MAC:`. `None` unless all three are there.
pub open spec fn network_info_of(line: Seq<char>) -> Option<NetworkInfoView> {
    match (field_value(line, "IP:"@), field_value(line, "Mask:"@), field_value(line, "MAC:"@)) {
        (Some(ip), Some(mask), Some(mac)) => Some(NetworkInfoView { ip, mask, mac }),
        _ => None,
    }
}

/// The value that follows the marker `field` in `line`.
pub fn extract_field<'a>(line: &'a str, field: &str) -> (r: Option<&'a str>)
    ensures
        match r {
            Some(v) => field_value(line@, field@) == Some(v@),
            None => field_value(line@, field@) is None,
        },
{
    let l = chars_of(line);
    let f = chars_of(field);
    match find_in(l.as_slice(), f.as_slice(), 0) {
        None => None,
        Some(i) => {
            let start: usize = i + f.len();
            let tail = slice_of(l.as_slice(), start, l.len());
            let (a, b) = trim_bounds(tail.as_slice());
            let rest = slice_of(tail.as_slice(), a, b);
            let comma = chars_of(",");
            let end: usize = match find_in(rest.as_slice(), comma.as_slice(), 0) {
                Some(j) => j,
                None => rest.len(),
            };
            let head = slice_of(rest.as_slice(), 0, end);
            let (c, d) = trim_bounds(head.as_slice());
            assert(head@.subrange(c as int, d as int) =~= line@.subrange(
                start + a + c,
                start + a + d,
            ));
            Some(line.substring_char(start + a + c, start + a + d))
        },
    }
}

/// The interface's addresses as `line` announces them.
pub fn parse_network_info(line: &str) -> (r: Option<NetworkInfo>)
    ensures
        match r {
            Some(info) => network_info_of(line@) == Some(info@),
            None => network_info_of(line@) is None,
        },
{
    let ip = match extract_field(line, "IP:") {
        Some(v) => v,
        None => { return None; },
    };
    let mask = match extract_field(line, "Mask:") {
        Some(v) => v,
        None => { return None; },
    };
    let mac = match extract_field(line, "MAC:") {
        Some(v) => v,
        None => { return None; },
    };
    Some(NetworkInfo { ip: ip.to_owned(), mask: mask.to_owned(), mac: mac.to_owned() })
}

/// Where a logged line comes from.
#[derive(Debug, Clone, Copy, PartialEq, Eq, Structural)]
pub enum Channel {
    /// The edge process's standard output.
    Stdout,
    /// The edge process's standard error.
    Stderr,
    /// The supervisor's own information.
    Info,
    /// The supervisor's own warnings.
    Warn,
}

/// The tag that a logged line of a channel starts with.
pub open spec fn channel_tag(channel: Channel) -> Seq<char> {
    match channel {
        Channel::Stdout => "[OUT] "@,
        Channel::Stderr => "[ERR] "@,
        Channel::Info => "[INFO] "@,
        Channel::Warn => "[WARN] "@,
    }
}

/// `line` as it goes to the log: behind the tag of its channel, otherwise
/// unchanged.
pub fn tag_line(channel: Channel, line: &str) -> (r: String)
    ensures
        r@ == channel_tag(channel) + line@,
{
    let mut out = match channel {
        Channel::Stdout => String::from_str("[OUT] "),
        Channel::Stderr => String::from_str("[ERR] "),
        Channel::Info => String::from_str("[INFO] "),
        Channel::Warn => String::from_str("[WARN] "),
    };
    out.append(line);
    out
}

/// A line that, in editions of the edge process that print it, shows that
/// the supernode was reached.
pub open spec fn is_success_marker(line: Seq<char>) -> bool {
    ||| contains_text(line, "Registered with"@)
    ||| contains_text(line, "edge <<<"@)
    ||| contains_text(line, "edge started"@)
}

/// The addresses that `line` announces, if it is the line that announces the
/// creation of the interface and holds all three.
pub open spec fn announced_info(line: Seq<char>) -> Option<NetworkInfoView> {
    if contains_text(line, "created local tap device"@) {
        network_info_of(line)
    } else {
        None
    }
}

/// What one line of output tells.
#[derive(Debug, Clone, PartialEq, Eq)]
pub struct LineFacts {
    /// The interface's addresses, if the line announces them.
    pub network_info: Option<NetworkInfo>,
    /// The notice that the line gives rise to.
    pub notice: Option<Notice>,
    /// Whether the line shows that the supernode was reached.
    pub success: bool,
}

/// What a `LineFacts` holds, as plain values.
pub struct LineFactsView {
    pub network_info: Option<NetworkInfoView>,
    pub notice: Option<NoticeView>,
    pub success: bool,
}

impl View for LineFacts {
    type V = LineFactsView;

    open spec fn view(&self) -> LineFactsView {
        LineFactsView {
            network_info: opt_info(self.network_info),
            notice: opt_notice(self.notice),
            success: self.success,
        }
    }
}

/// What `line` tells.
pub open spec fn facts_of(line: Seq<char>) -> LineFactsView {
    LineFactsView {
        network_info: announced_info(line),
        notice: notice_of(line),
        success: is_success_marker(line),
    }
}

/// Reads one line of output for the three things that it may tell.
pub fn scan_line(line: &str) -> (r: LineFacts)
    ensures
        r@ == facts_of(line@),
{
    let c = chars_of(line);
    let l = c.as_slice();
    let network_info = if contains_str(l, "created local tap device") {
        parse_network_info(line)
    } else {
        None
    };
    let notice = classify_notice(line);
    let success = contains_str(l, "Registered with") || contains_str(l, "edge <<<")
        || contains_str(l, "edge started");
    LineFacts { network_info, notice, success }
}

} // verus!
