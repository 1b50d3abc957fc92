//! Notices: the short stable codes that name a condition the user should
//! know of, and the table that finds them in the edge process's output.

use crate::text::{ascii_lowered, chars_of, contains_str, contains_text, lowered};
use vstd::prelude::*;
use vstd::string::StringExecFns;

verus! {

/// A condition worth telling the user: one of a few stable codes, or the
/// offending line itself where no code fits.
#[derive(Debug, Clone, PartialEq, Eq)]
pub enum Notice {
    /// The virtual interface is held by another process.
    InterfaceBusy,
    /// The address is still held at the supernode.
    AddressInUse,
    /// The edge process lacks the rights it needs.
    PermissionDenied,
    /// The supernode does not answer.
    RendezvousUnreachable,
    /// The supernode or a peer refused the credentials.
    AuthenticationFailed,
    /// An alarming line that no code describes, as it was printed.
    Raw(String),
}

/// What a `Notice` holds, as plain values.
pub enum NoticeView {
    InterfaceBusy,
    AddressInUse,
    PermissionDenied,
    RendezvousUnreachable,
    AuthenticationFailed,
    Raw(Seq<char>),
}

impl View for Notice {
    type V = NoticeView;

    open spec fn view(&self) -> NoticeView {
        match self {
            Notice::InterfaceBusy => NoticeView::InterfaceBusy,
            Notice::AddressInUse => NoticeView::AddressInUse,
            Notice::PermissionDenied => NoticeView::PermissionDenied,
            Notice::RendezvousUnreachable => NoticeView::RendezvousUnreachable,
            Notice::AuthenticationFailed => NoticeView::AuthenticationFailed,
            Notice::Raw(line) => NoticeView::Raw(line@),
        }
    }
}

/// The view of an optional notice.
pub open spec fn opt_notice(o: Option<Notice>) -> Option<NoticeView> {
    match o {
        Some(n) => Some(n@),
        None => None,
    }
}

/// The text that stands for a notice: its code, or the raw line.
pub open spec fn code_text(n: NoticeView) -> Seq<char> {
    match n {
        NoticeView::InterfaceBusy => "interface-busy"@,
        NoticeView::AddressInUse => "address-in-use"@,
        NoticeView::PermissionDenied => "permission-denied"@,
        NoticeView::RendezvousUnreachable => "rendezvous-unreachable"@,
        NoticeView::AuthenticationFailed => "authentication-failed"@,
        NoticeView::Raw(line) => line,
    }
}

/// A line that speaks of an error, a failure or something that cannot be
/// done, in any mix of ASCII capitals and small letters.
pub open spec fn is_alarming(line: Seq<char>) -> bool {
    let l = ascii_lowered(line);
    contains_text(l, "error"@) || contains_text(l, "failed"@) || contains_text(l, "cannot"@)
}

/// The notice that a line of output gives rise to. The table is read from
/// the top and the first row that matches decides; capitals and small ASCII
/// letters count as the same. A line that matches no row but is alarming is
/// itself the notice.
pub open spec fn notice_of(line: Seq<char>) -> Option<NoticeView> {
    let l = ascii_lowered(line);
    if contains_text(l, "already in use"@) {
        Some(NoticeView::AddressInUse)
    } else if contains_text(l, "device or resource busy"@) {
        Some(NoticeView::InterfaceBusy)
    } else if contains_text(l, "authentication"@) {
        Some(NoticeView::AuthenticationFailed)
    } else if contains_text(l, "unreachable"@) || contains_text(l, "not responding"@) {
        Some(NoticeView::RendezvousUnreachable)
    } else if contains_text(l, "permission"@) || contains_text(l, "eperm"@) || contains_text(
        l,
        "operation not permitted"@,
    ) {
        Some(NoticeView::PermissionDenied)
    } else if is_alarming(line) {
        Some(NoticeView::Raw(line))
    } else {
        None
    }
}

impl Notice {
    /// A copy that holds the same values.
    pub fn duplicate(&self) -> (r: Notice)
        ensures
            r@ == self@,
    {
        match self {
            Notice::InterfaceBusy => Notice::InterfaceBusy,
            Notice::AddressInUse => Notice::AddressInUse,
            Notice::PermissionDenied => Notice::PermissionDenied,
            Notice::RendezvousUnreachable => Notice::RendezvousUnreachable,
            Notice::AuthenticationFailed => Notice::AuthenticationFailed,
            Notice::Raw(line) => Notice::Raw(line.clone()),
        }
    }

    /// The text that stands for this notice: its code, or the raw line.
    pub fn code(&self) -> (r: String)
        ensures
            r@ == code_text(self@),
    {
        match self {
            Notice::InterfaceBusy => String::from_str("interface-busy"),
            Notice::AddressInUse => String::from_str("address-in-use"),
            Notice::PermissionDenied => String::from_str("permission-denied"),
            Notice::RendezvousUnreachable => String::from_str("rendezvous-unreachable"),
            Notice::AuthenticationFailed => String::from_str("authentication-failed"),
            Notice::Raw(line) => line.clone(),
        }
    }
}

/// A copy of an optional notice.
pub fn clone_opt_notice(o: &Option<Notice>) -> (r: Option<Notice>)
    ensures
        opt_notice(r) == opt_notice(*o),
{
    match o {
        Some(n) => Some(n.duplicate()),
        None => None,
    }
}

/// The notice that a line of output gives rise to, if any.
pub fn classify_notice(line: &str) -> (r: Option<Notice>)
    ensures
        opt_notice(r) == notice_of(line@),
{
    let chars = chars_of(line);
    let low = lowered(chars.as_slice());
    let l = low.as_slice();
    if contains_str(l, "already in use") {
        Some(Notice::AddressInUse)
    } else if contains_str(l, "device or resource busy") {
        Some(Notice::InterfaceBusy)
    } else if contains_str(l, "authentication") {
        Some(Notice::AuthenticationFailed)
    } else if contains_str(l, "unreachable") || contains_str(l, "not responding") {
        Some(Notice::RendezvousUnreachable)
    } else if contains_str(l, "permission") || contains_str(l, "eperm") || contains_str(
        l,
        "operation not permitted",
    ) {
        Some(Notice::PermissionDenied)
    } else if contains_str(l, "error") || contains_str(l, "failed") || contains_str(l, "cannot") {
        Some(Notice::Raw(line.to_owned()))
    } else {
        None
    }
}

} // verus!
