//! The diagnostic report: classifies a retained message's header fields,
//! substitutes a fixed placeholder for each remote lookup that failed, and
//! renders the lines of the printed block.

use vstd::prelude::*;
use vstd::string::StringExecFns;

verus! {

/// The header fields of a retained message, as plain values. A `None` field
/// was absent from the message.
pub struct MessageFields {
    pub signature: String,
    pub interface: Option<String>,
    pub sender: Option<String>,
    pub path: Option<String>,
}

/// What is to be done with a retained message, judged from its header
/// fields alone. A missing field is a structural violation: fatal,
/// whatever the interface's name.
#[derive(Clone, Copy, PartialEq, Eq, Structural, Debug)]
pub enum Disposition {
    /// The interface field is missing: fatal.
    MissingInterface,
    /// The sender field is missing: fatal.
    MissingSender,
    /// The object path field is missing: fatal.
    MissingPath,
    /// Every field is present: print the full diagnostic block.
    FullReport,
}

/// The disposition a message with the given header fields receives: a
/// missing interface, then a missing sender, then a missing path, is
/// fatal; otherwise the full block is printed.
pub open spec fn classify_spec(m: MessageFields) -> Disposition {
    match m.interface {
        Option::None => Disposition::MissingInterface,
        Option::Some(_) => match m.sender {
            Option::None => Disposition::MissingSender,
            Option::Some(_) => match m.path {
                Option::None => Disposition::MissingPath,
                Option::Some(_) => Disposition::FullReport,
            },
        },
    }
}

/// Judges a retained message's header fields.
pub fn classify_message(m: &MessageFields) -> (d: Disposition)
    ensures
        d == classify_spec(*m),
{
    if m.interface.is_none() {
        Disposition::MissingInterface
    } else if m.sender.is_none() {
        Disposition::MissingSender
    } else if m.path.is_none() {
        Disposition::MissingPath
    } else {
        Disposition::FullReport
    }
}

/// The results of the three remote lookups made for a full report. Each
/// query is independently fallible: a `None` result degrades to a fixed
/// placeholder rather than aborting.
pub struct Lookups {
    /// The root object's display name, if that query succeeded.
    pub app_name: Option<String>,
    /// The object's accessibility role name, if that query succeeded.
    pub role: Option<String>,
    /// `None` when the owning application could not be resolved at all (the
    /// toolkit line is then left out); otherwise the toolkit-name query's
    /// own result.
    pub toolkit: Option<Option<String>>,
}

pub open spec fn app_name_placeholder() -> Seq<char> {
    "Failed to retrieve bus application name."@
}

pub open spec fn role_placeholder() -> Seq<char> {
    "Failed to retrieve role name"@
}

pub open spec fn toolkit_placeholder() -> Seq<char> {
    "Failed to retrieve toolkit name"@
}

/// A fetched value, or the placeholder where the fetch failed.
pub open spec fn resolved(fetched: Option<Seq<char>>, placeholder: Seq<char>) -> Seq<char> {
    match fetched {
        Option::Some(s) => s,
        Option::None => placeholder,
    }
}

pub open spec fn banner_line() -> Seq<char> {
    "============================================================"@
}

pub open spec fn title_line() -> Seq<char> {
    "      D-Bus message with unmarshalled body signature:"@
}

pub open spec fn signature_line(sig: Seq<char>) -> Seq<char> {
    " Signature: \""@ + sig + "\","@
}

pub open spec fn sender_path_line(sender: Seq<char>, path: Seq<char>) -> Seq<char> {
    " Sender: \""@ + sender + "\", Path: \""@ + path + "\""@
}

pub open spec fn toolkit_line(toolkit: Seq<char>) -> Seq<char> {
    "  Toolkit name: "@ + toolkit
}

pub open spec fn app_name_line(name: Seq<char>) -> Seq<char> {
    "  Application name: \""@ + name + "\""@
}

pub open spec fn role_line(role: Seq<char>) -> Seq<char> {
    "  Object role: \""@ + role + "\""@
}

/// The lines of the block every retained message opens with: a blank line,
/// a banner, the title, a banner again, and the signature line.
pub open spec fn header_lines(sig: Seq<char>) -> Seq<Seq<char>> {
    seq![Seq::<char>::empty(), banner_line(), title_line(), banner_line(), signature_line(sig)]
}

/// The lines of the full diagnostic block: the header block, the
/// sender/path line, the toolkit line where the owning application was
/// resolved, then the application-name and role lines, each falling back to
/// its placeholder where the lookup failed.
pub open spec fn report_lines(
    sig: Seq<char>,
    sender: Seq<char>,
    path: Seq<char>,
    lk: Lookups,
) -> Seq<Seq<char>> {
    header_lines(sig) + seq![sender_path_line(sender, path)] + (match lk.toolkit {
        Option::Some(t) => seq![toolkit_line(resolved(t.deep_view(), toolkit_placeholder()))],
        Option::None => Seq::<Seq<char>>::empty(),
    }) + seq![
        app_name_line(resolved(lk.app_name.deep_view(), app_name_placeholder())),
        role_line(resolved(lk.role.deep_view(), role_placeholder())),
    ]
}

/// The fetched value, or the placeholder where the fetch failed.
pub fn or_placeholder(fetched: Option<String>, placeholder: &str) -> (r: String)
    ensures
        r@ == resolved(fetched.deep_view(), placeholder@),
{
    match fetched {
        Option::Some(s) => s,
        Option::None => placeholder.to_owned(),
    }
}

fn concat2(a: &str, b: &str) -> (r: String)
    ensures
        r@ == a@ + b@,
{
    let mut r = a.to_owned();
    r.append(b);
    r
}

fn concat3(a: &str, b: &str, c: &str) -> (r: String)
    ensures
        r@ == a@ + b@ + c@,
{
    let mut r = a.to_owned();
    r.append(b);
    r.append(c);
    r
}

fn concat5(a: &str, b: &str, c: &str, d: &str, e: &str) -> (r: String)
    ensures
        r@ == a@ + b@ + c@ + d@ + e@,
{
    let mut r = a.to_owned();
    r.append(b);
    r.append(c);
    r.append(d);
    r.append(e);
    r
}

fn banner() -> (r: String)
    ensures
        r@ == banner_line(),
{
    "============================================================".to_owned()
}

/// Renders the header block printed for every retained message.
pub fn render_header(signature: &str) -> (lines: Vec<String>)
    ensures
        lines.deep_view() == header_lines(signature@),
{
    let mut lines: Vec<String> = Vec::new();
    lines.push(String::new());
    lines.push(banner());
    lines.push("      D-Bus message with unmarshalled body signature:".to_owned());
    lines.push(banner());
    lines.push(concat3(" Signature: \"", signature, "\","));
    proof {
        assert(lines.deep_view() =~~= header_lines(signature@));
    }
    lines
}

/// Renders the full diagnostic block for a retained message whose header
/// fields are all present, from the given lookup results.
pub fn render_full_report(signature: &str, sender: &str, path: &str, lookups: Lookups) -> (lines:
    Vec<String>)
    ensures
        lines.deep_view() == report_lines(signature@, sender@, path@, lookups),
{
    let Lookups { app_name, role, toolkit } = lookups;
    let mut lines: Vec<String> = render_header(signature);
    lines.push(concat5(" Sender: \"", sender, "\", Path: \"", path, "\""));
    match toolkit {
        Option::Some(t) => {
            let toolkit_name = or_placeholder(t, "Failed to retrieve toolkit name");
            lines.push(concat2("  Toolkit name: ", toolkit_name.as_str()));
        },
        Option::None => {},
    }
    let shown_app_name = or_placeholder(app_name, "Failed to retrieve bus application name.");
    lines.push(concat3("  Application name: \"", shown_app_name.as_str(), "\""));
    let shown_role = or_placeholder(role, "Failed to retrieve role name");
    lines.push(concat3("  Object role: \"", shown_role.as_str(), "\""));
    proof {
        assert(lines.deep_view() =~~= report_lines(signature@, sender@, path@, lookups));
    }
    lines
}

} // verus!
