//! The desktop shell's answers to the calls that a movie makes into its
//! host page.

use vstd::prelude::*;
use vstd::string::StringExecFns;

verus! {

/// A value that crosses the boundary between a movie and its host.
#[derive(Clone, Debug)]
pub enum ExternalValue {
    Undefined,
    Null,
    Bool(bool),
    /// A number, by the text that displays it.
    Number(String),
    String(String),
    /// An object or a list.
    Other,
}

/// What the desktop shell makes of a call.
#[derive(Clone, Debug)]
pub enum Reply {
    /// The call is answered with this text.
    Text(String),
    /// The call was `console.log`: the text is to be logged, and the call is
    /// answered with undefined.
    ConsoleLog(String),
    /// The call was an `eval` that the shell does not answer: undefined.
    EvalRefused,
    /// The shell knows no such method: undefined.
    UnknownMethod,
}

/// A `Reply` as a mathematical value.
pub enum ReplyView {
    Text(Seq<char>),
    ConsoleLog(Seq<char>),
    EvalRefused,
    UnknownMethod,
}

impl View for Reply {
    type V = ReplyView;

    open spec fn view(&self) -> ReplyView {
        match self {
            Reply::Text(text) => ReplyView::Text(text@),
            Reply::ConsoleLog(text) => ReplyView::ConsoleLog(text@),
            Reply::EvalRefused => ReplyView::EvalRefused,
            Reply::UnknownMethod => ReplyView::UnknownMethod,
        }
    }
}

/// The expression reads the address of the host page.
pub open spec fn location_href(code: Seq<char>) -> bool {
    ||| code == "document.location.href"@
    ||| code == "window.location.href"@
    ||| code == "top.location.href"@
}

/// The text that `console.log` shows for one argument.
pub open spec fn shown(arg: ExternalValue) -> Seq<char> {
    match arg {
        ExternalValue::String(text) => text@,
        ExternalValue::Number(text) => text@,
        ExternalValue::Bool(true) => "true"@,
        ExternalValue::Bool(false) => "false"@,
        ExternalValue::Undefined => "undefined"@,
        ExternalValue::Null => "null"@,
        ExternalValue::Other => "<unknown>"@,
    }
}

/// The text that `console.log` shows for its arguments: what it shows for
/// each, with one space between neighbours.
pub open spec fn console_text(args: Seq<ExternalValue>) -> Seq<char>
    decreases args.len(),
{
    if args.len() == 0 {
        Seq::empty()
    } else if args.len() == 1 {
        shown(args[0])
    } else {
        console_text(args.drop_last()) + " "@ + shown(args.last())
    }
}

/// The `eval` asks for the address of the host page and nothing else.
pub open spec fn evaluates_location_href(args: Seq<ExternalValue>) -> bool {
    &&& args.len() == 1
    &&& args[0] matches ExternalValue::String(code)
    &&& location_href(code@)
}

/// The method is `toString` of the address of the host page.
pub open spec fn location_href_to_string(name: Seq<char>) -> bool {
    &&& ".toString"@.is_suffix_of(name)
    &&& location_href(name.subrange(0, name.len() - ".toString"@.len()))
}

/// The shell's reply to a call of the method `name` with `args`, where the
/// shell pretends that the host page has the address `spoof_url`, if any.
pub open spec fn reply_of(
    spoof_url: Option<Seq<char>>,
    name: Seq<char>,
    args: Seq<ExternalValue>,
) -> ReplyView {
    if spoof_url is Some && location_href_to_string(name) {
        ReplyView::Text(spoof_url.unwrap())
    } else if name == "eval"@ {
        if spoof_url is Some && evaluates_location_href(args) {
            ReplyView::Text(spoof_url.unwrap())
        } else {
            ReplyView::EvalRefused
        }
    } else if name == "console.log"@ {
        ReplyView::ConsoleLog(console_text(args))
    } else if name == "window.navigator.userAgent.toString"@ {
        ReplyView::Text("mundo-gaturro-desktop"@)
    } else {
        ReplyView::UnknownMethod
    }
}

/// `str::eq`: the two strings hold the same characters.
#[verifier::external_body]
fn str_eq(a: &str, b: &str) -> (same: bool)
    ensures
        same == (a@ == b@),
{
    a == b
}

/// `str::strip_suffix`: the string without `suffix` at its end, or `None`
/// if it does not end with `suffix`.
#[verifier::external_body]
fn strip_suffix<'a>(text: &'a str, suffix: &str) -> (prefix: Option<&'a str>)
    ensures
        match prefix {
            Some(prefix) => text@ == prefix@ + suffix@,
            None => !suffix@.is_suffix_of(text@),
        },
{
    text.strip_suffix(suffix)
}

/// Whether `code` reads the address of the host page.
pub fn is_location_href(code: &str) -> (is_href: bool)
    ensures
        is_href == location_href(code@),
{
    str_eq(code, "document.location.href") || str_eq(code, "window.location.href") || str_eq(
        code,
        "top.location.href",
    )
}

/// The text that `console.log` shows for `args`.
pub fn console_log_text(args: &[ExternalValue]) -> (log: String)
    ensures
        log@ == console_text(args@),
{
    let mut log = String::new();
    let mut i: usize = 0;
    assert(args@.take(0) == Seq::<ExternalValue>::empty());
    while i < args.len()
        invariant
            i <= args@.len(),
            log@ == console_text(args@.take(i as int)),
        decreases args@.len() - i,
    {
        proof {
            let longer = args@.take(i + 1);
            assert(longer.drop_last() == args@.take(i as int));
            assert(longer.last() == args@[i as int]);
            if i == 0 {
                assert(log@ + shown(args@[0]) == shown(args@[0]));
            }
        }
        if i > 0 {
            log.append(" ");
        }
        match &args[i] {
            ExternalValue::String(text) => log.append(text.as_str()),
            ExternalValue::Number(text) => log.append(text.as_str()),
            ExternalValue::Bool(true) => log.append("true"),
            ExternalValue::Bool(false) => log.append("false"),
            ExternalValue::Undefined => log.append("undefined"),
            ExternalValue::Null => log.append("null"),
            ExternalValue::Other => log.append("<unknown>"),
        }
        i += 1;
    }
    assert(args@.take(i as int) == args@);
    log
}

/// The desktop shell's side of the external interface.
#[derive(Clone, Debug)]
pub struct DesktopExternalInterfaceProvider {
    /// The address that the shell gives out as that of the host page.
    pub spoof_url: Option<String>,
}

impl DesktopExternalInterfaceProvider {
    /// The address that the shell gives out, as a mathematical value.
    pub open spec fn spoofed(&self) -> Option<Seq<char>> {
        match self.spoof_url {
            Some(url) => Some(url@),
            None => None,
        }
    }

    /// Answers a call of the method `name` with `args`.
    pub fn call_method(&self, name: &str, args: &[ExternalValue]) -> (reply: Reply)
        ensures
            reply@ == reply_of(self.spoofed(), name@, args@),
    {
        if let Some(url) = &self.spoof_url {
            // Check for e.g. "window.location.href.toString"
            if let Some(prefix) = strip_suffix(name, ".toString") {
                assert(name@.subrange(0, name@.len() - ".toString"@.len()) == prefix@);
                assert(".toString"@.is_suffix_of(name@));
                if is_location_href(prefix) {
                    return Reply::Text(url.clone());
                }
            }
        }

        if str_eq(name, "eval") {
            if let Some(url) = &self.spoof_url {
                if args.len() == 1 {
                    if let ExternalValue::String(code) = &args[0] {
                        if is_location_href(code.as_str()) {
                            return Reply::Text(url.clone());
                        }
                    }
                }
            }
            return Reply::EvalRefused;
        }

        if str_eq(name, "console.log") {
            return Reply::ConsoleLog(console_log_text(args));
        }

        if str_eq(name, "window.navigator.userAgent.toString") {
            return Reply::Text(String::from_str("mundo-gaturro-desktop"));
        }

        Reply::UnknownMethod
    }

    /// The shell has no identifier of its own in the host page.
    pub fn get_id(&self) -> (id: Option<String>)
        ensures
            id is None,
    {
        None
    }
}

impl Reply {
    /// The value that the call is answered with.
    pub fn into_value(self) -> (value: ExternalValue)
        ensures
            match self {
                Reply::Text(text) => value matches ExternalValue::String(answer) && answer@
                    == text@,
                _ => value is Undefined,
            },
    {
        match self {
            Reply::Text(text) => ExternalValue::String(text),
            _ => ExternalValue::Undefined,
        }
    }
}

} // verus!
