//! The client control protocol.
//!
//! Inbound text frames either carry one JSON control message — `connect`,
//! `input`, `resize`, `disconnect` — or are raw terminal input. A frame is
//! treated as a control message only when it parses as a JSON object of one
//! of those shapes; anything else is forwarded verbatim as terminal input, so
//! that keystrokes an unguarded client sends unescaped are never dropped.
//!
//! Outbound frames are JSON objects with a `type` of `connected`, `output`,
//! `error` or `disconnected`, rendered with their keys in sorted order and
//! with the standard JSON string escapes.

use vstd::prelude::*;

use crate::json::{
    LeafVal, LeafValS, TopVal, TopValS, document_x, spec_document, spec_skip_ws, top_members_view,
};
use crate::models::{SshCredentials, SshCredentialsS};
use crate::text::{chars_to_string, digit_of, str_to_chars};

verus! {

/// A control message sent by the client.
#[derive(Debug)]
pub enum ClientMessage {
    /// Open the shell; only valid while no connection is live.
    Connect {
        credentials: SshCredentials,
        col_width: Option<u32>,
        row_height: Option<u32>,
    },
    /// Terminal input for the remote shell.
    Input { data: String },
    /// The client terminal was resized.
    Resize { width: u32, height: u32 },
    /// Tear the shell connection down.
    Disconnect,
}

/// Specification counterpart of [`ClientMessage`].
pub enum ClientMessageS {
    Connect {
        credentials: SshCredentialsS,
        col_width: Option<u32>,
        row_height: Option<u32>,
    },
    Input { data: Seq<char> },
    Resize { width: u32, height: u32 },
    Disconnect,
}

impl View for ClientMessage {
    type V = ClientMessageS;

    open spec fn view(&self) -> ClientMessageS {
        match self {
            ClientMessage::Connect { credentials, col_width, row_height } => {
                ClientMessageS::Connect {
                    credentials: credentials@,
                    col_width: *col_width,
                    row_height: *row_height,
                }
            },
            ClientMessage::Input { data } => ClientMessageS::Input { data: data@ },
            ClientMessage::Resize { width, height } => ClientMessageS::Resize {
                width: *width,
                height: *height,
            },
            ClientMessage::Disconnect => ClientMessageS::Disconnect,
        }
    }
}

/// How one inbound text frame is to be handled.
#[derive(Debug)]
pub enum InboundText {
    /// The empty frame; ignored.
    Empty,
    /// A well-formed control message.
    Control(ClientMessage),
    /// Everything else: forwarded verbatim as terminal input.
    Raw(String),
}

/// Specification counterpart of [`InboundText`].
pub enum InboundTextS {
    Empty,
    Control(ClientMessageS),
    Raw(Seq<char>),
}

impl View for InboundText {
    type V = InboundTextS;

    open spec fn view(&self) -> InboundTextS {
        match self {
            InboundText::Empty => InboundTextS::Empty,
            InboundText::Control(m) => InboundTextS::Control(m@),
            InboundText::Raw(t) => InboundTextS::Raw(t@),
        }
    }
}

/// The message type discriminators of the command-style shell protocol.
#[derive(Clone, Copy, Debug, PartialEq, Eq, Structural)]
pub enum ClientMessageType {
    Connect,
    Command,
    Disconnect,
    Unknown,
}

/// How often `name` occurs among the top-level members, counted from `i`.
pub open spec fn count_key_top_from(
    ms: Seq<(Seq<char>, TopValS)>,
    name: Seq<char>,
    i: int,
) -> int
    decreases ms.len() - i,
{
    if 0 <= i && i < ms.len() {
        (if ms[i].0 == name {
            1int
        } else {
            0int
        }) + count_key_top_from(ms, name, i + 1)
    } else {
        0
    }
}

/// The value of the first top-level member named `name`, searched from `i`.
pub open spec fn find_key_top_from(
    ms: Seq<(Seq<char>, TopValS)>,
    name: Seq<char>,
    i: int,
) -> Option<TopValS>
    decreases ms.len() - i,
{
    if 0 <= i && i < ms.len() {
        if ms[i].0 == name {
            Some(ms[i].1)
        } else {
            find_key_top_from(ms, name, i + 1)
        }
    } else {
        None
    }
}

/// How often `name` occurs among the nested members, counted from `i`.
pub open spec fn count_key_leaf_from(
    ms: Seq<(Seq<char>, LeafValS)>,
    name: Seq<char>,
    i: int,
) -> int
    decreases ms.len() - i,
{
    if 0 <= i && i < ms.len() {
        (if ms[i].0 == name {
            1int
        } else {
            0int
        }) + count_key_leaf_from(ms, name, i + 1)
    } else {
        0
    }
}

/// The value of the first nested member named `name`, searched from `i`.
pub open spec fn find_key_leaf_from(
    ms: Seq<(Seq<char>, LeafValS)>,
    name: Seq<char>,
    i: int,
) -> Option<LeafValS>
    decreases ms.len() - i,
{
    if 0 <= i && i < ms.len() {
        if ms[i].0 == name {
            Some(ms[i].1)
        } else {
            find_key_leaf_from(ms, name, i + 1)
        }
    } else {
        None
    }
}

/// A nested string field that occurs exactly once.
pub open spec fn spec_cred_str(ms: Seq<(Seq<char>, LeafValS)>, name: Seq<char>) -> Option<
    Seq<char>,
> {
    if count_key_leaf_from(ms, name, 0) == 1 {
        match find_key_leaf_from(ms, name, 0) {
            Some(LeafValS::Str(t)) => Some(t),
            _ => None,
        }
    } else {
        None
    }
}

/// The credentials object: all four fields, each exactly once, the port a
/// sixteen-bit number.
pub open spec fn spec_credentials(ms: Seq<(Seq<char>, LeafValS)>) -> Option<SshCredentialsS> {
    match spec_cred_str(ms, "hostname"@) {
        Some(hostname) => match spec_cred_str(ms, "username"@) {
            Some(username) => match spec_cred_str(ms, "password"@) {
                Some(password) => {
                    if count_key_leaf_from(ms, "port"@, 0) == 1 {
                        match find_key_leaf_from(ms, "port"@, 0) {
                            Some(LeafValS::UInt(n)) => {
                                if n <= 65535 {
                                    Some(
                                        SshCredentialsS {
                                            hostname,
                                            port: n as u16,
                                            username,
                                            password,
                                        },
                                    )
                                } else {
                                    None
                                }
                            },
                            _ => None,
                        }
                    } else {
                        None
                    }
                },
                None => None,
            },
            None => None,
        },
        None => None,
    }
}

/// An optional 32-bit field of the top-level object: absent or null stands
/// for `None`, a fitting number for `Some`; anything else is malformed.
pub open spec fn spec_opt_u32(ms: Seq<(Seq<char>, TopValS)>, name: Seq<char>) -> Option<
    Option<u32>,
> {
    let c = count_key_top_from(ms, name, 0);
    if c == 0 {
        Some(None)
    } else if c == 1 {
        match find_key_top_from(ms, name, 0) {
            Some(TopValS::UInt(n)) => {
                if n <= u32::MAX {
                    Some(Some(n as u32))
                } else {
                    None
                }
            },
            Some(TopValS::Null) => Some(None),
            _ => None,
        }
    } else {
        None
    }
}

/// A required 32-bit field of the top-level object.
pub open spec fn spec_req_u32(ms: Seq<(Seq<char>, TopValS)>, name: Seq<char>) -> Option<u32> {
    if count_key_top_from(ms, name, 0) == 1 {
        match find_key_top_from(ms, name, 0) {
            Some(TopValS::UInt(n)) => {
                if n <= u32::MAX {
                    Some(n as u32)
                } else {
                    None
                }
            },
            _ => None,
        }
    } else {
        None
    }
}

/// The terminal data of an `input` message: the `data` field, with
/// `content` accepted as an alias; present under exactly one of the two
/// names, exactly once, and a string.
pub open spec fn spec_input_data(ms: Seq<(Seq<char>, TopValS)>) -> Option<Seq<char>> {
    let cd = count_key_top_from(ms, "data"@, 0);
    let cc = count_key_top_from(ms, "content"@, 0);
    if cd == 1 && cc == 0 {
        match find_key_top_from(ms, "data"@, 0) {
            Some(TopValS::Str(t)) => Some(t),
            _ => None,
        }
    } else if cd == 0 && cc == 1 {
        match find_key_top_from(ms, "content"@, 0) {
            Some(TopValS::Str(t)) => Some(t),
            _ => None,
        }
    } else {
        None
    }
}

/// The control message described by the members of the top-level object,
/// `None` when they fit no message shape.
pub open spec fn spec_msg_of_members(ms: Seq<(Seq<char>, TopValS)>) -> Option<ClientMessageS> {
    if count_key_top_from(ms, "type"@, 0) != 1 {
        None
    } else {
        match find_key_top_from(ms, "type"@, 0) {
            Some(TopValS::Str(t)) => {
                if t == "connect"@ {
                    if count_key_top_from(ms, "credentials"@, 0) == 1 {
                        match find_key_top_from(ms, "credentials"@, 0) {
                            Some(TopValS::Obj(cm)) => match spec_credentials(cm) {
                                Some(cr) => match spec_opt_u32(ms, "col_width"@) {
                                    Some(cw) => match spec_opt_u32(ms, "row_height"@) {
                                        Some(rh) => Some(
                                            ClientMessageS::Connect {
                                                credentials: cr,
                                                col_width: cw,
                                                row_height: rh,
                                            },
                                        ),
                                        None => None,
                                    },
                                    None => None,
                                },
                                None => None,
                            },
                            _ => None,
                        }
                    } else {
                        None
                    }
                } else if t == "input"@ {
                    match spec_input_data(ms) {
                        Some(d) => Some(ClientMessageS::Input { data: d }),
                        None => None,
                    }
                } else if t == "resize"@ {
                    match spec_req_u32(ms, "width"@) {
                        Some(w) => match spec_req_u32(ms, "height"@) {
                            Some(h) => Some(ClientMessageS::Resize { width: w, height: h }),
                            None => None,
                        },
                        None => None,
                    }
                } else if t == "disconnect"@ {
                    Some(ClientMessageS::Disconnect)
                } else {
                    None
                }
            },
            _ => None,
        }
    }
}

/// How an inbound text frame is classified: the empty frame is ignored; a
/// frame whose first interesting character is not an opening brace is raw
/// input; a frame that parses as a control message is that message; any
/// other frame is raw input.
pub open spec fn spec_classify(t: Seq<char>) -> InboundTextS {
    if t.len() == 0 {
        InboundTextS::Empty
    } else {
        let j = spec_skip_ws(t, 0);
        if !(j < t.len() && t[j] == '{') {
            InboundTextS::Raw(t)
        } else {
            match spec_document(t) {
                Some(ms) => match spec_msg_of_members(ms) {
                    Some(m) => InboundTextS::Control(m),
                    None => InboundTextS::Raw(t),
                },
                None => InboundTextS::Raw(t),
            }
        }
    }
}

/// Text that does not begin with an opening brace — a keystroke, a command
/// line — is never rejected: it is forwarded as raw terminal input.
pub proof fn lemma_non_json_is_raw(t: Seq<char>)
    requires
        t.len() > 0,
        spec_skip_ws(t, 0) == t.len() || t[spec_skip_ws(t, 0)] != '{',
    ensures
        spec_classify(t) == InboundTextS::Raw(t),
{
}


/// Compares a character vector with a literal.
pub fn chars_eq_lit(a: &Vec<char>, b: &str) -> (r: bool)
    ensures
        r == (a@ == b@),
{
    let bv = str_to_chars(b);
    if a.len() != bv.len() {
        return false;
    }
    let mut i: usize = 0;
    while i < a.len()
        invariant
            i <= a@.len(),
            a@.len() == bv@.len(),
            bv@ == b@,
            forall|k: int| 0 <= k < i ==> a@[k] == bv@[k],
        decreases a@.len() - i,
    {
        if a[i] != bv[i] {
            return false;
        }
        i = i + 1;
    }
    proof {
        assert(a@ =~= b@);
    }
    true
}

/// Counts and finds a key among the top-level members: how often it occurs,
/// and the position of its first occurrence.
pub fn key_top_x(ms: &Vec<(Vec<char>, TopVal)>, name: &str) -> (r: (usize, Option<usize>))
    ensures
        r.0 as int == count_key_top_from(top_members_view(ms@), name@, 0),
        match r.1 {
            Some(idx) => {
                &&& idx < ms@.len()
                &&& ms@[idx as int].0@ == name@
                &&& find_key_top_from(top_members_view(ms@), name@, 0) == Some(
                    ms@[idx as int].1@,
                )
            },
            None => find_key_top_from(top_members_view(ms@), name@, 0) is None,
        },
{
    let ghost mv = top_members_view(ms@);
    let mut n: usize = 0;
    let mut found: Option<usize> = None;
    let mut i: usize = 0;
    while i < ms.len()
        invariant
            i <= ms@.len(),
            mv == top_members_view(ms@),
            mv.len() == ms@.len(),
            n <= i,
            n as int + count_key_top_from(mv, name@, i as int) == count_key_top_from(
                mv,
                name@,
                0,
            ),
            match found {
                Some(idx) => {
                    &&& idx < ms@.len()
                    &&& ms@[idx as int].0@ == name@
                    &&& find_key_top_from(mv, name@, 0) == Some(ms@[idx as int].1@)
                },
                None => find_key_top_from(mv, name@, 0) == find_key_top_from(
                    mv,
                    name@,
                    i as int,
                ),
            },
        decreases ms@.len() - i,
    {
        proof {
            assert(mv[i as int] == (ms@[i as int].0@, ms@[i as int].1@));
        }
        if chars_eq_lit(&ms[i].0, name) {
            n = n + 1;
            if found.is_none() {
                found = Some(i);
            }
        }
        i = i + 1;
    }
    (n, found)
}

/// Counts and finds a key among the nested members.
pub fn key_leaf_x(ms: &Vec<(Vec<char>, LeafVal)>, name: &str) -> (r: (usize, Option<usize>))
    ensures
        r.0 as int == count_key_leaf_from(crate::json::leaf_members_view(ms@), name@, 0),
        match r.1 {
            Some(idx) => {
                &&& idx < ms@.len()
                &&& ms@[idx as int].0@ == name@
                &&& find_key_leaf_from(crate::json::leaf_members_view(ms@), name@, 0) == Some(
                    ms@[idx as int].1@,
                )
            },
            None => find_key_leaf_from(crate::json::leaf_members_view(ms@), name@, 0) is None,
        },
{
    let ghost mv = crate::json::leaf_members_view(ms@);
    let mut n: usize = 0;
    let mut found: Option<usize> = None;
    let mut i: usize = 0;
    while i < ms.len()
        invariant
            i <= ms@.len(),
            mv == crate::json::leaf_members_view(ms@),
            mv.len() == ms@.len(),
            n <= i,
            n as int + count_key_leaf_from(mv, name@, i as int) == count_key_leaf_from(
                mv,
                name@,
                0,
            ),
            match found {
                Some(idx) => {
                    &&& idx < ms@.len()
                    &&& ms@[idx as int].0@ == name@
                    &&& find_key_leaf_from(mv, name@, 0) == Some(ms@[idx as int].1@)
                },
                None => find_key_leaf_from(mv, name@, 0) == find_key_leaf_from(
                    mv,
                    name@,
                    i as int,
                ),
            },
        decreases ms@.len() - i,
    {
        proof {
            assert(mv[i as int] == (ms@[i as int].0@, ms@[i as int].1@));
        }
        if chars_eq_lit(&ms[i].0, name) {
            n = n + 1;
            if found.is_none() {
                found = Some(i);
            }
        }
        i = i + 1;
    }
    (n, found)
}

/// Reads one nested string field that must occur exactly once.
fn cred_str_x(ms: &Vec<(Vec<char>, LeafVal)>, name: &str) -> (r: Option<String>)
    ensures
        (r is Some) == (spec_cred_str(crate::json::leaf_members_view(ms@), name@) is Some),
        r is Some ==> Some(r->Some_0@) == spec_cred_str(
            crate::json::leaf_members_view(ms@),
            name@,
        ),
{
    let (n, found) = key_leaf_x(ms, name);
    if n != 1 {
        return None;
    }
    match found {
        Some(idx) => match &ms[idx].1 {
            LeafVal::Str(t) => Some(chars_to_string(t)),
            _ => None,
        },
        None => None,
    }
}

/// Reads the credentials object.
fn credentials_x(ms: &Vec<(Vec<char>, LeafVal)>) -> (r: Option<SshCredentials>)
    ensures
        (r is Some) == (spec_credentials(crate::json::leaf_members_view(ms@)) is Some),
        r is Some ==> Some(r->Some_0@) == spec_credentials(
            crate::json::leaf_members_view(ms@),
        ),
{
    let hostname = match cred_str_x(ms, "hostname") {
        Some(h) => h,
        None => {
            return None;
        },
    };
    let username = match cred_str_x(ms, "username") {
        Some(u) => u,
        None => {
            return None;
        },
    };
    let password = match cred_str_x(ms, "password") {
        Some(p) => p,
        None => {
            return None;
        },
    };
    let (n, found) = key_leaf_x(ms, "port");
    if n != 1 {
        return None;
    }
    match found {
        Some(idx) => match &ms[idx].1 {
            LeafVal::UInt(p) => {
                if *p <= 65535 {
                    Some(
                        SshCredentials {
                            hostname,
                            port: *p as u16,
                            username,
                            password,
                        },
                    )
                } else {
                    None
                }
            },
            _ => None,
        },
        None => None,
    }
}

/// Reads an optional 32-bit field of the top-level object.
fn opt_u32_x(ms: &Vec<(Vec<char>, TopVal)>, name: &str) -> (r: Option<Option<u32>>)
    ensures
        r == spec_opt_u32(top_members_view(ms@), name@),
{
    let (n, found) = key_top_x(ms, name);
    if n == 0 {
        Some(None)
    } else if n == 1 {
        match found {
            Some(idx) => match &ms[idx].1 {
                TopVal::UInt(v) => {
                    if *v <= 0xFFFF_FFFF {
                        Some(Some(*v as u32))
                    } else {
                        None
                    }
                },
                TopVal::Null => Some(None),
                _ => None,
            },
            None => None,
        }
    } else {
        None
    }
}

/// Reads a required 32-bit field of the top-level object.
fn req_u32_x(ms: &Vec<(Vec<char>, TopVal)>, name: &str) -> (r: Option<u32>)
    ensures
        r == spec_req_u32(top_members_view(ms@), name@),
{
    let (n, found) = key_top_x(ms, name);
    if n != 1 {
        return None;
    }
    match found {
        Some(idx) => match &ms[idx].1 {
            TopVal::UInt(v) => {
                if *v <= 0xFFFF_FFFF {
                    Some(*v as u32)
                } else {
                    None
                }
            },
            _ => None,
        },
        None => None,
    }
}

/// Reads the terminal data of an `input` message.
fn input_data_x(ms: &Vec<(Vec<char>, TopVal)>) -> (r: Option<String>)
    ensures
        (r is Some) == (spec_input_data(top_members_view(ms@)) is Some),
        r is Some ==> Some(r->Some_0@) == spec_input_data(top_members_view(ms@)),
{
    let (cd, fd) = key_top_x(ms, "data");
    let (cc, fc) = key_top_x(ms, "content");
    if cd == 1 && cc == 0 {
        match fd {
            Some(idx) => match &ms[idx].1 {
                TopVal::Str(t) => Some(chars_to_string(t)),
                _ => None,
            },
            None => None,
        }
    } else if cd == 0 && cc == 1 {
        match fc {
            Some(idx) => match &ms[idx].1 {
                TopVal::Str(t) => Some(chars_to_string(t)),
                _ => None,
            },
            None => None,
        }
    } else {
        None
    }
}

/// Assembles the control message from the members of the top-level object.
pub fn msg_of_members_x(ms: &Vec<(Vec<char>, TopVal)>) -> (r: Option<ClientMessage>)
    ensures
        (r is Some) == (spec_msg_of_members(top_members_view(ms@)) is Some),
        r is Some ==> Some(r->Some_0@) == spec_msg_of_members(top_members_view(ms@)),
{
    let (tn, tf) = key_top_x(ms, "type");
    if tn != 1 {
        return None;
    }
    let t = match tf {
        Some(idx) => match &ms[idx].1 {
            TopVal::Str(t) => t,
            _ => {
                return None;
            },
        },
        None => {
            return None;
        },
    };
    if chars_eq_lit(t, "connect") {
        let (cn, cf) = key_top_x(ms, "credentials");
        if cn != 1 {
            return None;
        }
        let cm = match cf {
            Some(idx) => match &ms[idx].1 {
                TopVal::Obj(cm) => cm,
                _ => {
                    return None;
                },
            },
            None => {
                return None;
            },
        };
        let cr = match credentials_x(cm) {
            Some(cr) => cr,
            None => {
                return None;
            },
        };
        let cw = match opt_u32_x(ms, "col_width") {
            Some(cw) => cw,
            None => {
                return None;
            },
        };
        let rh = match opt_u32_x(ms, "row_height") {
            Some(rh) => rh,
            None => {
                return None;
            },
        };
        Some(ClientMessage::Connect { credentials: cr, col_width: cw, row_height: rh })
    } else if chars_eq_lit(t, "input") {
        match input_data_x(ms) {
            Some(d) => Some(ClientMessage::Input { data: d }),
            None => None,
        }
    } else if chars_eq_lit(t, "resize") {
        let w = match req_u32_x(ms, "width") {
            Some(w) => w,
            None => {
                return None;
            },
        };
        let h = match req_u32_x(ms, "height") {
            Some(h) => h,
            None => {
                return None;
            },
        };
        Some(ClientMessage::Resize { width: w, height: h })
    } else if chars_eq_lit(t, "disconnect") {
        Some(ClientMessage::Disconnect)
    } else {
        None
    }
}

/// Classifies one inbound text frame.
pub fn classify_text(text: &str) -> (r: InboundText)
    ensures
        r@ == spec_classify(text@),
{
    let chars = str_to_chars(text);
    if chars.len() == 0 {
        return InboundText::Empty;
    }
    let j = crate::json::skip_ws_x(&chars, 0);
    if j >= chars.len() {
        return InboundText::Raw(String::from_str(text));
    }
    if chars[j] != '{' {
        return InboundText::Raw(String::from_str(text));
    }
    match document_x(&chars) {
        Some(ms) => match msg_of_members_x(&ms) {
            Some(m) => InboundText::Control(m),
            None => InboundText::Raw(String::from_str(text)),
        },
        None => InboundText::Raw(String::from_str(text)),
    }
}


/// The hexadecimal digit with value `d`, lower case.
pub open spec fn hex_digit_of(d: int) -> char {
    if d < 10 {
        digit_of(d)
    } else if d == 10 {
        'a'
    } else if d == 11 {
        'b'
    } else if d == 12 {
        'c'
    } else if d == 13 {
        'd'
    } else if d == 14 {
        'e'
    } else {
        'f'
    }
}

/// The JSON escape of one character: quote, backslash and the named control
/// characters by their short escapes, other control characters as `\u00..`,
/// everything else as itself.
pub open spec fn esc_char(c: char) -> Seq<char> {
    if c == '"' {
        seq!['\\', '"']
    } else if c == '\\' {
        seq!['\\', '\\']
    } else if c == '\n' {
        seq!['\\', 'n']
    } else if c == '\r' {
        seq!['\\', 'r']
    } else if c == '\t' {
        seq!['\\', 't']
    } else if c == '\u{8}' {
        seq!['\\', 'b']
    } else if c == '\u{c}' {
        seq!['\\', 'f']
    } else if (c as u32) < 0x20 {
        seq!['\\', 'u', '0', '0', hex_digit_of((c as int) / 16), hex_digit_of((c as int) % 16)]
    } else {
        seq![c]
    }
}

/// The JSON escape of a whole string.
pub open spec fn esc_str(s: Seq<char>) -> Seq<char>
    decreases s.len(),
{
    if s.len() == 0 {
        Seq::empty()
    } else {
        esc_str(s.drop_last()) + esc_char(s.last())
    }
}

/// The hexadecimal digit with value `d`, lower case.
pub fn hex_digit_glyph(d: u32) -> (c: char)
    requires
        d < 16,
    ensures
        c == hex_digit_of(d as int),
{
    if d < 10 {
        crate::text::digit_glyph(d as u8)
    } else if d == 10 {
        'a'
    } else if d == 11 {
        'b'
    } else if d == 12 {
        'c'
    } else if d == 13 {
        'd'
    } else if d == 14 {
        'e'
    } else {
        'f'
    }
}

/// Appends the JSON escape of one character.
fn push_esc_char(out: &mut Vec<char>, c: char)
    ensures
        final(out)@ == old(out)@ + esc_char(c),
{
    if c == '"' {
        out.push('\\');
        out.push('"');
    } else if c == '\\' {
        out.push('\\');
        out.push('\\');
    } else if c == '\n' {
        out.push('\\');
        out.push('n');
    } else if c == '\r' {
        out.push('\\');
        out.push('r');
    } else if c == '\t' {
        out.push('\\');
        out.push('t');
    } else if c == '\u{8}' {
        out.push('\\');
        out.push('b');
    } else if c == '\u{c}' {
        out.push('\\');
        out.push('f');
    } else if (c as u32) < 0x20 {
        out.push('\\');
        out.push('u');
        out.push('0');
        out.push('0');
        out.push(hex_digit_glyph((c as u32) / 16));
        out.push(hex_digit_glyph((c as u32) % 16));
    } else {
        out.push(c);
    }
    proof {
        assert(out@ =~= old(out)@ + esc_char(c));
    }
}

/// Appends a literal unescaped.
fn push_lit(out: &mut Vec<char>, lit: &str)
    ensures
        final(out)@ == old(out)@ + lit@,
{
    let mut v = str_to_chars(lit);
    out.append(&mut v);
}

/// Appends the JSON escape of a whole string.
fn push_escaped(out: &mut Vec<char>, s: &str)
    ensures
        final(out)@ == old(out)@ + esc_str(s@),
{
    let v = str_to_chars(s);
    let mut i: usize = 0;
    while i < v.len()
        invariant
            i <= v@.len(),
            v@ == s@,
            out@ == old(out)@ + esc_str(s@.subrange(0, i as int)),
        decreases v@.len() - i,
    {
        push_esc_char(out, v[i]);
        proof {
            let t = s@.subrange(0, i as int + 1);
            assert(t.drop_last() =~= s@.subrange(0, i as int));
            assert(t.last() == s@[i as int]);
        }
        i = i + 1;
    }
    proof {
        assert(s@.subrange(0, s@.len() as int) =~= s@);
    }
}

/// The `connected` frame, keys in sorted order.
pub open spec fn spec_connected_frame(host: Seq<char>, port: u16, username: Seq<char>) -> Seq<
    char,
> {
    "{\"host\":\""@ + esc_str(host) + "\",\"port\":"@ + crate::text::dec_of(port as nat)
        + ",\"type\":\"connected\",\"username\":\""@ + esc_str(username) + "\"}"@
}

/// The `output` frame: the text under both its names, keys in sorted order.
pub open spec fn spec_output_frame(data: Seq<char>) -> Seq<char> {
    "{\"content\":\""@ + esc_str(data) + "\",\"data\":\""@ + esc_str(data)
        + "\",\"type\":\"output\"}"@
}

/// The `error` frame, keys in sorted order.
pub open spec fn spec_error_frame(message: Seq<char>) -> Seq<char> {
    "{\"message\":\""@ + esc_str(message) + "\",\"type\":\"error\"}"@
}

/// The `disconnected` frame.
pub open spec fn spec_disconnected_frame() -> Seq<char> {
    "{\"type\":\"disconnected\"}"@
}

/// Renders the `connected` frame.
pub fn connected_frame(host: &str, port: u16, username: &str) -> (r: String)
    ensures
        r@ == spec_connected_frame(host@, port, username@),
{
    let mut out: Vec<char> = Vec::new();
    push_lit(&mut out, "{\"host\":\"");
    push_escaped(&mut out, host);
    push_lit(&mut out, "\",\"port\":");
    crate::text::push_decimal(&mut out, port as u64);
    push_lit(&mut out, ",\"type\":\"connected\",\"username\":\"");
    push_escaped(&mut out, username);
    push_lit(&mut out, "\"}");
    chars_to_string(&out)
}

/// Renders the `output` frame.
pub fn output_frame(data: &str) -> (r: String)
    ensures
        r@ == spec_output_frame(data@),
{
    let mut out: Vec<char> = Vec::new();
    push_lit(&mut out, "{\"content\":\"");
    push_escaped(&mut out, data);
    push_lit(&mut out, "\",\"data\":\"");
    push_escaped(&mut out, data);
    push_lit(&mut out, "\",\"type\":\"output\"}");
    chars_to_string(&out)
}

/// Renders the `error` frame.
pub fn error_frame(message: &str) -> (r: String)
    ensures
        r@ == spec_error_frame(message@),
{
    let mut out: Vec<char> = Vec::new();
    push_lit(&mut out, "{\"message\":\"");
    push_escaped(&mut out, message);
    push_lit(&mut out, "\",\"type\":\"error\"}");
    chars_to_string(&out)
}

/// Renders the `disconnected` frame.
pub fn disconnected_frame() -> (r: String)
    ensures
        r@ == spec_disconnected_frame(),
{
    let mut out: Vec<char> = Vec::new();
    push_lit(&mut out, "{\"type\":\"disconnected\"}");
    chars_to_string(&out)
}

} // verus!
