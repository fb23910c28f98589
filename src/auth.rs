//! Challenge-response login against the gateway: the decisions between the
//! two requests, the session reply, and the response to a challenge.
use vstd::prelude::*;

use crate::number::{parse_u32, unsigned_value};
use crate::xml::{
    child, child_indices, child_text, children, get_child, get_child_text, parse_document,
    same_text, text_of, xml_nodes_of, XmlDoc, XmlError,
};

verus! {

/// Session id the gateway reports while no one is logged in.
pub const NO_SESSION: &'static str = "0000000000000000";

#[derive(Debug, Clone, Copy, PartialEq, Eq, Structural)]
pub enum PermissionKind {
    BoxAdmin,
    HomeAuto,
    Nas,
    App,
    Phone,
}

#[derive(Debug, Clone, Copy, PartialEq, Eq, Structural)]
pub enum PermissionLevel {
    Read,
    ReadWrite,
}

#[derive(Debug, Clone, Copy, PartialEq, Eq, Structural)]
pub struct Permission {
    pub kind: PermissionKind,
    pub level: PermissionLevel,
}

/// What one reply of the login endpoint says.
pub struct SessionInfo {
    pub sid: String,
    pub challenge: String,
    pub block_time: u32,
    pub permissions: Vec<Permission>,
}

pub enum AuthError {
    /// The reply is not a readable session document.
    Reply(XmlError),
    /// `BlockTime` is not a number.
    BlockTime,
    /// The gateway still reports no session after the response was sent.
    InvalidCredentials,
    /// The session does not grant home automation.
    InsufficientPermission,
}

/// What to do after the first reply of the login endpoint.
pub enum LoginStep {
    /// A session exists already: use it.
    Done(String),
    /// Ask again with these query parameters.
    Respond { username: String, response: String },
}

pub open spec fn kind_of(t: Option<Seq<char>>) -> Option<PermissionKind> {
    match t {
        Some(s) => if s == "BoxAdmin"@ {
            Some(PermissionKind::BoxAdmin)
        } else if s == "HomeAuto"@ {
            Some(PermissionKind::HomeAuto)
        } else if s == "NAS"@ {
            Some(PermissionKind::Nas)
        } else if s == "App"@ {
            Some(PermissionKind::App)
        } else if s == "Phone"@ {
            Some(PermissionKind::Phone)
        } else {
            None
        },
        None => None,
    }
}

pub open spec fn level_of(t: Option<Seq<char>>) -> Option<PermissionLevel> {
    match t {
        Some(s) => if s == "1"@ {
            Some(PermissionLevel::Read)
        } else if s == "2"@ {
            Some(PermissionLevel::ReadWrite)
        } else {
            None
        },
        None => None,
    }
}

/// The permissions that the nodes `kids` list: each node at an even position
/// names a kind, the node after it a level; pairs that do not read are left out.
pub open spec fn permissions_of(doc: XmlDoc, kids: Seq<usize>) -> Seq<Permission>
    decreases kids.len(),
{
    if kids.len() < 2 {
        seq![]
    } else {
        let rest = permissions_of(doc, kids.skip(2));
        match (kind_of(text_of(doc, kids[0] as int)), level_of(text_of(doc, kids[1] as int))) {
            (Some(k), Some(l)) => seq![Permission { kind: k, level: l }] + rest,
            _ => rest,
        }
    }
}

/// Index of the `SessionInfo` element under the document root.
pub open spec fn session_node(doc: XmlDoc) -> usize {
    child(doc, 0, "SessionInfo"@)->0 as usize
}

/// Whether a document holds every part of a session reply.
pub open spec fn session_readable(doc: XmlDoc) -> bool {
    &&& child(doc, 0, "SessionInfo"@) is Some
    &&& child_text(doc, session_node(doc), "SID"@) is Some
    &&& child_text(doc, session_node(doc), "Challenge"@) is Some
    &&& child_text(doc, session_node(doc), "BlockTime"@) is Some
    &&& unsigned_value(child_text(doc, session_node(doc), "BlockTime"@)->0, u32::MAX as int) is Some
    &&& child(doc, session_node(doc), "Rights"@) is Some
}

/// Whether `info` is what a readable session document says.
pub open spec fn session_matches(doc: XmlDoc, info: SessionInfo) -> bool {
    let s = session_node(doc);
    &&& info.sid@ == child_text(doc, s, "SID"@)->0
    &&& info.challenge@ == child_text(doc, s, "Challenge"@)->0
    &&& info.block_time as int == unsigned_value(
        child_text(doc, s, "BlockTime"@)->0,
        u32::MAX as int,
    )->0
    &&& info.permissions@ == permissions_of(doc, children(doc, child(doc, s, "Rights"@)->0 as usize))
}

pub open spec fn has_home_auto(perms: Seq<Permission>) -> bool {
    exists|i: int| 0 <= i < perms.len() && (#[trigger] perms[i]).kind == PermissionKind::HomeAuto
}

/// Little-endian UTF-16 bytes of one character.
pub open spec fn char_utf16le(c: char) -> Seq<u8> {
    let v = c as u32;
    if v < 0x10000 {
        seq![(v % 256) as u8, (v / 256) as u8]
    } else {
        let hi = (0xD800 + (v - 0x10000) / 0x400) as u32;
        let lo = (0xDC00 + (v - 0x10000) % 0x400) as u32;
        seq![(hi % 256) as u8, (hi / 256) as u8, (lo % 256) as u8, (lo / 256) as u8]
    }
}

/// Little-endian UTF-16 bytes of a text.
pub open spec fn utf16le(s: Seq<char>) -> Seq<u8>
    decreases s.len(),
{
    if s.len() == 0 {
        seq![]
    } else {
        utf16le(s.drop_last()) + char_utf16le(s.last())
    }
}

/// Lowercase hex digits of the MD5 digest of `data`.
pub uninterp spec fn md5_hex(data: Seq<u8>) -> Seq<char>;

/// The gateway's answer to `challenge` for `password`:
/// `challenge-hex(md5(utf16le(challenge-password)))`.
pub open spec fn response_spec(challenge: Seq<char>, password: Seq<char>) -> Seq<char> {
    challenge + seq!['-'] + md5_hex(utf16le(challenge + seq!['-'] + password))
}

/// Relies on md5::compute and the LowerHex form of its digest: two lowercase
/// hex digits for each of the 16 bytes.
#[verifier::external_body]
fn md5_lower_hex(data: &Vec<u8>) -> (r: String)
    ensures
        r@ == md5_hex(data@),
        r@.len() == 32,
{
    format!("{:x}", md5::compute(data))
}

impl PermissionKind {
    pub fn parse(text: &Option<String>) -> (r: Option<PermissionKind>)
        ensures
            r == kind_of(
                match text {
                    Some(t) => Some(t@),
                    None => None,
                },
            ),
    {
        match text {
            Some(t) => {
                let t = t.as_str();
                if same_text(t, "BoxAdmin") {
                    Some(PermissionKind::BoxAdmin)
                } else if same_text(t, "HomeAuto") {
                    Some(PermissionKind::HomeAuto)
                } else if same_text(t, "NAS") {
                    Some(PermissionKind::Nas)
                } else if same_text(t, "App") {
                    Some(PermissionKind::App)
                } else if same_text(t, "Phone") {
                    Some(PermissionKind::Phone)
                } else {
                    None
                }
            },
            None => None,
        }
    }
}

impl PermissionLevel {
    pub fn parse(text: &Option<String>) -> (r: Option<PermissionLevel>)
        ensures
            r == level_of(
                match text {
                    Some(t) => Some(t@),
                    None => None,
                },
            ),
    {
        match text {
            Some(t) => {
                let t = t.as_str();
                if same_text(t, "1") {
                    Some(PermissionLevel::Read)
                } else if same_text(t, "2") {
                    Some(PermissionLevel::ReadWrite)
                } else {
                    None
                }
            },
            None => None,
        }
    }
}

/// The permissions listed by the nodes `kids` of `doc`.
pub fn parse_permissions(doc: &XmlDoc, kids: &Vec<usize>) -> (r: Vec<Permission>)
    requires
        forall|i: int| 0 <= i < kids@.len() ==> (#[trigger] kids@[i]) < doc.nodes@.len(),
    ensures
        r@ == permissions_of(*doc, kids@),
{
    let mut out: Vec<Permission> = Vec::new();
    let mut i: usize = 0;
    assert(kids@.skip(0) =~= kids@);
    assert(out@ + permissions_of(*doc, kids@) =~= permissions_of(*doc, kids@));
    while kids.len() - i > 1
        invariant
            i <= kids@.len(),
            forall|k: int| 0 <= k < kids@.len() ==> (#[trigger] kids@[k]) < doc.nodes@.len(),
            permissions_of(*doc, kids@) == out@ + permissions_of(*doc, kids@.skip(i as int)),
        decreases kids@.len() - i,
    {
        let ghost rest = kids@.skip(i as int);
        assert(rest.skip(2) =~= kids@.skip(i + 2));
        assert(rest[0] == kids@[i as int] && rest[1] == kids@[i + 1]);
        let kind = PermissionKind::parse(&doc.nodes[kids[i]].text);
        let level = PermissionLevel::parse(&doc.nodes[kids[i + 1]].text);
        match (kind, level) {
            (Some(k), Some(l)) => {
                let p = Permission { kind: k, level: l };
                assert(out@.push(p) + permissions_of(*doc, kids@.skip(i + 2)) =~= out@ + (seq![p]
                    + permissions_of(*doc, kids@.skip(i + 2))));
                out.push(p);
            },
            _ => {},
        }
        i = i + 2;
    }
    assert(out@ + permissions_of(*doc, kids@.skip(i as int)) =~= out@);
    out
}

impl SessionInfo {
    /// Reads a session reply out of its document.
    pub fn from_xml(doc: &XmlDoc) -> (r: Result<SessionInfo, AuthError>)
        ensures
            r is Ok <==> session_readable(*doc),
            r is Ok ==> session_matches(*doc, r->Ok_0),
    {
        let info = match get_child(doc, 0, "SessionInfo") {
            Ok(i) => i,
            Err(e) => return Err(AuthError::Reply(e)),
        };
        let sid = match get_child_text(doc, info, "SID") {
            Ok(t) => t,
            Err(e) => return Err(AuthError::Reply(e)),
        };
        let challenge = match get_child_text(doc, info, "Challenge") {
            Ok(t) => t,
            Err(e) => return Err(AuthError::Reply(e)),
        };
        let block_text = match get_child_text(doc, info, "BlockTime") {
            Ok(t) => t,
            Err(e) => return Err(AuthError::Reply(e)),
        };
        let block_time = match parse_u32(block_text.as_str()) {
            Some(v) => v,
            None => return Err(AuthError::BlockTime),
        };
        let rights = match get_child(doc, info, "Rights") {
            Ok(i) => i,
            Err(e) => return Err(AuthError::Reply(e)),
        };
        let kids = child_indices(doc, rights);
        let permissions = parse_permissions(doc, &kids);
        Ok(SessionInfo { sid, challenge, block_time, permissions })
    }

    /// Reads a reply body of the login endpoint.
    pub fn parse(body: &str) -> (r: Result<SessionInfo, AuthError>)
        ensures
            xml_nodes_of(body@) is None ==> r matches Err(AuthError::Reply(XmlError::Syntax)),
            xml_nodes_of(body@) is Some ==> exists|d: XmlDoc|
                d@ == xml_nodes_of(body@)->0 && (r is Ok <==> session_readable(d)) && (r is Ok
                    ==> session_matches(d, r->Ok_0)),
    {
        match parse_document(body) {
            Ok(doc) => SessionInfo::from_xml(&doc),
            Err(e) => Err(AuthError::Reply(e)),
        }
    }

    /// Whether the session grants home automation.
    pub fn allows_home_auto(&self) -> (r: bool)
        ensures
            r == has_home_auto(self.permissions@),
    {
        let n = self.permissions.len();
        let mut i: usize = 0;
        while i < n
            invariant
                n == self.permissions@.len(),
                i <= n,
                forall|k: int|
                    0 <= k < i ==> (#[trigger] self.permissions@[k]).kind
                        != PermissionKind::HomeAuto,
            decreases n - i,
        {
            if self.permissions[i].kind == PermissionKind::HomeAuto {
                return true;
            }
            i = i + 1;
        }
        false
    }
}

/// Little-endian UTF-16 bytes of `s`.
pub fn utf16le_bytes(s: &str) -> (r: Vec<u8>)
    ensures
        r@ == utf16le(s@),
{
    let n = s.unicode_len();
    let mut out: Vec<u8> = Vec::new();
    let mut i: usize = 0;
    while i < n
        invariant
            n == s@.len(),
            i <= n,
            out@ == utf16le(s@.take(i as int)),
        decreases n - i,
    {
        let c = s.get_char(i);
        let v: u32 = c as u32;
        let ghost before = out@;
        if v < 0x10000 {
            out.push((v % 256) as u8);
            out.push((v / 256) as u8);
        } else {
            let w: u32 = v - 0x10000;
            let hi: u32 = 0xD800 + w / 0x400;
            let lo: u32 = 0xDC00 + w % 0x400;
            out.push((hi % 256) as u8);
            out.push((hi / 256) as u8);
            out.push((lo % 256) as u8);
            out.push((lo / 256) as u8);
        }
        assert(s@.take(i + 1).drop_last() =~= s@.take(i as int));
        assert(out@ =~= before + char_utf16le(c));
        i = i + 1;
    }
    assert(s@.take(n as int) =~= s@);
    out
}

/// `challenge-digest`: the response text around a digest.
pub fn join_response(challenge: &str, digest: &str) -> (r: String)
    ensures
        r@ == challenge@ + seq!['-'] + digest@,
{
    let mut out = String::from_str(challenge);
    proof {
        reveal_strlit("-");
    }
    out.append("-");
    out.append(digest);
    out
}

/// The response that proves knowledge of `password` for `challenge`.
pub fn create_response(challenge: &str, password: &str) -> (r: String)
    ensures
        r@ == response_spec(challenge@, password@),
{
    let mut input = String::from_str(challenge);
    proof {
        reveal_strlit("-");
    }
    input.append("-");
    input.append(password);
    assert(input@ =~= challenge@ + seq!['-'] + password@);
    let bytes = utf16le_bytes(input.as_str());
    let digest = md5_lower_hex(&bytes);
    join_response(challenge, digest.as_str())
}

/// Decides on the first reply: keep a session that exists, or answer the challenge.
pub fn first_step(info: &SessionInfo, username: &str, password: &str) -> (r: LoginStep)
    ensures
        info.sid@ != NO_SESSION@ ==> (r matches LoginStep::Done(s) && s@ == info.sid@),
        info.sid@ == NO_SESSION@ ==> (r matches LoginStep::Respond { username: u, response: x }
            && u@ == username@ && x@ == response_spec(info.challenge@, password@)),
{
    if !same_text(info.sid.as_str(), NO_SESSION) {
        LoginStep::Done(info.sid.clone())
    } else {
        let response = create_response(info.challenge.as_str(), password);
        LoginStep::Respond { username: String::from_str(username), response }
    }
}

/// Decides on the reply to the response: the session id, or why there is none.
pub fn finish_login(info: &SessionInfo) -> (r: Result<String, AuthError>)
    ensures
        info.sid@ == NO_SESSION@ ==> r matches Err(AuthError::InvalidCredentials),
        info.sid@ != NO_SESSION@ && !has_home_auto(info.permissions@) ==> r matches Err(
            AuthError::InsufficientPermission,
        ),
        info.sid@ != NO_SESSION@ && has_home_auto(info.permissions@) ==> r is Ok && r->Ok_0@
            == info.sid@,
{
    if same_text(info.sid.as_str(), NO_SESSION) {
        return Err(AuthError::InvalidCredentials);
    }
    if !info.allows_home_auto() {
        return Err(AuthError::InsufficientPermission);
    }
    Ok(info.sid.clone())
}

} // verus!
