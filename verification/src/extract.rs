//! Extraction of the two session tokens from the portal's logon page.
//!
//! The logon page carries a session identifier in an inline script, assigned
//! as `sessionId='<value>';`, and an anti-forgery token as the `value`
//! attribute of a hidden input named `org.apache.struts.taglib.html.TOKEN`.
//! Both are pulled out with the fixed patterns below; failing to find either
//! one is the `NoSession` error.

use vstd::prelude::*;
use vstd::string::StrSliceExecFns;

use crate::errors::AspenError;
use crate::errors::ProjError;
use crate::pattern::captured;
use crate::pattern::find_capture;
use crate::pattern::has_match;
use crate::pattern::is_captured_value;
use crate::pattern::leftmost_greedy;
use crate::pattern::str_to_chars;

verus! {

/// The literal before the session identifier: `sessionId='(.+)';`.
pub open spec fn session_prefix() -> Seq<char> {
    "sessionId='"@
}

/// The literal after the session identifier.
pub open spec fn session_suffix() -> Seq<char> {
    "';"@
}

/// The literal before the anti-forgery token:
/// `name="org.apache.struts.taglib.html.TOKEN" value="(.+)"`.
pub open spec fn token_prefix() -> Seq<char> {
    "name=\"org.apache.struts.taglib.html.TOKEN\" value=\""@
}

/// The literal after the anti-forgery token.
pub open spec fn token_suffix() -> Seq<char> {
    "\""@
}

/// The logon page yields a session identifier.
pub open spec fn has_session_id(html: Seq<char>) -> bool {
    has_match(html, session_prefix(), session_suffix())
}

/// The logon page yields an anti-forgery token.
pub open spec fn has_apache_token(html: Seq<char>) -> bool {
    has_match(html, token_prefix(), token_suffix())
}

/// `v` is the session identifier the page `html` yields.
pub open spec fn is_session_id_of(html: Seq<char>, v: Seq<char>) -> bool {
    is_captured_value(html, session_prefix(), session_suffix(), v)
}

/// `v` is the anti-forgery token the page `html` yields.
pub open spec fn is_apache_token_of(html: Seq<char>, v: Seq<char>) -> bool {
    is_captured_value(html, token_prefix(), token_suffix(), v)
}

/// The tokens one bootstrap of the portal yields: the session identifier and
/// the anti-forgery token, both threaded unchanged through every later
/// request of the same flow.
#[derive(Debug, PartialEq, Eq)]
pub struct AspenInfo {
    /// Session identifier, carried as a cookie value on later requests.
    pub session_id: String,
    /// Anti-forgery token, sent back as a query parameter on login.
    pub apache_token: String,
}

/// Pull the session identifier and anti-forgery token out of the logon page.
/// Both patterns must match; the captures are those of the leftmost-greedy
/// matches, in the order (session identifier, anti-forgery token).
pub fn extract_session_tokens(html: &str) -> (r: Result<(String, String), AspenError>)
    ensures
        r is Ok <==> has_session_id(html@) && has_apache_token(html@),
        r matches Ok(t) ==> is_session_id_of(html@, t.0@) && is_apache_token_of(html@, t.1@),
        r matches Ok(t) ==> t.0@.len() >= 1 && t.1@.len() >= 1,
        r matches Err(e) ==> e == AspenError::NoSession,
{
    proof {
        reveal_strlit("sessionId='");
        reveal_strlit("';");
        reveal_strlit("name=\"org.apache.struts.taglib.html.TOKEN\" value=\"");
        reveal_strlit("\"");
    }
    let chars = str_to_chars(html);
    let s_pre = str_to_chars("sessionId='");
    let s_suf = str_to_chars("';");
    let t_pre = str_to_chars("name=\"org.apache.struts.taglib.html.TOKEN\" value=\"");
    let t_suf = str_to_chars("\"");
    let session = match find_capture(&chars, &s_pre, &s_suf) {
        Some(m) => m,
        None => {
            return Err(AspenError::NoSession);
        },
    };
    let token = match find_capture(&chars, &t_pre, &t_suf) {
        Some(m) => m,
        None => {
            return Err(AspenError::NoSession);
        },
    };
    let text_len = chars.len();
    proof {
        assert(leftmost_greedy(
            html@,
            session_prefix(),
            session_suffix(),
            session.0 as int,
            session.1 as int,
        ));
        assert(leftmost_greedy(
            html@,
            token_prefix(),
            token_suffix(),
            token.0 as int,
            token.1 as int,
        ));
        assert(session.0 + s_pre@.len() + session.1 <= text_len);
        assert(token.0 + t_pre@.len() + token.1 <= text_len);
    }
    let s_start = session.0 + s_pre.len();
    let session_id = html.substring_char(s_start, s_start + session.1).to_owned();
    let t_start = token.0 + t_pre.len();
    let apache_token = html.substring_char(t_start, t_start + token.1).to_owned();
    proof {
        assert(session_id@ == captured(
            html@,
            session_prefix(),
            session.0 as int,
            session.1 as int,
        ));
        assert(apache_token@ == captured(html@, token_prefix(), token.0 as int, token.1 as int));
        assert(is_session_id_of(html@, session_id@));
        assert(is_apache_token_of(html@, apache_token@));
        assert(crate::pattern::match_from(
            html@,
            session_prefix(),
            session_suffix(),
            session.0 as int,
        ));
        assert(crate::pattern::match_from(html@, token_prefix(), token_suffix(), token.0 as int));
        assert(has_session_id(html@));
        assert(has_apache_token(html@));
    }
    Ok((session_id, apache_token))
}

impl AspenInfo {
    /// Bootstrap a session context from the body of the logon page: extract
    /// both tokens, or report `NoSession` when either pattern fails.
    pub fn new(html: &str) -> (r: Result<AspenInfo, ProjError>)
        ensures
            r is Ok <==> has_session_id(html@) && has_apache_token(html@),
            r matches Ok(info) ==> is_session_id_of(html@, info.session_id@)
                && is_apache_token_of(html@, info.apache_token@),
            r matches Ok(info) ==> info.session_id@.len() >= 1 && info.apache_token@.len() >= 1,
            r matches Err(e) ==> e == ProjError::Aspen(AspenError::NoSession),
    {
        match extract_session_tokens(html) {
            Ok(t) => Ok(AspenInfo { session_id: t.0, apache_token: t.1 }),
            Err(e) => Err(ProjError::Aspen(e)),
        }
    }
}

} // verus!
