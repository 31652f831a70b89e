//! The request and response payload shapes of the protocol's endpoints, with
//! verified serializers to their canonical JSON params text and parsers that
//! read that text back with insignificant whitespace skipped.
//!
//! Every parser is exact: its result equals a spec-level reading of the text,
//! and a serializer followed by the matching parser returns the value that
//! was written (see the round-trip lemmas).

use vstd::prelude::*;

use crate::ids::AppPublicId;
use crate::json::{
    dec_of, dec_value, digits_end, escape_json_string, format_u64, json_escape,
    lemma_dec_round_trip, lemma_digits_end_exact, lemma_unesc_escape, parse_json_string_body,
    parse_u64, skip_ws, unesc, ws_end,
};
use crate::envelope::match_lit;

verus! {

/// Reads, at position `i`, a `"<key>"` member name, its colon, and a string
/// value, with insignificant whitespace skipped before each token: the
/// decoded value and the position after the value's closing quote.
pub open spec fn spec_member_string(s: Seq<char>, i: nat, key: Seq<char>) -> Option<
    (Seq<char>, nat),
>
    recommends
        i <= s.len(),
{
    let i2 = ws_end(s, i);
    if i2 + key.len() <= s.len() && s.subrange(i2 as int, (i2 + key.len()) as int) == key {
        let i3 = ws_end(s, i2 + key.len());
        if i3 < s.len() && s[i3 as int] == ':' {
            let v0 = ws_end(s, i3 + 1);
            if v0 < s.len() && s[v0 as int] == '"' {
                unesc(s, v0 + 1)
            } else {
                Option::None
            }
        } else {
            Option::None
        }
    } else {
        Option::None
    }
}

/// Parses, at position `i`, a `"<key>"` member name, its colon, and a
/// string value.
pub fn parse_member_string(s: &str, i: usize, key: &str) -> (r: Option<(String, usize)>)
    requires
        i <= s@.len(),
    ensures
        r matches Some((v, j)) ==> spec_member_string(s@, i as nat, key@) == Some((v@, j as nat))
            && i < j <= s@.len(),
        r is None ==> spec_member_string(s@, i as nat, key@) is None,
{
    let len = s.unicode_len();
    let i2 = skip_ws(s, i);
    if !match_lit(s, i2, key) {
        return None;
    }
    let kl = key.unicode_len();
    let i3 = skip_ws(s, i2 + kl);
    if !(i3 < len && s.get_char(i3) == ':') {
        return None;
    }
    let v0 = skip_ws(s, i3 + 1);
    if !(v0 < len && s.get_char(v0) == '"') {
        return None;
    }
    parse_json_string_body(s, v0 + 1)
}

/// Reads `{"<key>":"<string>"}` with insignificant whitespace skipped: `key`
/// is the quoted field name; the result is the decoded string value.
pub open spec fn spec_string_object(s: Seq<char>, key: Seq<char>) -> Option<Seq<char>> {
    let i1 = ws_end(s, 0);
    if i1 < s.len() && s[i1 as int] == '{' {
        match spec_member_string(s, i1 + 1, key) {
            Option::None => Option::None,
            Option::Some((v, j)) => {
                let i4 = ws_end(s, j);
                if i4 < s.len() && s[i4 as int] == '}' && ws_end(s, i4 + 1) == s.len() {
                    Option::Some(v)
                } else {
                    Option::None
                }
            },
        }
    } else {
        Option::None
    }
}

/// Parses `{"<key>":"<string>"}` where `key` is the quoted field name.
pub fn parse_string_object(s: &str, key: &str) -> (r: Option<String>)
    ensures
        r matches Some(v) ==> spec_string_object(s@, key@) == Some(v@),
        r is Some <==> spec_string_object(s@, key@) is Some,
{
    let len = s.unicode_len();
    let i1 = skip_ws(s, 0);
    if !(i1 < len && s.get_char(i1) == '{') {
        return None;
    }
    match parse_member_string(s, i1 + 1, key) {
        Some((v, j)) => {
            let i4 = skip_ws(s, j);
            if i4 < len && s.get_char(i4) == '}' && skip_ws(s, i4 + 1) == len {
                Some(v)
            } else {
                None
            }
        },
        None => None,
    }
}

/// The member text `"<key>":"<escape of v>"` standing at `i` reads back as
/// exactly `v`, ending just after the value's closing quote.
pub proof fn lemma_member_string_exact(s: Seq<char>, i: nat, key: Seq<char>, v: Seq<char>)
    requires
        key.len() > 0,
        !crate::json::is_json_ws(key[0]),
        i + key.len() + 2 + json_escape(v).len() + 1 <= s.len(),
        s.subrange(i as int, (i + key.len()) as int) == key,
        s[(i + key.len()) as int] == ':',
        s[(i + key.len() + 1) as int] == '"',
        s.subrange(
            (i + key.len() + 2) as int,
            (i + key.len() + 2 + json_escape(v).len()) as int,
        ) == json_escape(v),
        s[(i + key.len() + 2 + json_escape(v).len()) as int] == '"',
    ensures
        spec_member_string(s, i, key) == Some(
            (v, (i + key.len() + 2 + json_escape(v).len() + 1) as nat),
        ),
{
    assert(s[i as int] == s.subrange(i as int, (i + key.len()) as int)[0]);
    assert(s[i as int] == key[0]);
    assert(ws_end(s, i) == i);
    assert(ws_end(s, i + key.len()) == i + key.len());
    assert(ws_end(s, i + key.len() + 1) == i + key.len() + 1);
    lemma_unesc_escape(s, (i + key.len() + 2) as nat, v);
}

/// Writing a string value and reading it back yields the same value: the
/// canonical object built from a quoted key and the escape of `v` reads back
/// as exactly `v`.
pub proof fn lemma_string_object_round_trip(key: Seq<char>, v: Seq<char>)
    requires
        key.len() > 0,
        !crate::json::is_json_ws(key[0]),
    ensures
        spec_string_object("{"@ + key + ":\""@ + json_escape(v) + "\"}"@, key) == Some(v),
{
    reveal_strlit("{");
    reveal_strlit(":\"");
    reveal_strlit("\"}");
    let e = json_escape(v);
    let s = "{"@ + key + ":\""@ + e + "\"}"@;
    assert(s.len() == 1 + key.len() + 2 + e.len() + 2);
    assert(s[0] == '{');
    assert(ws_end(s, 0) == 0);
    assert(s.subrange(1, (1 + key.len()) as int) =~= key);
    assert(s[(1 + key.len()) as int] == ':');
    assert(s[(1 + key.len() + 1) as int] == '"');
    assert forall|j: int|
        0 <= j < e.len() implies s.subrange(
        (1 + key.len() + 2) as int,
        (1 + key.len() + 2 + e.len()) as int,
    )[j] == e[j] by {
        assert(s[1 + key.len() + 2 + j] == e[j]);
    }
    assert(s.subrange((1 + key.len() + 2) as int, (1 + key.len() + 2 + e.len()) as int) =~= e);
    assert(s[(1 + key.len() + 2 + e.len()) as int] == '"');
    lemma_member_string_exact(s, 1, key, v);
    let j = 1 + key.len() + 2 + e.len() + 1;
    assert(s[j as int] == '}');
    assert(ws_end(s, j as nat) == j);
    assert(ws_end(s, (j + 1) as nat) == s.len());
}

/// Reads `{"<key>":<n>}` with insignificant whitespace skipped: `key` is the
/// quoted field name; the result is the numeric value.
pub open spec fn spec_int_object(s: Seq<char>, key: Seq<char>) -> Option<u64> {
    let i1 = ws_end(s, 0);
    if i1 < s.len() && s[i1 as int] == '{' {
        let i2 = ws_end(s, i1 + 1);
        if i2 + key.len() <= s.len() && s.subrange(i2 as int, (i2 + key.len()) as int) == key {
            let i3 = ws_end(s, i2 + key.len());
            if i3 < s.len() && s[i3 as int] == ':' {
                let c0 = ws_end(s, i3 + 1);
                let ce = digits_end(s, c0);
                let v = dec_value(s.subrange(c0 as int, ce as int));
                if ce > c0 && v <= u64::MAX {
                    let i4 = ws_end(s, ce);
                    if i4 < s.len() && s[i4 as int] == '}' && ws_end(s, i4 + 1) == s.len() {
                        Option::Some(v as u64)
                    } else {
                        Option::None
                    }
                } else {
                    Option::None
                }
            } else {
                Option::None
            }
        } else {
            Option::None
        }
    } else {
        Option::None
    }
}

/// Parses `{"<key>":<n>}` where `key` is the quoted field name.
pub fn parse_int_object(s: &str, key: &str) -> (r: Option<u64>)
    ensures
        r matches Some(v) ==> spec_int_object(s@, key@) == Some(v),
        r is Some <==> spec_int_object(s@, key@) is Some,
{
    let len = s.unicode_len();
    let i1 = skip_ws(s, 0);
    if !(i1 < len && s.get_char(i1) == '{') {
        return None;
    }
    let i2 = skip_ws(s, i1 + 1);
    if !match_lit(s, i2, key) {
        return None;
    }
    let kl = key.unicode_len();
    let i3 = skip_ws(s, i2 + kl);
    if !(i3 < len && s.get_char(i3) == ':') {
        return None;
    }
    let c0 = skip_ws(s, i3 + 1);
    match parse_u64(s, c0) {
        Some((v, ce)) => {
            let i4 = skip_ws(s, ce);
            if i4 < len && s.get_char(i4) == '}' && skip_ws(s, i4 + 1) == len {
                Some(v)
            } else {
                None
            }
        },
        None => None,
    }
}

/// Writing an integer value and reading it back yields the same value: the
/// canonical object built from a quoted key and the decimal rendering of `n`
/// reads back as exactly `n`.
pub proof fn lemma_int_object_round_trip(key: Seq<char>, n: u64)
    requires
        key.len() > 0,
        !crate::json::is_json_ws(key[0]),
    ensures
        spec_int_object("{"@ + key + ":"@ + dec_of(n as nat) + "}"@, key) == Some(n),
{
    reveal_strlit("{");
    reveal_strlit(":");
    reveal_strlit("}");
    let d = dec_of(n as nat);
    let s = "{"@ + key + ":"@ + d + "}"@;
    lemma_dec_round_trip(n as nat);
    assert(s.len() == 1 + key.len() + 1 + d.len() + 1);
    assert(s[0] == '{');
    assert(ws_end(s, 0) == 0);
    assert(s[1] == key[0]);
    assert(ws_end(s, 1) == 1);
    assert(s.subrange(1, (1 + key.len()) as int) =~= key);
    assert(s[(1 + key.len()) as int] == ':');
    assert(ws_end(s, (1 + key.len()) as nat) == 1 + key.len());
    let c0 = 1 + key.len() + 1;
    assert(s[c0 as int] == d[0]);
    assert(crate::json::is_dec_digit(d[0]));
    assert(ws_end(s, c0 as nat) == c0);
    let k = c0 + d.len();
    assert forall|j: int| c0 <= j < k implies crate::json::is_dec_digit(#[trigger] s[j]) by {
        assert(s[j] == d[j - c0]);
    }
    assert(s[k as int] == '}');
    assert(!crate::json::is_dec_digit('}'));
    lemma_digits_end_exact(s, c0 as nat, k as nat);
    assert(s.subrange(c0 as int, k as int) =~= d);
    assert(ws_end(s, k as nat) == k);
    assert(ws_end(s, (k + 1) as nat) == s.len());
}

/// Whether `s` reads as the empty JSON object, the params text of the
/// protocol's bodiless messages, with insignificant whitespace skipped.
pub open spec fn spec_empty_object(s: Seq<char>) -> bool {
    let i1 = ws_end(s, 0);
    &&& i1 < s.len()
    &&& s[i1 as int] == '{'
    &&& ({
        let i2 = ws_end(s, i1 + 1);
        &&& i2 < s.len()
        &&& s[i2 as int] == '}'
        &&& ws_end(s, i2 + 1) == s.len()
    })
}

/// The canonical empty-object text reads as the empty object.
pub proof fn lemma_empty_object_canonical()
    ensures
        spec_empty_object("{}"@),
{
    reveal_strlit("{}");
    let s = "{}"@;
    assert(s[0] == '{');
    assert(ws_end(s, 0) == 0);
    assert(s[1] == '}');
    assert(ws_end(s, 1) == 1);
    assert(ws_end(s, 2) == 2);
}

/// Whether `s` reads as the empty JSON object.
pub fn parse_empty_object(s: &str) -> (r: bool)
    ensures
        r <==> spec_empty_object(s@),
{
    let len = s.unicode_len();
    let i1 = skip_ws(s, 0);
    if !(i1 < len && s.get_char(i1) == '{') {
        return false;
    }
    let i2 = skip_ws(s, i1 + 1);
    i2 < len && s.get_char(i2) == '}' && skip_ws(s, i2 + 1) == len
}

/// Returns the params text of a bodiless message.
pub fn empty_object_json() -> (r: String)
    ensures
        r@ == "{}"@,
{
    String::from_str("{}")
}

/// First handshake step: the frontend submits a username for this App.
#[allow(non_snake_case)]
#[derive(Debug, Clone)]
pub struct SubmitUsernameRequest {
    /// The public identifier of the App the user signs in to.
    pub appPublicId: AppPublicId,
    /// The submitted username.
    pub username: String,
}

/// The canonical params text of a submit-username request.
pub open spec fn submit_username_params(app: Seq<char>, username: Seq<char>) -> Seq<char> {
    "{\"appPublicId\":\""@ + json_escape(app) + "\",\"username\":\""@ + json_escape(username)
        + "\"}"@
}

/// The canonical params text of a submit-password request.
pub open spec fn submit_password_params(password: Seq<char>) -> Seq<char> {
    "{\"password\":\""@ + json_escape(password) + "\"}"@
}

impl SubmitUsernameRequest {
    /// The canonical params text of this request.
    pub open spec fn spec_params(&self) -> Seq<char> {
        submit_username_params(self.appPublicId.text@, self.username@)
    }

    /// Serializes this request as its canonical params text.
    pub fn params_json(&self) -> (r: String)
        ensures
            r@ == self.spec_params(),
    {
        let mut out = String::new();
        out.append("{\"appPublicId\":\"");
        let a = escape_json_string(self.appPublicId.text.as_str());
        out.append(a.as_str());
        out.append("\",\"username\":\"");
        let u = escape_json_string(self.username.as_str());
        out.append(u.as_str());
        out.append("\"}");
        proof {
            assert(out@ =~= self.spec_params());
        }
        out
    }
}

/// First handshake step's response: when the per-connection session expires.
#[allow(non_snake_case)]
#[derive(Debug, Clone, PartialEq, Eq, Structural)]
pub struct SubmitUsernameResponse {
    /// Expiry timestamp of the server-side handshake session.
    pub expiresAt: i64,
}

impl SubmitUsernameResponse {
    /// The reading of a params text as this response: a single non-negative
    /// `expiresAt` field.
    pub open spec fn spec_parse(s: Seq<char>) -> Option<i64> {
        match spec_int_object(s, "\"expiresAt\""@) {
            Option::None => Option::None,
            Option::Some(v) => {
                if v <= i64::MAX as u64 {
                    Option::Some(v as i64)
                } else {
                    Option::None
                }
            },
        }
    }

    /// Parses a params text as this response.
    pub fn parse_params(s: &str) -> (r: Option<SubmitUsernameResponse>)
        ensures
            r matches Some(v) ==> Self::spec_parse(s@) == Some(v.expiresAt),
            r is Some <==> Self::spec_parse(s@) is Some,
    {
        match parse_int_object(s, "\"expiresAt\"") {
            Some(v) => {
                if v <= i64::MAX as u64 {
                    Some(SubmitUsernameResponse { expiresAt: v as i64 })
                } else {
                    None
                }
            },
            None => None,
        }
    }

    /// The canonical params text of this response.
    pub open spec fn spec_params(&self) -> Seq<char>
        recommends
            self.expiresAt >= 0,
    {
        "{\"expiresAt\":"@ + dec_of(self.expiresAt as nat) + "}"@
    }

    /// Serializes this response as its canonical params text.
    pub fn params_json(&self) -> (r: String)
        requires
            self.expiresAt >= 0,
        ensures
            r@ == self.spec_params(),
    {
        let mut out = String::new();
        out.append("{\"expiresAt\":");
        let d = format_u64(self.expiresAt as u64);
        out.append(d.as_str());
        out.append("}");
        proof {
            assert(out@ =~= self.spec_params());
        }
        out
    }
}

/// A non-negative expiry timestamp round-trips through its params text.
pub proof fn lemma_submit_username_response_round_trip(expires_at: i64)
    requires
        expires_at >= 0,
    ensures
        SubmitUsernameResponse::spec_parse(
            (SubmitUsernameResponse { expiresAt: expires_at }).spec_params(),
        ) == Some(expires_at),
{
    reveal_strlit("{\"expiresAt\":");
    reveal_strlit("\"expiresAt\"");
    reveal_strlit("{");
    reveal_strlit(":");
    reveal_strlit("}");
    let key = "\"expiresAt\""@;
    lemma_int_object_round_trip(key, expires_at as u64);
    let d = dec_of(expires_at as nat);
    assert("{"@ + key + ":"@ + d + "}"@ =~= "{\"expiresAt\":"@ + d + "}"@);
}

/// Second handshake step: the frontend submits the password.
#[derive(Debug, Clone)]
pub struct SubmitPasswordRequest {
    /// The submitted password.
    pub password: String,
}

impl SubmitPasswordRequest {
    /// The canonical params text of this request.
    pub open spec fn spec_params(&self) -> Seq<char> {
        submit_password_params(self.password@)
    }

    /// Serializes this request as its canonical params text.
    pub fn params_json(&self) -> (r: String)
        ensures
            r@ == self.spec_params(),
    {
        let mut out = String::new();
        out.append("{\"password\":\"");
        let p = escape_json_string(self.password.as_str());
        out.append(p.as_str());
        out.append("\"}");
        proof {
            assert(out@ =~= self.spec_params());
        }
        out
    }
}

/// Second handshake step's response: the issued access token.
#[allow(non_snake_case)]
#[derive(Debug, Clone)]
pub struct SubmitPasswordResponse {
    /// The issued access token, as its UUID text.
    pub accessToken: String,
}

impl SubmitPasswordResponse {
    /// The reading of a params text as this response: a single string
    /// `accessToken` field.
    pub open spec fn spec_parse(s: Seq<char>) -> Option<Seq<char>> {
        spec_string_object(s, "\"accessToken\""@)
    }

    /// Parses a params text as this response.
    pub fn parse_params(s: &str) -> (r: Option<SubmitPasswordResponse>)
        ensures
            r matches Some(v) ==> Self::spec_parse(s@) == Some(v.accessToken@),
            r is Some <==> Self::spec_parse(s@) is Some,
    {
        match parse_string_object(s, "\"accessToken\"") {
            Some(v) => Some(SubmitPasswordResponse { accessToken: v }),
            None => None,
        }
    }

    /// The canonical params text of this response.
    pub open spec fn spec_params(&self) -> Seq<char> {
        "{\"accessToken\":\""@ + json_escape(self.accessToken@) + "\"}"@
    }

    /// Serializes this response as its canonical params text.
    pub fn params_json(&self) -> (r: String)
        ensures
            r@ == self.spec_params(),
    {
        let mut out = String::new();
        out.append("{\"accessToken\":\"");
        let t = escape_json_string(self.accessToken.as_str());
        out.append(t.as_str());
        out.append("\"}");
        proof {
            assert(out@ =~= self.spec_params());
        }
        out
    }
}

/// An access token round-trips through this response's params text.
pub proof fn lemma_submit_password_response_round_trip(token: Seq<char>)
    ensures
        SubmitPasswordResponse::spec_parse(
            "{\"accessToken\":\""@ + json_escape(token) + "\"}"@,
        ) == Some(token),
{
    reveal_strlit("{\"accessToken\":\"");
    reveal_strlit("\"accessToken\"");
    reveal_strlit("{");
    reveal_strlit(":\"");
    reveal_strlit("\"}");
    let key = "\"accessToken\""@;
    lemma_string_object_round_trip(key, token);
    assert("{"@ + key + ":\""@ + json_escape(token) + "\"}"@ =~= "{\"accessToken\":\""@
        + json_escape(token) + "\"}"@);
}

/// Opens a session with public privileges; carries no fields.
#[derive(Debug, Clone, PartialEq, Eq, Structural)]
pub struct PublicConnectRequest {}

impl PublicConnectRequest {
    /// Parses a params text as this request (the empty object).
    pub fn parse_params(s: &str) -> (r: Option<PublicConnectRequest>)
        ensures
            r is Some <==> spec_empty_object(s@),
            s@ == "{}"@ ==> r is Some,
    {
        proof {
            if s@ == "{}"@ {
                lemma_empty_object_canonical();
            }
        }
        if parse_empty_object(s) {
            Some(PublicConnectRequest {  })
        } else {
            None
        }
    }

    /// Serializes this request as its canonical params text.
    pub fn params_json(&self) -> (r: String)
        ensures
            r@ == "{}"@,
    {
        empty_object_json()
    }
}

/// The bodiless response to a public connect.
#[derive(Debug, Clone, PartialEq, Eq, Structural)]
pub struct PublicConnectResponse {}

impl PublicConnectResponse {
    /// Serializes this response as its canonical params text.
    pub fn params_json(&self) -> (r: String)
        ensures
            r@ == "{}"@,
    {
        empty_object_json()
    }
}

/// Application API-key login: the pre-shared key, verbatim.
#[allow(non_snake_case)]
#[derive(Debug, Clone)]
pub struct ApiKeyConnectRequest {
    /// The presented pre-shared App API key.
    pub appApiKey: String,
}

impl ApiKeyConnectRequest {
    /// The reading of a params text as this request.
    pub open spec fn spec_parse(s: Seq<char>) -> Option<Seq<char>> {
        spec_string_object(s, "\"appApiKey\""@)
    }

    /// Parses a params text as this request.
    pub fn parse_params(s: &str) -> (r: Option<ApiKeyConnectRequest>)
        ensures
            r matches Some(v) ==> Self::spec_parse(s@) == Some(v.appApiKey@),
            r is Some <==> Self::spec_parse(s@) is Some,
    {
        match parse_string_object(s, "\"appApiKey\"") {
            Some(v) => Some(ApiKeyConnectRequest { appApiKey: v }),
            None => None,
        }
    }

    /// The canonical params text of this request.
    pub open spec fn spec_params(&self) -> Seq<char> {
        "{\"appApiKey\":\""@ + json_escape(self.appApiKey@) + "\"}"@
    }

    /// Serializes this request as its canonical params text.
    pub fn params_json(&self) -> (r: String)
        ensures
            r@ == self.spec_params(),
    {
        let mut out = String::new();
        out.append("{\"appApiKey\":\"");
        let k = escape_json_string(self.appApiKey.as_str());
        out.append(k.as_str());
        out.append("\"}");
        proof {
            assert(out@ =~= self.spec_params());
        }
        out
    }
}

/// The bodiless response to an API-key connect.
#[derive(Debug, Clone, PartialEq, Eq, Structural)]
pub struct ApiKeyConnectResponse {}

impl ApiKeyConnectResponse {
    /// Serializes this response as its canonical params text.
    pub fn params_json(&self) -> (r: String)
        ensures
            r@ == "{}"@,
    {
        empty_object_json()
    }
}

/// Access-token login: the bearer token, as its UUID text.
#[allow(non_snake_case)]
#[derive(Debug, Clone)]
pub struct AccessTokenConnectRequest {
    /// The presented access token, as its UUID text.
    pub accessToken: String,
}

impl AccessTokenConnectRequest {
    /// The reading of a params text as this request.
    pub open spec fn spec_parse(s: Seq<char>) -> Option<Seq<char>> {
        spec_string_object(s, "\"accessToken\""@)
    }

    /// Parses a params text as this request.
    pub fn parse_params(s: &str) -> (r: Option<AccessTokenConnectRequest>)
        ensures
            r matches Some(v) ==> Self::spec_parse(s@) == Some(v.accessToken@),
            r is Some <==> Self::spec_parse(s@) is Some,
    {
        match parse_string_object(s, "\"accessToken\"") {
            Some(v) => Some(AccessTokenConnectRequest { accessToken: v }),
            None => None,
        }
    }

    /// The canonical params text of this request.
    pub open spec fn spec_params(&self) -> Seq<char> {
        "{\"accessToken\":\""@ + json_escape(self.accessToken@) + "\"}"@
    }

    /// Serializes this request as its canonical params text.
    pub fn params_json(&self) -> (r: String)
        ensures
            r@ == self.spec_params(),
    {
        let mut out = String::new();
        out.append("{\"accessToken\":\"");
        let t = escape_json_string(self.accessToken.as_str());
        out.append(t.as_str());
        out.append("\"}");
        proof {
            assert(out@ =~= self.spec_params());
        }
        out
    }
}

/// The bodiless response to an access-token connect.
#[derive(Debug, Clone, PartialEq, Eq, Structural)]
pub struct AccessTokenConnectResponse {}

impl AccessTokenConnectResponse {
    /// Serializes this response as its canonical params text.
    pub fn params_json(&self) -> (r: String)
        ensures
            r@ == "{}"@,
    {
        empty_object_json()
    }
}

/// The identity service pushes a freshly issued token to the App: the token
/// text, the owner's username, and the owner's public identifier.
#[allow(non_snake_case)]
#[derive(Debug, Clone)]
pub struct ReceiveTokenRequest {
    /// The issued access token, as its UUID text.
    pub token: String,
    /// The owner's username.
    pub username: String,
    /// The owner's public identifier, as its UUID text.
    pub userPubId: String,
}

impl ReceiveTokenRequest {
    /// The reading of a params text as this request: the three string fields
    /// in canonical order, with insignificant whitespace skipped.
    pub open spec fn spec_parse(s: Seq<char>) -> Option<(Seq<char>, Seq<char>, Seq<char>)> {
        let i1 = ws_end(s, 0);
        if i1 < s.len() && s[i1 as int] == '{' {
            match spec_member_string(s, i1 + 1, "\"token\""@) {
                Option::None => Option::None,
                Option::Some((t, j)) => {
                    let c1 = ws_end(s, j);
                    if c1 < s.len() && s[c1 as int] == ',' {
                        match spec_member_string(s, c1 + 1, "\"username\""@) {
                            Option::None => Option::None,
                            Option::Some((u, k)) => {
                                let c2 = ws_end(s, k);
                                if c2 < s.len() && s[c2 as int] == ',' {
                                    match spec_member_string(s, c2 + 1, "\"userPubId\""@) {
                                        Option::None => Option::None,
                                        Option::Some((pid, m)) => {
                                            let i4 = ws_end(s, m);
                                            if i4 < s.len() && s[i4 as int] == '}' && ws_end(
                                                s,
                                                i4 + 1,
                                            ) == s.len() {
                                                Option::Some((t, u, pid))
                                            } else {
                                                Option::None
                                            }
                                        },
                                    }
                                } else {
                                    Option::None
                                }
                            },
                        }
                    } else {
                        Option::None
                    }
                },
            }
        } else {
            Option::None
        }
    }

    /// Parses a params text as this request.
    pub fn parse_params(s: &str) -> (r: Option<ReceiveTokenRequest>)
        ensures
            r matches Some(v) ==> Self::spec_parse(s@) == Some(
                (v.token@, v.username@, v.userPubId@),
            ),
            r is Some <==> Self::spec_parse(s@) is Some,
    {
        let len = s.unicode_len();
        let i1 = skip_ws(s, 0);
        if !(i1 < len && s.get_char(i1) == '{') {
            return None;
        }
        match parse_member_string(s, i1 + 1, "\"token\"") {
            Some((token, j)) => {
                let c1 = skip_ws(s, j);
                if !(c1 < len && s.get_char(c1) == ',') {
                    return None;
                }
                match parse_member_string(s, c1 + 1, "\"username\"") {
                    Some((username, k)) => {
                        let c2 = skip_ws(s, k);
                        if !(c2 < len && s.get_char(c2) == ',') {
                            return None;
                        }
                        match parse_member_string(s, c2 + 1, "\"userPubId\"") {
                            Some((pid, m)) => {
                                let i4 = skip_ws(s, m);
                                if i4 < len && s.get_char(i4) == '}' && skip_ws(s, i4 + 1)
                                    == len {
                                    Some(ReceiveTokenRequest { token, username, userPubId: pid })
                                } else {
                                    None
                                }
                            },
                            None => None,
                        }
                    },
                    None => None,
                }
            },
            None => None,
        }
    }

    /// The canonical params text of this request.
    pub open spec fn spec_params(&self) -> Seq<char> {
        "{\"token\":\""@ + json_escape(self.token@) + "\""@ + ",\"username\":\""@ + json_escape(
            self.username@,
        ) + "\""@ + ",\"userPubId\":\""@ + json_escape(self.userPubId@) + "\"}"@
    }

    /// Serializes this request as its canonical params text.
    pub fn params_json(&self) -> (r: String)
        ensures
            r@ == self.spec_params(),
    {
        let mut out = String::new();
        out.append("{\"token\":\"");
        let t = escape_json_string(self.token.as_str());
        out.append(t.as_str());
        out.append("\"");
        out.append(",\"username\":\"");
        let u = escape_json_string(self.username.as_str());
        out.append(u.as_str());
        out.append("\"");
        out.append(",\"userPubId\":\"");
        let p = escape_json_string(self.userPubId.as_str());
        out.append(p.as_str());
        out.append("\"}");
        proof {
            assert(out@ =~= self.spec_params());
        }
        out
    }
}

/// The bodiless response to a receive-token callback.
#[derive(Debug, Clone, PartialEq, Eq, Structural)]
pub struct ReceiveTokenResponse {}

impl ReceiveTokenResponse {
    /// Serializes this response as its canonical params text.
    pub fn params_json(&self) -> (r: String)
        ensures
            r@ == "{}"@,
    {
        empty_object_json()
    }
}

/// The three fields of a receive-token callback round-trip through its
/// params text.
#[verifier::rlimit(100)]
pub proof fn lemma_receive_token_round_trip(req: ReceiveTokenRequest)
    ensures
        ReceiveTokenRequest::spec_parse(req.spec_params()) == Some(
            (req.token@, req.username@, req.userPubId@),
        ),
{
    reveal_strlit("{\"token\":\"");
    reveal_strlit(",\"username\":\"");
    reveal_strlit(",\"userPubId\":\"");
    reveal_strlit("\"token\"");
    reveal_strlit("\"username\"");
    reveal_strlit("\"userPubId\"");
    reveal_strlit("\"");
    reveal_strlit("\"}");
    let p0 = "{\"token\":\""@;
    let p1 = ",\"username\":\""@;
    let p2 = ",\"userPubId\":\""@;
    let k0 = "\"token\""@;
    let k1 = "\"username\""@;
    let k2 = "\"userPubId\""@;
    let q = "\""@;
    let t = json_escape(req.token@);
    let u = json_escape(req.username@);
    let pid = json_escape(req.userPubId@);
    let s = req.spec_params();
    assert(s == p0 + t + q + p1 + u + q + p2 + pid + "\"}"@);
    assert(s.len() == p0.len() + t.len() + 1 + p1.len() + u.len() + 1 + p2.len() + pid.len() + 2);
    assert(s[0] == '{');
    assert(ws_end(s, 0) == 0);
    // the token member
    assert(s.subrange(1, 8) =~= k0);
    assert(s[8] == ':');
    assert(s[9] == '"');
    assert forall|x: int|
        0 <= x < t.len() implies s.subrange(10, (10 + t.len()) as int)[x] == t[x] by {
        assert(s[10 + x] == t[x]);
    }
    assert(s.subrange(10, (10 + t.len()) as int) =~= t);
    assert(s[(10 + t.len()) as int] == '"');
    lemma_member_string_exact(s, 1, k0, req.token@);
    let j = 11 + t.len();
    assert(spec_member_string(s, 1, k0) == Some((req.token@, j as nat)));
    // the separating comma, then the username member
    assert(s[j as int] == ',');
    assert(ws_end(s, j as nat) == j);
    let m1 = j + 1;
    assert forall|x: int|
        0 <= x < 10 implies s.subrange(m1 as int, (m1 + 10) as int)[x] == k1[x] by {
        assert(s[m1 + x] == p1[1 + x]);
    }
    assert(s.subrange(m1 as int, (m1 + 10) as int) =~= k1);
    assert(s[(m1 + 10) as int] == ':');
    assert(s[(m1 + 11) as int] == '"');
    let e1 = m1 + 12;
    assert forall|x: int|
        0 <= x < u.len() implies s.subrange(e1 as int, (e1 + u.len()) as int)[x] == u[x] by {
        assert(s[e1 + x] == u[x]);
    }
    assert(s.subrange(e1 as int, (e1 + u.len()) as int) =~= u);
    assert(s[(e1 + u.len()) as int] == '"');
    lemma_member_string_exact(s, m1 as nat, k1, req.username@);
    let k = e1 + u.len() + 1;
    assert(spec_member_string(s, m1 as nat, k1) == Some((req.username@, k as nat)));
    // the separating comma, then the owner member
    assert(s[k as int] == ',');
    assert(ws_end(s, k as nat) == k);
    let m2 = k + 1;
    assert forall|x: int|
        0 <= x < 11 implies s.subrange(m2 as int, (m2 + 11) as int)[x] == k2[x] by {
        assert(s[m2 + x] == p2[1 + x]);
    }
    assert(s.subrange(m2 as int, (m2 + 11) as int) =~= k2);
    assert(s[(m2 + 11) as int] == ':');
    assert(s[(m2 + 12) as int] == '"');
    let e2 = m2 + 13;
    assert forall|x: int|
        0 <= x < pid.len() implies s.subrange(e2 as int, (e2 + pid.len()) as int)[x] == pid[x] by {
        assert(s[e2 + x] == pid[x]);
    }
    assert(s.subrange(e2 as int, (e2 + pid.len()) as int) =~= pid);
    assert(s[(e2 + pid.len()) as int] == '"');
    lemma_member_string_exact(s, m2 as nat, k2, req.userPubId@);
    let m = e2 + pid.len() + 1;
    assert(spec_member_string(s, m2 as nat, k2) == Some((req.userPubId@, m as nat)));
    // the closing brace
    assert(s[m as int] == '}');
    assert(ws_end(s, m as nat) == m);
    assert(ws_end(s, (m + 1) as nat) == s.len());
}

/// The identity service pushes a user's info to the App: the owner's public
/// identifier and username, and, when one was issued, a token.
#[allow(non_snake_case)]
#[derive(Debug, Clone)]
pub struct ReceiveUserInfoRequest {
    /// The user's public identifier, as its UUID text.
    pub userPubId: String,
    /// The user's username.
    pub username: String,
    /// The issued access token, as its UUID text, when one was issued.
    pub token: Option<String>,
}

impl ReceiveUserInfoRequest {
    /// The reading of a params text as this request: the two string fields
    /// in canonical order, then an optional token field, with insignificant
    /// whitespace skipped.
    pub open spec fn spec_parse(s: Seq<char>) -> Option<
        (Seq<char>, Seq<char>, Option<Seq<char>>),
    > {
        let i1 = ws_end(s, 0);
        if i1 < s.len() && s[i1 as int] == '{' {
            match spec_member_string(s, i1 + 1, "\"userPubId\""@) {
                Option::None => Option::None,
                Option::Some((pid, j)) => {
                    let c1 = ws_end(s, j);
                    if c1 < s.len() && s[c1 as int] == ',' {
                        match spec_member_string(s, c1 + 1, "\"username\""@) {
                            Option::None => Option::None,
                            Option::Some((u, k)) => {
                                let c2 = ws_end(s, k);
                                if c2 < s.len() && s[c2 as int] == '}' && ws_end(s, c2 + 1)
                                    == s.len() {
                                    Option::Some((pid, u, Option::None))
                                } else if c2 < s.len() && s[c2 as int] == ',' {
                                    match spec_member_string(s, c2 + 1, "\"token\""@) {
                                        Option::None => Option::None,
                                        Option::Some((t, m)) => {
                                            let i4 = ws_end(s, m);
                                            if i4 < s.len() && s[i4 as int] == '}' && ws_end(
                                                s,
                                                i4 + 1,
                                            ) == s.len() {
                                                Option::Some((pid, u, Option::Some(t)))
                                            } else {
                                                Option::None
                                            }
                                        },
                                    }
                                } else {
                                    Option::None
                                }
                            },
                        }
                    } else {
                        Option::None
                    }
                },
            }
        } else {
            Option::None
        }
    }

    /// The view of this request's fields, as `spec_parse` returns them.
    pub open spec fn spec_fields(&self) -> (Seq<char>, Seq<char>, Option<Seq<char>>) {
        (
            self.userPubId@,
            self.username@,
            match self.token {
                Option::None => Option::None,
                Option::Some(ref t) => Option::Some(t@),
            },
        )
    }

    /// Parses a params text as this request.
    pub fn parse_params(s: &str) -> (r: Option<ReceiveUserInfoRequest>)
        ensures
            r matches Some(v) ==> Self::spec_parse(s@) == Some(v.spec_fields()),
            r is Some <==> Self::spec_parse(s@) is Some,
    {
        let len = s.unicode_len();
        let i1 = skip_ws(s, 0);
        if !(i1 < len && s.get_char(i1) == '{') {
            return None;
        }
        match parse_member_string(s, i1 + 1, "\"userPubId\"") {
            Some((pid, j)) => {
                let c1 = skip_ws(s, j);
                if !(c1 < len && s.get_char(c1) == ',') {
                    return None;
                }
                match parse_member_string(s, c1 + 1, "\"username\"") {
                    Some((username, k)) => {
                        let c2 = skip_ws(s, k);
                        if c2 < len && s.get_char(c2) == '}' && skip_ws(s, c2 + 1) == len {
                            return Some(
                                ReceiveUserInfoRequest {
                                    userPubId: pid,
                                    username,
                                    token: None,
                                },
                            );
                        }
                        if !(c2 < len && s.get_char(c2) == ',') {
                            return None;
                        }
                        match parse_member_string(s, c2 + 1, "\"token\"") {
                            Some((token, m)) => {
                                let i4 = skip_ws(s, m);
                                if i4 < len && s.get_char(i4) == '}' && skip_ws(s, i4 + 1)
                                    == len {
                                    Some(
                                        ReceiveUserInfoRequest {
                                            userPubId: pid,
                                            username,
                                            token: Some(token),
                                        },
                                    )
                                } else {
                                    None
                                }
                            },
                            None => None,
                        }
                    },
                    None => None,
                }
            },
            None => None,
        }
    }

    /// The canonical params text of this request.
    pub open spec fn spec_params(&self) -> Seq<char> {
        let head = "{\"userPubId\":\""@ + json_escape(self.userPubId@) + "\""@
            + ",\"username\":\""@ + json_escape(self.username@);
        match self.token {
            Option::None => head + "\"}"@,
            Option::Some(ref t) => head + "\""@ + ",\"token\":\""@ + json_escape(t@) + "\"}"@,
        }
    }

    /// Serializes this request as its canonical params text.
    pub fn params_json(&self) -> (r: String)
        ensures
            r@ == self.spec_params(),
    {
        let mut out = String::new();
        out.append("{\"userPubId\":\"");
        let p = escape_json_string(self.userPubId.as_str());
        out.append(p.as_str());
        out.append("\"");
        out.append(",\"username\":\"");
        let u = escape_json_string(self.username.as_str());
        out.append(u.as_str());
        match &self.token {
            None => {
                out.append("\"}");
            },
            Some(t) => {
                out.append("\"");
                out.append(",\"token\":\"");
                let e = escape_json_string(t.as_str());
                out.append(e.as_str());
                out.append("\"}");
            },
        }
        proof {
            assert(out@ =~= self.spec_params());
        }
        out
    }
}

/// The bodiless response to a receive-user-info callback.
#[derive(Debug, Clone, PartialEq, Eq, Structural)]
pub struct ReceiveUserInfoResponse {}

impl ReceiveUserInfoResponse {
    /// Serializes this response as its canonical params text.
    pub fn params_json(&self) -> (r: String)
        ensures
            r@ == "{}"@,
    {
        empty_object_json()
    }
}

/// The fields of a receive-user-info callback, with or without a token,
/// round-trip through its params text.
#[verifier::rlimit(100)]
pub proof fn lemma_receive_user_info_round_trip(req: ReceiveUserInfoRequest)
    ensures
        ReceiveUserInfoRequest::spec_parse(req.spec_params()) == Some(req.spec_fields()),
{
    reveal_strlit("{\"userPubId\":\"");
    reveal_strlit(",\"username\":\"");
    reveal_strlit(",\"token\":\"");
    reveal_strlit("\"userPubId\"");
    reveal_strlit("\"username\"");
    reveal_strlit("\"token\"");
    reveal_strlit("\"");
    reveal_strlit("\"}");
    let p0 = "{\"userPubId\":\""@;
    let p1 = ",\"username\":\""@;
    let p2 = ",\"token\":\""@;
    let k0 = "\"userPubId\""@;
    let k1 = "\"username\""@;
    let k2 = "\"token\""@;
    let q = "\""@;
    let pid = json_escape(req.userPubId@);
    let u = json_escape(req.username@);
    let s = req.spec_params();
    let head = p0 + pid + q + p1 + u;
    // the owner member, then the username member, shared by both shapes
    match req.token {
        Option::None => {
            assert(s == head + "\"}"@);
            assert(s.len() == p0.len() + pid.len() + 1 + p1.len() + u.len() + 2);
        },
        Option::Some(ref ts) => {
            let t = json_escape(ts@);
            assert(s == head + q + p2 + t + "\"}"@);
            assert(s.len() == p0.len() + pid.len() + 1 + p1.len() + u.len() + 1 + p2.len()
                + t.len() + 2);
        },
    }
    assert(s[0] == '{');
    assert(ws_end(s, 0) == 0);
    assert(s.subrange(1, 12) =~= k0);
    assert(s[12] == ':');
    assert(s[13] == '"');
    assert forall|x: int|
        0 <= x < pid.len() implies s.subrange(14, (14 + pid.len()) as int)[x] == pid[x] by {
        assert(s[14 + x] == pid[x]);
    }
    assert(s.subrange(14, (14 + pid.len()) as int) =~= pid);
    assert(s[(14 + pid.len()) as int] == '"');
    lemma_member_string_exact(s, 1, k0, req.userPubId@);
    let j = 15 + pid.len();
    assert(spec_member_string(s, 1, k0) == Some((req.userPubId@, j as nat)));
    assert(s[j as int] == ',');
    assert(ws_end(s, j as nat) == j);
    let m1 = j + 1;
    assert forall|x: int|
        0 <= x < 10 implies s.subrange(m1 as int, (m1 + 10) as int)[x] == k1[x] by {
        assert(s[m1 + x] == p1[1 + x]);
    }
    assert(s.subrange(m1 as int, (m1 + 10) as int) =~= k1);
    assert(s[(m1 + 10) as int] == ':');
    assert(s[(m1 + 11) as int] == '"');
    let e1 = m1 + 12;
    assert forall|x: int|
        0 <= x < u.len() implies s.subrange(e1 as int, (e1 + u.len()) as int)[x] == u[x] by {
        assert(s[e1 + x] == u[x]);
    }
    assert(s.subrange(e1 as int, (e1 + u.len()) as int) =~= u);
    assert(s[(e1 + u.len()) as int] == '"');
    lemma_member_string_exact(s, m1 as nat, k1, req.username@);
    let k = e1 + u.len() + 1;
    assert(spec_member_string(s, m1 as nat, k1) == Some((req.username@, k as nat)));
    match req.token {
        Option::None => {
            // the closing brace follows the username member at once
            assert(s[k as int] == '}');
            assert(ws_end(s, k as nat) == k);
            assert(ws_end(s, (k + 1) as nat) == s.len());
        },
        Option::Some(ref ts) => {
            // the separating comma, then the token member
            let t = json_escape(ts@);
            assert(s[k as int] == ',');
            assert(ws_end(s, k as nat) == k);
            let m2 = k + 1;
            assert forall|x: int|
                0 <= x < 7 implies s.subrange(m2 as int, (m2 + 7) as int)[x] == k2[x] by {
                assert(s[m2 + x] == p2[1 + x]);
            }
            assert(s.subrange(m2 as int, (m2 + 7) as int) =~= k2);
            assert(s[(m2 + 7) as int] == ':');
            assert(s[(m2 + 8) as int] == '"');
            let e2 = m2 + 9;
            assert forall|x: int|
                0 <= x < t.len() implies s.subrange(e2 as int, (e2 + t.len()) as int)[x]
                == t[x] by {
                assert(s[e2 + x] == t[x]);
            }
            assert(s.subrange(e2 as int, (e2 + t.len()) as int) =~= t);
            assert(s[(e2 + t.len()) as int] == '"');
            lemma_member_string_exact(s, m2 as nat, k2, ts@);
            let m = e2 + t.len() + 1;
            assert(spec_member_string(s, m2 as nat, k2) == Some((ts@, m as nat)));
            assert(s[m as int] == '}');
            assert(ws_end(s, m as nat) == m);
            assert(ws_end(s, (m + 1) as nat) == s.len());
        },
    }
}

} // verus!
