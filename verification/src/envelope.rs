//! The RPC transport's frame text: one outbound request envelope
//! `{"method":<code>,"params":<payload>}` per call, and one inbound text
//! frame per response, read back as an envelope that carries the raw text of
//! its `params` field and, when the frame is a protocol error, its numeric
//! `code`.
//!
//! The inbound decoder skips insignificant JSON whitespace and accepts the
//! error envelope's two members in either order; a frame without a readable
//! `params` member is classified as malformed and carried back verbatim for
//! diagnostics. The caller decides between the success and the failure
//! reading by parsing the `params` text first, as the protocol asks.

use vstd::prelude::*;

use crate::json::{
    dec_of, dec_value, digits_end, digits_start, format_u64, is_dec_digit, is_json_ws,
    lemma_dec_round_trip, lemma_digits_end_exact, lemma_digits_start_props, lemma_ws_start_props,
    parse_u64, scan_digits_left, skip_ws, trim_ws_right, ws_end, ws_start,
};

verus! {

/// The text of an outbound request frame.
pub open spec fn request_frame(method: nat, params: Seq<char>) -> Seq<char> {
    "{\"method\":"@ + dec_of(method) + ",\"params\":"@ + params + "}"@
}

/// The text of an inbound (or loopback) success frame.
pub open spec fn response_frame(params: Seq<char>) -> Seq<char> {
    "{\"params\":"@ + params + "}"@
}

/// The text of an inbound protocol-error frame.
pub open spec fn error_frame(code: nat, params: Seq<char>) -> Seq<char> {
    "{\"code\":"@ + dec_of(code) + ",\"params\":"@ + params + "}"@
}

/// Builds the request frame for `method` around an already-serialized
/// params payload.
pub fn encode_request_frame(method: u32, params_json: &str) -> (r: String)
    ensures
        r@ == request_frame(method as nat, params_json@),
{
    let mut out = String::new();
    out.append("{\"method\":");
    let m = format_u64(method as u64);
    out.append(m.as_str());
    out.append(",\"params\":");
    out.append(params_json);
    out.append("}");
    proof {
        assert(out@ =~= request_frame(method as nat, params_json@));
    }
    out
}

/// Builds a success frame around an already-serialized params payload.
pub fn encode_response_frame(params_json: &str) -> (r: String)
    ensures
        r@ == response_frame(params_json@),
{
    let mut out = String::new();
    out.append("{\"params\":");
    out.append(params_json);
    out.append("}");
    proof {
        assert(out@ =~= response_frame(params_json@));
    }
    out
}

/// Builds a protocol-error frame around a code and an already-serialized
/// params payload.
pub fn encode_error_frame(code: u32, params_json: &str) -> (r: String)
    ensures
        r@ == error_frame(code as nat, params_json@),
{
    let mut out = String::new();
    out.append("{\"code\":");
    let m = format_u64(code as u64);
    out.append(m.as_str());
    out.append(",\"params\":");
    out.append(params_json);
    out.append("}");
    proof {
        assert(out@ =~= error_frame(code as nat, params_json@));
    }
    out
}

/// What one inbound text frame holds.
pub enum InboundEnvelope {
    /// A frame with a readable `params` member. The caller first tries to
    /// parse `params` as the awaited response; when that fails and `code` is
    /// present, the frame is a protocol error whose message is the `params`
    /// text.
    Envelope {
        /// Raw text of the `params` member, whitespace at its ends trimmed.
        params: String,
        /// The numeric `code` member, when the frame carries one.
        code: Option<u64>,
    },
    /// Anything else; the caller keeps the raw frame for diagnostics.
    Malformed,
}

/// The mathematical counterpart of [`InboundEnvelope`].
pub enum InboundKind {
    /// A frame with a readable `params` member, and its `code` when one is
    /// carried.
    Envelope(Seq<char>, Option<u64>),
    /// Anything else.
    Malformed,
}

impl View for InboundEnvelope {
    type V = InboundKind;

    open spec fn view(&self) -> InboundKind {
        match self {
            InboundEnvelope::Envelope { params, code } => InboundKind::Envelope(params@, *code),
            InboundEnvelope::Malformed => InboundKind::Malformed,
        }
    }
}

/// Reads, backwards from the closing brace at index `close`, a trailing
/// `,"code":<digits>` member with insignificant whitespace skipped. Returns
/// the end of the text standing before the comma, and the numeric code.
pub open spec fn spec_code_suffix(s: Seq<char>, close: nat) -> Option<(nat, u64)>
    recommends
        close <= s.len(),
{
    let b0 = ws_start(s, close);
    let ds = digits_start(s, b0);
    if ds < b0 && dec_value(s.subrange(ds as int, b0 as int)) <= u64::MAX {
        let b1 = ws_start(s, ds);
        if b1 >= 1 && s[b1 - 1] == ':' {
            let b2 = ws_start(s, (b1 - 1) as nat);
            if b2 >= 6 && s.subrange(b2 - 6, b2 as int) == "\"code\""@ {
                let b3 = ws_start(s, (b2 - 6) as nat);
                if b3 >= 1 && s[b3 - 1] == ',' {
                    Option::Some(
                        (
                            ws_start(s, (b3 - 1) as nat),
                            dec_value(s.subrange(ds as int, b0 as int)) as u64,
                        ),
                    )
                } else {
                    Option::None
                }
            } else {
                Option::None
            }
        } else {
            Option::None
        }
    } else {
        Option::None
    }
}

/// How one inbound frame is classified: an envelope with the raw text of its
/// `params` member and its optional `code`, or malformed text. Insignificant
/// whitespace is skipped, and the error envelope's two members are accepted
/// in either order.
pub open spec fn spec_decode_inbound(s: Seq<char>) -> InboundKind {
    let pk = "\"params\""@;
    let ck = "\"code\""@;
    let e = ws_start(s, s.len());
    let i1 = ws_end(s, 0);
    if e >= 1 && s[e - 1] == '}' && i1 < e - 1 && s[i1 as int] == '{' {
        let i2 = ws_end(s, i1 + 1);
        if i2 + pk.len() <= s.len() && s.subrange(i2 as int, (i2 + pk.len()) as int) == pk {
            // the `params` member first; an error's `code` may follow it
            let i3 = ws_end(s, i2 + pk.len());
            if i3 < s.len() && s[i3 as int] == ':' {
                let v0 = ws_end(s, i3 + 1);
                match spec_code_suffix(s, (e - 1) as nat) {
                    Option::Some((ve, code)) => {
                        if v0 < ve {
                            InboundKind::Envelope(
                                s.subrange(v0 as int, ve as int),
                                Option::Some(code),
                            )
                        } else {
                            InboundKind::Malformed
                        }
                    },
                    Option::None => {
                        let ve = ws_start(s, (e - 1) as nat);
                        if v0 < ve {
                            InboundKind::Envelope(s.subrange(v0 as int, ve as int), Option::None)
                        } else {
                            InboundKind::Malformed
                        }
                    },
                }
            } else {
                InboundKind::Malformed
            }
        } else if i2 + ck.len() <= s.len() && s.subrange(i2 as int, (i2 + ck.len()) as int) == ck {
            // the `code` member first, then the `params` member
            let i3 = ws_end(s, i2 + ck.len());
            if i3 < s.len() && s[i3 as int] == ':' {
                let c0 = ws_end(s, i3 + 1);
                let ce = digits_end(s, c0);
                let code = dec_value(s.subrange(c0 as int, ce as int));
                if ce > c0 && code <= u64::MAX {
                    let i4 = ws_end(s, ce);
                    if i4 < s.len() && s[i4 as int] == ',' {
                        let i5 = ws_end(s, i4 + 1);
                        if i5 + pk.len() <= s.len() && s.subrange(
                            i5 as int,
                            (i5 + pk.len()) as int,
                        ) == pk {
                            let i6 = ws_end(s, i5 + pk.len());
                            if i6 < s.len() && s[i6 as int] == ':' {
                                let v0 = ws_end(s, i6 + 1);
                                let ve = ws_start(s, (e - 1) as nat);
                                if v0 < ve {
                                    InboundKind::Envelope(
                                        s.subrange(v0 as int, ve as int),
                                        Option::Some(code as u64),
                                    )
                                } else {
                                    InboundKind::Malformed
                                }
                            } else {
                                InboundKind::Malformed
                            }
                        } else {
                            InboundKind::Malformed
                        }
                    } else {
                        InboundKind::Malformed
                    }
                } else {
                    InboundKind::Malformed
                }
            } else {
                InboundKind::Malformed
            }
        } else {
            InboundKind::Malformed
        }
    } else {
        InboundKind::Malformed
    }
}

/// The method code and raw params text of a request frame, when the text is
/// one.
pub open spec fn spec_decode_request(s: Seq<char>) -> Option<(u64, Seq<char>)> {
    let rp = "{\"method\":"@;
    let mid = ",\"params\":"@;
    if s.len() > rp.len() && s.subrange(0, rp.len() as int) == rp {
        let de = digits_end(s, rp.len());
        let code = dec_value(s.subrange(rp.len() as int, de as int));
        if de > rp.len() && code <= u64::MAX && de + mid.len() < s.len() && s.subrange(
            de as int,
            (de + mid.len()) as int,
        ) == mid && s.last() == '}' {
            Some((code as u64, s.subrange((de + mid.len()) as int, s.len() - 1)))
        } else {
            None
        }
    } else {
        None
    }
}

/// Whether the text starting at `from` is exactly `lit`.
pub fn match_lit(s: &str, from: usize, lit: &str) -> (r: bool)
    requires
        from <= s@.len(),
    ensures
        r <==> (from + lit@.len() <= s@.len() && s@.subrange(
            from as int,
            from as int + lit@.len(),
        ) == lit@),
{
    let len = s.unicode_len();
    let ll = lit.unicode_len();
    if len - from < ll {
        return false;
    }
    let mut k: usize = 0;
    while k < ll
        invariant
            0 <= k <= ll,
            ll == lit@.len(),
            len == s@.len(),
            from + ll <= len,
            forall|j: int| 0 <= j < k ==> s@[from + j] == lit@[j],
        decreases ll - k,
    {
        if s.get_char(from + k) != lit.get_char(k) {
            proof {
                assert(s@.subrange(from as int, from as int + ll)[k as int] != lit@[k as int]);
            }
            return false;
        }
        k += 1;
    }
    proof {
        assert(s@.subrange(from as int, from as int + ll) =~= lit@);
    }
    true
}

/// Reads, backwards from the closing brace at `close`, a trailing
/// `,"code":<digits>` member.
fn code_suffix(s: &str, close: usize) -> (r: Option<(usize, u64)>)
    requires
        close <= s@.len(),
        close == s@.len() || !is_dec_digit(s@[close as int]),
    ensures
        r matches Some((ve, code)) ==> ve <= close && spec_code_suffix(s@, close as nat) == Some(
            (ve as nat, code),
        ),
        r is Some <==> spec_code_suffix(s@, close as nat) is Some,
{
    proof {
        reveal_strlit("\"code\"");
    }
    let b0 = trim_ws_right(s, close);
    let ds = scan_digits_left(s, b0);
    if ds >= b0 {
        return None;
    }
    proof {
        lemma_ws_start_props(s@, close as nat);
        lemma_digits_start_props(s@, b0 as nat);
        if b0 < close {
            assert(is_json_ws(s@[b0 as int]));
            assert(!is_dec_digit(s@[b0 as int]));
        }
        lemma_digits_end_exact(s@, ds as nat, b0 as nat);
    }
    let code = match parse_u64(s, ds) {
        Some((v, _end)) => v,
        None => {
            return None;
        },
    };
    let b1 = trim_ws_right(s, ds);
    if !(b1 >= 1 && s.get_char(b1 - 1) == ':') {
        return None;
    }
    let b2 = trim_ws_right(s, b1 - 1);
    if !(b2 >= 6 && match_lit(s, b2 - 6, "\"code\"")) {
        return None;
    }
    let b3 = trim_ws_right(s, b2 - 6);
    if !(b3 >= 1 && s.get_char(b3 - 1) == ',') {
        return None;
    }
    let ve = trim_ws_right(s, b3 - 1);
    Some((ve, code))
}

/// Classifies one inbound text frame.
pub fn decode_inbound_frame(s: &str) -> (r: InboundEnvelope)
    ensures
        r@ == spec_decode_inbound(s@),
{
    let len = s.unicode_len();
    let pk = "\"params\"";
    let ck = "\"code\"";
    let pk_len = pk.unicode_len();
    let ck_len = ck.unicode_len();
    let e = trim_ws_right(s, len);
    let i1 = skip_ws(s, 0);
    if !(e >= 1 && s.get_char(e - 1) == '}' && i1 < e - 1 && s.get_char(i1) == '{') {
        return InboundEnvelope::Malformed;
    }
    let i2 = skip_ws(s, i1 + 1);
    if match_lit(s, i2, pk) {
        let i3 = skip_ws(s, i2 + pk_len);
        if !(i3 < len && s.get_char(i3) == ':') {
            return InboundEnvelope::Malformed;
        }
        let v0 = skip_ws(s, i3 + 1);
        match code_suffix(s, e - 1) {
            Some((ve, code)) => {
                if v0 < ve {
                    let params = s.substring_char(v0, ve).to_owned();
                    InboundEnvelope::Envelope { params, code: Some(code) }
                } else {
                    InboundEnvelope::Malformed
                }
            },
            None => {
                let ve = trim_ws_right(s, e - 1);
                if v0 < ve {
                    let params = s.substring_char(v0, ve).to_owned();
                    InboundEnvelope::Envelope { params, code: None }
                } else {
                    InboundEnvelope::Malformed
                }
            },
        }
    } else if match_lit(s, i2, ck) {
        let i3 = skip_ws(s, i2 + ck_len);
        if !(i3 < len && s.get_char(i3) == ':') {
            return InboundEnvelope::Malformed;
        }
        let c0 = skip_ws(s, i3 + 1);
        let (code, ce) = match parse_u64(s, c0) {
            Some(p) => p,
            None => {
                return InboundEnvelope::Malformed;
            },
        };
        let i4 = skip_ws(s, ce);
        if !(i4 < len && s.get_char(i4) == ',') {
            return InboundEnvelope::Malformed;
        }
        let i5 = skip_ws(s, i4 + 1);
        if !match_lit(s, i5, pk) {
            return InboundEnvelope::Malformed;
        }
        let i6 = skip_ws(s, i5 + pk_len);
        if !(i6 < len && s.get_char(i6) == ':') {
            return InboundEnvelope::Malformed;
        }
        let v0 = skip_ws(s, i6 + 1);
        let ve = trim_ws_right(s, e - 1);
        if v0 < ve {
            let params = s.substring_char(v0, ve).to_owned();
            InboundEnvelope::Envelope { params, code: Some(code) }
        } else {
            InboundEnvelope::Malformed
        }
    } else {
        InboundEnvelope::Malformed
    }
}

/// Reads back a request frame: its method code and raw params text.
pub fn decode_request_frame(s: &str) -> (r: Option<(u64, String)>)
    ensures
        r matches Some((m, p)) ==> spec_decode_request(s@) == Some((m, p@)),
        r is Some <==> spec_decode_request(s@) is Some,
{
    let len = s.unicode_len();
    let rp = "{\"method\":";
    let mid = ",\"params\":";
    let rp_len = rp.unicode_len();
    let mid_len = mid.unicode_len();
    if match_lit(s, 0, rp) {
        match parse_u64(s, rp_len) {
            Some((code, de)) => {
                if match_lit(s, de, mid) && len - de > mid_len && s.get_char(len - 1) == '}' && de
                    + mid_len <= len - 1 {
                    let params = s.substring_char(de + mid_len, len - 1).to_owned();
                    return Some((code, params));
                }
                None
            },
            None => None,
        }
    } else {
        None
    }
}

/// The transport's response round trip: a success frame built around any
/// params payload text decodes back to exactly that text, with no error
/// code. The payload must read as a JSON value's own text: it neither starts
/// nor ends with whitespace, and does not end with a digit (an object, array
/// or string payload never does).
pub proof fn lemma_response_round_trip(params: Seq<char>)
    requires
        params.len() > 0,
        !is_json_ws(params[0]),
        !is_json_ws(params.last()),
        !is_dec_digit(params.last()),
    ensures
        spec_decode_inbound(response_frame(params)) == InboundKind::Envelope(
            params,
            Option::None,
        ),
{
    let s = response_frame(params);
    let sp = "{\"params\":"@;
    let pk = "\"params\""@;
    reveal_strlit("{\"params\":");
    reveal_strlit("\"params\"");
    reveal_strlit("\"code\"");
    reveal_strlit("}");
    assert(s.len() == sp.len() + params.len() + 1);
    let n = s.len();
    assert(s[n - 1] == '}');
    assert(s[n - 2] == params.last());
    assert(ws_start(s, n as nat) == n);
    assert(ws_end(s, 0) == 0);
    assert(s[0] == '{');
    assert(ws_end(s, 1) == 1);
    assert(s.subrange(1, 9) =~= pk);
    assert(ws_end(s, 9) == 9);
    assert(s[9] == ':');
    assert(ws_end(s, 10) == 10);
    // no trailing `,"code":<digits>` member: the payload's last character is
    // not a digit
    assert(ws_start(s, (n - 1) as nat) == n - 1);
    assert(digits_start(s, (n - 1) as nat) == n - 1);
    assert(spec_code_suffix(s, (n - 1) as nat) is None);
    assert(s.subrange(10, n - 1) =~= params);
}

/// The request round trip: a request frame built from any method code and
/// params text reads back as exactly that pair.
pub proof fn lemma_request_round_trip(method: u64, params: Seq<char>)
    ensures
        spec_decode_request(request_frame(method as nat, params)) == Some((method, params)),
{
    let s = request_frame(method as nat, params);
    let rp = "{\"method\":"@;
    let mid = ",\"params\":"@;
    reveal_strlit("{\"method\":");
    reveal_strlit(",\"params\":");
    reveal_strlit("}");
    let d = dec_of(method as nat);
    lemma_dec_round_trip(method as nat);
    assert(s.len() == rp.len() + d.len() + mid.len() + params.len() + 1);
    assert(s.subrange(0, rp.len() as int) =~= rp);
    let k = rp.len() + d.len();
    assert forall|j: int| rp.len() <= j < k implies is_dec_digit(#[trigger] s[j]) by {
        assert(s[j] == d[j - rp.len()]);
    }
    assert(s[k as int] == mid[0]);
    assert(mid[0] == ',');
    assert(!is_dec_digit(','));
    lemma_digits_end_exact(s, rp.len(), k);
    assert(s.subrange(rp.len() as int, k as int) =~= d);
    assert(dec_value(s.subrange(rp.len() as int, k as int)) == method);
    assert(s.subrange(k as int, (k + mid.len()) as int) =~= mid);
    assert(s.last() == '}');
    assert(s.subrange((k + mid.len()) as int, s.len() - 1) =~= params);
}

/// One full exchange against an echoing peer: the params text carried by a
/// request frame, echoed back inside a success frame, decodes to exactly the
/// text that was sent.
pub proof fn lemma_rpc_round_trip(method: u64, params: Seq<char>)
    requires
        params.len() > 0,
        !is_json_ws(params[0]),
        !is_json_ws(params.last()),
        !is_dec_digit(params.last()),
    ensures
        spec_decode_request(request_frame(method as nat, params)) == Some((method, params)),
        spec_decode_inbound(response_frame(params)) == InboundKind::Envelope(
            params,
            Option::None,
        ),
{
    lemma_request_round_trip(method, params);
    lemma_response_round_trip(params);
}

} // verus!
