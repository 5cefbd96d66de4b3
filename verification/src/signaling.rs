use vstd::prelude::*;
use base64::Engine;
use crate::error::KvmError;

verus! {

/// The standard base64 text (with padding) of a byte string.
pub uninterp spec fn b64_of(bytes: Seq<u8>) -> Seq<char>;

/// Relies on base64's standard engine: encoding is a function of the
/// bytes alone.
#[verifier::external_body]
pub fn b64_encode(bytes: &Vec<u8>) -> (r: String)
    ensures
        r@ == b64_of(bytes@),
{
    base64::engine::general_purpose::STANDARD.encode(bytes)
}

/// Relies on base64's standard engine: decoding inverts encoding, so on
/// any encoder output the original bytes come back.
#[verifier::external_body]
pub fn b64_decode(s: &str) -> (r: Option<Vec<u8>>)
    ensures
        (match r {
            Some(v) => forall|b: Seq<u8>| s@ == b64_of(b) ==> v@ == b,
            None => forall|b: Seq<u8>| s@ != b64_of(b),
        }),
{
    base64::engine::general_purpose::STANDARD.decode(s).ok()
}

/// The lowercase hex digit (as a byte) for a value below 16.
pub open spec fn spec_hex_digit(d: u8) -> u8 {
    if d < 10 {
        (48 + d) as u8
    } else {
        (87 + d) as u8
    }
}

/// The JSON string-escape of one byte: quote and backslash get a
/// backslash, the common control characters their short escapes, other
/// control bytes a `\u00XX` form, and everything else stands as itself.
pub open spec fn spec_escape_byte(b: u8) -> Seq<u8> {
    if b == 34 {
        seq![92u8, 34u8]
    } else if b == 92 {
        seq![92u8, 92u8]
    } else if b == 10 {
        seq![92u8, 110u8]
    } else if b == 13 {
        seq![92u8, 114u8]
    } else if b == 9 {
        seq![92u8, 116u8]
    } else if b < 32 {
        seq![92u8, 117u8, 48u8, 48u8, spec_hex_digit(b / 16), spec_hex_digit(b % 16)]
    } else {
        seq![b]
    }
}

/// The JSON string-escape of a byte string.
pub open spec fn spec_escape(s: Seq<u8>) -> Seq<u8>
    decreases s.len(),
{
    if s.len() == 0 {
        seq![]
    } else {
        spec_escape_byte(s[0]) + spec_escape(s.drop_first())
    }
}

/// The bytes of `{"sdp":"`.
pub open spec fn spec_sdp_prefix() -> Seq<u8> {
    seq![123u8, 34u8, 115u8, 100u8, 112u8, 34u8, 58u8, 34u8]
}

/// The bytes of `","type":"`.
pub open spec fn spec_type_infix() -> Seq<u8> {
    seq![34u8, 44u8, 34u8, 116u8, 121u8, 112u8, 101u8, 34u8, 58u8, 34u8]
}

/// The bytes of `"}`.
pub open spec fn spec_json_close() -> Seq<u8> {
    seq![34u8, 125u8]
}

/// The session-description JSON object the signalling channels carry:
/// `{"sdp":"<escaped sdp>","type":"<escaped type>"}`.
pub open spec fn spec_sdp_json(sdp: Seq<u8>, typ: Seq<u8>) -> Seq<u8> {
    spec_sdp_prefix() + spec_escape(sdp) + spec_type_infix() + spec_escape(typ)
        + spec_json_close()
}

/// The UTF-8 bytes of a code point below 0x10000.
pub open spec fn spec_utf8_bytes(code: u32) -> Seq<u8> {
    if code < 0x80 {
        seq![code as u8]
    } else if code < 0x800 {
        seq![(192 + code / 64) as u8, (128 + code % 64) as u8]
    } else {
        seq![(224 + code / 4096) as u8, (128 + (code / 64) % 64) as u8, (128 + code % 64) as u8]
    }
}

/// Reads a JSON string body up to its closing quote, undoing the
/// standard escapes (`\" \\ \/ \b \f \n \r \t` and `\uXXXX` in either
/// hex case, UTF-8-encoded; unpaired surrogates are rejected): the
/// content bytes and what follows the quote, or `None` for a malformed
/// body.
pub open spec fn spec_scan_string(b: Seq<u8>) -> Option<(Seq<u8>, Seq<u8>)>
    decreases b.len(),
{
    if b.len() == 0 {
        None
    } else if b[0] == 34 {
        Some((seq![], b.drop_first()))
    } else if b[0] == 92 {
        if b.len() < 2 {
            None
        } else {
            let decoded: Option<u8> = if b[1] == 34 {
                Some(34u8)
            } else if b[1] == 92 {
                Some(92u8)
            } else if b[1] == 47 {
                Some(47u8)
            } else if b[1] == 98 {
                Some(8u8)
            } else if b[1] == 102 {
                Some(12u8)
            } else if b[1] == 110 {
                Some(10u8)
            } else if b[1] == 114 {
                Some(13u8)
            } else if b[1] == 116 {
                Some(9u8)
            } else {
                None
            };
            match decoded {
                Some(x) => match spec_scan_string(b.skip(2)) {
                    Some((s, r)) => Some((seq![x] + s, r)),
                    None => None,
                },
                None => if b[1] == 117 && b.len() >= 6 {
                    match (spec_hex_val(b[2]), spec_hex_val(b[3]), spec_hex_val(b[4]), spec_hex_val(
                        b[5],
                    )) {
                        (Some(h1), Some(h2), Some(h3), Some(h4)) => {
                            let code = h1 * 4096 + h2 * 256 + h3 * 16 + h4;
                            if 0xD800 <= code <= 0xDFFF {
                                None
                            } else {
                                match spec_scan_string(b.skip(6)) {
                                    Some((s, r)) => Some((spec_utf8_bytes(code as u32) + s, r)),
                                    None => None,
                                }
                            }
                        },
                        _ => None,
                    }
                } else {
                    None
                },
            }
        }
    } else {
        match spec_scan_string(b.drop_first()) {
            Some((s, r)) => Some((seq![b[0]] + s, r)),
            None => None,
        }
    }
}

/// The value of a hex digit byte, either letter case.
pub open spec fn spec_hex_val(b: u8) -> Option<u8> {
    if 48 <= b <= 57 {
        Some((b - 48) as u8)
    } else if 97 <= b <= 102 {
        Some((b - 87) as u8)
    } else if 65 <= b <= 70 {
        Some((b - 55) as u8)
    } else {
        None
    }
}

/// Whether a byte is JSON whitespace.
pub open spec fn spec_is_ws(b: u8) -> bool {
    b == 32 || b == 9 || b == 10 || b == 13
}

/// `b` without its leading JSON whitespace.
pub open spec fn spec_skip_ws(b: Seq<u8>) -> Seq<u8>
    decreases b.len(),
{
    if b.len() > 0 && spec_is_ws(b[0]) {
        spec_skip_ws(b.drop_first())
    } else {
        b
    }
}

/// Walks over one JSON value without validating it: strings (with
/// escapes) are skipped whole, brackets and braces are balanced, and
/// the walk ends just before the first `,` `}` `]` at nesting depth
/// zero (or just past the closer that ends a bracketed value). `None`
/// when the input ends first.
pub open spec fn spec_skip_raw(b: Seq<u8>, depth: int, in_str: bool, esc: bool) -> Option<Seq<u8>>
    decreases b.len(),
{
    if b.len() == 0 {
        None
    } else if in_str {
        if esc {
            spec_skip_raw(b.drop_first(), depth, true, false)
        } else if b[0] == 92 {
            spec_skip_raw(b.drop_first(), depth, true, true)
        } else if b[0] == 34 {
            spec_skip_raw(b.drop_first(), depth, false, false)
        } else {
            spec_skip_raw(b.drop_first(), depth, true, false)
        }
    } else if depth == 0 && (b[0] == 44 || b[0] == 125 || b[0] == 93) {
        Some(b)
    } else if b[0] == 123 || b[0] == 91 {
        spec_skip_raw(b.drop_first(), depth + 1, false, false)
    } else if b[0] == 125 || b[0] == 93 {
        if depth == 1 {
            Some(b.drop_first())
        } else {
            spec_skip_raw(b.drop_first(), depth - 1, false, false)
        }
    } else if b[0] == 34 {
        spec_skip_raw(b.drop_first(), depth, true, false)
    } else {
        spec_skip_raw(b.drop_first(), depth, false, false)
    }
}

/// Skips one member value of unknown shape.
pub open spec fn spec_skip_value(b: Seq<u8>) -> Option<Seq<u8>> {
    spec_skip_raw(b, 0, false, false)
}

/// The bytes of the member name `sdp`.
pub open spec fn spec_sdp_key() -> Seq<u8> {
    seq![115u8, 100u8, 112u8]
}

/// The bytes of the member name `type`.
pub open spec fn spec_type_key() -> Seq<u8> {
    seq![116u8, 121u8, 112u8, 101u8]
}

/// What the object yields once its closing brace was consumed: only
/// trailing whitespace may remain, `sdp` must have been seen, and a
/// missing `type` defaults to `answer`.
pub open spec fn spec_members_end(
    rest: Seq<u8>,
    sdp: Option<Seq<u8>>,
    typ: Option<Seq<u8>>,
) -> Option<(Seq<u8>, Seq<u8>)> {
    if spec_skip_ws(rest).len() == 0 {
        match sdp {
            Some(s) => Some(
                (
                    s,
                    match typ {
                        Some(t) => t,
                        None => spec_answer_bytes(),
                    },
                ),
            ),
            None => None,
        }
    } else {
        None
    }
}

proof fn lemma_skip_ws_len(b: Seq<u8>)
    ensures
        spec_skip_ws(b).len() <= b.len(),
    decreases b.len(),
{
    if b.len() > 0 && spec_is_ws(b[0]) {
        lemma_skip_ws_len(b.drop_first());
    }
}

proof fn lemma_scan_shrinks(b: Seq<u8>)
    ensures
        spec_scan_string(b) matches Some((s, r)) ==> r.len() < b.len(),
    decreases b.len(),
{
    if b.len() == 0 {
    } else if b[0] == 34 {
    } else if b[0] == 92 {
        if b.len() >= 2 {
            lemma_scan_shrinks(b.skip(2));
            if b.len() >= 6 {
                lemma_scan_shrinks(b.skip(6));
            }
        }
    } else {
        lemma_scan_shrinks(b.drop_first());
    }
}

proof fn lemma_skip_raw_len(b: Seq<u8>, depth: int, in_str: bool, esc: bool)
    ensures
        spec_skip_raw(b, depth, in_str, esc) matches Some(r) ==> r.len() <= b.len(),
    decreases b.len(),
{
    if b.len() == 0 {
    } else if in_str {
        if esc {
            lemma_skip_raw_len(b.drop_first(), depth, true, false);
        } else if b[0] == 92 {
            lemma_skip_raw_len(b.drop_first(), depth, true, true);
        } else if b[0] == 34 {
            lemma_skip_raw_len(b.drop_first(), depth, false, false);
        } else {
            lemma_skip_raw_len(b.drop_first(), depth, true, false);
        }
    } else if depth == 0 && (b[0] == 44 || b[0] == 125 || b[0] == 93) {
    } else if b[0] == 123 || b[0] == 91 {
        lemma_skip_raw_len(b.drop_first(), depth + 1, false, false);
    } else if b[0] == 125 || b[0] == 93 {
        if depth != 1 {
            lemma_skip_raw_len(b.drop_first(), depth - 1, false, false);
        }
    } else if b[0] == 34 {
        lemma_skip_raw_len(b.drop_first(), depth, true, false);
    } else {
        lemma_skip_raw_len(b.drop_first(), depth, false, false);
    }
}

/// Reads the members of the session-description object, one per
/// recursion step: a quoted member name, a colon, then either the
/// string value of `sdp`/`type` (recorded; a repeated member is
/// overwritten) or any other member's value skipped whole; members are
/// separated by commas (no trailing comma), whitespace is free, and the
/// closing brace hands over to `spec_members_end`.
pub open spec fn spec_parse_members(
    b: Seq<u8>,
    sdp: Option<Seq<u8>>,
    typ: Option<Seq<u8>>,
    expect_member: bool,
) -> Option<(Seq<u8>, Seq<u8>)>
    decreases b.len(), 1int,
    via spec_parse_members_dec
{
    let b1 = spec_skip_ws(b);
    if b1.len() == 0 {
        None
    } else if b1[0] == 125 && !expect_member {
        spec_members_end(b1.drop_first(), sdp, typ)
    } else if b1[0] == 34 {
        match spec_scan_string(b1.drop_first()) {
            None => None,
            Some((key, r1)) => {
                let r2 = spec_skip_ws(r1);
                if r2.len() == 0 || r2[0] != 58 {
                    None
                } else {
                    let r3 = spec_skip_ws(r2.drop_first());
                    let stepped: Option<(Option<Seq<u8>>, Option<Seq<u8>>, Seq<u8>)> = if key
                        == spec_sdp_key() || key == spec_type_key() {
                        if r3.len() > 0 && r3[0] == 34 {
                            match spec_scan_string(r3.drop_first()) {
                                None => None,
                                Some((v, r4)) => if key == spec_sdp_key() {
                                    Some((Some(v), typ, r4))
                                } else {
                                    Some((sdp, Some(v), r4))
                                },
                            }
                        } else {
                            None
                        }
                    } else {
                        match spec_skip_value(r3) {
                            None => None,
                            Some(r4) => Some((sdp, typ, r4)),
                        }
                    };
                    match stepped {
                        None => None,
                        Some((sdp2, typ2, r4)) => spec_members_step(r4, sdp2, typ2),
                    }
                }
            },
        }
    } else {
        None
    }
}

#[via_fn]
proof fn spec_parse_members_dec(
    b: Seq<u8>,
    sdp: Option<Seq<u8>>,
    typ: Option<Seq<u8>>,
    expect_member: bool,
) {
    let b1 = spec_skip_ws(b);
    lemma_skip_ws_len(b);
    if b1.len() > 0 && !(b1[0] == 125 && !expect_member) && b1[0] == 34 {
        match spec_scan_string(b1.drop_first()) {
            None => {},
            Some((key, r1)) => {
                lemma_scan_shrinks(b1.drop_first());
                let r2 = spec_skip_ws(r1);
                lemma_skip_ws_len(r1);
                if r2.len() > 0 && r2[0] == 58 {
                    let r3 = spec_skip_ws(r2.drop_first());
                    lemma_skip_ws_len(r2.drop_first());
                    if key == spec_sdp_key() || key == spec_type_key() {
                        if r3.len() > 0 && r3[0] == 34 {
                            lemma_scan_shrinks(r3.drop_first());
                        }
                    } else {
                        lemma_skip_raw_len(r3, 0, false, false);
                    }
                }
            },
        }
    }
}

/// What follows one member: a comma and the next member, or the
/// closing brace and the end of the object.
pub open spec fn spec_members_step(
    r4: Seq<u8>,
    sdp: Option<Seq<u8>>,
    typ: Option<Seq<u8>>,
) -> Option<(Seq<u8>, Seq<u8>)>
    decreases r4.len(), 0int,
    via spec_members_step_dec
{
    let r5 = spec_skip_ws(r4);
    if r5.len() == 0 {
        None
    } else if r5[0] == 44 {
        spec_parse_members(r5.drop_first(), sdp, typ, true)
    } else if r5[0] == 125 {
        spec_members_end(r5.drop_first(), sdp, typ)
    } else {
        None
    }
}

#[via_fn]
proof fn spec_members_step_dec(r4: Seq<u8>, sdp: Option<Seq<u8>>, typ: Option<Seq<u8>>) {
    lemma_skip_ws_len(r4);
}

/// Parses the session-description JSON object of the signalling
/// channels: any member order, insignificant whitespace and unknown
/// extra members allowed; the `sdp` string is required and a missing
/// `type` defaults to `answer`.
pub open spec fn spec_parse_sdp(b: Seq<u8>) -> Option<(Seq<u8>, Seq<u8>)> {
    let b0 = spec_skip_ws(b);
    if b0.len() > 0 && b0[0] == 123 {
        spec_parse_members(b0.drop_first(), None, None, false)
    } else {
        None
    }
}

/// The view of an optional recorded member value.
pub open spec fn opt_bytes_view(o: Option<Vec<u8>>) -> Option<Seq<u8>> {
    match o {
        Some(v) => Some(v@),
        None => None,
    }
}

/// The bytes of `answer`.
pub open spec fn spec_answer_bytes() -> Seq<u8> {
    seq![97u8, 110u8, 115u8, 119u8, 101u8, 114u8]
}

/// The lowercase hex digit byte for `d`.
fn hex_digit(d: u8) -> (r: u8)
    requires
        d < 16,
    ensures
        r == spec_hex_digit(d),
{
    if d < 10 {
        48 + d
    } else {
        87 + d
    }
}

/// Appends the JSON string-escape of `s` to `out`.
fn escape_into(out: &mut Vec<u8>, s: &Vec<u8>)
    ensures
        final(out)@ == old(out)@ + spec_escape(s@),
{
    let mut i: usize = 0;
    proof {
        assert(s@.skip(0) =~= s@);
        assert(old(out)@ + spec_escape(s@) =~= out@ + spec_escape(s@.skip(0)));
    }
    while i < s.len()
        invariant
            i <= s@.len(),
            old(out)@ + spec_escape(s@) == out@ + spec_escape(s@.skip(i as int)),
        decreases s@.len() - i,
    {
        let ghost out0 = out@;
        let b = s[i];
        proof {
            assert(s@.skip(i as int)[0] == b);
            assert(s@.skip(i as int).drop_first() =~= s@.skip(i as int + 1));
        }
        if b == 34 {
            out.push(92);
            out.push(34);
        } else if b == 92 {
            out.push(92);
            out.push(92);
        } else if b == 10 {
            out.push(92);
            out.push(110);
        } else if b == 13 {
            out.push(92);
            out.push(114);
        } else if b == 9 {
            out.push(92);
            out.push(116);
        } else if b < 32 {
            out.push(92);
            out.push(117);
            out.push(48);
            out.push(48);
            out.push(hex_digit(b / 16));
            out.push(hex_digit(b % 16));
        } else {
            out.push(b);
        }
        proof {
            assert(out@ =~= out0 + spec_escape_byte(b));
            assert(out0 + (spec_escape_byte(b) + spec_escape(s@.skip(i as int + 1))) =~= out@
                + spec_escape(s@.skip(i as int + 1)));
        }
        i = i + 1;
    }
    proof {
        assert(spec_escape(s@.skip(s@.len() as int)).len() == 0);
        assert(out@ + spec_escape(s@.skip(s@.len() as int)) =~= out@);
    }
}

/// Builds the session-description JSON object
/// `{"sdp":"...","type":"..."}`, with both strings escaped.
pub fn encode_sdp_json(sdp: &Vec<u8>, typ: &Vec<u8>) -> (r: Vec<u8>)
    ensures
        r@ == spec_sdp_json(sdp@, typ@),
{
    let mut out: Vec<u8> = Vec::new();
    out.push(123);
    out.push(34);
    out.push(115);
    out.push(100);
    out.push(112);
    out.push(34);
    out.push(58);
    out.push(34);
    proof {
        assert(out@ =~= spec_sdp_prefix());
    }
    escape_into(&mut out, sdp);
    let ghost mid = out@;
    out.push(34);
    out.push(44);
    out.push(34);
    out.push(116);
    out.push(121);
    out.push(112);
    out.push(101);
    out.push(34);
    out.push(58);
    out.push(34);
    proof {
        assert(out@ =~= mid + spec_type_infix());
    }
    escape_into(&mut out, typ);
    let ghost mid2 = out@;
    out.push(34);
    out.push(125);
    proof {
        assert(out@ =~= mid2 + spec_json_close());
        assert(out@ =~= spec_sdp_json(sdp@, typ@));
    }
    out
}

/// Wraps a local session description for the wire: the JSON object of
/// `encode_sdp_json`, base64-encoded. This is the `sd` value both
/// signalling channels carry.
pub fn encode_sdp_offer(sdp: &Vec<u8>, typ: &Vec<u8>) -> (r: String)
    ensures
        r@ == b64_of(spec_sdp_json(sdp@, typ@)),
{
    let json = encode_sdp_json(sdp, typ);
    b64_encode(&json)
}

/// Reads a JSON string body of `b` starting at `start`, undoing escapes,
/// exactly as `spec_scan_string` does on the corresponding suffix: the
/// content and the index just past the closing quote.
#[verifier::rlimit(100)]
fn scan_string(b: &Vec<u8>, start: usize) -> (r: Option<(Vec<u8>, usize)>)
    requires
        start <= b@.len(),
    ensures
        (match r {
            Some((content, next)) => start < next <= b@.len() && spec_scan_string(
                b@.skip(start as int),
            ) == Some((content@, b@.skip(next as int))),
            None => spec_scan_string(b@.skip(start as int)) is None,
        }),
{
    let mut out: Vec<u8> = Vec::new();
    let mut i: usize = start;
    proof {
        assert(out@ =~= Seq::<u8>::empty());
    }
    while i < b.len()
        invariant
            start <= i <= b@.len(),
            (match spec_scan_string(b@.skip(i as int)) {
                Some((s, rest)) => spec_scan_string(b@.skip(start as int)) == Some((out@ + s, rest)),
                None => spec_scan_string(b@.skip(start as int)) is None,
            }),
        decreases b@.len() - i,
    {
        let ghost out0 = out@;
        let ghost tail = b@.skip(i as int);
        let c = b[i];
        proof {
            assert(tail[0] == c);
            assert(tail.drop_first() =~= b@.skip(i as int + 1));
        }
        if c == 34 {
            proof {
                assert(out@ + Seq::<u8>::empty() =~= out@);
            }
            return Some((out, i + 1));
        } else if c == 92 {
            if i + 1 >= b.len() {
                return None;
            }
            let e = b[i + 1];
            proof {
                assert(tail.len() >= 2);
                assert(tail[1] == e);
                assert(tail.skip(2) =~= b@.skip(i as int + 2));
            }
            if e == 34 {
                out.push(34);
            } else if e == 92 {
                out.push(92);
            } else if e == 47 {
                out.push(47);
            } else if e == 98 {
                out.push(8);
            } else if e == 102 {
                out.push(12);
            } else if e == 110 {
                out.push(10);
            } else if e == 114 {
                out.push(13);
            } else if e == 116 {
                out.push(9);
            } else if e == 117 {
                if b.len() - i <= 5 {
                    return None;
                }
                proof {
                    assert(tail.len() >= 6);
                    assert(tail[2] == b@[i as int + 2]);
                    assert(tail[3] == b@[i as int + 3]);
                    assert(tail[4] == b@[i as int + 4]);
                    assert(tail[5] == b@[i as int + 5]);
                    assert(tail.skip(6) =~= b@.skip(i as int + 6));
                }
                let h1 = match hex_val(b[i + 2]) {
                    Some(v) => v,
                    None => {
                        return None;
                    },
                };
                let h2 = match hex_val(b[i + 3]) {
                    Some(v) => v,
                    None => {
                        return None;
                    },
                };
                let h3 = match hex_val(b[i + 4]) {
                    Some(v) => v,
                    None => {
                        return None;
                    },
                };
                let h4 = match hex_val(b[i + 5]) {
                    Some(v) => v,
                    None => {
                        return None;
                    },
                };
                let code: u32 = (h1 as u32) * 4096 + (h2 as u32) * 256 + (h3 as u32) * 16
                    + (h4 as u32);
                if 0xD800 <= code && code <= 0xDFFF {
                    return None;
                }
                if code < 0x80 {
                    out.push(code as u8);
                } else if code < 0x800 {
                    out.push((192 + code / 64) as u8);
                    out.push((128 + code % 64) as u8);
                } else {
                    out.push((224 + code / 4096) as u8);
                    out.push((128 + (code / 64) % 64) as u8);
                    out.push((128 + code % 64) as u8);
                }
                proof {
                    assert(out@ =~= out0 + spec_utf8_bytes(code));
                    match spec_scan_string(b@.skip(i as int + 6)) {
                        Some((s, rest)) => {
                            assert(out0 + (spec_utf8_bytes(code) + s) =~= out@ + s);
                        },
                        None => {},
                    }
                }
                i = i + 6;
                continue;
            } else {
                return None;
            }
            proof {
                let decoded: u8 = if e == 34 {
                    34u8
                } else if e == 92 {
                    92u8
                } else if e == 47 {
                    47u8
                } else if e == 98 {
                    8u8
                } else if e == 102 {
                    12u8
                } else if e == 110 {
                    10u8
                } else if e == 114 {
                    13u8
                } else {
                    9u8
                };
                assert(out@ =~= out0 + seq![decoded]);
                match spec_scan_string(b@.skip(i as int + 2)) {
                    Some((s, rest)) => {
                        assert(out0 + (seq![decoded] + s) =~= out@ + s);
                    },
                    None => {},
                }
            }
            i = i + 2;
        } else {
            out.push(c);
            proof {
                assert(out@ =~= out0 + seq![c]);
                match spec_scan_string(b@.skip(i as int + 1)) {
                    Some((s, rest)) => {
                        assert(out0 + (seq![c] + s) =~= out@ + s);
                    },
                    None => {},
                }
            }
            i = i + 1;
        }
    }
    proof {
        assert(b@.skip(b@.len() as int).len() == 0);
    }
    None
}

/// The value of a hex digit byte, either letter case.
fn hex_val(b: u8) -> (r: Option<u8>)
    ensures
        r == spec_hex_val(b),
{
    if 48 <= b && b <= 57 {
        Some(b - 48)
    } else if 97 <= b && b <= 102 {
        Some(b - 87)
    } else if 65 <= b && b <= 70 {
        Some(b - 55)
    } else {
        None
    }
}

/// The index of the first non-whitespace byte at or after `i`.
fn skip_ws_at(b: &Vec<u8>, i: usize) -> (r: usize)
    requires
        i <= b@.len(),
    ensures
        i <= r <= b@.len(),
        b@.skip(r as int) == spec_skip_ws(b@.skip(i as int)),
{
    let mut j = i;
    while j < b.len() && (b[j] == 32 || b[j] == 9 || b[j] == 10 || b[j] == 13)
        invariant
            i <= j <= b@.len(),
            spec_skip_ws(b@.skip(i as int)) == spec_skip_ws(b@.skip(j as int)),
        decreases b@.len() - j,
    {
        proof {
            assert(b@.skip(j as int)[0] == b@[j as int]);
            assert(b@.skip(j as int).drop_first() =~= b@.skip(j as int + 1));
        }
        j = j + 1;
    }
    proof {
        if j < b@.len() {
            assert(b@.skip(j as int)[0] == b@[j as int]);
        } else {
            assert(b@.skip(j as int).len() == 0);
        }
    }
    j
}

/// Walks over one member value of unknown shape, exactly as
/// `spec_skip_value` does on the corresponding suffix.
fn skip_value_at(b: &Vec<u8>, i: usize) -> (r: Option<usize>)
    requires
        i <= b@.len(),
    ensures
        (match r {
            Some(j) => i <= j <= b@.len() && spec_skip_value(b@.skip(i as int)) == Some(
                b@.skip(j as int),
            ),
            None => spec_skip_value(b@.skip(i as int)) is None,
        }),
{
    let mut j = i;
    let mut depth: usize = 0;
    let mut in_str = false;
    let mut esc = false;
    while j < b.len()
        invariant
            i <= j <= b@.len(),
            depth <= j,
            !in_str ==> !esc,
            spec_skip_value(b@.skip(i as int)) == spec_skip_raw(
                b@.skip(j as int),
                depth as int,
                in_str,
                esc,
            ),
        decreases b@.len() - j,
    {
        let c = b[j];
        let ghost d0 = depth as int;
        let ghost s0 = in_str;
        let ghost e0 = esc;
        proof {
            assert(b@.skip(j as int)[0] == c);
            assert(b@.skip(j as int).drop_first() =~= b@.skip(j as int + 1));
        }
        if in_str {
            if esc {
                esc = false;
            } else if c == 92 {
                esc = true;
            } else if c == 34 {
                in_str = false;
            } else {
                esc = false;
            }
        } else if depth == 0 && (c == 44 || c == 125 || c == 93) {
            return Some(j);
        } else if c == 123 || c == 91 {
            depth = depth + 1;
        } else if c == 125 || c == 93 {
            if depth == 1 {
                return Some(j + 1);
            }
            depth = depth - 1;
        } else if c == 34 {
            in_str = true;
        }
        proof {
            assert(spec_skip_raw(b@.skip(j as int), d0, s0, e0) == spec_skip_raw(
                b@.skip(j as int + 1),
                depth as int,
                in_str,
                esc,
            ));
        }
        j = j + 1;
    }
    proof {
        assert(b@.skip(j as int).len() == 0);
    }
    None
}

/// The bytes of the default type, `answer`.
fn answer_vec() -> (r: Vec<u8>)
    ensures
        r@ == spec_answer_bytes(),
{
    let mut v: Vec<u8> = Vec::new();
    v.push(97);
    v.push(110);
    v.push(115);
    v.push(119);
    v.push(101);
    v.push(114);
    proof {
        assert(v@ =~= spec_answer_bytes());
    }
    v
}

/// Settles the object once its closing brace was consumed, exactly as
/// `spec_members_end` does.
fn members_end(b: &Vec<u8>, i: usize, sdp: Option<Vec<u8>>, typ: Option<Vec<u8>>) -> (r: Option<
    (Vec<u8>, Vec<u8>),
>)
    requires
        i <= b@.len(),
    ensures
        (match r {
            Some(p) => spec_members_end(b@.skip(i as int), opt_bytes_view(sdp), opt_bytes_view(typ))
                == Some((p.0@, p.1@)),
            None => spec_members_end(b@.skip(i as int), opt_bytes_view(sdp), opt_bytes_view(typ))
                is None,
        }),
{
    let j = skip_ws_at(b, i);
    if j != b.len() {
        proof {
            assert(spec_skip_ws(b@.skip(i as int)).len() == b@.len() - j);
        }
        return None;
    }
    proof {
        assert(spec_skip_ws(b@.skip(i as int)).len() == 0);
    }
    match sdp {
        None => None,
        Some(s) => {
            let t = match typ {
                Some(t) => t,
                None => answer_vec(),
            };
            Some((s, t))
        },
    }
}

/// Reads the object's members, mirroring `spec_parse_members` member by
/// member.
fn parse_members(
    b: &Vec<u8>,
    i: usize,
    sdp: Option<Vec<u8>>,
    typ: Option<Vec<u8>>,
    expect_member: bool,
) -> (r: Option<(Vec<u8>, Vec<u8>)>)
    requires
        i <= b@.len(),
    ensures
        (match r {
            Some(p) => spec_parse_members(
                b@.skip(i as int),
                opt_bytes_view(sdp),
                opt_bytes_view(typ),
                expect_member,
            ) == Some((p.0@, p.1@)),
            None => spec_parse_members(
                b@.skip(i as int),
                opt_bytes_view(sdp),
                opt_bytes_view(typ),
                expect_member,
            ) is None,
        }),
    decreases b@.len() - i,
{
    let j1 = skip_ws_at(b, i);
    if j1 == b.len() {
        proof {
            assert(spec_skip_ws(b@.skip(i as int)).len() == 0);
        }
        return None;
    }
    let c = b[j1];
    proof {
        assert(b@.skip(j1 as int)[0] == c);
        assert(spec_skip_ws(b@.skip(i as int)).len() == b@.len() - j1);
        assert(b@.skip(j1 as int).drop_first() =~= b@.skip(j1 as int + 1));
    }
    if c == 125 && !expect_member {
        return members_end(b, j1 + 1, sdp, typ);
    }
    if c != 34 {
        return None;
    }
    let (key, k1) = match scan_string(b, j1 + 1) {
        Some(p) => p,
        None => {
            return None;
        },
    };
    let k2 = skip_ws_at(b, k1);
    if k2 == b.len() {
        proof {
            assert(spec_skip_ws(b@.skip(k1 as int)).len() == 0);
        }
        return None;
    }
    proof {
        assert(b@.skip(k2 as int)[0] == b@[k2 as int]);
        assert(spec_skip_ws(b@.skip(k1 as int)).len() == b@.len() - k2);
        assert(b@.skip(k2 as int).drop_first() =~= b@.skip(k2 as int + 1));
    }
    if b[k2] != 58 {
        return None;
    }
    let k3 = skip_ws_at(b, k2 + 1);
    let is_sdp = bytes_eq(&key, &[115, 100, 112]);
    let is_type = bytes_eq(&key, &[116, 121, 112, 101]);
    proof {
        assert([115u8, 100u8, 112u8]@ =~= spec_sdp_key());
        assert([116u8, 121u8, 112u8, 101u8]@ =~= spec_type_key());
    }
    if is_sdp || is_type {
        if k3 == b.len() {
            proof {
                assert(spec_skip_ws(b@.skip(k2 as int + 1)).len() == 0);
            }
            return None;
        }
        proof {
            assert(b@.skip(k3 as int)[0] == b@[k3 as int]);
            assert(spec_skip_ws(b@.skip(k2 as int + 1)).len() == b@.len() - k3);
            assert(b@.skip(k3 as int).drop_first() =~= b@.skip(k3 as int + 1));
        }
        if b[k3] != 34 {
            return None;
        }
        let (v, k4) = match scan_string(b, k3 + 1) {
            Some(p) => p,
            None => {
                return None;
            },
        };
        if is_sdp {
            members_tail(b, k4, Some(v), typ)
        } else {
            members_tail(b, k4, sdp, Some(v))
        }
    } else {
        let k4 = match skip_value_at(b, k3) {
            Some(j) => j,
            None => {
                return None;
            },
        };
        members_tail(b, k4, sdp, typ)
    }
}

/// After one member: a comma continues with the next member, the
/// closing brace ends the object.
fn members_tail(
    b: &Vec<u8>,
    k4: usize,
    sdp: Option<Vec<u8>>,
    typ: Option<Vec<u8>>,
) -> (r: Option<(Vec<u8>, Vec<u8>)>)
    requires
        k4 <= b@.len(),
    ensures
        (match r {
            Some(p) => spec_members_step(
                b@.skip(k4 as int),
                opt_bytes_view(sdp),
                opt_bytes_view(typ),
            ) == Some((p.0@, p.1@)),
            None => spec_members_step(
                b@.skip(k4 as int),
                opt_bytes_view(sdp),
                opt_bytes_view(typ),
            ) is None,
        }),
    decreases b@.len() - k4, 0int,
{
    let k5 = skip_ws_at(b, k4);
    if k5 == b.len() {
        proof {
            assert(spec_skip_ws(b@.skip(k4 as int)).len() == 0);
        }
        return None;
    }
    proof {
        assert(b@.skip(k5 as int)[0] == b@[k5 as int]);
        assert(spec_skip_ws(b@.skip(k4 as int)).len() == b@.len() - k5);
        assert(b@.skip(k5 as int).drop_first() =~= b@.skip(k5 as int + 1));
    }
    if b[k5] == 44 {
        parse_members(b, k5 + 1, sdp, typ, true)
    } else if b[k5] == 125 {
        members_end(b, k5 + 1, sdp, typ)
    } else {
        None
    }
}

/// Parses the session-description JSON object of the signalling
/// channels, exactly as `spec_parse_sdp` describes: the `sdp` bytes and
/// the `type` bytes (`answer` standing in when the member is absent).
pub fn parse_sdp_json(b: &Vec<u8>) -> (r: Option<(Vec<u8>, Vec<u8>)>)
    ensures
        (match r {
            Some(p) => spec_parse_sdp(b@) == Some((p.0@, p.1@)),
            None => spec_parse_sdp(b@) is None,
        }),
{
    proof {
        assert(b@.skip(0) =~= b@);
    }
    let j = skip_ws_at(b, 0);
    if j == b.len() {
        proof {
            assert(spec_skip_ws(b@).len() == 0);
        }
        return None;
    }
    proof {
        assert(b@.skip(j as int)[0] == b@[j as int]);
        assert(spec_skip_ws(b@).len() == b@.len() - j);
        assert(b@.skip(j as int).drop_first() =~= b@.skip(j as int + 1));
    }
    if b[j] != 123 {
        return None;
    }
    parse_members(b, j + 1, None, None, false)
}

/// Scanning a JSON string body undoes escaping: right after the escape
/// of `s` and its closing quote, the scanner returns exactly `s` and
/// whatever follows the quote.
pub proof fn lemma_scan_escape(s: Seq<u8>, rest: Seq<u8>)
    ensures
        spec_scan_string(spec_escape(s) + seq![34u8] + rest) == Some((s, rest)),
    decreases s.len(),
{
    let b = spec_escape(s) + seq![34u8] + rest;
    if s.len() == 0 {
        assert(b =~= seq![34u8] + rest);
        assert(b[0] == 34);
        assert(b.drop_first() =~= rest);
        assert(s =~= Seq::<u8>::empty());
    } else {
        let x = s[0];
        let e = spec_escape_byte(x);
        lemma_scan_escape(s.drop_first(), rest);
        let b2 = spec_escape(s.drop_first()) + seq![34u8] + rest;
        assert(b =~= e + b2);
        assert(forall|j: int| 0 <= j < e.len() ==> b[j] == e[j]);
        assert(b.len() == e.len() + b2.len());
        if x == 34 || x == 92 || x == 10 || x == 13 || x == 9 {
            assert(e.len() == 2 && e[0] == 92);
            assert(b.skip(2) =~= b2);
            assert(seq![x] + s.drop_first() =~= s);
        } else if x < 32 {
            assert(e.len() == 6 && e[0] == 92 && e[1] == 117 && e[2] == 48 && e[3] == 48);
            assert(e[4] == spec_hex_digit(x / 16) && e[5] == spec_hex_digit(x % 16));
            assert(spec_hex_val(48u8) == Some(0u8));
            assert(spec_hex_val(spec_hex_digit(x / 16)) == Some((x / 16) as u8));
            assert(spec_hex_val(spec_hex_digit(x % 16)) == Some((x % 16) as u8));
            assert(0 * 4096 + 0 * 256 + (x / 16) * 16 + (x % 16) == x);
            assert(spec_utf8_bytes(x as u32) =~= seq![x]);
            assert(b.skip(6) =~= b2);
            assert(seq![x] + s.drop_first() =~= s);
        } else {
            assert(e.len() == 1 && e[0] == x);
            assert(x != 34 && x != 92);
            assert(b.drop_first() =~= b2);
            assert(seq![x] + s.drop_first() =~= s);
        }
    }
}

/// The session-description round trip: the object `encode_sdp_json`
/// builds parses back to exactly the sdp and type it was built from.
#[verifier::rlimit(100)]
pub proof fn lemma_sdp_round_trip(sdp: Seq<u8>, typ: Seq<u8>)
    ensures
        spec_parse_sdp(spec_sdp_json(sdp, typ)) == Some((sdp, typ)),
{
    reveal_with_fuel(spec_escape, 6);
    let b = spec_sdp_json(sdp, typ);
    // the object opens immediately
    assert(b[0] == 123);
    assert(!spec_is_ws(123u8));
    assert(spec_skip_ws(b) == b);
    // first member: "sdp" and its escaped value, then a comma
    let tail_t = seq![44u8, 34u8, 116u8, 121u8, 112u8, 101u8, 34u8, 58u8, 34u8] + spec_escape(typ)
        + seq![34u8] + seq![125u8];
    let bb = b.drop_first();
    assert(bb =~= seq![34u8] + (spec_escape(spec_sdp_key()) + seq![34u8] + (seq![58u8, 34u8]
        + spec_escape(sdp) + seq![34u8] + tail_t))) by {
        assert(spec_escape(spec_sdp_key()) =~= spec_sdp_key());
    }
    assert(bb[0] == 34 && !spec_is_ws(34u8) && spec_skip_ws(bb) == bb);
    lemma_scan_escape(spec_sdp_key(), seq![58u8, 34u8] + spec_escape(sdp) + seq![34u8] + tail_t);
    assert(bb.drop_first() =~= spec_escape(spec_sdp_key()) + seq![34u8] + (seq![58u8, 34u8]
        + spec_escape(sdp) + seq![34u8] + tail_t));
    let r1 = seq![58u8, 34u8] + spec_escape(sdp) + seq![34u8] + tail_t;
    assert(spec_scan_string(bb.drop_first()) == Some((spec_sdp_key(), r1)));
    assert(r1[0] == 58 && !spec_is_ws(58u8) && spec_skip_ws(r1) == r1);
    let r3 = seq![34u8] + spec_escape(sdp) + seq![34u8] + tail_t;
    assert(r1.drop_first() =~= r3);
    assert(r3[0] == 34 && !spec_is_ws(34u8) && spec_skip_ws(r3) == r3);
    assert(r3.drop_first() =~= spec_escape(sdp) + seq![34u8] + tail_t);
    lemma_scan_escape(sdp, tail_t);
    assert(spec_scan_string(r3.drop_first()) == Some((sdp, tail_t)));
    // after the first member: the comma, then the "type" member
    assert(tail_t[0] == 44 && !spec_is_ws(44u8) && spec_skip_ws(tail_t) == tail_t);
    let bb2 = tail_t.drop_first();
    assert(bb2 =~= seq![34u8] + (spec_escape(spec_type_key()) + seq![34u8] + (seq![58u8, 34u8]
        + spec_escape(typ) + seq![34u8] + seq![125u8]))) by {
        assert(spec_escape(spec_type_key()) =~= spec_type_key());
    }
    assert(bb2[0] == 34 && spec_skip_ws(bb2) == bb2);
    lemma_scan_escape(
        spec_type_key(),
        seq![58u8, 34u8] + spec_escape(typ) + seq![34u8] + seq![125u8],
    );
    assert(bb2.drop_first() =~= spec_escape(spec_type_key()) + seq![34u8] + (seq![58u8, 34u8]
        + spec_escape(typ) + seq![34u8] + seq![125u8]));
    let q1 = seq![58u8, 34u8] + spec_escape(typ) + seq![34u8] + seq![125u8];
    assert(spec_scan_string(bb2.drop_first()) == Some((spec_type_key(), q1)));
    assert(spec_type_key() != spec_sdp_key()) by {
        assert(spec_type_key().len() != spec_sdp_key().len());
    }
    assert(q1[0] == 58 && spec_skip_ws(q1) == q1);
    let q3 = seq![34u8] + spec_escape(typ) + seq![34u8] + seq![125u8];
    assert(q1.drop_first() =~= q3);
    assert(q3[0] == 34 && spec_skip_ws(q3) == q3);
    assert(q3.drop_first() =~= spec_escape(typ) + seq![34u8] + seq![125u8]);
    lemma_scan_escape(typ, seq![125u8]);
    assert(spec_scan_string(q3.drop_first()) == Some((typ, seq![125u8])));
    // the closing brace ends the object with both members recorded
    let close = seq![125u8];
    assert(close[0] == 125 && !spec_is_ws(125u8) && spec_skip_ws(close) == close);
    assert(close.drop_first() =~= Seq::<u8>::empty());
    assert(spec_skip_ws(Seq::<u8>::empty()).len() == 0);
    assert(spec_members_end(close.drop_first(), Some(sdp), Some(typ)) == Some::<(Seq<u8>, Seq<u8>)>(
        (sdp, typ),
    ));
    assert(spec_members_step(tail_t, Some(sdp), None) == Some::<(Seq<u8>, Seq<u8>)>((sdp, typ)))
        by {
        assert(spec_parse_members(bb2, Some(sdp), None, true) == Some::<(Seq<u8>, Seq<u8>)>(
            (sdp, typ),
        )) by {
            assert(spec_members_step(seq![125u8], Some(sdp), Some(typ)) == Some::<(
                Seq<u8>,
                Seq<u8>,
            )>((sdp, typ)));
        }
    }
    assert(spec_parse_members(bb, None, None, false) == Some::<(Seq<u8>, Seq<u8>)>((sdp, typ)));
}

/// Unwraps a wire session description: base64-decode, then parse the
/// JSON object. The result is exactly `spec_parse_sdp` of the decoded
/// bytes; in particular, on anything `encode_sdp_offer` produced the
/// original sdp and type come back (`lemma_sdp_round_trip`).
pub fn decode_sdp_answer(s: &str) -> (r: Option<(Vec<u8>, Vec<u8>)>)
    ensures
        (match r {
            Some(p) => forall|b: Seq<u8>|
                s@ == b64_of(b) ==> #[trigger] spec_parse_sdp(b) == Some((p.0@, p.1@)),
            None => forall|b: Seq<u8>| s@ == b64_of(b) ==> #[trigger] spec_parse_sdp(b) is None,
        }),
        forall|sd: Seq<u8>, ty: Seq<u8>|
            s@ == b64_of(#[trigger] spec_sdp_json(sd, ty)) ==> (r matches Some(p) && p.0@ == sd
                && p.1@ == ty),
{
    let bytes = match b64_decode(s) {
        Some(v) => v,
        None => {
            proof {
                assert forall|sd: Seq<u8>, ty: Seq<u8>|
                    s@ != b64_of(#[trigger] spec_sdp_json(sd, ty)) by {
                    assert(s@ != b64_of(spec_sdp_json(sd, ty)));
                }
            }
            return None;
        },
    };
    let r = parse_sdp_json(&bytes);
    proof {
        assert forall|sd: Seq<u8>, ty: Seq<u8>|
            s@ == b64_of(#[trigger] spec_sdp_json(sd, ty)) implies (r matches Some(p) && p.0@
            == sd && p.1@ == ty) by {
            assert(bytes@ == spec_sdp_json(sd, ty));
            lemma_sdp_round_trip(sd, ty);
        }
    }
    r
}

/// The wire text of the `device-metadata` signalling envelope.
pub open spec fn spec_metadata_text(version: Seq<char>) -> Seq<char> {
    "{\"type\":\"device-metadata\",\"data\":{\"deviceVersion\":\""@ + version + "\"}}"@
}

/// Builds the `device-metadata` envelope. The version string stands in
/// the text verbatim (appliance versions never need JSON escaping).
pub fn encode_device_metadata(version: &str) -> (r: String)
    ensures
        r@ == spec_metadata_text(version@),
{
    let mut s = String::new();
    s.append("{\"type\":\"device-metadata\",\"data\":{\"deviceVersion\":\"");
    s.append(version);
    s.append("\"}}");
    proof {
        assert(s@ =~= spec_metadata_text(version@));
    }
    s
}

/// The wire text of the `offer` signalling envelope around a base64
/// session-description payload.
pub open spec fn spec_offer_text(sd: Seq<char>) -> Seq<char> {
    "{\"type\":\"offer\",\"data\":{\"sd\":\""@ + sd + "\"}}"@
}

/// Builds the `offer` envelope. The payload is base64 text, which never
/// needs JSON escaping.
pub fn encode_offer_message(sd: &str) -> (r: String)
    ensures
        r@ == spec_offer_text(sd@),
{
    let mut s = String::new();
    s.append("{\"type\":\"offer\",\"data\":{\"sd\":\"");
    s.append(sd);
    s.append("\"}}");
    proof {
        assert(s@ =~= spec_offer_text(sd@));
    }
    s
}

/// The wire text of the `answer` signalling envelope: its payload is a
/// bare base64 string.
pub open spec fn spec_answer_text(sd: Seq<char>) -> Seq<char> {
    "{\"type\":\"answer\",\"data\":\""@ + sd + "\"}"@
}

/// Builds the `answer` envelope.
pub fn encode_answer_message(sd: &str) -> (r: String)
    ensures
        r@ == spec_answer_text(sd@),
{
    let mut s = String::new();
    s.append("{\"type\":\"answer\",\"data\":\"");
    s.append(sd);
    s.append("\"}");
    proof {
        assert(s@ =~= spec_answer_text(sd@));
    }
    s
}

/// The wire text of the `new-ice-candidate` signalling envelope.
pub open spec fn spec_ice_candidate_text(
    candidate: Seq<char>,
    sdp_mid: Seq<char>,
    index: u16,
) -> Seq<char> {
    "{\"type\":\"new-ice-candidate\",\"data\":{\"candidate\":\""@ + candidate
        + "\",\"sdpMid\":\""@ + sdp_mid + "\",\"sdpMLineIndex\":"@ + crate::rpc::spec_u64_dec(
        index as u64,
    ) + "}}"@
}

/// Builds the `new-ice-candidate` envelope. Candidate and mid strings
/// stand in the text verbatim (ICE grammar has no characters that need
/// JSON escaping).
pub fn encode_ice_candidate_message(candidate: &str, sdp_mid: &str, index: u16) -> (r: String)
    ensures
        r@ == spec_ice_candidate_text(candidate@, sdp_mid@, index),
{
    let mut s = String::new();
    s.append("{\"type\":\"new-ice-candidate\",\"data\":{\"candidate\":\"");
    s.append(candidate);
    s.append("\",\"sdpMid\":\"");
    s.append(sdp_mid);
    s.append("\",\"sdpMLineIndex\":");
    crate::rpc::append_u64(&mut s, index as u64);
    s.append("}}");
    proof {
        assert(s@ =~= spec_ice_candidate_text(candidate@, sdp_mid@, index));
    }
    s
}

/// The session-description kinds a signalling answer may carry.
#[derive(Clone, Copy, Debug, PartialEq, Eq, Structural)]
pub enum SdpType {
    Offer,
    Answer,
    Pranswer,
}

/// The bytes of `offer`.
pub open spec fn spec_offer_bytes() -> Seq<u8> {
    seq![111u8, 102u8, 102u8, 101u8, 114u8]
}

/// The bytes of `pranswer`.
pub open spec fn spec_pranswer_bytes() -> Seq<u8> {
    seq![112u8, 114u8, 97u8, 110u8, 115u8, 119u8, 101u8, 114u8]
}

/// Whether two byte vectors hold the same bytes.
fn bytes_eq(a: &Vec<u8>, b: &[u8]) -> (r: bool)
    ensures
        r == (a@ == b@),
{
    if a.len() != b.len() {
        proof {
            assert(a@.len() != b@.len());
        }
        return false;
    }
    let mut i: usize = 0;
    while i < a.len()
        invariant
            i <= a@.len(),
            a@.len() == b@.len(),
            forall|j: int| 0 <= j < i ==> a@[j] == b@[j],
        decreases a@.len() - i,
    {
        if a[i] != b[i] {
            return false;
        }
        i = i + 1;
    }
    proof {
        assert(a@ =~= b@);
    }
    true
}

/// Classifies the `type` string of a signalling answer: `offer`,
/// `answer` and `pranswer` each select their description kind; a
/// rollback or any unknown type string is a protocol error.
pub fn classify_sdp_type(typ: &Vec<u8>) -> (r: Result<SdpType, KvmError>)
    ensures
        typ@ == spec_offer_bytes() ==> r == Ok::<SdpType, KvmError>(SdpType::Offer),
        typ@ == spec_answer_bytes() ==> r == Ok::<SdpType, KvmError>(SdpType::Answer),
        typ@ == spec_pranswer_bytes() ==> r == Ok::<SdpType, KvmError>(SdpType::Pranswer),
        typ@ != spec_offer_bytes() && typ@ != spec_answer_bytes() && typ@ != spec_pranswer_bytes()
            ==> r == Err::<SdpType, KvmError>(KvmError::SignallingProtocol),
{
    proof {
        assert(spec_offer_bytes().len() != spec_answer_bytes().len());
        assert(spec_offer_bytes().len() != spec_pranswer_bytes().len());
        assert(spec_answer_bytes()[0] != spec_pranswer_bytes()[0]);
        assert(spec_answer_bytes() != spec_pranswer_bytes());
    }
    let offer: [u8; 5] = [111, 102, 102, 101, 114];
    let answer: [u8; 6] = [97, 110, 115, 119, 101, 114];
    let pranswer: [u8; 8] = [112, 114, 97, 110, 115, 119, 101, 114];
    proof {
        assert(offer@ =~= spec_offer_bytes());
        assert(answer@ =~= spec_answer_bytes());
        assert(pranswer@ =~= spec_pranswer_bytes());
    }
    if bytes_eq(typ, &offer) {
        Ok(SdpType::Offer)
    } else if bytes_eq(typ, &answer) {
        Ok(SdpType::Answer)
    } else if bytes_eq(typ, &pranswer) {
        Ok(SdpType::Pranswer)
    } else {
        Err(KvmError::SignallingProtocol)
    }
}

} // verus!
