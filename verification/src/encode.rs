//! Record encoding. Exactly one of two interchangeable encodings is chosen
//! once at startup: a human-readable text encoding (JSON) or a compact
//! binary encoding (tagged varint fields), each tied to its own media type.

use vstd::prelude::*;
use vstd::string::*;
use vstd::utf8::encode_utf8;
use crate::model::{DynamicMetrics, IpInfo, StatRequest, SysInfo};

verus! {

/// The decimal digit character for `d` (defined for `d < 10`).
pub open spec fn spec_digit(d: nat) -> char {
    if d == 0 {
        '0'
    } else if d == 1 {
        '1'
    } else if d == 2 {
        '2'
    } else if d == 3 {
        '3'
    } else if d == 4 {
        '4'
    } else if d == 5 {
        '5'
    } else if d == 6 {
        '6'
    } else if d == 7 {
        '7'
    } else if d == 8 {
        '8'
    } else {
        '9'
    }
}

/// Decimal rendering of `n`, most significant digit first, no leading zeros.
pub open spec fn dec_str(n: nat) -> Seq<char>
    decreases n,
{
    if n < 10 {
        seq![spec_digit(n)]
    } else {
        dec_str(n / 10) + seq![spec_digit(n % 10)]
    }
}

/// JSON escape of one character: the quote, the backslash and the three
/// common control characters get a two-character escape; everything else
/// passes through unchanged.
pub open spec fn esc_char(c: char) -> Seq<char> {
    if c == '"' {
        "\\\""@
    } else if c == '\\' {
        "\\\\"@
    } else if c == '\n' {
        "\\n"@
    } else if c == '\r' {
        "\\r"@
    } else if c == '\t' {
        "\\t"@
    } else {
        seq![c]
    }
}

/// JSON escape of a whole string.
pub open spec fn esc(s: Seq<char>) -> Seq<char>
    decreases s.len(),
{
    if s.len() == 0 {
        Seq::empty()
    } else {
        esc_char(s[0]) + esc(s.drop_first())
    }
}

proof fn lemma_esc_snoc(t: Seq<char>, c: char)
    ensures
        esc(t.push(c)) == esc(t) + esc_char(c),
    decreases t.len(),
{
    if t.len() == 0 {
        assert(t.push(c) =~= seq![c]);
        assert(seq![c].drop_first() =~= Seq::<char>::empty());
        assert(esc(Seq::<char>::empty()) =~= Seq::<char>::empty());
        assert(esc(seq![c]) == esc_char(c) + esc(Seq::<char>::empty()));
        assert(esc(t.push(c)) =~= esc(t) + esc_char(c));
    } else {
        assert(t.push(c).drop_first() =~= t.drop_first().push(c));
        lemma_esc_snoc(t.drop_first(), c);
        assert(esc(t.push(c)) =~= esc(t) + esc_char(c));
    }
}

/// JSON rendering of a boolean.
pub open spec fn json_bool(b: bool) -> Seq<char> {
    if b {
        "true"@
    } else {
        "false"@
    }
}

/// JSON object for the dynamic metrics block.
pub open spec fn json_metrics(m: DynamicMetrics) -> Seq<char> {
    "{\"cpu\":"@ + dec_str(m.cpu_percent as nat) + ",\"network_rx\":"@ + dec_str(
        m.network_rx as nat,
    ) + ",\"network_tx\":"@ + dec_str(m.network_tx as nat) + ",\"ping_ct\":"@ + dec_str(
        m.ping_ct as nat,
    ) + ",\"ping_cm\":"@ + dec_str(m.ping_cm as nat) + ",\"ping_cu\":"@ + dec_str(
        m.ping_cu as nat,
    ) + ",\"time_ct\":"@ + dec_str(m.time_ct as nat) + ",\"time_cm\":"@ + dec_str(
        m.time_cm as nat,
    ) + ",\"time_cu\":"@ + dec_str(m.time_cu as nat) + "}"@
}

/// JSON value for the optional IP info: an object when present, `null`
/// otherwise.
pub open spec fn json_ip_info(o: Option<IpInfo>) -> Seq<char> {
    match o {
        None => "null"@,
        Some(i) => "{\"query\":\""@ + esc(i.query@) + "\",\"country\":\""@ + esc(i.country@)
            + "\",\"isp\":\""@ + esc(i.isp@) + "\"}"@,
    }
}

/// JSON value for the optional system descriptor.
pub open spec fn json_sys_info(o: Option<SysInfo>) -> Seq<char> {
    match o {
        None => "null"@,
        Some(s) => "{\"host_name\":\""@ + esc(s.host_name@) + "\",\"os_name\":\""@ + esc(
            s.os_name@,
        ) + "\",\"version\":\""@ + esc(s.version@) + "\"}"@,
    }
}

/// The text encoding of a record: one flat JSON object.
pub open spec fn json_of(r: StatRequest) -> Seq<char> {
    "{\"name\":\""@ + esc(r.name@) + "\",\"gid\":\""@ + esc(r.gid@) + "\",\"alias\":\""@ + esc(
        r.alias@,
    ) + "\",\"frame\":\""@ + esc(r.frame@) + "\",\"online4\":"@ + json_bool(r.online4)
        + ",\"online6\":"@ + json_bool(r.online6) + ",\"vnstat\":"@ + json_bool(r.vnstat)
        + ",\"weight\":"@ + dec_str(r.weight as nat) + ",\"notify\":"@ + json_bool(r.notify)
        + ",\"version\":\""@ + esc(r.version@) + "\",\"latest_ts\":"@ + dec_str(r.latest_ts as nat)
        + ",\"type\":\""@ + esc(r.host_type@) + "\",\"location\":\""@ + esc(r.location@)
        + "\",\"metrics\":"@ + json_metrics(r.metrics) + ",\"ip_info\":"@ + json_ip_info(r.ip_info)
        + ",\"sys_info\":"@ + json_sys_info(r.sys_info) + "}"@
}

/// The decimal digit as a one-character string slice.
fn digit_str(d: u64) -> (r: &'static str)
    requires
        d < 10,
    ensures
        r@ == seq![spec_digit(d as nat)],
{
    let s: &'static str = if d == 0 {
        "0"
    } else if d == 1 {
        "1"
    } else if d == 2 {
        "2"
    } else if d == 3 {
        "3"
    } else if d == 4 {
        "4"
    } else if d == 5 {
        "5"
    } else if d == 6 {
        "6"
    } else if d == 7 {
        "7"
    } else if d == 8 {
        "8"
    } else {
        "9"
    };
    proof {
        reveal_strlit("0");
        reveal_strlit("1");
        reveal_strlit("2");
        reveal_strlit("3");
        reveal_strlit("4");
        reveal_strlit("5");
        reveal_strlit("6");
        reveal_strlit("7");
        reveal_strlit("8");
        reveal_strlit("9");
        assert(s@ =~= seq![spec_digit(d as nat)]);
    }
    s
}

/// Append the decimal rendering of `n`.
fn push_dec(out: &mut String, n: u64)
    ensures
        final(out)@ == old(out)@ + dec_str(n as nat),
    decreases n,
{
    if n < 10 {
        out.append(digit_str(n));
    } else {
        push_dec(out, n / 10);
        out.append(digit_str(n % 10));
        proof {
            assert(out@ =~= old(out)@ + dec_str(n as nat));
        }
    }
}

/// Append the JSON escape of `s`.
fn append_escaped(out: &mut String, s: &str)
    ensures
        final(out)@ == old(out)@ + esc(s@),
{
    let len = s.unicode_len();
    proof {
        assert(s@.subrange(0, 0) =~= Seq::<char>::empty());
        assert(out@ =~= old(out)@ + esc(s@.subrange(0, 0)));
    }
    let mut i: usize = 0;
    while i < len
        invariant
            len == s@.len(),
            i <= len,
            out@ == old(out)@ + esc(s@.subrange(0, i as int)),
        decreases len - i,
    {
        let c = s.get_char(i);
        proof {
            lemma_esc_snoc(s@.subrange(0, i as int), c);
            assert(s@.subrange(0, i as int).push(c) =~= s@.subrange(0, i + 1 as int));
        }
        if c == '"' {
            out.append("\\\"");
        } else if c == '\\' {
            out.append("\\\\");
        } else if c == '\n' {
            out.append("\\n");
        } else if c == '\r' {
            out.append("\\r");
        } else if c == '\t' {
            out.append("\\t");
        } else {
            let piece = s.substring_char(i, i + 1);
            proof {
                assert(piece@ =~= seq![s@[i as int]]);
            }
            out.append(piece);
        }
        proof {
            assert(out@ =~= old(out)@ + esc(s@.subrange(0, i + 1 as int)));
        }
        i += 1;
    }
    proof {
        assert(s@.subrange(0, s@.len() as int) =~= s@);
    }
}

/// Append `true` or `false`.
fn append_bool(out: &mut String, b: bool)
    ensures
        final(out)@ == old(out)@ + json_bool(b),
{
    if b {
        out.append("true");
    } else {
        out.append("false");
    }
}

/// Render a record in the text encoding.
pub fn encode_json(r: &StatRequest) -> (out: String)
    ensures
        out@ == json_of(*r),
{
    let mut out = String::new();
    proof {
        assert(Seq::<char>::empty() + "{\"name\":\""@ =~= "{\"name\":\""@);
    }
    out.append("{\"name\":\"");
    append_escaped(&mut out, r.name.as_str());
    out.append("\",\"gid\":\"");
    append_escaped(&mut out, r.gid.as_str());
    out.append("\",\"alias\":\"");
    append_escaped(&mut out, r.alias.as_str());
    out.append("\",\"frame\":\"");
    append_escaped(&mut out, r.frame.as_str());
    out.append("\",\"online4\":");
    append_bool(&mut out, r.online4);
    out.append(",\"online6\":");
    append_bool(&mut out, r.online6);
    out.append(",\"vnstat\":");
    append_bool(&mut out, r.vnstat);
    out.append(",\"weight\":");
    push_dec(&mut out, r.weight);
    out.append(",\"notify\":");
    append_bool(&mut out, r.notify);
    out.append(",\"version\":\"");
    append_escaped(&mut out, r.version.as_str());
    out.append("\",\"latest_ts\":");
    push_dec(&mut out, r.latest_ts);
    out.append(",\"type\":\"");
    append_escaped(&mut out, r.host_type.as_str());
    out.append("\",\"location\":\"");
    append_escaped(&mut out, r.location.as_str());
    out.append("\",\"metrics\":");
    append_json_metrics(&mut out, &r.metrics);
    out.append(",\"ip_info\":");
    let ghost before_ip = out@;
    match &r.ip_info {
        None => out.append("null"),
        Some(i) => {
            out.append("{\"query\":\"");
            append_escaped(&mut out, i.query.as_str());
            out.append("\",\"country\":\"");
            append_escaped(&mut out, i.country.as_str());
            out.append("\",\"isp\":\"");
            append_escaped(&mut out, i.isp.as_str());
            out.append("\"}");
        },
    }
    proof {
        assert(out@ =~= before_ip + json_ip_info(r.ip_info));
    }
    out.append(",\"sys_info\":");
    let ghost before_sys = out@;
    match &r.sys_info {
        None => out.append("null"),
        Some(s) => {
            out.append("{\"host_name\":\"");
            append_escaped(&mut out, s.host_name.as_str());
            out.append("\",\"os_name\":\"");
            append_escaped(&mut out, s.os_name.as_str());
            out.append("\",\"version\":\"");
            append_escaped(&mut out, s.version.as_str());
            out.append("\"}");
        },
    }
    proof {
        assert(out@ =~= before_sys + json_sys_info(r.sys_info));
    }
    out.append("}");
    proof {
        assert(out@ == json_of(*r));
    }
    out
}

/// Append the metrics block in the text encoding.
fn append_json_metrics(out: &mut String, m: &DynamicMetrics)
    ensures
        final(out)@ == old(out)@ + json_metrics(*m),
{
    out.append("{\"cpu\":");
    push_dec(out, m.cpu_percent);
    out.append(",\"network_rx\":");
    push_dec(out, m.network_rx);
    out.append(",\"network_tx\":");
    push_dec(out, m.network_tx);
    out.append(",\"ping_ct\":");
    push_dec(out, m.ping_ct);
    out.append(",\"ping_cm\":");
    push_dec(out, m.ping_cm);
    out.append(",\"ping_cu\":");
    push_dec(out, m.ping_cu);
    out.append(",\"time_ct\":");
    push_dec(out, m.time_ct);
    out.append(",\"time_cm\":");
    push_dec(out, m.time_cm);
    out.append(",\"time_cu\":");
    push_dec(out, m.time_cu);
    out.append("}");
    proof {
        assert(out@ =~= old(out)@ + json_metrics(*m));
    }
}

/// Base-128 rendering of `n`, low group first, high bit marking continuation.
pub open spec fn varint(n: nat) -> Seq<u8>
    decreases n,
{
    if n < 128 {
        seq![n as u8]
    } else {
        seq![(n % 128 + 128) as u8] + varint(n / 128)
    }
}

/// A tagged string field of the binary encoding: tag, byte length, UTF-8
/// bytes.
pub open spec fn bin_str_field(tag: u8, s: Seq<char>) -> Seq<u8> {
    seq![tag] + varint(encode_utf8(s).len()) + encode_utf8(s)
}

/// A tagged integer field of the binary encoding.
pub open spec fn bin_u64_field(tag: u8, n: u64) -> Seq<u8> {
    seq![tag] + varint(n as nat)
}

/// A tagged boolean field of the binary encoding.
pub open spec fn bin_bool_field(tag: u8, b: bool) -> Seq<u8> {
    seq![tag, (if b { 1u8 } else { 0u8 })]
}

/// A tagged embedded block: tag, byte length, body.
pub open spec fn bin_msg_field(tag: u8, body: Seq<u8>) -> Seq<u8> {
    seq![tag] + varint(body.len()) + body
}

/// The metrics block of the binary encoding.
pub open spec fn bin_metrics(m: DynamicMetrics) -> Seq<u8> {
    bin_u64_field(0x08, m.cpu_percent) + bin_u64_field(0x10, m.network_rx) + bin_u64_field(
        0x18,
        m.network_tx,
    ) + bin_u64_field(0x20, m.ping_ct) + bin_u64_field(0x28, m.ping_cm) + bin_u64_field(
        0x30,
        m.ping_cu,
    ) + bin_u64_field(0x38, m.time_ct) + bin_u64_field(0x40, m.time_cm) + bin_u64_field(
        0x48,
        m.time_cu,
    )
}

/// The IP-info block of the binary encoding.
pub open spec fn bin_ip_info(i: IpInfo) -> Seq<u8> {
    bin_str_field(0x0A, i.query@) + bin_str_field(0x12, i.country@) + bin_str_field(0x1A, i.isp@)
}

/// The system-descriptor block of the binary encoding.
pub open spec fn bin_sys_info(s: SysInfo) -> Seq<u8> {
    bin_str_field(0x0A, s.host_name@) + bin_str_field(0x12, s.os_name@) + bin_str_field(
        0x1A,
        s.version@,
    )
}

/// The binary encoding of a record: tagged fields in a fixed order; absent
/// optional blocks are omitted entirely.
pub open spec fn bin_of(r: StatRequest) -> Seq<u8> {
    bin_str_field(0x0A, r.name@) + bin_str_field(0x12, r.gid@) + bin_str_field(0x1A, r.alias@)
        + bin_str_field(0x22, r.frame@) + bin_bool_field(0x28, r.online4) + bin_bool_field(
        0x30,
        r.online6,
    ) + bin_bool_field(0x38, r.vnstat) + bin_u64_field(0x40, r.weight) + bin_bool_field(
        0x48,
        r.notify,
    ) + bin_str_field(0x52, r.version@) + bin_u64_field(0x58, r.latest_ts) + bin_str_field(
        0x62,
        r.host_type@,
    ) + bin_str_field(0x6A, r.location@) + bin_msg_field(0x72, bin_metrics(r.metrics)) + (match r.ip_info {
        Some(i) => bin_msg_field(0x7A, bin_ip_info(i)),
        None => Seq::empty(),
    }) + (match r.sys_info {
        Some(s) => seq![0x82u8, 0x01u8] + varint(bin_sys_info(s).len()) + bin_sys_info(s),
        None => Seq::empty(),
    })
}

/// Append the base-128 rendering of `n`.
fn push_varint(out: &mut Vec<u8>, n: u64)
    ensures
        final(out)@ == old(out)@ + varint(n as nat),
    decreases n,
{
    if n < 128 {
        out.push(n as u8);
        proof {
            assert(out@ =~= old(out)@ + varint(n as nat));
        }
    } else {
        out.push(((n % 128) + 128) as u8);
        push_varint(out, n / 128);
        proof {
            assert(out@ =~= old(out)@ + varint(n as nat));
        }
    }
}

/// Append one tagged string field.
fn push_str_field(out: &mut Vec<u8>, tag: u8, s: &str)
    ensures
        final(out)@ == old(out)@ + bin_str_field(tag, s@),
{
    out.push(tag);
    let mut b = s.as_bytes_vec();
    push_varint(out, b.len() as u64);
    out.append(&mut b);
    proof {
        assert(out@ =~= old(out)@ + bin_str_field(tag, s@));
    }
}

/// Append one tagged integer field.
fn push_u64_field(out: &mut Vec<u8>, tag: u8, n: u64)
    ensures
        final(out)@ == old(out)@ + bin_u64_field(tag, n),
{
    out.push(tag);
    push_varint(out, n);
    proof {
        assert(out@ =~= old(out)@ + bin_u64_field(tag, n));
    }
}

/// Append one tagged boolean field.
fn push_bool_field(out: &mut Vec<u8>, tag: u8, b: bool)
    ensures
        final(out)@ == old(out)@ + bin_bool_field(tag, b),
{
    out.push(tag);
    out.push(if b { 1 } else { 0 });
    proof {
        assert(out@ =~= old(out)@ + bin_bool_field(tag, b));
    }
}

/// The metrics block of the binary encoding, as a buffer of its own.
fn encode_metrics_buf(m: &DynamicMetrics) -> (out: Vec<u8>)
    ensures
        out@ == bin_metrics(*m),
{
    let mut out: Vec<u8> = Vec::new();
    proof {
        assert(Seq::<u8>::empty() + bin_u64_field(0x08, m.cpu_percent) =~= bin_u64_field(
            0x08,
            m.cpu_percent,
        ));
    }
    push_u64_field(&mut out, 0x08, m.cpu_percent);
    push_u64_field(&mut out, 0x10, m.network_rx);
    push_u64_field(&mut out, 0x18, m.network_tx);
    push_u64_field(&mut out, 0x20, m.ping_ct);
    push_u64_field(&mut out, 0x28, m.ping_cm);
    push_u64_field(&mut out, 0x30, m.ping_cu);
    push_u64_field(&mut out, 0x38, m.time_ct);
    push_u64_field(&mut out, 0x40, m.time_cm);
    push_u64_field(&mut out, 0x48, m.time_cu);
    out
}

/// The IP-info block of the binary encoding, as a buffer of its own.
fn encode_ip_buf(i: &IpInfo) -> (out: Vec<u8>)
    ensures
        out@ == bin_ip_info(*i),
{
    let mut out: Vec<u8> = Vec::new();
    proof {
        assert(Seq::<u8>::empty() + bin_str_field(0x0A, i.query@) =~= bin_str_field(
            0x0A,
            i.query@,
        ));
    }
    push_str_field(&mut out, 0x0A, i.query.as_str());
    push_str_field(&mut out, 0x12, i.country.as_str());
    push_str_field(&mut out, 0x1A, i.isp.as_str());
    out
}

/// The system-descriptor block of the binary encoding, as a buffer of its
/// own.
fn encode_sys_buf(s: &SysInfo) -> (out: Vec<u8>)
    ensures
        out@ == bin_sys_info(*s),
{
    let mut out: Vec<u8> = Vec::new();
    proof {
        assert(Seq::<u8>::empty() + bin_str_field(0x0A, s.host_name@) =~= bin_str_field(
            0x0A,
            s.host_name@,
        ));
    }
    push_str_field(&mut out, 0x0A, s.host_name.as_str());
    push_str_field(&mut out, 0x12, s.os_name.as_str());
    push_str_field(&mut out, 0x1A, s.version.as_str());
    out
}

/// Render a record in the binary encoding.
#[verifier::rlimit(80)]
pub fn encode_binary(r: &StatRequest) -> (out: Vec<u8>)
    ensures
        out@ == bin_of(*r),
{
    let mut out: Vec<u8> = Vec::new();
    proof {
        assert(Seq::<u8>::empty() + bin_str_field(0x0A, r.name@) =~= bin_str_field(
            0x0A,
            r.name@,
        ));
    }
    push_str_field(&mut out, 0x0A, r.name.as_str());
    push_str_field(&mut out, 0x12, r.gid.as_str());
    push_str_field(&mut out, 0x1A, r.alias.as_str());
    push_str_field(&mut out, 0x22, r.frame.as_str());
    push_bool_field(&mut out, 0x28, r.online4);
    push_bool_field(&mut out, 0x30, r.online6);
    push_bool_field(&mut out, 0x38, r.vnstat);
    push_u64_field(&mut out, 0x40, r.weight);
    push_bool_field(&mut out, 0x48, r.notify);
    push_str_field(&mut out, 0x52, r.version.as_str());
    push_u64_field(&mut out, 0x58, r.latest_ts);
    push_str_field(&mut out, 0x62, r.host_type.as_str());
    push_str_field(&mut out, 0x6A, r.location.as_str());
    let mut mbuf = encode_metrics_buf(&r.metrics);
    let ghost before_metrics = out@;
    out.push(0x72);
    push_varint(&mut out, mbuf.len() as u64);
    out.append(&mut mbuf);
    proof {
        assert(out@ =~= before_metrics + bin_msg_field(0x72, bin_metrics(r.metrics)));
    }
    let ghost before_ip = out@;
    match &r.ip_info {
        Some(i) => {
            let mut ibuf = encode_ip_buf(i);
            out.push(0x7A);
            push_varint(&mut out, ibuf.len() as u64);
            out.append(&mut ibuf);
            proof {
                assert(out@ =~= before_ip + bin_msg_field(0x7A, bin_ip_info(*i)));
            }
        },
        None => {
            proof {
                assert(out@ =~= before_ip + Seq::<u8>::empty());
            }
        },
    }
    let ghost before_sys = out@;
    match &r.sys_info {
        Some(s) => {
            let mut sbuf = encode_sys_buf(s);
            out.push(0x82);
            out.push(0x01);
            push_varint(&mut out, sbuf.len() as u64);
            out.append(&mut sbuf);
            proof {
                assert(out@ =~= before_sys + (seq![0x82u8, 0x01u8] + varint(
                    bin_sys_info(*s).len(),
                ) + bin_sys_info(*s)));
            }
        },
        None => {
            proof {
                assert(out@ =~= before_sys + Seq::<u8>::empty());
            }
        },
    }
    proof {
        assert(out@ == bin_of(*r));
    }
    out
}

/// The delivery pair of the text encoding: JSON body, JSON media type.
pub open spec fn is_json_delivery(r: StatRequest, body: Seq<u8>, ct: Seq<char>) -> bool {
    body == encode_utf8(json_of(r)) && ct == "application/json"@
}

/// The delivery pair of the binary encoding: binary body, octet-stream media
/// type.
pub open spec fn is_binary_delivery(r: StatRequest, body: Seq<u8>, ct: Seq<char>) -> bool {
    body == bin_of(r) && ct == "application/octet-stream"@
}

/// Encode a record with the startup-chosen encoding, paired with its media
/// type.
pub fn encode_record(r: &StatRequest, json: bool) -> (res: (Vec<u8>, String))
    ensures
        json ==> is_json_delivery(*r, res.0@, res.1@),
        !json ==> is_binary_delivery(*r, res.0@, res.1@),
{
    if json {
        let s = encode_json(r);
        let b = s.as_str().as_bytes_vec();
        (b, String::from_str("application/json"))
    } else {
        (encode_binary(r), String::from_str("application/octet-stream"))
    }
}

/// Law: a single delivery never mixes the two encodings — no body/media-type
/// pair is both a text-encoding delivery and a binary-encoding delivery,
/// because the two media types differ.
pub proof fn lemma_encodings_never_mixed(r: StatRequest, body: Seq<u8>, ct: Seq<char>)
    ensures
        !(is_json_delivery(r, body, ct) && is_binary_delivery(r, body, ct)),
{
    reveal_strlit("application/json");
    reveal_strlit("application/octet-stream");
    assert("application/json"@.len() != "application/octet-stream"@.len());
}

} // verus!
