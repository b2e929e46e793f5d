//! Network captures: the layer-7 indicators of a packet and the record of a flagged packet.

use vstd::prelude::*;
use crate::metadata::Metadata;
use crate::models::{LogRecord, ParsingQuality, parser_defaults, is_blank_record};
use crate::num::u64_to_string;
use crate::parsers::{LogParser, lossy_text};
use crate::text::{owned, concat, seq_contains, str_contains, decimal};
use crate::time::now;
use crate::parsers::evtx::{join, join_exec};
use etherparse::{InternetSlice, SlicedPacket, TransportSlice};

verus! {

/// `pat` occurs in `s` (`s.windows(pat.len()).any(|w| w == pat)`).
pub open spec fn window_has(s: Seq<u8>, pat: Seq<u8>) -> bool {
    exists|i: int| 0 <= i && i + pat.len() <= s.len() && #[trigger] s.subrange(i, i + pat.len()) == pat
}

fn has_window(s: &[u8], pat: &[u8]) -> (b: bool)
    requires
        pat@.len() > 0,
    ensures
        b == window_has(s@, pat@),
{
    if pat.len() > s.len() {
        return false;
    }
    let mut i: usize = 0;
    let last: usize = s.len() - pat.len();
    while i <= last
        invariant
            last == s@.len() - pat@.len(),
            0 <= i <= last + 1,
            pat@.len() > 0,
            pat@.len() <= s@.len(),
            s@.len() == s.len(),
            forall|j: int| 0 <= j < i ==> #[trigger] s@.subrange(j, j + pat@.len()) != pat@,
        decreases s@.len() - i,
    {
        let mut k: usize = 0;
        let mut same = true;
        while k < pat.len()
            invariant
                0 <= k <= pat@.len(),
                i + pat@.len() <= s@.len(),
                s@.len() == s.len(),
                same <==> forall|m: int| 0 <= m < k ==> s@[i + m] == pat@[m],
            decreases pat@.len() - k,
        {
            if s[i + k] != pat[k] {
                same = false;
            }
            k += 1;
        }
        if same {
            assert(s@.subrange(i as int, i + pat@.len()) =~= pat@);
            return true;
        }
        proof {
            let m = choose|m: int| 0 <= m < pat@.len() && s@[i + m] != pat@[m];
            assert(s@.subrange(i as int, i + pat@.len())[m] != pat@[m]);
        }
        i += 1;
    }
    proof {
        assert forall|j: int| 0 <= j && j + pat@.len() <= s@.len() implies #[trigger] s@.subrange(j, j + pat@.len()) != pat@ by {
            assert(j < i);
        }
    }
    false
}

pub open spec fn involves(src: u16, dst: u16, p: u16) -> bool {
    src == p || dst == p
}

pub open spec fn one(b: bool, msg: Seq<char>) -> Seq<Seq<char>> {
    if b { seq![msg] } else { Seq::empty() }
}

#[verifier::opaque]
pub open spec fn ind_signatures(sample: Seq<u8>, text: Seq<char>) -> Seq<Seq<char>> {
    let smb = window_has(sample, seq![0xFCu8, 0x53, 0x4D, 0x42]) || window_has(sample, seq![0xFEu8, 0x53, 0x4D, 0x42]);
    one(window_has(sample, seq![0x35u8, 0x42, 0x51, 0xe3, 0x06, 0x4b, 0xd1, 0x11, 0xab, 0x04, 0x00, 0xc0, 0x4f, 0xc2, 0xdc, 0xd2]),
        "[NETWORK_ALERT] DCSync (DRSUAPI) Attempt"@)
    + one(smb, "[NETWORK_ALERT] [FORENSIC_INDICATOR] SMB2/SMBGhost (CVE-2020-0796) Forensic Header"@)
    + one(smb && (seq_contains(text, "primaryGroupID"@) || seq_contains(text, "512"@) && seq_contains(text, "add"@)),
        "[NETWORK_ALERT] [FORENSIC_INDICATOR] Possible DCShadow Attribute Injection Detected"@)
}

#[verifier::opaque]
pub open spec fn ind_rpc(sample: Seq<u8>, src: u16, dst: u16) -> Seq<Seq<char>> {
    one((involves(src, dst, 135) || involves(src, dst, 139) || involves(src, dst, 445))
        && window_has(sample, seq![0u8, 0, 0, 0, 0, 0, 0, 0]),
        "[NETWORK_ALERT] [FORENSIC_INDICATOR] ZeroLogon (CVE-2020-1472) NULL Challenge"@)
    + one(window_has(sample, seq![0xc5u8, 0x41, 0x19, 0xdf, 0x89, 0xfe, 0x00, 0x4e, 0x9a, 0x4a, 0x13, 0x54, 0x07, 0x58, 0x96, 0x48]),
        "[NETWORK_ALERT] [FORENSIC_INDICATOR] PetitPotam (MS-EFSR / CVE-2021-36942) Attempt"@)
}

#[verifier::opaque]
pub open spec fn ind_kerberos(sample: Seq<u8>, src: u16, dst: u16) -> Seq<Seq<char>> {
    let k = involves(src, dst, 88) && (sample.contains(0xa1u8) || window_has(sample, seq![75u8, 82, 66, 53]));
    one(k, "[NETWORK_ALERT] Kerberos (AS-REQ/Kerbrute) Indicator"@)
    + one(k && (window_has(sample, seq![0x6au8, 0x82]) || window_has(sample, seq![0x6cu8, 0x82])),
        "[NETWORK_ALERT] [FORENSIC_INDICATOR] Kerberos TGS-REQ (Kerberoasting Opportunity)"@)
    + one(k && window_has(sample, seq![0x02u8, 0x01, 0x17]),
        "[NETWORK_ALERT] [FORENSIC_INDICATOR] Kerberos RC4-HMAC (EType 23) Detected"@)
}

#[verifier::opaque]
pub open spec fn ind_tunnels(sample: Seq<u8>, text: Seq<char>, src: u16, dst: u16) -> Seq<Seq<char>> {
    let txt = window_has(sample, seq![0x00u8, 0x10, 0x00, 0x01]);
    let handshake = (sample.len() >= 2 && sample[0] == 0x03u8 && sample[1] == 0x00u8)
        || window_has(sample, seq![114u8, 100, 112, 45, 116, 99, 112]) || window_has(sample, seq![0x00u8, 0x00, 0x00, 0x01]);
    one(involves(src, dst, 53) && txt && sample.len() > 100, "[NETWORK_ALERT] DNS_TXT_C2_Tunneling"@)
    + one(involves(src, dst, 53) && !txt && (sample.len() > 70 || seq_contains(text, "foudre"@) || seq_contains(text, "dga"@)),
        "[NETWORK_ALERT] DNS Tunneling / DGA Exfiltration Pattern"@)
    + one(involves(src, dst, 3389) && handshake, "[NETWORK_ALERT] RDP Lateral Movement / Tunneling Indicator"@)
    + one(involves(src, dst, 3389) && !handshake && sample.len() > 0,
        "[NETWORK_ALERT] Suspicious_C2_Tunnel_Port_3389 (Anomalous RDP)"@)
}

#[verifier::opaque]
pub open spec fn ind_misc(text: Seq<char>, src: u16, dst: u16) -> Seq<Seq<char>> {
    one((seq_contains(text, "POST"@) || seq_contains(text, "txt="@)) && (src == 80 || dst == 80),
        "[NETWORK_ALERT] HTTP POST Request Detected (Forensic Body Promotion)"@)
    + one(involves(src, dst, 4444) || involves(src, dst, 4445) || involves(src, dst, 31337),
        "[NETWORK_ALERT] Suspicious_C2_Tunnel_Port_"@ + decimal((if src >= dst { src } else { dst }) as nat))
    + one(seq_contains(text, "byt3bl33d3r"@), "[NETWORK_ALERT] [FORENSIC_INDICATOR] byt3bl33d3r RPC Crash Payload Detected"@)
    + one(seq_contains(text, "Event Log Crash"@) || seq_contains(text, "Defense Evasion"@),
        "[NETWORK_ALERT] [FORENSIC_INDICATOR] System Integrity / Defense Evasion Signature Detected"@)
}

/// The first 1024 bytes of a payload.
pub open spec fn sample_of(payload: Seq<u8>) -> Seq<u8> {
    if payload.len() < 1024 { payload } else { payload.subrange(0, 1024) }
}

/// The indicators a payload raises (its first 1024 bytes are scanned), in order.
pub open spec fn payload_indicators(payload: Seq<u8>, src: u16, dst: u16) -> Seq<Seq<char>> {
    let sample = sample_of(payload);
    let text = lossy_text(sample);
    ind_signatures(sample, text) + ind_rpc(sample, src, dst) + ind_kerberos(sample, src, dst)
        + ind_tunnels(sample, text, src, dst) + ind_misc(text, src, dst)
}

/// The views of a list of strings.
pub open spec fn views(v: Seq<String>) -> Seq<Seq<char>> {
    v.map_values(|s: String| s@)
}

fn push_text(out: &mut Vec<String>, s: &str)
    ensures
        views(final(out)@) == views(old(out)@).push(s@),
{
    let ghost before = out@;
    out.push(owned(s));
    assert(views(out@) =~= views(before).push(s@));
}

fn contains_byte(s: &[u8], b: u8) -> (r: bool)
    ensures
        r == s@.contains(b),
{
    let mut i: usize = 0;
    while i < s.len()
        invariant
            0 <= i <= s@.len(),
            forall|j: int| 0 <= j < i ==> s@[j] != b,
        decreases s@.len() - i,
    {
        if s[i] == b {
            return true;
        }
        i += 1;
    }
    false
}


// ---- the record of a flagged packet ----

/// The capture link types the parser reads (pcap `LINKTYPE_NULL`, `LINKTYPE_ETHERNET`,
/// `LINKTYPE_RAW`).
pub const LINKTYPE_NULL: i32 = 0;
pub const LINKTYPE_ETHERNET: i32 = 1;
pub const LINKTYPE_RAW: i32 = 101;

/// What the packet slicer reads of a packet: the IP source and destination addresses as they are
/// displayed, the transport (true for TCP, false for UDP, absent for any other) and its
/// ports, and the payload after the last header read.
#[derive(Debug)]
pub struct PacketSlices {
    pub ip: Option<(String, String)>,
    pub transport: Option<(bool, u16, u16)>,
    pub payload: Vec<u8>,
}

/// The plain values of the slicer's reading.
pub open spec fn slices_view(r: Option<PacketSlices>)
    -> Option<(Option<(Seq<char>, Seq<char>)>, Option<(bool, u16, u16)>, Seq<u8>)>
{
    match r {
        Some(p) => Some((
            match p.ip {
                Some((a, b)) => Some((a@, b@)),
                None => None,
            },
            p.transport,
            p.payload@,
        )),
        None => None,
    }
}

/// What `SlicedPacket::from_ethernet` reads of a frame.
pub uninterp spec fn ethernet_slices(data: Seq<u8>) -> Option<(Option<(Seq<char>, Seq<char>)>, Option<(bool, u16, u16)>, Seq<u8>)>;

/// What `SlicedPacket::from_ip` reads of an IP packet.
pub uninterp spec fn ip_slices(data: Seq<u8>) -> Option<(Option<(Seq<char>, Seq<char>)>, Option<(bool, u16, u16)>, Seq<u8>)>;

/// `etherparse::SlicedPacket::from_ethernet`, its reading rendered to plain values; `None` where
/// the frame cannot be read.
#[verifier::external_body]
fn slice_ethernet(data: &[u8]) -> (r: Option<PacketSlices>)
    ensures
        slices_view(r) == ethernet_slices(data@),
{
    let s = SlicedPacket::from_ethernet(data).ok()?;
    let ip = match &s.ip {
        Some(InternetSlice::Ipv4(h, _)) => Some((h.source_addr().to_string(), h.destination_addr().to_string())),
        Some(InternetSlice::Ipv6(h, _)) => Some((h.source_addr().to_string(), h.destination_addr().to_string())),
        None => None,
    };
    let tr = match &s.transport {
        Some(TransportSlice::Tcp(t)) => Some((true, t.source_port(), t.destination_port())),
        Some(TransportSlice::Udp(u)) => Some((false, u.source_port(), u.destination_port())),
        _ => None,
    };
    Some(PacketSlices { ip, transport: tr, payload: s.payload.to_vec() })
}

/// `etherparse::SlicedPacket::from_ip`, its reading rendered to plain values; `None` where the
/// packet cannot be read.
#[verifier::external_body]
fn slice_ip(data: &[u8]) -> (r: Option<PacketSlices>)
    ensures
        slices_view(r) == ip_slices(data@),
{
    let s = SlicedPacket::from_ip(data).ok()?;
    let ip = match &s.ip {
        Some(InternetSlice::Ipv4(h, _)) => Some((h.source_addr().to_string(), h.destination_addr().to_string())),
        Some(InternetSlice::Ipv6(h, _)) => Some((h.source_addr().to_string(), h.destination_addr().to_string())),
        None => None,
    };
    let tr = match &s.transport {
        Some(TransportSlice::Tcp(t)) => Some((true, t.source_port(), t.destination_port())),
        Some(TransportSlice::Udp(u)) => Some((false, u.source_port(), u.destination_port())),
        _ => None,
    };
    Some(PacketSlices { ip, transport: tr, payload: s.payload.to_vec() })
}

/// What the slicer reads of a captured packet of link type `link`: `None` for a link type the
/// parser does not read, or a loopback frame shorter than its four-byte header; the reading
/// (itself `None` where the packet cannot be read) otherwise.
pub open spec fn packet_reading(data: Seq<u8>, link: i32)
    -> Option<Option<(Option<(Seq<char>, Seq<char>)>, Option<(bool, u16, u16)>, Seq<u8>)>>
{
    if link == LINKTYPE_ETHERNET {
        Some(ethernet_slices(data))
    } else if link == LINKTYPE_NULL {
        if data.len() >= 4 { Some(ip_slices(data.subrange(4, data.len() as int))) } else { None }
    } else if link == LINKTYPE_RAW {
        Some(ip_slices(data))
    } else {
        None
    }
}

/// The record of a flagged packet: stamped `t`, its message the protocol and the indicators, its
/// raw text the payload and the indicators, and its metadata the protocol, ports and addresses.
pub open spec fn packet_record(r: LogRecord, t: crate::time::Timestamp, protocol: Seq<char>, ports: Seq<char>,
    src: Seq<char>, dst: Seq<char>, payload: Seq<u8>, indicators: Seq<Seq<char>>) -> bool
{
    let summary = join(indicators, " | "@);
    &&& r.timestamp == t
    &&& r.message@ == "[NET "@ + protocol + "] "@ + summary
    &&& r.raw@ == lossy_text(payload) + "\nFORENSIC_INDICATORS: "@ + summary
    &&& r.metadata@ == Map::<Seq<char>, Seq<char>>::empty().insert("protocol"@, protocol).insert("ports"@, ports)
        .insert("src_ip"@, src).insert("dst_ip"@, dst)
    &&& r.original_format@ == "pcap_binary"@
    &&& r.quality == ParsingQuality::Success
    &&& r.severity is None && r.source is None && r.outcome is None && r.additional_context is None
    &&& r.unparsed_raw is None
    &&& parser_defaults(r)
}

/// What becomes of a captured packet: nothing where the slicer cannot read it to a TCP or UDP
/// transport or its payload raises no indicator; otherwise the record of its indicators, stamped
/// at some instant.
pub open spec fn packet_outcome(data: Seq<u8>, link: i32, r: Option<LogRecord>) -> bool {
    match packet_reading(data, link) {
        Some(Some((ip, Some((tcp, sp, dp)), payload))) => {
            let ind = payload_indicators(payload, sp, dp);
            if ind.len() == 0 {
                r is None
            } else {
                let (src, dst) = match ip {
                    Some((a, b)) => (a, b),
                    None => ("N/A"@, "N/A"@),
                };
                r matches Some(rec) && packet_record(rec, rec.timestamp, if tcp { "TCP"@ } else { "UDP"@ },
                    decimal(sp as nat) + ":"@ + decimal(dp as nat), src, dst, payload, ind)
            }
        }
        _ => r is None,
    }
}

/// The kinds of capture blocks that carry packets.
#[derive(Debug, Clone, Copy, PartialEq, Eq, Structural)]
pub enum PacketBlock {
    /// A packet of a classic capture file.
    Legacy,
    /// An enhanced packet of a pcapng file, on the given interface.
    Enhanced(u32),
    /// A simple packet of a pcapng file, always on the first interface.
    Simple,
}

/// The link type a packet block is read with: the file's (Ethernet by default) for a classic
/// capture; for pcapng, that of its interface, in the order the interfaces were described;
/// `None` where that interface was not described.
pub open spec fn block_link_spec(b: PacketBlock, links: Seq<i32>, global: Option<i32>) -> Option<i32> {
    match b {
        PacketBlock::Legacy => Some(match global { Some(l) => l, None => LINKTYPE_ETHERNET }),
        PacketBlock::Enhanced(id) => if (id as int) < links.len() { Some(links[id as int]) } else { None },
        PacketBlock::Simple => if links.len() > 0 { Some(links[0]) } else { None },
    }
}

/// The link type a packet block is read with, given the interfaces described so far.
pub fn block_link(b: PacketBlock, links: &Vec<i32>, global: Option<i32>) -> (r: Option<i32>)
    ensures
        r == block_link_spec(b, links@, global),
{
    match b {
        PacketBlock::Legacy => Some(match global {
            Some(l) => l,
            None => LINKTYPE_ETHERNET,
        }),
        PacketBlock::Enhanced(id) => {
            if (id as usize) < links.len() {
                Some(links[id as usize])
            } else {
                None
            }
        }
        PacketBlock::Simple => {
            if links.len() > 0 {
                Some(links[0])
            } else {
                None
            }
        }
    }
}

/// Network captures.
pub struct PcapParser;

impl PcapParser {
    pub fn new() -> (p: PcapParser) {
        PcapParser
    }

    fn scan_signatures(sample: &[u8], t: &str, out: &mut Vec<String>)
        ensures
            views(final(out)@) == views(old(out)@) + ind_signatures(sample@, t@),
    {
        proof { reveal(ind_signatures); }
        let ghost start = views(out@);
        let p1: [u8; 16] = [0x35, 0x42, 0x51, 0xe3, 0x06, 0x4b, 0xd1, 0x11, 0xab, 0x04, 0x00, 0xc0, 0x4f, 0xc2, 0xdc, 0xd2];
        assert(p1@ =~= seq![0x35u8, 0x42, 0x51, 0xe3, 0x06, 0x4b, 0xd1, 0x11, 0xab, 0x04, 0x00, 0xc0, 0x4f, 0xc2, 0xdc, 0xd2]);
        if has_window(sample, &p1) {
            push_text(out, "[NETWORK_ALERT] DCSync (DRSUAPI) Attempt");
        }
        let s1: [u8; 4] = [0xFC, 0x53, 0x4D, 0x42];
        let s2: [u8; 4] = [0xFE, 0x53, 0x4D, 0x42];
        assert(s1@ =~= seq![0xFCu8, 0x53, 0x4D, 0x42]);
        assert(s2@ =~= seq![0xFEu8, 0x53, 0x4D, 0x42]);
        if has_window(sample, &s1) || has_window(sample, &s2) {
            push_text(out, "[NETWORK_ALERT] [FORENSIC_INDICATOR] SMB2/SMBGhost (CVE-2020-0796) Forensic Header");
            if str_contains(t, "primaryGroupID") || str_contains(t, "512") && str_contains(t, "add") {
                push_text(out, "[NETWORK_ALERT] [FORENSIC_INDICATOR] Possible DCShadow Attribute Injection Detected");
            }
        }
        assert(views(out@) =~= start + ind_signatures(sample@, t@));
    }

    fn scan_rpc(sample: &[u8], src_port: u16, dst_port: u16, out: &mut Vec<String>)
        ensures
            views(final(out)@) == views(old(out)@) + ind_rpc(sample@, src_port, dst_port),
    {
        proof { reveal(ind_rpc); }
        let ghost start = views(out@);
        let z: [u8; 8] = [0, 0, 0, 0, 0, 0, 0, 0];
        assert(z@ =~= seq![0u8, 0, 0, 0, 0, 0, 0, 0]);
        let rpc = src_port == 135 || dst_port == 135 || src_port == 139 || dst_port == 139 || src_port == 445 || dst_port == 445;
        if rpc && has_window(sample, &z) {
            push_text(out, "[NETWORK_ALERT] [FORENSIC_INDICATOR] ZeroLogon (CVE-2020-1472) NULL Challenge");
        }
        let e: [u8; 16] = [0xc5, 0x41, 0x19, 0xdf, 0x89, 0xfe, 0x00, 0x4e, 0x9a, 0x4a, 0x13, 0x54, 0x07, 0x58, 0x96, 0x48];
        assert(e@ =~= seq![0xc5u8, 0x41, 0x19, 0xdf, 0x89, 0xfe, 0x00, 0x4e, 0x9a, 0x4a, 0x13, 0x54, 0x07, 0x58, 0x96, 0x48]);
        if has_window(sample, &e) {
            push_text(out, "[NETWORK_ALERT] [FORENSIC_INDICATOR] PetitPotam (MS-EFSR / CVE-2021-36942) Attempt");
        }
        assert(views(out@) =~= start + ind_rpc(sample@, src_port, dst_port));
    }

    fn scan_kerberos(sample: &[u8], src_port: u16, dst_port: u16, out: &mut Vec<String>)
        ensures
            views(final(out)@) == views(old(out)@) + ind_kerberos(sample@, src_port, dst_port),
    {
        proof { reveal(ind_kerberos); }
        let ghost start = views(out@);
        let krb: [u8; 4] = [75, 82, 66, 53];
        assert(krb@ =~= seq![75u8, 82, 66, 53]);
        if (src_port == 88 || dst_port == 88) && (contains_byte(sample, 0xa1) || has_window(sample, &krb)) {
            push_text(out, "[NETWORK_ALERT] Kerberos (AS-REQ/Kerbrute) Indicator");
            let t1: [u8; 2] = [0x6a, 0x82];
            let t2: [u8; 2] = [0x6c, 0x82];
            assert(t1@ =~= seq![0x6au8, 0x82]);
            assert(t2@ =~= seq![0x6cu8, 0x82]);
            if has_window(sample, &t1) || has_window(sample, &t2) {
                push_text(out, "[NETWORK_ALERT] [FORENSIC_INDICATOR] Kerberos TGS-REQ (Kerberoasting Opportunity)");
            }
            let rc4: [u8; 3] = [0x02, 0x01, 0x17];
            assert(rc4@ =~= seq![0x02u8, 0x01, 0x17]);
            if has_window(sample, &rc4) {
                push_text(out, "[NETWORK_ALERT] [FORENSIC_INDICATOR] Kerberos RC4-HMAC (EType 23) Detected");
            }
        }
        assert(views(out@) =~= start + ind_kerberos(sample@, src_port, dst_port));
    }

    fn scan_tunnels(sample: &[u8], t: &str, src_port: u16, dst_port: u16, out: &mut Vec<String>)
        ensures
            views(final(out)@) == views(old(out)@) + ind_tunnels(sample@, t@, src_port, dst_port),
    {
        proof { reveal(ind_tunnels); }
        let ghost start = views(out@);
        let txt: [u8; 4] = [0x00, 0x10, 0x00, 0x01];
        assert(txt@ =~= seq![0x00u8, 0x10, 0x00, 0x01]);
        let has_txt = has_window(sample, &txt);
        if src_port == 53 || dst_port == 53 {
            if has_txt {
                if sample.len() > 100 {
                    push_text(out, "[NETWORK_ALERT] DNS_TXT_C2_Tunneling");
                }
            } else if sample.len() > 70 || str_contains(t, "foudre") || str_contains(t, "dga") {
                push_text(out, "[NETWORK_ALERT] DNS Tunneling / DGA Exfiltration Pattern");
            }
        }
        let rdp: [u8; 7] = [114, 100, 112, 45, 116, 99, 112];
        let one_: [u8; 4] = [0x00, 0x00, 0x00, 0x01];
        assert(rdp@ =~= seq![114u8, 100, 112, 45, 116, 99, 112]);
        assert(one_@ =~= seq![0x00u8, 0x00, 0x00, 0x01]);
        let handshake = (sample.len() >= 2 && sample[0] == 0x03 && sample[1] == 0x00) || has_window(sample, &rdp)
            || has_window(sample, &one_);
        if src_port == 3389 || dst_port == 3389 {
            if handshake {
                push_text(out, "[NETWORK_ALERT] RDP Lateral Movement / Tunneling Indicator");
            } else if sample.len() > 0 {
                push_text(out, "[NETWORK_ALERT] Suspicious_C2_Tunnel_Port_3389 (Anomalous RDP)");
            }
        }
        assert(views(out@) =~= start + ind_tunnels(sample@, t@, src_port, dst_port));
    }

    fn scan_misc(t: &str, src_port: u16, dst_port: u16, out: &mut Vec<String>)
        ensures
            views(final(out)@) == views(old(out)@) + ind_misc(t@, src_port, dst_port),
    {
        proof { reveal(ind_misc); }
        let ghost start = views(out@);
        if (str_contains(t, "POST") || str_contains(t, "txt=")) && (src_port == 80 || dst_port == 80) {
            push_text(out, "[NETWORK_ALERT] HTTP POST Request Detected (Forensic Body Promotion)");
        }
        if src_port == 4444 || dst_port == 4444 || src_port == 4445 || dst_port == 4445 || src_port == 31337 || dst_port == 31337 {
            let top: u16 = if src_port >= dst_port { src_port } else { dst_port };
            let n = u64_to_string(top as u64);
            let msg = concat("[NETWORK_ALERT] Suspicious_C2_Tunnel_Port_", n.as_str());
            push_text(out, msg.as_str());
        }
        if str_contains(t, "byt3bl33d3r") {
            push_text(out, "[NETWORK_ALERT] [FORENSIC_INDICATOR] byt3bl33d3r RPC Crash Payload Detected");
        }
        if str_contains(t, "Event Log Crash") || str_contains(t, "Defense Evasion") {
            push_text(out, "[NETWORK_ALERT] [FORENSIC_INDICATOR] System Integrity / Defense Evasion Signature Detected");
        }
        assert(views(out@) =~= start + ind_misc(t@, src_port, dst_port));
    }

    /// Appends the indicators the first 1024 bytes of a packet payload raise.
    pub fn scan_payload(&self, payload: &[u8], src_port: u16, dst_port: u16, indicators: &mut Vec<String>)
        ensures
            views(final(indicators)@) == views(old(indicators)@) + payload_indicators(payload@, src_port, dst_port),
    {
        let ghost start = views(indicators@);
        let n: usize = if payload.len() < 1024 { payload.len() } else { 1024 };
        let sample = payload.split_at(n).0;
        assert(sample@ =~= sample_of(payload@));
        let text = crate::parsers::utf8_lossy(sample);
        let t = text.as_str();
        Self::scan_signatures(sample, t, indicators);
        Self::scan_rpc(sample, src_port, dst_port, indicators);
        Self::scan_kerberos(sample, src_port, dst_port, indicators);
        Self::scan_tunnels(sample, t, src_port, dst_port, indicators);
        Self::scan_misc(t, src_port, dst_port, indicators);
        let ghost s = sample_of(payload@);
        let ghost tx = lossy_text(s);
        assert(views(indicators@) =~= start + (ind_signatures(s, tx) + ind_rpc(s, src_port, dst_port)
            + ind_kerberos(s, src_port, dst_port) + ind_tunnels(s, tx, src_port, dst_port) + ind_misc(tx, src_port, dst_port)));
    }

    /// The record of a captured packet of link type `link_type`, if its layer-7 payload raises
    /// any indicator; stamped with the current time.
    pub fn process_packet(&self, data: &[u8], link_type: i32) -> (r: Option<LogRecord>)
        ensures
            packet_outcome(data@, link_type, r),
    {
        let sliced = if link_type == LINKTYPE_ETHERNET {
            slice_ethernet(data)
        } else if link_type == LINKTYPE_NULL {
            if data.len() >= 4 {
                let rest = data.split_at(4).1;
                assert(rest@ =~= data@.subrange(4, data@.len() as int));
                slice_ip(rest)
            } else {
                return None;
            }
        } else if link_type == LINKTYPE_RAW {
            slice_ip(data)
        } else {
            return None;
        };
        let p = match sliced {
            Some(p) => p,
            None => {
                return None;
            }
        };
        let (tcp, sp, dp) = match p.transport {
            Some(t) => t,
            None => {
                return None;
            }
        };
        let mut indicators: Vec<String> = Vec::new();
        self.scan_payload(p.payload.as_slice(), sp, dp, &mut indicators);
        assert(views(indicators@) =~= payload_indicators(p.payload@, sp, dp));
        if indicators.len() == 0 {
            return None;
        }
        let (src, dst) = match &p.ip {
            Some((a, b)) => (owned(a.as_str()), owned(b.as_str())),
            None => (owned("N/A"), owned("N/A")),
        };
        proof { reveal_strlit("N/A"); }
        let protocol = if tcp { owned("TCP") } else { owned("UDP") };
        let a = u64_to_string(sp as u64);
        let b = concat(a.as_str(), ":");
        let d = u64_to_string(dp as u64);
        let ports = concat(b.as_str(), d.as_str());
        let summary = join_exec(&indicators, " | ");
        assert(indicators@.map_values(|f: String| f@) =~= views(indicators@));
        let payload_text = crate::parsers::utf8_lossy(p.payload.as_slice());
        let mut r = LogRecord::blank_at(now());
        let m1 = concat("[NET ", protocol.as_str());
        let m2 = concat(m1.as_str(), "] ");
        r.message = concat(m2.as_str(), summary.as_str());
        let w1 = concat(payload_text.as_str(), "\nFORENSIC_INDICATORS: ");
        r.raw = concat(w1.as_str(), summary.as_str());
        let mut md = Metadata::new();
        md.insert(owned("protocol"), protocol);
        md.insert(owned("ports"), ports);
        md.insert(owned("src_ip"), src);
        md.insert(owned("dst_ip"), dst);
        r.metadata = md;
        r.original_format = owned("pcap_binary");
        Some(r)
    }
}

impl LogParser for PcapParser {
    open spec fn accepts(&self, raw: Seq<char>) -> bool {
        true
    }

    fn format_name(&self) -> (s: String)
        ensures
            s@ == "pcap_binary"@,
    {
        owned("pcap_binary")
    }

    /// Captures are binary: a text line yields a blank record.
    fn parse(&self, raw: &str) -> (r: LogRecord)
        ensures
            is_blank_record(r, r.timestamp),
    {
        LogRecord::default()
    }
}

} // verus!
