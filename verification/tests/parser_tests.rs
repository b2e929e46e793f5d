use aegis::parsers::LogParser;
use aegis::parsers::splunk::SplunkParser;
use aegis::parsers::pcap::{block_link, PacketBlock, PcapParser, LINKTYPE_ETHERNET, LINKTYPE_NULL, LINKTYPE_RAW};
use chrono::TimeZone;

#[test]
fn test_splunk_bots_unwrap() {
    let parser = SplunkParser::new();
    let raw_json = r#"{
            "result": {
                "_time": "2024-04-13T12:00:00Z",
                "_raw": "Process Create: Image=C:\\Windows\\System32\\cmd.exe",
                "EventCode": "1",
                "CommandLine": "whoami /priv",
                "Image": "C:\\Windows\\System32\\cmd.exe",
                "sourcetype": "XmlWinEventLog:Microsoft-Windows-Sysmon/Operational"
            }
        }"#;

    let record = parser.parse(raw_json);
    let local = chrono::Local.timestamp_opt(record.timestamp.secs, record.timestamp.nanos).single().unwrap();
    assert_eq!(local.to_rfc3339().contains("2024-04-13"), true);
    assert_eq!(record.message, "Process Create: Image=C:\\Windows\\System32\\cmd.exe");
    assert_eq!(record.metadata.get("EventID").unwrap(), "1");
    assert_eq!(record.metadata.get("CommandLine").unwrap(), "whoami /priv");
    assert_eq!(record.metadata.get("Image").unwrap(), "C:\\Windows\\System32\\cmd.exe");
    assert_eq!(record.metadata.get("sourcetype").unwrap(), "XmlWinEventLog:Microsoft-Windows-Sysmon/Operational");
    assert_eq!(record.source.unwrap(), "splunk_bots");
}

fn tcp_frame(payload: &[u8]) -> Vec<u8> {
    let mut f = vec![0u8; 12];
    f.extend_from_slice(&[0x08, 0x00]);
    let total = (20 + 20 + payload.len()) as u16;
    f.extend_from_slice(&[0x45, 0x00]);
    f.extend_from_slice(&total.to_be_bytes());
    f.extend_from_slice(&[0, 0, 0, 0, 64, 6, 0, 0, 10, 0, 0, 1, 10, 0, 0, 2]);
    f.extend_from_slice(&1234u16.to_be_bytes());
    f.extend_from_slice(&80u16.to_be_bytes());
    f.extend_from_slice(&[0, 0, 0, 0, 0, 0, 0, 0, 0x50, 0x18, 0xff, 0xff, 0, 0, 0, 0]);
    f.extend_from_slice(payload);
    f
}

#[test]
fn flagged_packet_becomes_a_record() {
    let p = PcapParser::new();
    let frame = tcp_frame(b"GET / byt3bl33d3r");
    let r = p.process_packet(&frame, LINKTYPE_ETHERNET).expect("flagged");
    assert!(r.message.starts_with("[NET TCP] "));
    assert!(r.message.contains("byt3bl33d3r"));
    assert!(r.raw.starts_with("GET / byt3bl33d3r\nFORENSIC_INDICATORS: "));
    assert_eq!(r.metadata.get("src_ip").unwrap(), "10.0.0.1");
    assert_eq!(r.metadata.get("dst_ip").unwrap(), "10.0.0.2");
    assert_eq!(r.metadata.get("ports").unwrap(), "1234:80");
    assert_eq!(r.metadata.get("protocol").unwrap(), "TCP");
    assert_eq!(r.original_format, "pcap_binary");
    // The same packet without its Ethernet header, read as raw IP.
    let r2 = p.process_packet(&frame[14..], LINKTYPE_RAW).expect("flagged");
    assert_eq!(r2.message, r.message);
}

#[test]
fn quiet_or_unreadable_packets_give_nothing() {
    let p = PcapParser::new();
    assert!(p.process_packet(&tcp_frame(b"hello"), LINKTYPE_ETHERNET).is_none());
    assert!(p.process_packet(&tcp_frame(b"byt3bl33d3r"), 228).is_none());
    assert!(p.process_packet(&[0, 0], LINKTYPE_NULL).is_none());
    assert!(p.process_packet(&[1, 2, 3], LINKTYPE_ETHERNET).is_none());
}

#[test]
fn packet_blocks_take_their_interface_link() {
    let links = vec![LINKTYPE_RAW, 0];
    assert_eq!(block_link(PacketBlock::Legacy, &links, None), Some(LINKTYPE_ETHERNET));
    assert_eq!(block_link(PacketBlock::Legacy, &links, Some(0)), Some(0));
    assert_eq!(block_link(PacketBlock::Enhanced(1), &links, None), Some(0));
    assert_eq!(block_link(PacketBlock::Enhanced(2), &links, None), None);
    assert_eq!(block_link(PacketBlock::Simple, &links, None), Some(LINKTYPE_RAW));
    assert_eq!(block_link(PacketBlock::Simple, &vec![], None), None);
}

fn json_parser() -> aegis::parsers::json::JsonParser {
    let cfg = aegis::config::LogFormatConfig {
        timestamp_field: None,
        message_field: None,
        severity_field: None,
        source_field: None,
        metadata_map: aegis::metadata::Metadata::new(),
    };
    aegis::parsers::json::JsonParser::new(cfg, "ndjson")
}

#[test]
fn json_line_with_message_is_never_cut() {
    let p = json_parser();
    // Byte 97 falls inside a multi-byte character, which only matters without a message.
    let line = format!("{{\"message\":\"ok\",\"pad\":\"{}é{}\"}}", "a".repeat(73), "b".repeat(20));
    assert!(!line.is_char_boundary(97));
    assert!(p.accepts_line(&line));
    let r = p.parse(&line);
    assert_eq!(r.message, "ok");
    assert_eq!(r.metadata.get("captured_message").unwrap(), "ok");
    assert!(r.unparsed_raw.is_none());
    let no_message = format!("{{\"pad\":\"{}é{}\"}}", "a".repeat(88), "b".repeat(20));
    assert!(!no_message.is_char_boundary(97));
    assert!(!p.accepts_line(&no_message));
}

#[test]
fn evtx_text_that_is_not_json_is_degraded() {
    let p = aegis::parsers::evtx::EvtxParser::new();
    let r = p.parse("<Event>not json</Event>");
    assert_eq!(r.message, "DEGRADED: Malformed EVTX-XML record");
    assert_eq!(r.source.as_deref(), Some("evtx_binary"));
    assert!(r.metadata.get("EventID").is_none());
    assert_eq!(r.severity.as_deref(), Some("WARN"));
}
