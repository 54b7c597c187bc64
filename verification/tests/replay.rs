use packet_sniffer::packet_info::InfoMap;
use packet_sniffer::record::{capture_record, PresentationRecord};
use packet_sniffer::replay::{filter_packets, raw_frames};
use packet_sniffer::table::Table;

fn frame(protocol: u8, segment: &[u8]) -> Vec<u8> {
    let total = u16::try_from(20 + segment.len()).unwrap();
    let mut frame = vec![0xde, 0xad, 0xbe, 0xef, 0x00, 0x01, 0x02, 0x00, 0x00, 0x00, 0x00, 0x02];
    frame.extend_from_slice(&[0x08, 0x00, 0x45, 0x00]);
    frame.extend_from_slice(&total.to_be_bytes());
    frame.extend_from_slice(&[0, 0, 0x40, 0x00, 64, protocol, 0, 0, 10, 0, 0, 1, 10, 0, 0, 2]);
    frame.extend_from_slice(segment);
    frame
}

fn web_frame() -> Vec<u8> {
    frame(6, &[0xc0, 0x00, 0x00, 0x50, 0, 0, 0, 1, 0, 0, 0, 0, 0x50, 0x18, 0xff, 0xff, 0, 0, 0, 0])
}

fn dns_frame() -> Vec<u8> {
    frame(17, &[0xc0, 0x01, 0x00, 0x35, 0x00, 0x0a, 0x00, 0x00, 0xab, 0xcd])
}

fn record_of(frame: &[u8]) -> PresentationRecord {
    capture_record(frame, 1_700_000_000, 0, 0, "header".to_string()).unwrap()
}

fn record_with_data(text: &str) -> PresentationRecord {
    let mut raw: InfoMap = Table::new();
    raw.insert("data".to_string(), text.to_string());
    let mut record: PresentationRecord = Table::new();
    record.insert("raw_data".to_string(), raw);
    record
}

/// What the expression `tcp` accepts among IPv4 frames.
fn is_tcp(frame: &[u8]) -> bool {
    frame.len() >= 34 && frame[12] == 0x08 && frame[13] == 0x00 && frame[23] == 6
}

fn verdicts(records: &Vec<PresentationRecord>, accepts: fn(&[u8]) -> bool) -> Vec<bool> {
    raw_frames(records)
        .iter()
        .map(|frame| match frame {
            Some(bytes) => accepts(bytes),
            None => true,
        })
        .collect()
}

fn plain(records: &Vec<PresentationRecord>) -> Vec<Vec<(String, Vec<(String, String)>)>> {
    records
        .iter()
        .map(|record| {
            record
                .entries()
                .iter()
                .map(|section| {
                    let fields = section
                        .value
                        .entries()
                        .iter()
                        .map(|field| (field.key.clone(), field.value.clone()))
                        .collect();
                    (section.key.clone(), fields)
                })
                .collect()
        })
        .collect()
}

#[test]
fn raw_frames_reads_each_record() {
    let records =
        vec![record_of(&web_frame()), Table::new(), record_with_data("////"), record_with_data("?")];
    assert_eq!(
        raw_frames(&records),
        vec![Some(web_frame()), None, Some(vec![0xff, 0xff, 0xff]), None]
    );
    assert_eq!(raw_frames(&Vec::new()), Vec::<Option<Vec<u8>>>::new());
}

#[test]
fn filtering_with_tcp_keeps_exactly_the_tcp_record() {
    let records = vec![record_of(&web_frame()), record_of(&dns_frame())];
    let expected = plain(&vec![record_of(&web_frame())]);
    let verdicts = verdicts(&records, is_tcp);
    assert_eq!(verdicts, vec![true, false]);
    let kept = filter_packets(records, &verdicts);
    assert_eq!(plain(&kept), expected);
}

#[test]
fn filtering_keeps_the_order_of_the_records() {
    let records = vec![
        record_of(&dns_frame()),
        record_of(&web_frame()),
        record_of(&dns_frame()),
        record_of(&web_frame()),
        record_of(&web_frame()),
    ];
    let all = plain(&records);
    let kept = filter_packets(records, &vec![true, false, true, true, false]);
    assert_eq!(plain(&kept), vec![all[0].clone(), all[2].clone(), all[3].clone()]);
}

#[test]
fn filtering_twice_changes_nothing_more() {
    let records = vec![
        record_of(&dns_frame()),
        record_of(&web_frame()),
        Table::new(),
        record_of(&web_frame()),
        record_with_data("@@"),
    ];
    let first_verdicts = verdicts(&records, is_tcp);
    let once = filter_packets(records, &first_verdicts);
    let shown = plain(&once);
    assert_eq!(shown.len(), 2);
    let second_verdicts = verdicts(&once, is_tcp);
    assert_eq!(second_verdicts, vec![true, true]);
    let twice = filter_packets(once, &second_verdicts);
    assert_eq!(plain(&twice), shown);
}

#[test]
fn records_without_a_frame_are_dropped_whatever_the_verdict() {
    let records = vec![Table::new(), record_with_data("not base64!"), record_of(&dns_frame())];
    let expected = plain(&vec![record_of(&dns_frame())]);
    let kept = filter_packets(records, &vec![true, true, true]);
    assert_eq!(plain(&kept), expected);
}

#[test]
fn records_without_a_verdict_are_dropped() {
    let records = vec![record_of(&web_frame()), record_of(&dns_frame()), record_of(&web_frame())];
    let expected = plain(&vec![record_of(&web_frame())]);
    let kept = filter_packets(records, &vec![true]);
    assert_eq!(plain(&kept), expected);
    let none = filter_packets(vec![record_of(&web_frame())], &Vec::new());
    assert!(none.is_empty());
}

#[test]
fn a_filter_that_matches_nothing_keeps_nothing() {
    let records = vec![record_of(&web_frame()), record_of(&dns_frame())];
    assert!(filter_packets(records, &vec![false, false]).is_empty());
    assert!(filter_packets(Vec::new(), &vec![true, true]).is_empty());
}
