//! The record of one captured frame as it is handed out.

use vstd::prelude::*;
use vstd::string::StringExecFns;
use crate::codec::{base64_decode, base64_decoding, base64_encode, base64_encoding, can_encode};
use crate::custom_packet::{classify, packet_info, ClassifiedPacket, CustomPacket, MyPacket};
use crate::error::ClassifyError;
use crate::ethernet;
use crate::ethernet::EthernetFrame;
use crate::packet_info::InfoMap;
use crate::table::{distinct_keys, lemma_lookup_first, lookup, Table};
use crate::timestamp::{
    format_timeval, is_shown_at, is_subsecond, is_timestamp_text, timestamp_text,
};

verus! {

/// Section names with the fields of each section. This is what crosses the
/// boundary of the system, out and back in.
pub type PresentationRecord = Table<InfoMap>;

/// What a `PresentationRecord` stands for.
pub type RecordView = Seq<(Seq<char>, Seq<(Seq<char>, Seq<char>)>)>;

/// The section that keeps the frame itself: its bytes as base64 text, and
/// a rendering of its capture header.
pub open spec fn raw_data_info(frame: Seq<u8>, header: Seq<char>) -> Seq<(Seq<char>, Seq<char>)> {
    seq![("data"@, base64_encoding(frame)), ("header"@, header)]
}

/// The section that holds the capture time.
pub open spec fn timestamp_info(stamp: Seq<char>) -> Seq<(Seq<char>, Seq<char>)> {
    seq![("timestamp"@, stamp)]
}

/// The record of a classified frame: its layers, then the frame itself,
/// then its capture time.
pub open spec fn record_of(
    packet: ClassifiedPacket,
    frame: Seq<u8>,
    header: Seq<char>,
    stamp: Seq<char>,
) -> RecordView {
    packet_info(packet).push(("raw_data"@, raw_data_info(frame, header))).push(
        ("timestamp"@, timestamp_info(stamp)),
    )
}

/// The frame that a record keeps: what its field `data` in the section
/// `raw_data` decodes to. A record without that field, or with text in it
/// that is no base64, keeps none.
pub open spec fn raw_frame(record: RecordView) -> Option<Seq<u8>> {
    match lookup(record, "raw_data"@) {
        Some(section) => match lookup(section, "data"@) {
            Some(text) => base64_decoding(text),
            None => None,
        },
        None => None,
    }
}

/// The capture time that a record shows, if it has one.
pub open spec fn timestamp_of(record: RecordView) -> Option<Seq<char>> {
    match lookup(record, "timestamp"@) {
        Some(section) => lookup(section, "timestamp"@),
        None => None,
    }
}

/// In the record of a frame the frame's text stands under `raw_data` and
/// `data`, and the capture time under `timestamp` and `timestamp`.
pub proof fn lemma_record_sections(
    packet: ClassifiedPacket,
    frame: Seq<u8>,
    header: Seq<char>,
    stamp: Seq<char>,
)
    ensures
        lookup(record_of(packet, frame, header, stamp), "raw_data"@) == Some(
            raw_data_info(frame, header),
        ),
        lookup(raw_data_info(frame, header), "data"@) == Some(base64_encoding(frame)),
        raw_frame(record_of(packet, frame, header, stamp)) == base64_decoding(
            base64_encoding(frame),
        ),
        timestamp_of(record_of(packet, frame, header, stamp)) == Some(stamp),
{
    reveal_strlit("Layer 1");
    reveal_strlit("Layer 2");
    reveal_strlit("Layer 3");
    reveal_strlit("raw_data");
    reveal_strlit("timestamp");
    assert("Layer 1"@.len() == 7 && "Layer 2"@.len() == 7 && "Layer 3"@.len() == 7 && "raw_data"@.len()
        == 8 && "timestamp"@.len() == 9);
    let record = record_of(packet, frame, header, stamp);
    let layers = packet_info(packet).len() as int;
    lemma_lookup_first(record, "raw_data"@, layers);
    lemma_lookup_first(record, "timestamp"@, layers + 1);
    lemma_lookup_first(raw_data_info(frame, header), "data"@, 0);
    lemma_lookup_first(timestamp_info(stamp), "timestamp"@, 0);
}

/// Builds the record of a classified frame. The record keeps the frame, so
/// that it can be read back from the record alone.
pub fn build_record(packet: &MyPacket, frame: &[u8], header: String, stamp: String) -> (record:
    PresentationRecord)
    requires
        can_encode(frame@.len()),
    ensures
        record@ == record_of(packet@, frame@, header@, stamp@),
        distinct_keys(record@),
        raw_frame(record@) == Some(frame@),
{
    proof {
        reveal_strlit("Layer 1");
        reveal_strlit("Layer 2");
        reveal_strlit("Layer 3");
        reveal_strlit("raw_data");
        reveal_strlit("timestamp");
        reveal_strlit("data");
        reveal_strlit("header");
        assert("Layer 1"@.len() == 7 && "Layer 2"@.len() == 7 && "Layer 3"@.len() == 7
            && "raw_data"@.len() == 8 && "timestamp"@.len() == 9 && "data"@.len() == 4
            && "header"@.len() == 6);
        lemma_record_sections(packet@, frame@, header@, stamp@);
    }
    let mut raw_data: InfoMap = Table::new();
    raw_data.insert(String::from_str("data"), base64_encode(frame));
    raw_data.insert(String::from_str("header"), header);
    assert(raw_data@ =~= raw_data_info(frame@, header@));
    let mut time: InfoMap = Table::new();
    time.insert(String::from_str("timestamp"), stamp);
    assert(time@ =~= timestamp_info(stamp@));
    let mut record = packet.get_packet_info();
    record.insert(String::from_str("raw_data"), raw_data);
    record.insert(String::from_str("timestamp"), time);
    assert(record@ =~= record_of(packet@, frame@, header@, stamp@));
    record
}

/// Reads the frame that a record keeps.
pub fn decode_raw_frame(record: &PresentationRecord) -> (frame: Option<Vec<u8>>)
    ensures
        match frame {
            Some(bytes) => raw_frame(record@) == Some(bytes@),
            None => raw_frame(record@) is None,
        },
{
    match record.get("raw_data") {
        Some(section) => match section.get("data") {
            Some(text) => base64_decode(text.as_str()),
            None => None,
        },
        None => None,
    }
}

/// Why a captured frame gave no record.
#[derive(Debug, Clone, Copy, PartialEq, Eq, Structural)]
pub enum FrameError {
    /// The bytes are too short for an Ethernet header.
    NotEthernet,
    /// The frame could not be classified.
    Unclassified(ClassifyError),
    /// The capture time has no text: its microseconds exceed the second,
    /// the offset is a day or more, or the local year is not one of 0 to
    /// 9999.
    NoTimestamp,
}

/// The record of one captured frame, from its bytes and its capture
/// header: the time in seconds and microseconds, and a rendering of the
/// header. `offset` is the local offset from UTC at the capture time, in
/// seconds east. The frame is taken as Ethernet, classified, and recorded
/// with its bytes and its local capture time. What fails first decides
/// the error.
pub fn capture_record(
    data: &[u8],
    seconds: i64,
    microseconds: i64,
    offset: i32,
    header: String,
) -> (record: Result<PresentationRecord, FrameError>)
    requires
        can_encode(data@.len()),
    ensures
        match record {
            Ok(made) => {
                &&& ethernet::is_frame(data@)
                &&& is_subsecond(microseconds)
                &&& is_shown_at(seconds as int, offset as int)
                &&& classify(data@) matches Ok(packet) && made@ == record_of(
                    packet,
                    data@,
                    header@,
                    timestamp_text(seconds as int, offset as int),
                )
                &&& timestamp_of(made@) == Some(timestamp_text(seconds as int, offset as int))
                &&& is_timestamp_text(timestamp_text(seconds as int, offset as int))
                &&& distinct_keys(made@)
                &&& raw_frame(made@) == Some(data@)
            },
            Err(FrameError::NotEthernet) => !ethernet::is_frame(data@),
            Err(FrameError::Unclassified(error)) => ethernet::is_frame(data@) && classify(data@)
                == Err::<ClassifiedPacket, ClassifyError>(error),
            Err(FrameError::NoTimestamp) => ethernet::is_frame(data@) && classify(data@) is Ok && !(
            is_subsecond(microseconds) && is_shown_at(seconds as int, offset as int)),
        },
{
    let frame = match EthernetFrame::new(data) {
        Some(frame) => frame,
        None => {
            return Err(FrameError::NotEthernet);
        },
    };
    let packet = match MyPacket::new(&frame) {
        Ok(packet) => packet,
        Err(error) => {
            return Err(FrameError::Unclassified(error));
        },
    };
    let stamp = match format_timeval(seconds, microseconds, offset) {
        Some(stamp) => stamp,
        None => {
            return Err(FrameError::NoTimestamp);
        },
    };
    proof {
        lemma_record_sections(packet@, data@, header@, stamp@);
    }
    Ok(build_record(&packet, data, header, stamp))
}

} // verus!
