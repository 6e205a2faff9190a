use pcap_replay::fetch::decide;
use pcap_replay::fetch::Decision;
use pcap_replay::fetch::SourceEvent;

#[test]
fn eligible_records_are_processed() {
    assert_eq!(decide(SourceEvent::Record { eligible: true }), Decision::Process);
}

#[test]
fn other_records_are_skipped_silently() {
    assert_eq!(decide(SourceEvent::Record { eligible: false }), Decision::Skip);
}

#[test]
fn end_of_stream_finishes_the_pass() {
    assert_eq!(decide(SourceEvent::EndOfStream), Decision::FinishPass);
}

#[test]
fn incomplete_reads_ask_for_a_refill() {
    assert_eq!(decide(SourceEvent::Incomplete), Decision::Refill);
}

#[test]
fn decode_faults_abort_the_run() {
    assert_eq!(decide(SourceEvent::DecodeFault), Decision::Abort);
}
