use rrddmma::cq::{exp_poll_request, exp_poll_result, exp_timestamp_entries, BlockingPoll, Cq, ExpWc, Wc, WcOpcode, WcStatus};
use rrddmma::interop::{from_c_err, from_c_ret, from_c_ret_explained, VerbsError};

fn wc(status: u32, opcode: u32, byte_len: u32, imm: Option<u32>) -> Wc {
    Wc { wr_id: 5, status, opcode, byte_len, imm_data: imm.unwrap_or(0), wc_flags: if imm.is_some() { 2 } else { 0 } }
}

#[test]
fn wc_opcode_codes_roundtrip() {
    let all = [
        (WcOpcode::Send, 0u32),
        (WcOpcode::RdmaWrite, 1),
        (WcOpcode::RdmaRead, 2),
        (WcOpcode::CompSwap, 3),
        (WcOpcode::FetchAdd, 4),
        (WcOpcode::BindMw, 5),
        (WcOpcode::Recv, 128),
        (WcOpcode::RecvRdmaImm, 129),
    ];
    for (op, code) in all.iter() {
        assert_eq!(op.code(), *code);
        assert_eq!(WcOpcode::from_code(*code), *op);
    }
}

#[test]
fn wc_status_codes_roundtrip() {
    for code in 0u32..=23 {
        assert_eq!(WcStatus::from_code(code).code(), code);
    }
    assert_eq!(WcStatus::from_code(0), WcStatus::Success);
    assert_eq!(WcStatus::from_code(5), WcStatus::WrFlushErr);
    assert_eq!(WcStatus::from_code(12), WcStatus::RetryExcErr);
}

#[test]
fn wc_accessors() {
    let ok = wc(0, 128, 64, Some(7));
    assert_eq!(ok.wr_id(), 5);
    assert_eq!(ok.status(), WcStatus::Success);
    assert_eq!(ok.result(), Ok(64));
    assert_eq!(ok.opcode(), WcOpcode::Recv);
    assert_eq!(ok.bytes(), 64);
    assert_eq!(ok.imm(), Some(7));
    assert_eq!(ok.imm_unchecked(), 7);
    let bad = wc(10, 1, 0, None);
    assert_eq!(bad.result(), Err(WcStatus::RemAccessErr));
    assert_eq!(bad.imm(), None);
    let d: Wc = Default::default();
    assert_eq!((d.wr_id, d.status, d.byte_len), (0, 0, 0));
}

#[test]
fn check_polled_finds_first_failure() {
    let all_ok = [wc(0, 0, 1, None), wc(0, 0, 2, None), wc(4, 0, 0, None)];
    assert_eq!(Wc::check_polled(&all_ok, 2), Ok(2));
    assert_eq!(Wc::check_polled(&all_ok, 3), Err(WcStatus::LocProtErr));
    let two_bad = [wc(0, 0, 1, None), wc(5, 0, 0, None), wc(4, 0, 0, None)];
    assert_eq!(Wc::check_polled(&two_bad, 3), Err(WcStatus::WrFlushErr));
    assert_eq!(Wc::check_polled(&two_bad, 0), Ok(0));
}

#[test]
fn exp_wc_timestamp_and_poll_result() {
    let with = ExpWc { with_timestamp: true, timestamp: 1234 };
    let without = ExpWc { with_timestamp: false, timestamp: 1234 };
    assert_eq!(with.timestamp(), Some(1234));
    assert_eq!(without.timestamp(), None);
    assert_eq!(exp_poll_result(3), Ok(3));
    assert_eq!(exp_poll_result(0), Ok(0));
    assert_eq!(exp_poll_result(-22), Err(VerbsError { code: -22, explanation: None }));
    let cq = Cq { handle: 7, context: 8 };
    assert_eq!(cq.as_raw(), 7);
    assert_eq!(cq.context(), 8);
    assert_eq!(Cq::depth(None), 128);
    assert_eq!(Cq::depth(Some(16)), 16);
}

#[test]
fn c_return_values() {
    assert_eq!(from_c_ret(0), Ok(()));
    assert_eq!(from_c_ret(12), Err(VerbsError { code: 12, explanation: None }));
    assert_eq!(from_c_err::<u8>(22), Err(VerbsError { code: 22, explanation: None }));
    let explained = from_c_ret_explained(22, |c| if c == 22 { Some("invalid") } else { None });
    assert_eq!(explained, Err(VerbsError { code: 22, explanation: Some("invalid") }));
    assert_eq!(from_c_ret_explained(0, |_| None), Ok(()));
}

#[test]
fn blocking_poll_progress() {
    let mut p = BlockingPoll::new(5);
    assert!(!p.done());
    assert_eq!(p.next_range(), 0..5);
    p.after_poll(0);
    p.after_poll(3);
    assert_eq!(p.next_range(), 3..5);
    assert!(!p.done());
    p.after_poll(2);
    assert!(p.done());
    assert!(BlockingPoll::new(0).done());
}

#[test]
fn exp_poll_request_and_timestamp_entries() {
    assert_eq!(exp_poll_request(0), None);
    assert_eq!(exp_poll_request(16), Some(16));
    let t = ExpWc { with_timestamp: true, timestamp: 5 };
    let f = ExpWc { with_timestamp: false, timestamp: 5 };
    let wc = [t, f, t, t];
    assert_eq!(exp_timestamp_entries(&wc, 3), vec![0, 2]);
    assert_eq!(exp_timestamp_entries(&wc, 4), vec![0, 2, 3]);
    assert_eq!(exp_timestamp_entries(&wc, 0), Vec::<usize>::new());
    assert_eq!(exp_timestamp_entries(&wc, -5), Vec::<usize>::new());
}
