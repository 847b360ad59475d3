use sel4::{Error, ErrorDetails, GoOn, IpcBuffer, LookupFailureKind};

fn buffer(label: u64, regs: &[u64]) -> IpcBuffer {
    let mut msg = regs.to_vec();
    while msg.len() < 5 {
        msg.push(0);
    }
    IpcBuffer { label, msg }
}

#[test]
fn local_errors_need_no_buffer_contents() {
    let buf = buffer(0, &[]);
    assert_eq!(Error(GoOn::TooMuchData).details(&buf), Some(ErrorDetails::TooMuchData));
    assert_eq!(Error(GoOn::TooManyCaps).details(&buf), Some(ErrorDetails::TooManyCaps));
}

#[test]
fn no_error_label_decodes_to_none() {
    let buf = buffer(0, &[5, 6, 7]);
    assert_eq!(Error(GoOn::CheckIPCBuf).details(&buf), None);
}

#[test]
fn one_word_variants() {
    let e = Error(GoOn::CheckIPCBuf);
    assert_eq!(
        e.details(&buffer(1, &[9])),
        Some(ErrorDetails::InvalidArgument { which: 9 })
    );
    assert_eq!(
        e.details(&buffer(2, &[4])),
        Some(ErrorDetails::InvalidCapability { which: 4 })
    );
    assert_eq!(
        e.details(&buffer(10, &[4096])),
        Some(ErrorDetails::NotEnoughMemory { bytes_available: 4096 })
    );
}

#[test]
fn zero_word_variants() {
    let e = Error(GoOn::CheckIPCBuf);
    assert_eq!(e.details(&buffer(3, &[])), Some(ErrorDetails::IllegalOperation));
    assert_eq!(e.details(&buffer(5, &[])), Some(ErrorDetails::AlignmentError));
    assert_eq!(e.details(&buffer(7, &[])), Some(ErrorDetails::TruncatedMessage));
    assert_eq!(e.details(&buffer(8, &[])), Some(ErrorDetails::DeleteFirst));
    assert_eq!(e.details(&buffer(9, &[])), Some(ErrorDetails::RevokeFirst));
}

#[test]
fn range_error_reads_min_and_max() {
    // Scenario: label = RangeError, reg[0] = 5, reg[1] = 10.
    let buf = buffer(4, &[5, 10]);
    assert_eq!(
        Error(GoOn::CheckIPCBuf).details(&buf),
        Some(ErrorDetails::RangeError { min: 5, max: 10 })
    );
}

#[test]
fn failed_lookup_guard_mismatch() {
    // Scenario: label = FailedLookup, reg[0] = 1 (source), nested label =
    // GuardMismatch, reg[2..5] = (3, 0xF, 4).
    let buf = buffer(6, &[1, 4, 3, 0xF, 4]);
    assert_eq!(
        Error(GoOn::CheckIPCBuf).details(&buf),
        Some(ErrorDetails::FailedLookup {
            failed_for_source: true,
            lookup_kind: LookupFailureKind::GuardMismatch {
                bits_remaining: 3,
                guard: 0xF,
                guard_size: 4,
            },
        })
    );
}

#[test]
fn failed_lookup_destination_variants() {
    let e = Error(GoOn::CheckIPCBuf);
    assert_eq!(
        e.details(&buffer(6, &[0, 1, 0, 0, 0])),
        Some(ErrorDetails::FailedLookup {
            failed_for_source: false,
            lookup_kind: LookupFailureKind::InvalidRoot,
        })
    );
    assert_eq!(
        e.details(&buffer(6, &[1, 2, 17, 0, 0])),
        Some(ErrorDetails::FailedLookup {
            failed_for_source: true,
            lookup_kind: LookupFailureKind::MissingCapability { bits_remaining: 17 },
        })
    );
    assert_eq!(
        e.details(&buffer(6, &[0, 3, 12, 52, 0])),
        Some(ErrorDetails::FailedLookup {
            failed_for_source: false,
            lookup_kind: LookupFailureKind::DepthMismatch {
                bits_remaining: 12,
                bits_resolved: 52,
            },
        })
    );
}

#[test]
fn failed_lookup_without_nested_failure_is_none() {
    let buf = buffer(6, &[1, 0, 0, 0, 0]);
    assert_eq!(Error(GoOn::CheckIPCBuf).details(&buf), None);
}

#[test]
fn nested_decode_uses_given_register_positions() {
    let buf = buffer(6, &[0, 0, 4, 21, 0xAB, 6, 0]);
    let kind = LookupFailureKind::from_ipcbuf(&buf, 2, 3);
    assert_eq!(
        kind,
        Some(LookupFailureKind::GuardMismatch { bits_remaining: 21, guard: 0xAB, guard_size: 6 })
    );
}
