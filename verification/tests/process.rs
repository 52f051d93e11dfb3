use glslang_safe::process::{GlslangProcess, ProcessLedger};

#[test]
fn initialize_and_finalize_process() {
    let _process = GlslangProcess::default();
}

#[test]
fn ledger_counts_open_initializations() {
    let mut ledger = ProcessLedger::new();
    assert_eq!(ledger.outstanding(), 0);
    assert!(ledger.is_balanced());
    let first = ledger.acquire();
    let second = ledger.acquire();
    assert_eq!(ledger.outstanding(), 2);
    assert!(!ledger.is_balanced());
    ledger.release(first);
    assert_eq!(ledger.outstanding(), 1);
    ledger.release(second);
    assert_eq!(ledger.outstanding(), 0);
    assert!(ledger.is_balanced());
}

#[test]
fn ledger_is_balanced_after_interleaved_guards() {
    let mut ledger = ProcessLedger::new();
    let a = ledger.acquire();
    let b = ledger.acquire();
    ledger.release(a);
    let c = ledger.acquire();
    ledger.release(c);
    ledger.release(b);
    assert!(ledger.is_balanced());
    assert_eq!(ledger.outstanding(), 0);
}
