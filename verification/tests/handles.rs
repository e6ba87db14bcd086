use throw_overlay::com::{ComPtr, RefLedger};
use throw_overlay::error::RenderError;

#[test]
fn acquire_starts_count_at_one() {
    let mut ledger = RefLedger::new();
    let handle = ComPtr::acquire(&mut ledger, 0x1000).unwrap();
    assert_eq!(ledger.count_of(0x1000), 1);
    handle.release(&mut ledger);
    assert_eq!(ledger.count_of(0x1000), 0);
}

#[test]
fn acquire_null_is_invalid_handle() {
    let mut ledger = RefLedger::new();
    let r = ComPtr::acquire(&mut ledger, 0);
    assert!(matches!(r, Err(RenderError::InvalidHandle)));
    assert_eq!(ledger.count_of(0), 0);
}

#[test]
fn clone_then_release_is_net_zero() {
    let mut ledger = RefLedger::new();
    let handle = ComPtr::acquire(&mut ledger, 0x2000).unwrap();
    let before = ledger.count_of(0x2000);

    let clone = handle.clone_handle(&mut ledger);
    assert_eq!(ledger.count_of(0x2000), before + 1);

    clone.release(&mut ledger);
    assert_eq!(ledger.count_of(0x2000), before);

    handle.release(&mut ledger);
    assert_eq!(ledger.count_of(0x2000), 0);
}

#[test]
fn query_interface_increments_count() {
    let mut ledger = RefLedger::new();
    let handle = ComPtr::acquire(&mut ledger, 0x3000).unwrap();
    let cast = handle.query_interface(&mut ledger);
    assert_eq!(ledger.count_of(0x3000), 2);
    assert_eq!(cast.as_raw(), 0x3000);
    cast.release(&mut ledger);
    handle.release(&mut ledger);
    assert_eq!(ledger.count_of(0x3000), 0);
}

#[test]
fn counts_are_per_object() {
    let mut ledger = RefLedger::new();
    let a = ComPtr::acquire(&mut ledger, 0x10).unwrap();
    let b = ComPtr::acquire(&mut ledger, 0x20).unwrap();
    let a2 = a.clone_handle(&mut ledger);
    assert_eq!(ledger.count_of(0x10), 2);
    assert_eq!(ledger.count_of(0x20), 1);
    a2.release(&mut ledger);
    b.release(&mut ledger);
    assert_eq!(ledger.count_of(0x10), 1);
    assert_eq!(ledger.count_of(0x20), 0);
    a.release(&mut ledger);
}
