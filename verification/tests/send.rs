//! The handle and symbol types can be shared across threads.

use sharedlib::Library;
use sharedlib::Symbol;

fn takes_sync<S: Sync>(_: Option<S>) {}

fn takes_send<S: Send>(_: Option<S>) {}

#[test]
fn check_library_sync() {
    takes_sync::<Library>(None);
    takes_send::<Library>(None);
}

#[test]
fn check_symbol_sync() {
    takes_sync::<Symbol<fn()>>(None);
    takes_send::<Symbol<fn()>>(None);
}
