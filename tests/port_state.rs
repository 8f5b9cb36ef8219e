use renamer_shell::decimal::to_decimal;
use renamer_shell::port::{accept_assigned_port, PortAllocationError};
use renamer_shell::state::{get_api_port, SharedPortState};

#[test]
fn decimal_of_small_and_large_ports() {
    assert_eq!(to_decimal(0), "0");
    assert_eq!(to_decimal(7), "7");
    assert_eq!(to_decimal(10), "10");
    assert_eq!(to_decimal(8080), "8080");
    assert_eq!(to_decimal(54321), "54321");
    assert_eq!(to_decimal(65535), "65535");
}

#[test]
fn assigned_port_is_accepted() {
    assert_eq!(accept_assigned_port(Some(1)), Ok(1));
    assert_eq!(accept_assigned_port(Some(54321)), Ok(54321));
    assert_eq!(accept_assigned_port(Some(65535)), Ok(65535));
}

#[test]
fn failed_bind_is_an_allocation_error() {
    assert_eq!(accept_assigned_port(None), Err(PortAllocationError::BindFailed));
}

#[test]
fn port_zero_is_an_allocation_error() {
    assert_eq!(accept_assigned_port(Some(0)), Err(PortAllocationError::NoPortAssigned));
}

#[test]
fn every_accepted_port_is_in_range() {
    for p in 0..=u16::MAX {
        match accept_assigned_port(Some(p)) {
            Ok(q) => {
                assert_eq!(q, p);
                assert!(q >= 1);
            }
            Err(e) => {
                assert_eq!(p, 0);
                assert_eq!(e, PortAllocationError::NoPortAssigned);
            }
        }
    }
}

#[test]
fn fresh_state_reads_sentinel() {
    let s = SharedPortState::new();
    assert!(!s.is_initialized());
    for _ in 0..1000 {
        assert_eq!(s.read(), 0);
        assert_eq!(get_api_port(&s), 0);
    }
    let d = SharedPortState::default();
    assert_eq!(d.read(), 0);
}

#[test]
fn initialized_state_reads_published_port() {
    for p in [1u16, 80, 54321, 65535] {
        let mut s = SharedPortState::new();
        s.initialize(p);
        assert!(s.is_initialized());
        let shared = &s;
        for _ in 0..1000 {
            assert_eq!(shared.read(), p);
            assert_eq!(get_api_port(shared), p);
        }
    }
}
