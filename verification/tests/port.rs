use ragkit_desktop::port::{
    bind_address, first_candidate, on_bind_result, PortStep, FIRST_PORT, PORT_COUNT,
};

/// Runs a whole scan against a table of bindable ports.
fn scan(bindable: &dyn Fn(u16) -> bool) -> (Option<u16>, usize) {
    let mut candidate = first_candidate();
    let mut binds = 0;
    loop {
        binds += 1;
        match on_bind_result(candidate, bindable(candidate)) {
            PortStep::Allocated(port) => return (Some(port), binds),
            PortStep::Try(next) => candidate = next,
            PortStep::Exhausted => return (None, binds),
        }
    }
}

#[test]
fn range_is_8100_to_8199() {
    assert_eq!(FIRST_PORT, 8100);
    assert_eq!(PORT_COUNT, 100);
    assert_eq!(first_candidate(), 8100);
}

#[test]
fn bound_candidate_is_the_port() {
    assert_eq!(on_bind_result(8100, true), PortStep::Allocated(8100));
    assert_eq!(on_bind_result(8199, true), PortStep::Allocated(8199));
}

#[test]
fn occupied_candidate_moves_to_the_next() {
    assert_eq!(on_bind_result(8100, false), PortStep::Try(8101));
    assert_eq!(on_bind_result(8198, false), PortStep::Try(8199));
}

#[test]
fn occupied_last_candidate_exhausts_the_scan() {
    assert_eq!(on_bind_result(8199, false), PortStep::Exhausted);
    assert_eq!(on_bind_result(65535, false), PortStep::Exhausted);
}

#[test]
fn scan_returns_lowest_free_port() {
    assert_eq!(scan(&|_| true), (Some(8100), 1));
    assert_eq!(scan(&|p| p >= 8142), (Some(8142), 43));
    assert_eq!(scan(&|p| p == 8199), (Some(8199), 100));
    assert_eq!(scan(&|p| p % 7 == 0), (Some(8106), 7));
}

#[test]
fn scan_of_fully_occupied_range_reports_none_after_100_binds() {
    assert_eq!(scan(&|_| false), (None, 100));
    assert_eq!(scan(&|p| p < 8100 || p > 8199), (None, 100));
}

#[test]
fn scan_never_leaves_the_range() {
    for free in 8100u16..8200 {
        let (port, binds) = scan(&|p| p == free);
        assert_eq!(port, Some(free));
        assert_eq!(binds, (free - 8100) as usize + 1);
    }
}

#[test]
fn bind_address_is_loopback_with_port() {
    assert_eq!(bind_address(8100), "127.0.0.1:8100");
    assert_eq!(bind_address(8199), "127.0.0.1:8199");
    assert_eq!(bind_address(0), "127.0.0.1:0");
}
