use pester::placement::{initial_placement, Geometry, HostOs, PlacementDirective};

#[test]
fn windows_host_places_bottom_right_with_margins() {
    let g = Geometry {
        monitor_width: 1920,
        monitor_height: 1080,
        window_width: 400,
        window_height: 600,
    };
    let p = initial_placement(HostOs::Windows, g);
    assert_eq!(p, PlacementDirective::Physical { x: 1510, y: 430 });
}

#[test]
fn windows_host_placement_may_go_negative_for_a_large_window() {
    let g = Geometry {
        monitor_width: 800,
        monitor_height: 600,
        window_width: 1000,
        window_height: 700,
    };
    let p = initial_placement(HostOs::Windows, g);
    assert_eq!(p, PlacementDirective::Physical { x: -210, y: -150 });
}

#[test]
fn non_windows_hosts_accept_any_geometry() {
    let g = Geometry {
        monitor_width: u32::MAX,
        monitor_height: u32::MAX,
        window_width: 0,
        window_height: 0,
    };
    assert_eq!(initial_placement(HostOs::MacOs, g), PlacementDirective::Center);
    assert_eq!(
        initial_placement(HostOs::Linux, g),
        PlacementDirective::Physical { x: 100, y: 100 }
    );
    assert_eq!(initial_placement(HostOs::Other, g), PlacementDirective::Default);
}

#[test]
fn macos_host_centers_the_window() {
    let g = Geometry {
        monitor_width: 2560,
        monitor_height: 1440,
        window_width: 400,
        window_height: 600,
    };
    assert_eq!(initial_placement(HostOs::MacOs, g), PlacementDirective::Center);
}

#[test]
fn linux_host_uses_the_fixed_position() {
    let g = Geometry {
        monitor_width: 1920,
        monitor_height: 1080,
        window_width: 400,
        window_height: 600,
    };
    assert_eq!(
        initial_placement(HostOs::Linux, g),
        PlacementDirective::Physical { x: 100, y: 100 }
    );
}

#[test]
fn unlisted_host_applies_no_positioning() {
    let g = Geometry {
        monitor_width: 1920,
        monitor_height: 1080,
        window_width: 400,
        window_height: 600,
    };
    assert_eq!(initial_placement(HostOs::Other, g), PlacementDirective::Default);
}
