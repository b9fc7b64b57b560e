use vmmap::permission::{change_port_to_permission, MapPermission};

fn flags(readable: bool, writable: bool, executable: bool) -> MapPermission {
    MapPermission { readable, writable, executable, user: true }
}

#[test]
fn decode_read() {
    assert_eq!(change_port_to_permission(1), Some(flags(true, false, false)));
}

#[test]
fn decode_write() {
    assert_eq!(change_port_to_permission(2), Some(flags(false, true, false)));
}

#[test]
fn decode_read_write() {
    assert_eq!(change_port_to_permission(3), Some(flags(true, true, false)));
}

#[test]
fn decode_execute() {
    assert_eq!(change_port_to_permission(4), Some(flags(false, false, true)));
}

#[test]
fn decode_read_execute() {
    assert_eq!(change_port_to_permission(5), Some(flags(true, false, true)));
}

#[test]
fn decode_write_execute() {
    assert_eq!(change_port_to_permission(6), Some(flags(false, true, true)));
}

#[test]
fn decode_read_write_execute() {
    assert_eq!(change_port_to_permission(7), Some(flags(true, true, true)));
}

#[test]
fn decode_no_permission_rejected() {
    assert_eq!(change_port_to_permission(0), None);
}

#[test]
fn decode_out_of_field_rejected() {
    assert_eq!(change_port_to_permission(8), None);
    assert_eq!(change_port_to_permission(9), None);
    assert_eq!(change_port_to_permission(15), None);
    assert_eq!(change_port_to_permission(usize::MAX), None);
}

#[test]
fn union_combines_flags() {
    let read = MapPermission { readable: true, writable: false, executable: false, user: false };
    let write = MapPermission { readable: false, writable: true, executable: false, user: false };
    assert_eq!(
        read.union(write),
        MapPermission { readable: true, writable: true, executable: false, user: false }
    );
}
