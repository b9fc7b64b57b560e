//! Permission codec: translates the 3-bit permission field of a mapping
//! request into the address space's internal permission representation.

use vstd::prelude::*;

verus! {

/// A set of access flags attached to a mapped region, closed under set
/// union: readable, writable, executable, and user-accessible.
#[derive(Clone, Copy, PartialEq, Eq, Structural, Debug)]
pub struct MapPermission {
    pub readable: bool,
    pub writable: bool,
    pub executable: bool,
    pub user: bool,
}

impl MapPermission {
    /// Set union of two flag sets: a flag is present in the result exactly
    /// when it is present in either operand.
    pub open spec fn spec_union(self, other: MapPermission) -> MapPermission {
        MapPermission {
            readable: self.readable || other.readable,
            writable: self.writable || other.writable,
            executable: self.executable || other.executable,
            user: self.user || other.user,
        }
    }

    /// Combines two flag sets by set union.
    pub fn union(self, other: MapPermission) -> (r: MapPermission)
        ensures
            r == self.spec_union(other),
    {
        MapPermission {
            readable: self.readable || other.readable,
            writable: self.writable || other.writable,
            executable: self.executable || other.executable,
            user: self.user || other.user,
        }
    }
}

/// The permission set denoted by a raw port value. For ports 1 through 7,
/// bit 0 means readable, bit 1 writable, bit 2 executable, and the
/// user-accessible flag is always added; 0 (a request with no access at all)
/// and every value of 8 or above denote no valid permission set.
pub open spec fn spec_decode(port: usize) -> Option<MapPermission> {
    if 1 <= port && port <= 7 {
        Some(MapPermission {
            readable: port % 2 == 1,
            writable: (port / 2) % 2 == 1,
            executable: (port / 4) % 2 == 1,
            user: true,
        })
    } else {
        None
    }
}

/// Decodes the 3-bit permission field of a mapping request, adding the
/// user-accessible flag to every successfully decoded set; returns `None`
/// for a request with no permission bits or with bits outside the field.
pub fn change_port_to_permission(port: usize) -> (r: Option<MapPermission>)
    ensures
        r == spec_decode(port),
{
    let user_permission = MapPermission {
        readable: false,
        writable: false,
        executable: false,
        user: true,
    };
    let read = MapPermission { readable: true, writable: false, executable: false, user: false };
    let write = MapPermission { readable: false, writable: true, executable: false, user: false };
    let execute = MapPermission {
        readable: false,
        writable: false,
        executable: true,
        user: false,
    };
    match port {
        1 => Some(read.union(user_permission)),
        2 => Some(write.union(user_permission)),
        4 => Some(execute.union(user_permission)),
        3 => Some(read.union(write).union(user_permission)),
        5 => Some(read.union(execute).union(user_permission)),
        6 => Some(write.union(execute).union(user_permission)),
        7 => Some(write.union(execute).union(read).union(user_permission)),
        _ => None,
    }
}

} // verus!
