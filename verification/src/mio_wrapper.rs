//! Owners of a device descriptor.
//!
//! A reactor polls a descriptor; it does not own it. The types here own one
//! each, from the moment it is handed to them until it is closed, and see to
//! it that it is closed once and no more.

use vstd::prelude::*;

verus! {

/// The owner of the descriptor of a tunnel device.
pub struct Tun(Option<i32>);

/// The owner of the descriptor of a tap device.
pub struct Tap(Option<i32>);

impl Tun {
    /// The descriptor, while it is owned.
    pub closed spec fn spec_fd(&self) -> Option<i32> {
        self.0
    }

    /// Takes ownership of the raw descriptor `fd`. Nothing else may close it
    /// from now on.
    pub fn from_fd(fd: i32) -> (owner: Tun)
        ensures
            owner.spec_fd() == Some(fd),
    {
        Tun(Some(fd))
    }

    /// The descriptor to hand to the reactor; none once it has been closed.
    pub fn fd(&self) -> (fd: Option<i32>)
        ensures
            fd == self.spec_fd(),
    {
        self.0
    }

    /// Gives the descriptor up for closing. The first call hands it out;
    /// every later call hands out nothing, so that it is closed once.
    pub fn close(&mut self) -> (fd: Option<i32>)
        ensures
            fd == old(self).spec_fd(),
            final(self).spec_fd() is None,
    {
        let fd = self.0;
        self.0 = None;
        fd
    }
}

impl Tap {
    /// The descriptor, while it is owned.
    pub closed spec fn spec_fd(&self) -> Option<i32> {
        self.0
    }

    /// Takes ownership of the raw descriptor `fd`. Nothing else may close it
    /// from now on.
    pub fn from_fd(fd: i32) -> (owner: Tap)
        ensures
            owner.spec_fd() == Some(fd),
    {
        Tap(Some(fd))
    }

    /// The descriptor to hand to the reactor; none once it has been closed.
    pub fn fd(&self) -> (fd: Option<i32>)
        ensures
            fd == self.spec_fd(),
    {
        self.0
    }

    /// Gives the descriptor up for closing. The first call hands it out;
    /// every later call hands out nothing, so that it is closed once.
    pub fn close(&mut self) -> (fd: Option<i32>)
        ensures
            fd == old(self).spec_fd(),
            final(self).spec_fd() is None,
    {
        let fd = self.0;
        self.0 = None;
        fd
    }
}

} // verus!
