use vstd::prelude::*;
use vstd::std_specs::slice::spec_slice_iter;

verus! {

/// A read-only view of a contiguous run of memory.
#[derive(Debug)]
pub struct Region<'a>(pub &'a [u8]);

/// A writable view of a contiguous run of memory.
#[derive(Debug)]
pub struct RegionMut<'a>(pub &'a mut [u8]);

impl<'a> Region<'a> {
    pub fn iter(&'a self) -> (it: std::slice::Iter<'a, u8>)
        ensures
            it == spec_slice_iter(self.0),
    {
        self.0.iter()
    }
}

impl<'a> std::ops::Deref for Region<'a> {
    type Target = [u8];

    fn deref(&self) -> &[u8] {
        self.0
    }
}

impl<'a> std::ops::Deref for RegionMut<'a> {
    type Target = [u8];

    fn deref(&self) -> &[u8] {
        self.0
    }
}

impl<'a> std::ops::DerefMut for RegionMut<'a> {
    fn deref_mut(&mut self) -> &mut [u8] {
        self.0
    }
}

impl<'a> AsRef<[u8]> for Region<'a> {
    fn as_ref(&self) -> &[u8] {
        self.0
    }
}

impl<'a> AsRef<[u8]> for RegionMut<'a> {
    fn as_ref(&self) -> &[u8] {
        self.0
    }
}

impl<'a> AsMut<[u8]> for RegionMut<'a> {
    fn as_mut(&mut self) -> &mut [u8] {
        self.0
    }
}

} // verus!
