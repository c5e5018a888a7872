use vstd::prelude::*;
use core::marker::PhantomData;

verus! {

/// Non-owning link to atlas (texture placement) metadata. The atlas subsystem
/// owns the metadata; an attachment only records where it lives, through a
/// native auxiliary pointer the caller's renderer integration filled in. This
/// layer carries that pointer's address as a plain value and never allocates
/// or frees what it designates. The lifetime ties the link to the caller-held
/// aggregate that keeps the native memory alive.
pub struct AtlasRegion<'atlas> {
    pub address: u64,
    pub _marker: PhantomData<&'atlas ()>,
}

impl<'atlas> AtlasRegion<'atlas> {
    /// A link is well formed when its address is non-null: a null auxiliary
    /// pointer means the renderer integration never set the link, which is a
    /// caller bug, not a recoverable condition.
    pub open spec fn wf(self) -> bool {
        self.address != 0
    }
}

} // verus!
