//! Splitting a 16-bit word into its bytes.
use vstd::prelude::*;

verus! {

/// The two bytes of a 16-bit word.
pub trait U16Ext {
    fn lo(&self) -> u8;

    fn hi(&self) -> u8;
}

impl U16Ext for u16 {
    fn lo(&self) -> (r: u8)
        ensures
            r == *self as int % 256,
    {
        (*self % 256) as u8
    }

    fn hi(&self) -> (r: u8)
        ensures
            r == *self as int / 256,
    {
        (*self / 256) as u8
    }
}

} // verus!
