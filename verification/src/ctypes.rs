//! The C scalar types of the ARM EABI target, as the SDK bindings name them.
use vstd::prelude::*;

verus! {

pub type c_schar = u8;

pub type c_uchar = u8;

pub type c_short = i16;

pub type c_ushort = u16;

pub type c_int = i32;

pub type c_uint = u32;

pub type c_longlong = i64;

pub type c_ulonglong = u64;

/// An opaque type that C's `void` is read as behind a pointer. Only its
/// name matters here: nothing reads a value of it, and its size is not fixed
/// (the rules of this library take no `repr` attribute).
pub enum c_void {
    __variant1,
    __variant2,
}

pub type c_long = i32;

pub type c_ulong = u32;

pub type c_char = u8;

} // verus!
