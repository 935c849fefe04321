//! Conversions between enums and their names or numbers.

use vstd::prelude::*;

verus! {

/// Implemented for enums that can list their variants and convert them to
/// and from their names and descriptions.
pub trait EnumTrait<T> {
    /// All variants, in declaration order.
    fn list() -> Vec<T>;

    /// The description attached to the variant.
    fn descr(&self) -> &'static str;

    /// The variant's name.
    fn as_str(&self) -> &'static str;

    /// The variant's name qualified by the enum's name.
    fn as_str_ns(&self) -> &'static str;

    /// The variant with the given name, if any.
    fn from_str(str: &str) -> Option<T>;

    /// The variant with the given qualified name, if any.
    fn from_str_ns(str: &str) -> Option<T>;
}

/// A number that matches no variant of the named enum.
#[derive(Clone, Debug)]
#[allow(non_camel_case_types)]
pub enum TryFromError {
    u32(&'static str, u32),
    u16(&'static str, u16),
    u8(&'static str, u8),
    usize(&'static str, usize),
}

} // verus!
