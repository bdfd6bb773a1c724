//! Source locations of linked value-codec registrations.

use vstd::prelude::*;

use crate::util::bytes::bytes_lt;
use crate::util::bytes::compare_bytes;
use crate::util::bytes::ByteComparison;
use vstd::string::StringSliceAdditionalSpecFns;

verus! {

/// Where a value-codec registration was linked from.
///
/// Sources order by crate name, then module path, then file, then line.
#[derive(Clone, Copy, Debug, PartialEq, Eq, Hash, PartialOrd, Ord)]
pub struct ValueCodecRegistrationSource {
    crate_name: &'static str,
    module: &'static str,
    file: &'static str,
    line: u32,
}

impl ValueCodecRegistrationSource {
    /// The registering crate's package name.
    pub closed spec fn spec_crate_name(self) -> &'static str {
        self.crate_name
    }

    /// The registering module path.
    pub closed spec fn spec_module(self) -> &'static str {
        self.module
    }

    /// The registering source file.
    pub closed spec fn spec_file(self) -> &'static str {
        self.file
    }

    /// The registering source line.
    pub closed spec fn spec_line(self) -> u32 {
        self.line
    }

    /// Creates a source location.
    pub fn new(
        crate_name: &'static str,
        module: &'static str,
        file: &'static str,
        line: u32,
    ) -> (source: Self)
        ensures
            source.spec_crate_name() == crate_name,
            source.spec_module() == module,
            source.spec_file() == file,
            source.spec_line() == line,
    {
        ValueCodecRegistrationSource { crate_name, module, file, line }
    }

    /// Returns the registering crate's package name.
    pub fn crate_name(&self) -> (value: &'static str)
        ensures
            value == self.spec_crate_name(),
    {
        self.crate_name
    }

    /// Returns the registering module path.
    pub fn module(&self) -> (value: &'static str)
        ensures
            value == self.spec_module(),
    {
        self.module
    }

    /// Returns the registering source file.
    pub fn file(&self) -> (value: &'static str)
        ensures
            value == self.spec_file(),
    {
        self.file
    }

    /// Returns the registering source line.
    pub fn line(&self) -> (value: u32)
        ensures
            value == self.spec_line(),
    {
        self.line
    }
}

/// `a` sorts strictly before `b`: by crate name, then module path, then
/// file, each compared byte by byte, then by line.
pub open spec fn source_lt(a: ValueCodecRegistrationSource, b: ValueCodecRegistrationSource) -> bool {
    let (ac, bc) = (a.spec_crate_name().spec_bytes(), b.spec_crate_name().spec_bytes());
    let (am, bm) = (a.spec_module().spec_bytes(), b.spec_module().spec_bytes());
    let (af, bf) = (a.spec_file().spec_bytes(), b.spec_file().spec_bytes());
    ||| bytes_lt(ac, bc)
    ||| ac == bc && bytes_lt(am, bm)
    ||| ac == bc && am == bm && bytes_lt(af, bf)
    ||| ac == bc && am == bm && af == bf && a.spec_line() < b.spec_line()
}

/// Returns whether `a` sorts strictly before `b`.
pub fn source_less(a: &ValueCodecRegistrationSource, b: &ValueCodecRegistrationSource) -> (result:
    bool)
    ensures
        result == source_lt(*a, *b),
{
    match compare_bytes(a.crate_name().as_bytes(), b.crate_name().as_bytes()) {
        ByteComparison::Less => return true,
        ByteComparison::Greater => return false,
        ByteComparison::Equal => {},
    }
    match compare_bytes(a.module().as_bytes(), b.module().as_bytes()) {
        ByteComparison::Less => return true,
        ByteComparison::Greater => return false,
        ByteComparison::Equal => {},
    }
    match compare_bytes(a.file().as_bytes(), b.file().as_bytes()) {
        ByteComparison::Less => return true,
        ByteComparison::Greater => return false,
        ByteComparison::Equal => {},
    }
    a.line() < b.line()
}

} // verus!
