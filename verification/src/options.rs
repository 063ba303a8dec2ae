use vstd::prelude::*;

verus! {

/// The target format's two data-page conventions. They differ in how the
/// validity block is laid out on the wire and in which header record
/// describes the finished page.
#[derive(Clone, Copy, Debug, PartialEq, Eq, Structural)]
pub enum Version {
    V1,
    V2,
}

/// Format-wide writer configuration threaded through page encoding.
#[derive(Clone, Copy, Debug, PartialEq, Eq, Structural)]
pub struct WriteOptions {
    /// Which data-page convention to emit.
    pub version: Version,
}

/// Why a page could not be produced. Failures are fatal for the page:
/// nothing is retried and no partial buffer survives.
#[derive(Clone, Copy, Debug, PartialEq, Eq, Structural)]
pub enum PageError {
    /// The validity encoder could not represent the stream: the encoded
    /// block is too long for the v1 length prefix.
    ValidityEncoding,
    /// The page header cannot represent the supplied counts or lengths.
    Assembly,
}

} // verus!
