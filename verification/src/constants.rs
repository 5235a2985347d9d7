use vstd::prelude::*;

verus! {

/// Buffer size for chunked reads while streaming a single file.
pub const FILE_BUF_SIZE: usize = 65536;

/// Capacity of the bounded in-memory pipe between the archive producer and
/// the response body.
pub const TAR_BUF_SIZE: usize = 32768;

/// The filename used in the attachment header whenever a path has no final
/// component to derive one from.
pub open spec fn spec_fallback_filename() -> Seq<char> {
    "file"@
}

/// The fallback attachment filename as executable code.
pub fn fallback_filename() -> (r: &'static str)
    ensures
        r@ == spec_fallback_filename(),
{
    "file"
}

/// The name of the configuration file read at startup.
pub fn config_file() -> &'static str {
    "directshare.toml"
}

} // verus!
