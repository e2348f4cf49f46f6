//! Trusted boundary to the icon-theme resolver.
//!
//! Both functions search the icon themes installed on the machine, so
//! which path they find, if any, depends on what is on disk. One thing
//! holds of every outcome: a found path is never empty, since the
//! resolver only ever returns a directory joined with a named icon file
//! (`<name>.png`, `.svg` or `.xmp`) that it checked to exist. The
//! resolved path's bytes are handed back exactly as the resolver
//! reports them.

use vstd::prelude::*;

verus! {

/// Relies on freedesktop_icons::lookup(name).with_size(size).find(): the
/// path of an icon file matching `name` at pixel size `size`, searched in
/// the installed icon themes, or nothing; a found path is never empty.
#[verifier::external_body]
pub(crate) fn find_with_size(name: &str, size: u16) -> (r: Option<Vec<u8>>)
    ensures
        r matches Some(path) ==> path@.len() > 0,
{
    freedesktop_icons::lookup(name).with_size(size).find().map(
        |path| path.into_os_string().into_encoded_bytes(),
    )
}

/// Relies on freedesktop_icons::lookup(name).find(): the path of an icon
/// file matching `name` under the resolver's own default search, or
/// nothing; a found path is never empty.
#[verifier::external_body]
pub(crate) fn find_unconstrained(name: &str) -> (r: Option<Vec<u8>>)
    ensures
        r matches Some(path) ==> path@.len() > 0,
{
    freedesktop_icons::lookup(name).find().map(|path| path.into_os_string().into_encoded_bytes())
}

} // verus!
