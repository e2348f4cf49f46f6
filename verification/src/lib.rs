//! Resolution of desktop icon names to icon file paths.
//!
//! A lookup asks the icon-theme resolver for an icon of the given name,
//! first constrained to a preferred pixel size, then, only if that attempt
//! found nothing, without the size constraint. The resolved path's bytes
//! are handed to the caller as an owned buffer; a miss yields an empty
//! result that carries no buffer at all.

use vstd::prelude::*;

mod resolver;

verus! {

/// Pixel size used for the first, size-constrained resolver attempt.
pub const DEFAULT_SIZE_HINT: u16 = 128;

/// The outcome of one lookup: the resolved icon path's bytes, owned by
/// the caller, or nothing.
pub enum LookupResult {
    Found(Vec<u8>),
    NotFound,
}

impl View for LookupResult {
    type V = Option<Seq<u8>>;

    open spec fn view(&self) -> Option<Seq<u8>> {
        match self {
            LookupResult::Found(bytes) => Some(bytes@),
            LookupResult::NotFound => None,
        }
    }
}

impl LookupResult {
    /// The number of path bytes carried; zero when nothing was found.
    pub open spec fn spec_len(self) -> nat {
        match self@ {
            Some(bytes) => bytes.len(),
            None => 0,
        }
    }

    /// Whether a path was found.
    pub fn is_found(&self) -> (found: bool)
        ensures
            found <==> self@ is Some,
    {
        match self {
            LookupResult::Found(_) => true,
            LookupResult::NotFound => false,
        }
    }

    /// The length of the carried buffer; zero when nothing was found.
    pub fn len(&self) -> (n: usize)
        ensures
            n == self.spec_len(),
    {
        match self {
            LookupResult::Found(bytes) => bytes.len(),
            LookupResult::NotFound => 0,
        }
    }

    /// Hand the carried buffer out, consuming the result.
    pub fn into_bytes(self) -> (bytes: Option<Vec<u8>>)
        ensures
            attempt_view(bytes) == self@,
    {
        match self {
            LookupResult::Found(bytes) => Some(bytes),
            LookupResult::NotFound => None,
        }
    }
}

/// The path bytes an attempt's outcome carries, if any.
pub open spec fn attempt_view(attempt: Option<Vec<u8>>) -> Option<Seq<u8>> {
    match attempt {
        Some(bytes) => Some(bytes@),
        None => None,
    }
}

/// The search policy: the size-constrained attempt's outcome wins; the
/// unconstrained outcome counts only when the first attempt found nothing.
pub open spec fn resolved(sized: Option<Seq<u8>>, unconstrained: Option<Seq<u8>>) -> Option<
    Seq<u8>,
> {
    if sized is Some {
        sized
    } else {
        unconstrained
    }
}

/// Combine the outcomes of the two resolver attempts into one result,
/// moving the chosen path's bytes into it unchanged.
pub fn resolve_attempts(sized: Option<Vec<u8>>, unconstrained: Option<Vec<u8>>) -> (r:
    LookupResult)
    ensures
        r@ == resolved(attempt_view(sized), attempt_view(unconstrained)),
{
    match sized {
        Some(bytes) => LookupResult::Found(bytes),
        None => match unconstrained {
            Some(bytes) => LookupResult::Found(bytes),
            None => LookupResult::NotFound,
        },
    }
}

/// Resolve an icon name to the path of a matching icon file.
///
/// The size-constrained attempt at [`DEFAULT_SIZE_HINT`] pixels is always
/// made first; the unconstrained attempt is made only when it found
/// nothing. What either attempt finds depends on the icon themes installed
/// on the machine, so no postcondition can pin which path comes back; the
/// policy combining the two outcomes is stated and proved on
/// [`resolve_attempts`]. Whatever came back, a found result carries a
/// non-empty path, so a successful lookup never pairs with length zero.
pub fn lookup_icon(name: &str) -> (r: LookupResult)
    ensures
        r@ is Some ==> r.spec_len() > 0,
{
    let sized = resolver::find_with_size(name, DEFAULT_SIZE_HINT);
    let unconstrained = if sized.is_some() {
        None
    } else {
        resolver::find_unconstrained(name)
    };
    resolve_attempts(sized, unconstrained)
}

/// When the size-constrained attempt finds a path, that path is the
/// result, whatever the unconstrained attempt would have found.
pub proof fn lemma_size_constrained_wins(sized: Seq<u8>, unconstrained: Option<Seq<u8>>)
    ensures
        resolved(Some(sized), unconstrained) == Some(sized),
{
}

/// When the size-constrained attempt finds nothing, the unconstrained
/// attempt's outcome is the result, found or not.
pub proof fn lemma_unconstrained_on_size_miss(unconstrained: Option<Seq<u8>>)
    ensures
        resolved(None, unconstrained) == unconstrained,
{
}

/// When both attempts find nothing, the result is the not-found
/// sentinel, which carries no buffer.
pub proof fn lemma_double_miss_is_not_found()
    ensures
        resolved(None, None) == Option::<Seq<u8>>::None,
{
}

} // verus!
