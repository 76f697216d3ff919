//! The native library's entry points: their names, and binding all of
//! them at once or none.
use vstd::prelude::*;

verus! {

/// The five entry points the wrapper needs.
#[derive(Debug, Clone, Copy, PartialEq, Eq, Structural)]
pub enum EntryPoint {
    DetectFormat,
    ExtractMetadata,
    ProcessImage,
    FreeImage,
    Version,
}

/// The exported symbol name of each entry point.
pub open spec fn symbol_of(e: EntryPoint) -> Seq<char> {
    match e {
        EntryPoint::DetectFormat => "zrraw_detect_format"@,
        EntryPoint::ExtractMetadata => "zrraw_extract_metadata"@,
        EntryPoint::ProcessImage => "zrraw_process_image"@,
        EntryPoint::FreeImage => "zrraw_free_image"@,
        EntryPoint::Version => "zrraw_version"@,
    }
}

impl EntryPoint {
    /// The exported symbol name of this entry point.
    pub fn symbol(&self) -> (r: &'static str)
        ensures
            r@ == symbol_of(*self),
    {
        match self {
            EntryPoint::DetectFormat => "zrraw_detect_format",
            EntryPoint::ExtractMetadata => "zrraw_extract_metadata",
            EntryPoint::ProcessImage => "zrraw_process_image",
            EntryPoint::FreeImage => "zrraw_free_image",
            EntryPoint::Version => "zrraw_version",
        }
    }
}

/// The five resolved entry points, one handle each.
pub struct EntryPoints<D, M, P, F, V> {
    pub detect_format: D,
    pub extract_metadata: M,
    pub process_image: P,
    pub free_image: F,
    pub version: V,
}

/// The first failure among the five lookups, in the order of the fields.
pub open spec fn first_failure<D, M, P, F, V, E>(
    d: Result<D, E>,
    m: Result<M, E>,
    p: Result<P, E>,
    f: Result<F, E>,
    v: Result<V, E>,
) -> E {
    match (d, m, p, f, v) {
        (Err(e), _, _, _, _) => e,
        (Ok(_), Err(e), _, _, _) => e,
        (Ok(_), Ok(_), Err(e), _, _) => e,
        (Ok(_), Ok(_), Ok(_), Err(e), _) => e,
        (Ok(_), Ok(_), Ok(_), Ok(_), Err(e)) => e,
        _ => arbitrary(),
    }
}

/// The binding of five lookups: all five handles when every lookup
/// succeeded, else the first failure.
pub open spec fn binding<D, M, P, F, V, E>(
    d: Result<D, E>,
    m: Result<M, E>,
    p: Result<P, E>,
    f: Result<F, E>,
    v: Result<V, E>,
) -> Result<EntryPoints<D, M, P, F, V>, E> {
    match (d, m, p, f, v) {
        (Ok(d), Ok(m), Ok(p), Ok(f), Ok(v)) => Ok(
            EntryPoints { detect_format: d, extract_metadata: m, process_image: p, free_image: f, version: v },
        ),
        _ => Err(first_failure(d, m, p, f, v)),
    }
}

/// Binding is atomic: if any one of the five lookups fails, there is no
/// binding at all, only the first failure; a binding holds all five
/// handles, each the one its lookup found.
pub proof fn lemma_binding_is_atomic<D, M, P, F, V, E>(
    d: Result<D, E>,
    m: Result<M, E>,
    p: Result<P, E>,
    f: Result<F, E>,
    v: Result<V, E>,
)
    ensures
        (d is Err || m is Err || p is Err || f is Err || v is Err) ==> binding(d, m, p, f, v) == Err::<
            EntryPoints<D, M, P, F, V>,
            E,
        >(first_failure(d, m, p, f, v)),
        binding(d, m, p, f, v) matches Ok(b) ==> {
            &&& d == Ok::<D, E>(b.detect_format)
            &&& m == Ok::<M, E>(b.extract_metadata)
            &&& p == Ok::<P, E>(b.process_image)
            &&& f == Ok::<F, E>(b.free_image)
            &&& v == Ok::<V, E>(b.version)
        },
{
}

/// Binds the five lookups together: all of them, or the first failure and
/// none of them.
pub fn bind_entry_points<D, M, P, F, V, E>(
    d: Result<D, E>,
    m: Result<M, E>,
    p: Result<P, E>,
    f: Result<F, E>,
    v: Result<V, E>,
) -> (r: Result<EntryPoints<D, M, P, F, V>, E>)
    ensures
        r == binding(d, m, p, f, v),
{
    let detect_format = match d {
        Ok(x) => x,
        Err(e) => {
            return Err(e);
        },
    };
    let extract_metadata = match m {
        Ok(x) => x,
        Err(e) => {
            return Err(e);
        },
    };
    let process_image = match p {
        Ok(x) => x,
        Err(e) => {
            return Err(e);
        },
    };
    let free_image = match f {
        Ok(x) => x,
        Err(e) => {
            return Err(e);
        },
    };
    let version = match v {
        Ok(x) => x,
        Err(e) => {
            return Err(e);
        },
    };
    Ok(EntryPoints { detect_format, extract_metadata, process_image, free_image, version })
}

} // verus!
