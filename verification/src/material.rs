use vstd::prelude::*;

verus! {

/// A material with the neutral behaviour everywhere: it never scatters and
/// emits nothing.
#[derive(Debug)]
pub struct UnitMaterial {}

/// A rough, microfacet-reflecting surface: `albedo` is its texture and
/// `bxdf` the reflection model it is shaded with.
#[derive(Debug)]
pub struct MicrofacetReflectance<T, B> {
    pub albedo: T,
    pub bxdf: B,
}

/// A mirror-like surface that reflects about the (possibly textured) normal.
#[derive(Debug)]
pub struct SpecularReflectance<T> {
    pub albedo: T,
}

/// An ideal diffuse surface.
#[derive(Debug)]
pub struct Lambertian<T> {
    pub albedo: T,
}

/// A participating medium that scatters uniformly in every direction.
#[derive(Debug)]
pub struct Isotropic<T> {
    pub albedo: T,
}

impl UnitMaterial {
    /// The neutral material samples its bounces directly, not by mixture pdfs.
    pub fn use_pdfs(&self) -> (mixture: bool)
        ensures
            !mixture,
    {
        false
    }
}

impl<T, B> MicrofacetReflectance<T, B> {
    /// A microfacet surface samples its bounces directly, not by mixture pdfs.
    pub fn use_pdfs(&self) -> (mixture: bool)
        ensures
            !mixture,
    {
        false
    }
}

impl<T> SpecularReflectance<T> {
    /// A mirror samples its bounces directly, not by mixture pdfs.
    pub fn use_pdfs(&self) -> (mixture: bool)
        ensures
            !mixture,
    {
        false
    }
}

impl<T> Lambertian<T> {
    /// A diffuse surface draws its bounces from the mixture of the light and
    /// cosine pdfs.
    pub fn use_pdfs(&self) -> (mixture: bool)
        ensures
            mixture,
    {
        true
    }
}

impl<T> Isotropic<T> {
    /// A medium samples its bounces directly, not by mixture pdfs.
    pub fn use_pdfs(&self) -> (mixture: bool)
        ensures
            !mixture,
    {
        false
    }
}

} // verus!
