use raytracer::{Isotropic, Lambertian, MicrofacetReflectance, SpecularReflectance, UnitMaterial};

#[test]
fn only_lambertian_uses_mixture_pdfs() {
    assert!(!UnitMaterial {}.use_pdfs());
    assert!(!MicrofacetReflectance { albedo: 1u8, bxdf: 2u8 }.use_pdfs());
    assert!(!SpecularReflectance { albedo: "texture" }.use_pdfs());
    assert!(Lambertian { albedo: () }.use_pdfs());
    assert!(!Isotropic { albedo: 0.5f64 }.use_pdfs());
}
