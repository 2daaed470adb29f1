use vstd::prelude::*;

verus! {

/// The closed set of surface behaviours a material can have.
#[derive(Debug, Clone, Copy, PartialEq, Eq, Structural)]
pub enum MaterialType {
    /// Mirror (perfectly specular)
    Mirror,
    /// Uniform hemisphere sampling (perfectly diffuse)
    Uniform,
    /// Cosine-weighted hemisphere sampling (perfectly diffuse)
    Lambert,
    /// Cook-Torrance reflection model
    Physical,
    /// Glass-like dielectric that reflects or refracts
    Transparent,
}

impl MaterialType {
    /// A delta distribution: the material scatters into a single direction, so a light
    /// sampled independently of it is hit with probability zero.
    pub open spec fn spec_is_specular(self) -> bool {
        self is Mirror || self is Transparent
    }

    /// Whether a surface of this kind scatters into a single direction.
    pub fn is_specular(&self) -> (r: bool)
        ensures
            r == self.spec_is_specular(),
    {
        match self {
            MaterialType::Mirror => true,
            MaterialType::Transparent => true,
            _ => false,
        }
    }
}

} // verus!
