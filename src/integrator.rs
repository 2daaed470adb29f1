use vstd::prelude::*;
use crate::material::MaterialType;

verus! {

/// Which terms a path vertex adds to the radiance estimate.
#[derive(Debug, Clone, Copy, PartialEq, Eq, Structural)]
pub struct VertexTerms {
    /// The surface's own emission.
    pub emission: bool,
    /// Next-event estimation: light gathered by sampling the lights directly.
    pub direct_light: bool,
    /// A scattered ray is traced on, weighted by the material's sampling weight.
    pub continue_path: bool,
}

/// The integrator's bookkeeping between two vertices of one path.
#[derive(Debug, Clone, Copy, PartialEq, Eq, Structural)]
pub struct PathState {
    /// Bounces still allowed after the vertex about to be shaded.
    pub bounces_left: u32,
    /// The previous vertex sampled the lights directly (false for a camera ray).
    pub lights_sampled: bool,
}

impl PathState {
    /// The terms that a vertex of material `m` contributes in this state.
    ///
    /// Emission is counted only where the vertex before did not already gather it by
    /// sampling the lights, so that no light is counted twice. Lights are sampled directly
    /// only by non-specular surfaces, and only while the bounce budget is not exhausted;
    /// the path continues while the budget lasts.
    pub open spec fn spec_terms(self, m: MaterialType) -> VertexTerms {
        VertexTerms {
            emission: !self.lights_sampled,
            direct_light: self.bounces_left > 0 && !m.spec_is_specular(),
            continue_path: self.bounces_left > 0,
        }
    }

    /// The state after a vertex of material `m` in this state scattered on.
    pub open spec fn spec_next(self, m: MaterialType) -> PathState
        recommends
            self.bounces_left > 0,
    {
        PathState {
            bounces_left: (self.bounces_left - 1) as u32,
            lights_sampled: self.spec_terms(m).direct_light,
        }
    }

    /// The state of a ray leaving the camera with a budget of `bounces`.
    pub fn camera(bounces: u32) -> (r: PathState)
        ensures
            r.bounces_left == bounces,
            !r.lights_sampled,
    {
        PathState { bounces_left: bounces, lights_sampled: false }
    }

    /// Decides what a vertex of material `m` adds to the estimate.
    pub fn terms(&self, m: MaterialType) -> (r: VertexTerms)
        ensures
            r == self.spec_terms(m),
    {
        let specular = m.is_specular();
        VertexTerms {
            emission: !self.lights_sampled,
            direct_light: self.bounces_left > 0 && !specular,
            continue_path: self.bounces_left > 0,
        }
    }

    /// The state of the ray scattered from a vertex of material `m`.
    pub fn next(&self, m: MaterialType) -> (r: PathState)
        requires
            self.bounces_left > 0,
        ensures
            r == self.spec_next(m),
            r.bounces_left < self.bounces_left,
    {
        let t = self.terms(m);
        PathState { bounces_left: self.bounces_left - 1, lights_sampled: t.direct_light }
    }
}

/// A light's emission reaches the estimate through one route only: when a vertex samples the
/// lights directly, the vertex its scattered ray reaches does not add its own emission.
pub proof fn lemma_emission_counted_once(s: PathState, m: MaterialType, m_next: MaterialType)
    requires
        s.bounces_left > 0,
    ensures
        s.spec_terms(m).direct_light ==> !s.spec_next(m).spec_terms(m_next).emission,
        !s.spec_terms(m).direct_light ==> s.spec_next(m).spec_terms(m_next).emission,
{
}

/// With a bounce budget of zero a camera ray adds the emission of the surface it hits and
/// nothing else: no light is sampled and no ray is traced on.
pub proof fn lemma_zero_budget_emission_only(m: MaterialType)
    ensures
        (PathState { bounces_left: 0, lights_sampled: false }).spec_terms(m) == (VertexTerms {
            emission: true,
            direct_light: false,
            continue_path: false,
        }),
{
}

} // verus!
