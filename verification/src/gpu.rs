//! The GPU surface manager's decision core: the pixel size the drawing
//! surface must have, and the negotiation that picks a display
//! configuration at startup.
//!
//! The surface itself is a native GPU object the embedding owns; the
//! controller tracks its pixel dimensions and keeps them in lockstep with
//! the window's physical size.

use vstd::prelude::*;

verus! {

/// The largest pixel dimension the GPU layer accepts for a surface.
pub const MAX_SURFACE_DIM: u32 = 0x7fff_ffff;

/// The drawing surface as the controller sees it: its pixel dimensions.
#[derive(Debug, Clone, Copy, PartialEq, Eq, Structural)]
pub struct Surface {
    pub width: u32,
    pub height: u32,
}

impl Surface {
    /// Allocates a surface description sized exactly to the window. The
    /// dimension bound is the GPU layer's machine limit on render-target
    /// sizes.
    pub fn create(width: u32, height: u32) -> (r: Surface)
        requires
            width <= MAX_SURFACE_DIM,
            height <= MAX_SURFACE_DIM,
        ensures
            r == (Surface { width, height }),
    {
        Surface { width, height }
    }
}

/// One display configuration the platform offers during negotiation.
#[derive(Debug, Clone, Copy, PartialEq, Eq)]
pub struct GlConfigCandidate {
    /// Whether the configuration supports transparency, where the
    /// platform answers at all.
    pub supports_transparency: Option<bool>,
    pub num_samples: u8,
    pub stencil_size: u8,
}

/// Whether a configuration counts as supporting transparency: an offer
/// the platform did not answer for counts as not supporting it.
pub open spec fn spec_supports_transparency(config: GlConfigCandidate) -> bool {
    match config.supports_transparency {
        Some(b) => b,
        None => false,
    }
}

/// Whether `candidate` strictly beats `accum` in the preference order:
/// transparency support first, then a lower sample count. This is the
/// strict lexicographic order on (transparency support descending, sample
/// count ascending).
pub open spec fn spec_prefer_candidate(candidate: GlConfigCandidate, accum: GlConfigCandidate) -> bool {
    let candidate_transparency = spec_supports_transparency(candidate);
    let accum_transparency = spec_supports_transparency(accum);
    ||| (candidate_transparency && !accum_transparency)
    ||| (candidate_transparency == accum_transparency
        && candidate.num_samples < accum.num_samples)
}

/// What [`pick_gl_config`] returns: the left fold of the strict
/// preference rule over the offered configurations, starting from the
/// first. Because the rule is a strict lexicographic order, the fold
/// lands on the most preferred offer, the earliest one winning ties
/// ([`lemma_pick_gl_config_characterization`]).
pub open spec fn spec_pick_gl_config(configs: Seq<GlConfigCandidate>) -> GlConfigCandidate
    recommends
        configs.len() > 0,
    decreases configs.len(),
{
    if configs.len() <= 1 {
        configs[0]
    } else {
        let accum = spec_pick_gl_config(configs.drop_last());
        if spec_prefer_candidate(configs.last(), accum) {
            configs.last()
        } else {
            accum
        }
    }
}

/// The negotiated configuration is one of the offers, no offer strictly
/// beats it — so it supports transparency whenever any offer does, and
/// among offers of the preferred transparency status it has the lowest
/// sample count — and every earlier offer is strictly worse: the earliest
/// offer wins ties.
pub proof fn lemma_pick_gl_config_characterization(configs: Seq<GlConfigCandidate>)
    requires
        configs.len() > 0,
    ensures
        ({
            let picked = spec_pick_gl_config(configs);
            &&& forall|j: int|
                0 <= j < configs.len() ==> !spec_prefer_candidate(#[trigger] configs[j], picked)
            &&& exists|i: int|
                0 <= i < configs.len() && #[trigger] configs[i] == picked && (forall|j: int|
                    0 <= j < i ==> spec_prefer_candidate(picked, #[trigger] configs[j]))
        }),
    decreases configs.len(),
{
    let picked = spec_pick_gl_config(configs);
    if configs.len() == 1 {
        assert(configs[0] == picked && (forall|j: int|
            0 <= j < 0 ==> spec_prefer_candidate(picked, #[trigger] configs[j])));
    } else {
        let prefix = configs.drop_last();
        let prev = spec_pick_gl_config(prefix);
        let last = configs.last();
        lemma_pick_gl_config_characterization(prefix);
        assert(forall|j: int| 0 <= j < prefix.len() ==> prefix[j] == #[trigger] configs[j]);
        if spec_prefer_candidate(last, prev) {
            // the last offer strictly beats the choice over the prefix,
            // and through it everything in the prefix
            assert(forall|j: int|
                0 <= j < configs.len() - 1 ==> spec_prefer_candidate(
                    picked,
                    #[trigger] configs[j],
                ));
            let i = configs.len() - 1;
            assert(configs[i] == picked && (forall|j: int|
                0 <= j < i ==> spec_prefer_candidate(picked, #[trigger] configs[j])));
        } else {
            let i = choose|i: int|
                0 <= i < prefix.len() && #[trigger] prefix[i] == prev && (forall|j: int|
                    0 <= j < i ==> spec_prefer_candidate(prev, #[trigger] prefix[j]));
            assert(configs[i] == picked && (forall|j: int|
                0 <= j < i ==> spec_prefer_candidate(picked, #[trigger] configs[j])));
        }
    }
}

/// The negotiated configuration supports transparency whenever any offer
/// does.
pub proof fn lemma_pick_gl_config_transparency(configs: Seq<GlConfigCandidate>)
    requires
        configs.len() > 0,
        exists|i: int|
            0 <= i < configs.len() && spec_supports_transparency(#[trigger] configs[i]),
    ensures
        spec_supports_transparency(spec_pick_gl_config(configs)),
{
    lemma_pick_gl_config_characterization(configs);
    let i = choose|i: int|
        0 <= i < configs.len() && spec_supports_transparency(#[trigger] configs[i]);
    assert(!spec_prefer_candidate(configs[i], spec_pick_gl_config(configs)));
}

/// Negotiates the display configuration: walks the platform's offers in
/// order, preferring transparency support first and a lower sample count
/// second, as the startup sequence requires.
pub fn pick_gl_config(configs: &Vec<GlConfigCandidate>) -> (r: GlConfigCandidate)
    requires
        configs@.len() > 0,
    ensures
        r == spec_pick_gl_config(configs@),
{
    let mut accum: GlConfigCandidate = configs[0];
    let mut i: usize = 1;
    while i < configs.len()
        invariant
            1 <= i <= configs@.len(),
            accum == spec_pick_gl_config(configs@.take(i as int)),
        decreases configs@.len() - i,
    {
        let candidate = configs[i];
        let candidate_transparency = match candidate.supports_transparency {
            Some(b) => b,
            None => false,
        };
        let accum_transparency = match accum.supports_transparency {
            Some(b) => b,
            None => false,
        };
        if (candidate_transparency && !accum_transparency)
            || (candidate_transparency == accum_transparency
                && candidate.num_samples < accum.num_samples)
        {
            accum = candidate;
        }
        proof {
            assert(configs@.take(i + 1 as int).drop_last() =~= configs@.take(i as int));
            assert(configs@.take(i + 1 as int).last() == configs@[i as int]);
        }
        i = i + 1;
    }
    proof {
        assert(configs@.take(configs@.len() as int) =~= configs@);
    }
    accum
}

} // verus!
