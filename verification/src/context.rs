use vstd::prelude::*;

verus! {

/// The graphics API that an OpenGL context is requested for.
#[derive(Clone, Copy, Debug, PartialEq, Eq, Structural)]
pub enum ContextApi {
    /// The latest version of the API that suits the platform best.
    Latest,
    /// OpenGL ES, in a given version.
    OpenGlEs { major: u8, minor: u8 },
}

/// A request for an OpenGL context.
#[derive(Clone, Copy, Debug, PartialEq, Eq, Structural)]
pub struct ContextRequest {
    /// Whether frames wait for the display.
    pub vsync: bool,
    /// The number of samples of a pixel; 0 stands for no multisampling.
    pub multisampling: u16,
    pub api: ContextApi,
}

/// The number of samples that is requested for a compositor: the lower 16 bits
/// of the number that it wants.
pub open spec fn multisampling(sample_count: u32) -> int {
    sample_count as int % 0x1_0000
}

/// Whether a number of samples can be requested: no samples, or a power of two.
pub open spec fn is_requestable(samples: int) -> bool {
    ||| samples == 0
    ||| exists|exponent: nat| samples == #[trigger] vstd::arithmetic::power2::pow2(exponent)
}

impl ContextRequest {
    /// The request with which a context for desktop OpenGL is built.
    pub open spec fn desktop(sample_count: u32) -> Self {
        ContextRequest {
            vsync: true,
            multisampling: multisampling(sample_count) as u16,
            api: ContextApi::Latest,
        }
    }

    /// The request with which a context for OpenGL ES is built.
    pub open spec fn embedded(sample_count: u32) -> Self {
        ContextRequest {
            api: ContextApi::OpenGlEs { major: 2, minor: 0 },
            ..ContextRequest::desktop(sample_count)
        }
    }

    /// The request that is tried first.
    pub open spec fn first(try_opengles_first: bool, sample_count: u32) -> Self {
        if try_opengles_first {
            ContextRequest::embedded(sample_count)
        } else {
            ContextRequest::desktop(sample_count)
        }
    }

    /// The request that is tried where the first one failed.
    pub open spec fn second(try_opengles_first: bool, sample_count: u32) -> Self {
        ContextRequest::first(!try_opengles_first, sample_count)
    }

    /// Returns the two requests that are tried, in order, for a compositor that
    /// wants the given number of samples.
    pub fn in_order(try_opengles_first: bool, sample_count: u32) -> (requests: (Self, Self))
        requires
            is_requestable(multisampling(sample_count)),
        ensures
            requests.0 == ContextRequest::first(try_opengles_first, sample_count),
            requests.1 == ContextRequest::second(try_opengles_first, sample_count),
    {
        proof {
            lemma_low_half(sample_count);
        }
        let opengl = ContextRequest {
            vsync: true,
            multisampling: #[verifier::truncate] (sample_count as u16),
            api: ContextApi::Latest,
        };
        let opengles = ContextRequest {
            api: ContextApi::OpenGlEs { major: 2, minor: 0 },
            ..opengl
        };
        if try_opengles_first {
            (opengles, opengl)
        } else {
            (opengl, opengles)
        }
    }
}

/// Returns whether the number of samples that is requested for a compositor can
/// be requested.
pub fn accepts_samples(sample_count: u32) -> (accepted: bool)
    ensures
        accepted == is_requestable(multisampling(sample_count)),
{
    proof {
        lemma_low_half(sample_count);
    }
    let samples: u16 = #[verifier::truncate] (sample_count as u16);
    if samples == 0 {
        return true;
    }
    let mut power: u32 = 1;
    let mut exponent: u32 = 0;
    proof {
        vstd::arithmetic::power2::lemma2_to64();
    }
    while power < samples as u32
        invariant
            0 < samples,
            power == vstd::arithmetic::power2::pow2(exponent as nat),
            power <= 0x1_0000,
            exponent <= 16,
            power == 0x1_0000 ==> exponent == 16,
            forall|smaller: nat|
                smaller < exponent ==> #[trigger] vstd::arithmetic::power2::pow2(smaller) < samples,
        decreases 0x1_0000 - power,
    {
        proof {
            vstd::arithmetic::power2::lemma_pow2_unfold((exponent + 1) as nat);
            vstd::arithmetic::power2::lemma2_to64();
            if exponent == 16 {
                assert(power == 0x1_0000);
            }
        }
        power = power * 2;
        exponent = exponent + 1;
    }
    proof {
        assert forall|other: nat| samples == #[trigger] vstd::arithmetic::power2::pow2(
            other,
        ) implies power == samples by {
            if other > exponent {
                vstd::arithmetic::power2::lemma_pow2_strictly_increases(exponent as nat, other);
            }
        }
    }
    power == samples as u32
}

proof fn lemma_low_half(sample_count: u32)
    ensures
        sample_count as u16 == multisampling(sample_count),
{
    assert(sample_count as u16 == sample_count % 0x1_0000) by (bit_vector);
}

} // verus!
