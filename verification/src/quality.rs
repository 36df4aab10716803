//! Encoder quality: lossless, or lossy with a level between 0 and 100.

use vstd::prelude::*;

verus! {

/// The mathematical value of a [`WebPQuality`].
pub ghost enum Fidelity {
    /// No compression loss.
    Lossless,
    /// Lossy compression at the given level.
    Lossy(nat),
}

/// The level in `[MIN, MAX]` that is nearest to `level`.
pub open spec fn clamp_level(level: int) -> nat {
    if level < 0 {
        0
    } else if level > 100 {
        100
    } else {
        level as nat
    }
}

#[derive(Debug, Copy, Clone)]
enum Quality {
    Lossless,
    Lossy(u8),
}

/// WebP encoder quality.
#[derive(Debug, Copy, Clone)]
pub struct WebPQuality(Quality);

impl View for WebPQuality {
    type V = Fidelity;

    closed spec fn view(&self) -> Fidelity {
        match self.0 {
            Quality::Lossless => Fidelity::Lossless,
            Quality::Lossy(level) => Fidelity::Lossy(level as nat),
        }
    }
}

impl WebPQuality {
    /// Minimum lossy quality value (0).
    pub const MIN: u8 = 0;

    /// Maximum lossy quality value (100).
    pub const MAX: u8 = 100;

    /// Default lossy quality, providing reasonable quality and file size (80).
    pub const DEFAULT: u8 = 80;

    /// A lossy level is never above `MAX`.
    #[verifier::type_invariant]
    pub closed spec fn wf(&self) -> bool {
        match self.0 {
            Quality::Lossless => true,
            Quality::Lossy(level) => level <= 100,
        }
    }

    /// The stored lossy level, or `None` for lossless.
    pub fn level(&self) -> (level: Option<u8>)
        ensures
            match level {
                Some(l) => self@ == Fidelity::Lossy(l as nat) && l <= Self::MAX,
                None => self@ == Fidelity::Lossless,
            },
    {
        proof {
            use_type_invariant(self);
        }
        match self.0 {
            Quality::Lossless => None,
            Quality::Lossy(level) => Some(level),
        }
    }

    /// Lossless encoding.
    pub fn lossless() -> (q: Self)
        ensures
            q@ == Fidelity::Lossless,
            q.wf(),
    {
        WebPQuality(Quality::Lossless)
    }

    /// Lossy quality. 0 = low quality, small size; 100 = high quality, large size.
    ///
    /// Values are clamped from 0 to 100.
    pub fn lossy(quality: u8) -> (q: Self)
        ensures
            q@ == Fidelity::Lossy(clamp_level(quality as int)),
            q.wf(),
    {
        let level: u8 = if quality > Self::MAX {
            Self::MAX
        } else {
            quality
        };
        WebPQuality(Quality::Lossy(level))
    }
}

impl Default for WebPQuality {
    /// Lossy encoding at level `DEFAULT`.
    fn default() -> (q: Self)
        ensures
            q@ == Fidelity::Lossy(clamp_level(WebPQuality::DEFAULT as int)),
            q@ == Fidelity::Lossy(80),
            q.wf(),
    {
        Self::lossy(WebPQuality::DEFAULT)
    }
}

/// Every quality holds a level between `MIN` and `MAX`, or none.
pub proof fn level_is_in_range(q: WebPQuality)
    requires
        q.wf(),
    ensures
        q@ matches Fidelity::Lossy(level) ==> WebPQuality::MIN <= level <= WebPQuality::MAX,
{
}

/// Clamping leaves a level in range as it is, and maps every other to the
/// nearest bound.
pub proof fn clamp_level_is_max_min(level: int)
    ensures
        WebPQuality::MIN <= clamp_level(level) <= WebPQuality::MAX,
        WebPQuality::MIN <= level <= WebPQuality::MAX ==> clamp_level(level) == level,
        level < WebPQuality::MIN ==> clamp_level(level) == WebPQuality::MIN,
        level > WebPQuality::MAX ==> clamp_level(level) == WebPQuality::MAX,
        clamp_level(level) == vstd::math::max(0, vstd::math::min(100, level)),
{
}

/// The default quality is the lossy quality of level `DEFAULT`: whatever
/// `default()` returns equals whatever `lossy(80)` returns.
pub proof fn default_is_lossy_default(by_default: WebPQuality, by_level: WebPQuality)
    requires
        by_default.wf(),
        by_level.wf(),
        by_default@ == Fidelity::Lossy(80),
        by_level@ == Fidelity::Lossy(clamp_level(WebPQuality::DEFAULT as int)),
    ensures
        by_default == by_level,
{
}

/// A quality is what its view says: two qualities with one view are equal.
pub proof fn view_is_injective(a: WebPQuality, b: WebPQuality)
    requires
        a.wf(),
        b.wf(),
        a@ == b@,
    ensures
        a == b,
{
}

} // verus!
