//! The blend-state types of `gfx_core` that the pass carries, and the two
//! values of them that it makes itself.
//!
//! Nothing in this file is proved: it tells the verifier what the types look
//! like and what two items of `gfx_core` return.

use gfx_core::state::{Blend, BlendChannel, BlendValue, ColorMask, Equation, Factor};
use vstd::prelude::*;

verus! {

/// `gfx_core::state::ColorMask`: a set of the four colour channels. Its
/// content is private, so the verifier sees it only through
/// [`color_mask_bits`].
#[verifier::external_type_specification]
#[verifier::external_body]
pub struct ExColorMask(ColorMask);

/// `gfx_core::state::Blend`: one blend channel for colour and one for alpha.
#[verifier::external_type_specification]
pub struct ExBlend(Blend);

/// `gfx_core::state::BlendChannel`: an equation and its two factors.
#[verifier::external_type_specification]
pub struct ExBlendChannel(BlendChannel);

/// `gfx_core::state::Equation`.
#[verifier::external_type_specification]
pub struct ExEquation(Equation);

/// `gfx_core::state::Factor`.
#[verifier::external_type_specification]
pub struct ExFactor(Factor);

/// `gfx_core::state::BlendValue`.
#[verifier::external_type_specification]
pub struct ExBlendValue(BlendValue);

/// The flag bits of a colour mask, as `ColorMask::bits` returns them:
/// red is `0x1`, green `0x2`, blue `0x4`, alpha `0x8`.
pub uninterp spec fn color_mask_bits(mask: ColorMask) -> u8;

/// The bits of a mask that holds all four channels.
pub const ALL_CHANNELS: u8 = 0x0F;

/// `ColorMask::all()` returns the mask with every declared flag set. The
/// type declares the four flags `0x1`, `0x2`, `0x4` and `0x8`.
pub assume_specification[ ColorMask::all ]() -> (mask: ColorMask)
    ensures
        color_mask_bits(mask) == ALL_CHANNELS,
;

/// The value of the preset `gfx::preset::blend::ALPHA`: colour is the source
/// weighted by its alpha plus the destination weighted by one minus the
/// source alpha; alpha is the sum of both alphas.
pub open spec fn alpha_blend_value() -> Blend {
    Blend {
        color: BlendChannel {
            equation: Equation::Add,
            source: Factor::ZeroPlus(BlendValue::SourceAlpha),
            destination: Factor::OneMinus(BlendValue::SourceAlpha),
        },
        alpha: BlendChannel {
            equation: Equation::Add,
            source: Factor::One,
            destination: Factor::One,
        },
    }
}

/// Reads the constant `gfx::preset::blend::ALPHA`. The contract repeats the
/// fields the constant is declared with.
#[verifier::external_body]
pub(crate) fn alpha_blend() -> (blend: Blend)
    ensures
        blend == alpha_blend_value(),
{
    gfx::preset::blend::ALPHA
}

} // verus!
