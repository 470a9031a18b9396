//! The public quality knob and what each backend makes of it.
//!
//! Callers give one optional number from 0 to 100. A higher number asks for
//! more compression, not for more fidelity: the PDF rewriter gets a preset
//! chosen by band, the JPEG encoder gets the number subtracted from 100, and
//! the PNG encoder does not look at it.

use vstd::prelude::*;

verus! {

/// The quality that applies to JPEG where the caller gives none.
pub const DEFAULT_QUALITY: u8 = 70;

/// The upper end of the quality scale.
pub const MAX_QUALITY: u8 = 100;

/// A named bundle of settings of the PDF rewriter.
#[derive(Clone, Copy, Debug, PartialEq, Eq, Structural)]
pub enum PdfPreset {
    /// The rewriter's balanced settings.
    Default,
    /// Highest fidelity, largest output.
    Prepress,
    /// High fidelity, smaller output.
    Printer,
    /// Medium fidelity.
    Ebook,
    /// Lowest fidelity, smallest output.
    Screen,
}

/// The qualities that belong to a preset.
///
/// No quality and quality 0 belong to the balanced preset. From 1 upwards the
/// bands are 1 to 25, 26 to 50, 51 to 75 and everything above 75, in falling
/// fidelity: the top of the scale asks for the smallest output.
pub open spec fn in_band(preset: PdfPreset, quality: Option<u8>) -> bool {
    match preset {
        PdfPreset::Default => quality is None || quality == Some(0u8),
        PdfPreset::Prepress => quality is Some && 0 < quality->0 <= 25,
        PdfPreset::Printer => quality is Some && 25 < quality->0 <= 50,
        PdfPreset::Ebook => quality is Some && 50 < quality->0 <= 75,
        PdfPreset::Screen => quality is Some && 75 < quality->0,
    }
}

/// The preset that a quality selects.
pub open spec fn preset_for(quality: Option<u8>) -> PdfPreset {
    match quality {
        None => PdfPreset::Default,
        Some(q) => if q == 0 {
            PdfPreset::Default
        } else if q <= 25 {
            PdfPreset::Prepress
        } else if q <= 50 {
            PdfPreset::Printer
        } else if q <= 75 {
            PdfPreset::Ebook
        } else {
            PdfPreset::Screen
        },
    }
}

/// The place of a banded preset in the order of fidelity, 0 being the lowest.
/// The balanced preset belongs to no band and has no place.
pub open spec fn fidelity(preset: PdfPreset) -> Option<nat> {
    match preset {
        PdfPreset::Default => None,
        PdfPreset::Prepress => Some(3nat),
        PdfPreset::Printer => Some(2nat),
        PdfPreset::Ebook => Some(1nat),
        PdfPreset::Screen => Some(0nat),
    }
}

/// The value of the rewriter's settings argument for a preset.
pub open spec fn setting_name(preset: PdfPreset) -> Seq<char> {
    match preset {
        PdfPreset::Default => "/default"@,
        PdfPreset::Prepress => "/prepress"@,
        PdfPreset::Printer => "/printer"@,
        PdfPreset::Ebook => "/ebook"@,
        PdfPreset::Screen => "/screen"@,
    }
}

/// The quality that the JPEG encoder is given: the requested quality, capped
/// at the top of the scale, subtracted from 100.
pub open spec fn encoder_quality_for(quality: Option<u8>) -> int {
    let requested = match quality {
        Some(q) => q,
        None => DEFAULT_QUALITY,
    };
    100 - vstd::math::min(requested as int, 100)
}

/// Chooses the PDF preset for a quality.
pub fn pdf_preset(quality: Option<u8>) -> (preset: PdfPreset)
    ensures
        preset == preset_for(quality),
{
    match quality {
        None => PdfPreset::Default,
        Some(q) => {
            if q == 0 {
                PdfPreset::Default
            } else if q <= 25 {
                PdfPreset::Prepress
            } else if q <= 50 {
                PdfPreset::Printer
            } else if q <= 75 {
                PdfPreset::Ebook
            } else {
                PdfPreset::Screen
            }
        },
    }
}

impl PdfPreset {
    /// The value of the rewriter's settings argument for this preset.
    pub fn setting(&self) -> (name: &'static str)
        ensures
            name@ == setting_name(*self),
    {
        match self {
            PdfPreset::Default => "/default",
            PdfPreset::Prepress => "/prepress",
            PdfPreset::Printer => "/printer",
            PdfPreset::Ebook => "/ebook",
            PdfPreset::Screen => "/screen",
        }
    }
}

/// Computes the quality for the JPEG encoder. Out of range requests count as
/// 100; nothing wraps.
pub fn jpeg_encoder_quality(quality: Option<u8>) -> (encoder_quality: u8)
    ensures
        encoder_quality == encoder_quality_for(quality),
        encoder_quality <= MAX_QUALITY,
{
    let requested = match quality {
        Some(q) => q,
        None => DEFAULT_QUALITY,
    };
    if requested > MAX_QUALITY {
        0
    } else {
        MAX_QUALITY - requested
    }
}

/// The bands divide all qualities among the presets: a quality lies in the
/// band of the preset that it selects, and in no other.
pub proof fn lemma_bands_partition(quality: Option<u8>, preset: PdfPreset)
    ensures
        in_band(preset, quality) <==> preset_for(quality) == preset,
{
}

/// Quality 0 selects what no quality selects.
pub proof fn lemma_zero_is_default()
    ensures
        preset_for(Some(0u8)) == preset_for(None),
        preset_for(None) == PdfPreset::Default,
{
}

/// Every quality above 75 selects the preset of lowest fidelity, out of range
/// values included.
pub proof fn lemma_top_band_is_lowest(quality: u8, other: PdfPreset)
    requires
        quality > 75,
    ensures
        preset_for(Some(quality)) == PdfPreset::Screen,
        fidelity(other) is Some ==> fidelity(PdfPreset::Screen)->0 <= fidelity(other)->0,
{
}

/// From 1 upwards a higher quality never selects a preset of higher fidelity.
pub proof fn lemma_fidelity_falls(lower: u8, higher: u8)
    requires
        0 < lower <= higher,
    ensures
        fidelity(preset_for(Some(lower))) is Some,
        fidelity(preset_for(Some(higher))) is Some,
        fidelity(preset_for(Some(lower)))->0 >= fidelity(preset_for(Some(higher)))->0,
{
}

/// The JPEG encoder quality stays on the scale, falls as the request rises,
/// and is `100 - quality` for every request on the scale.
pub proof fn lemma_encoder_quality(lower: u8, higher: u8)
    requires
        lower <= higher,
    ensures
        0 <= encoder_quality_for(Some(higher)) <= encoder_quality_for(Some(lower)) <= 100,
        lower <= 100 ==> encoder_quality_for(Some(lower)) == 100 - lower,
        encoder_quality_for(None) == 100 - DEFAULT_QUALITY,
{
}

} // verus!
