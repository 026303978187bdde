//! The options of a batch and the checks made before it starts.
use vstd::prelude::*;

use crate::text::{contains, contains_text, lowers_to, lowers_to_text};

verus! {

/// How many times larger the output is, on each side.
#[derive(Clone, Copy, Debug, PartialEq, Eq)]
pub enum UpscaleRatio {
    One,
    Two,
    Three,
    Four,
}

impl UpscaleRatio {
    pub open spec fn spec_factor(&self) -> u32 {
        match self {
            UpscaleRatio::One => 1,
            UpscaleRatio::Two => 2,
            UpscaleRatio::Three => 3,
            UpscaleRatio::Four => 4,
        }
    }

    pub fn factor(&self) -> (f: u32)
        ensures
            f == self.spec_factor(),
    {
        match self {
            UpscaleRatio::One => 1,
            UpscaleRatio::Two => 2,
            UpscaleRatio::Three => 3,
            UpscaleRatio::Four => 4,
        }
    }
}

impl Default for UpscaleRatio {
    fn default() -> (r: Self)
        ensures
            r == UpscaleRatio::Four,
    {
        UpscaleRatio::Four
    }
}

/// The image format of the output files.
#[derive(Clone, Copy, Debug, PartialEq, Eq)]
pub enum Format {
    Png,
    Jpg,
    Webp,
}

impl Format {
    pub open spec fn spec_extension(&self) -> Seq<char> {
        match self {
            Format::Png => "png"@,
            Format::Jpg => "jpg"@,
            Format::Webp => "webp"@,
        }
    }

    /// The file extension given to output files of this format.
    pub fn extension(&self) -> (ext: &'static str)
        ensures
            ext@ == self.spec_extension(),
    {
        match self {
            Format::Png => "png",
            Format::Jpg => "jpg",
            Format::Webp => "webp",
        }
    }
}

impl Default for Format {
    fn default() -> (r: Self)
        ensures
            r == Format::Png,
    {
        Format::Png
    }
}

/// The model used when none is named.
pub const DEFAULT_MODEL_NAME: &'static str = "realesrgan-x4plus-anime";

pub open spec fn effective_model(name: Seq<char>) -> Seq<char> {
    if name.len() == 0 {
        DEFAULT_MODEL_NAME@
    } else {
        name
    }
}

/// The model a batch runs with: the one named, or the default.
pub fn effective_model_name<'a>(name: &'a str) -> (model: &'a str)
    ensures
        model@ == effective_model(name@),
{
    if name.is_empty() {
        DEFAULT_MODEL_NAME
    } else {
        name
    }
}

/// How the chosen ratio suits the chosen model.
#[derive(Clone, Copy, Debug, PartialEq, Eq)]
pub enum ModelFit {
    /// Nothing to object to.
    Fine,
    /// A ratio of one asks for no upscaling at all; the batch is refused.
    NoUpscale,
    /// A four-times model at a smaller ratio may distort the output; the
    /// user is asked whether to go on.
    MaybeIncompatible,
}

pub open spec fn four_times_family() -> Seq<char> {
    "realesrgan-x4plus"@
}

pub open spec fn model_fit(ratio: UpscaleRatio, model_name: Seq<char>) -> ModelFit {
    if ratio is One {
        ModelFit::NoUpscale
    } else if ratio.spec_factor() < 4 && contains_text(
        effective_model(model_name),
        four_times_family(),
    ) {
        ModelFit::MaybeIncompatible
    } else {
        ModelFit::Fine
    }
}

/// Checks the ratio against the model before a batch starts.
pub fn check_upscale_settings(ratio: UpscaleRatio, model_name: &str) -> (fit: ModelFit)
    ensures
        fit == model_fit(ratio, model_name@),
{
    if ratio.factor() == 1 {
        return ModelFit::NoUpscale;
    }
    let model = effective_model_name(model_name);
    if ratio.factor() < 4 && contains(model, "realesrgan-x4plus") {
        ModelFit::MaybeIncompatible
    } else {
        ModelFit::Fine
    }
}

/// Whether a file extension names an image the upscaler reads: png, jpg,
/// jpeg or webp, in any ASCII case.
pub open spec fn is_supported_extension(ext: Seq<char>) -> bool {
    lowers_to(ext, "png"@) || lowers_to(ext, "jpg"@) || lowers_to(ext, "jpeg"@) || lowers_to(
        ext,
        "webp"@,
    )
}

pub fn is_supported_image_extension(ext: &str) -> (r: bool)
    ensures
        r == is_supported_extension(ext@),
{
    lowers_to_text(ext, "png") || lowers_to_text(ext, "jpg") || lowers_to_text(ext, "jpeg")
        || lowers_to_text(ext, "webp")
}

} // verus!
