use vstd::prelude::*;

verus! {

/// A VST3 plugin category. Every plugin should have at least one of the main
/// categories `Fx`, `Instrument` and `Spatial`.
#[derive(Debug, Clone, Copy, PartialEq, Eq)]
pub enum Vst3SubCategory {
    // Main categories.
    Fx,
    Instrument,
    Spatial,
    // Optional categories.
    Analyzer,
    Delay,
    Distortion,
    Drum,
    Dynamics,
    Eq,
    External,
    Filter,
    Generator,
    Mastering,
    Modulation,
    Network,
    Piano,
    PitchShift,
    Restoration,
    Reverb,
    Sampler,
    Synth,
    Tools,
    UpDownmix,
    // For plugins that support only this channel configuration.
    Mono,
    Stereo,
    Surround,
    Ambisonics,
    /// A category that is not predefined. Hosts may list it among their
    /// categories. It should not contain a `|`.
    Custom(&'static str),
}

/// The text of a category.
pub open spec fn subcategory_text(c: Vst3SubCategory) -> Seq<char> {
    match c {
        Vst3SubCategory::Fx => "Fx"@,
        Vst3SubCategory::Instrument => "Instrument"@,
        Vst3SubCategory::Spatial => "Spatial"@,
        Vst3SubCategory::Analyzer => "Analyzer"@,
        Vst3SubCategory::Delay => "Delay"@,
        Vst3SubCategory::Distortion => "Distortion"@,
        Vst3SubCategory::Drum => "Drum"@,
        Vst3SubCategory::Dynamics => "Dynamics"@,
        Vst3SubCategory::Eq => "EQ"@,
        Vst3SubCategory::External => "External"@,
        Vst3SubCategory::Filter => "Filter"@,
        Vst3SubCategory::Generator => "Generator"@,
        Vst3SubCategory::Mastering => "Mastering"@,
        Vst3SubCategory::Modulation => "Modulation"@,
        Vst3SubCategory::Network => "Network"@,
        Vst3SubCategory::Piano => "Piano"@,
        Vst3SubCategory::PitchShift => "Pitch Shift"@,
        Vst3SubCategory::Restoration => "Restoration"@,
        Vst3SubCategory::Reverb => "Reverb"@,
        Vst3SubCategory::Sampler => "Sampler"@,
        Vst3SubCategory::Synth => "Synth"@,
        Vst3SubCategory::Tools => "Tools"@,
        Vst3SubCategory::UpDownmix => "Up-Downmix"@,
        Vst3SubCategory::Mono => "Mono"@,
        Vst3SubCategory::Stereo => "Stereo"@,
        Vst3SubCategory::Surround => "Surround"@,
        Vst3SubCategory::Ambisonics => "Ambisonics"@,
        Vst3SubCategory::Custom(s) => s@,
    }
}

impl Vst3SubCategory {
    /// The text by which the category is reported to the host.
    pub fn as_str(&self) -> (r: &'static str)
        ensures
            r@ == subcategory_text(*self),
    {
        match self {
            Vst3SubCategory::Fx => "Fx",
            Vst3SubCategory::Instrument => "Instrument",
            Vst3SubCategory::Spatial => "Spatial",
            Vst3SubCategory::Analyzer => "Analyzer",
            Vst3SubCategory::Delay => "Delay",
            Vst3SubCategory::Distortion => "Distortion",
            Vst3SubCategory::Drum => "Drum",
            Vst3SubCategory::Dynamics => "Dynamics",
            Vst3SubCategory::Eq => "EQ",
            Vst3SubCategory::External => "External",
            Vst3SubCategory::Filter => "Filter",
            Vst3SubCategory::Generator => "Generator",
            Vst3SubCategory::Mastering => "Mastering",
            Vst3SubCategory::Modulation => "Modulation",
            Vst3SubCategory::Network => "Network",
            Vst3SubCategory::Piano => "Piano",
            Vst3SubCategory::PitchShift => "Pitch Shift",
            Vst3SubCategory::Restoration => "Restoration",
            Vst3SubCategory::Reverb => "Reverb",
            Vst3SubCategory::Sampler => "Sampler",
            Vst3SubCategory::Synth => "Synth",
            Vst3SubCategory::Tools => "Tools",
            Vst3SubCategory::UpDownmix => "Up-Downmix",
            Vst3SubCategory::Mono => "Mono",
            Vst3SubCategory::Stereo => "Stereo",
            Vst3SubCategory::Surround => "Surround",
            Vst3SubCategory::Ambisonics => "Ambisonics",
            Vst3SubCategory::Custom(s) => s,
        }
    }
}

/// A class identifier with its first three fields, stored little-endian, put in
/// big-endian order, and back: the first four bytes reversed, then the next two
/// pairs of bytes swapped.
pub open spec fn swapped_uid(uid: [u8; 16]) -> Seq<u8> {
    seq![
        uid@[3], uid@[2], uid@[1], uid@[0],
        uid@[5], uid@[4], uid@[7], uid@[6],
    ] + uid@.subrange(8, 16)
}

/// The class identifier `uid` with the byte order of its first three fields
/// swapped, as the COM-style identifiers of one platform store them.
pub fn swap_vst3_uid_byte_order(uid: [u8; 16]) -> (r: [u8; 16])
    ensures
        r@ == swapped_uid(uid),
{
    let original_uid = uid;
    let mut uid = uid;
    uid[0] = original_uid[3];
    uid[1] = original_uid[2];
    uid[2] = original_uid[1];
    uid[3] = original_uid[0];

    uid[4] = original_uid[5];
    uid[5] = original_uid[4];
    uid[6] = original_uid[7];
    uid[7] = original_uid[6];
    assert(uid@ =~= swapped_uid(original_uid));
    uid
}

/// A plugin that can be exported in the VST3 format.
pub trait Vst3Plugin {
    /// The class identifier, in the big-endian order of the format.
    const VST3_CLASS_ID: [u8; 16];
    /// The categories the plugin is listed under.
    const VST3_SUB_CATEGORY: &'static [Vst3SubCategory];
}

} // verus!
