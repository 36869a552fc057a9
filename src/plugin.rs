use vstd::prelude::*;

verus! {

/// What a plugin reports after processing a block.
#[derive(Debug, Clone, Copy, PartialEq, Eq)]
pub enum ProcessStatus {
    /// The plugin met an error and should be deactivated.
    Error(&'static str),
    /// The block was processed. When the input is silent the host may suspend
    /// the plugin.
    Normal,
    /// The plugin has a tail of this many samples.
    Tail(u32),
    /// The plugin keeps producing sound whatever its input, and should not be
    /// deactivated.
    KeepAlive,
}

/// The MIDI support of a plugin.
#[derive(Debug, Clone, Copy, PartialEq, Eq)]
pub enum MidiConfig {
    /// No MIDI.
    NoMidi,
    /// Note on, off and choke messages, pressure, and a few other standard
    /// messages depending on the plugin format and the host.
    Basic,
    /// Everything in `Basic`, plus continuous controller messages and pitch bend.
    MidiCCs,
}

} // verus!
