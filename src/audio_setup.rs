use vstd::prelude::*;

use crate::buffer::Buffer;
use crate::decimal::{decimal, push_decimal};

verus! {

/// A channel count, never zero.
#[derive(Debug, Clone, Copy, PartialEq, Eq, Hash)]
pub struct NonZeroCount {
    value: u32,
}

impl NonZeroCount {
    #[verifier::type_invariant]
    spec fn inv(&self) -> bool {
        self.value != 0
    }

    /// The count held.
    pub closed spec fn spec_get(&self) -> u32 {
        self.value
    }

    /// A count holding `value`, or `None` when `value` is zero.
    pub fn new(value: u32) -> (r: Option<NonZeroCount>)
        ensures
            r is None <==> value == 0,
            r is Some ==> r->Some_0.spec_get() == value,
    {
        if value == 0 {
            None
        } else {
            Some(NonZeroCount { value })
        }
    }

    /// The count held, which is never zero.
    pub fn get(&self) -> (r: u32)
        ensures
            r == self.spec_get(),
            r != 0,
    {
        proof {
            use_type_invariant(self);
        }
        self.value
    }
}

/// A non-zero integer holding `value`, which must not be zero.
pub fn new_nonzero_u32(value: u32) -> (r: NonZeroCount)
    requires
        value != 0,
    ensures
        r.spec_get() == value,
{
    NonZeroCount { value }
}

/// Optional names for a layout and its ports. Names left out are generated.
#[derive(Debug, Default, Clone, Copy, PartialEq, Eq, Hash)]
pub struct PortNames {
    /// The name of the layout as a whole.
    pub layout: Option<&'static str>,
    /// The name of the main input port.
    pub main_input: Option<&'static str>,
    /// The name of the main output port.
    pub main_output: Option<&'static str>,
    /// The names of the auxiliary side-chain input ports, by index.
    pub aux_inputs: &'static [&'static str],
    /// The names of the auxiliary side-chain output ports, by index.
    pub aux_outputs: &'static [&'static str],
}

impl PortNames {
    /// Names with nothing provided.
    pub fn const_default() -> (r: Self)
        ensures
            r.layout is None,
            r.main_input is None,
            r.main_output is None,
            r.aux_inputs@.len() == 0,
            r.aux_outputs@.len() == 0,
    {
        PortNames {
            layout: None,
            main_input: None,
            main_output: None,
            aux_inputs: &[],
            aux_outputs: &[],
        }
    }
}

/// The buffers of the auxiliary side-chain ports for one block. Their data may
/// be overwritten.
pub struct AuxiliaryBuffers<'a, T> {
    /// One buffer per auxiliary input port.
    pub inputs: &'a mut [Buffer<T>],
    /// One buffer per auxiliary output port.
    pub outputs: &'a mut [Buffer<T>],
}

/// How the host paces processing.
#[derive(Debug, Clone, Copy, PartialEq, Eq)]
pub enum ProcessMode {
    /// At a fixed rate, in real time.
    RealTime,
    /// At real-time pace, but at irregular intervals.
    Buffered,
    /// As fast as possible, with no real-time constraint.
    Offline,
}

/// A channel configuration a plugin supports: its main ports, its auxiliary
/// side-chain ports and their names.
#[derive(Debug, Default, Clone, Copy, PartialEq, Eq, Hash)]
pub struct AudioIOLayout {
    /// The number of main input channels, if there is a main input.
    pub main_input_channels: Option<NonZeroCount>,
    /// The number of main output channels, if there is a main output.
    pub main_output_channels: Option<NonZeroCount>,
    /// The channel count of each auxiliary side-chain input.
    pub aux_input_ports: &'static [NonZeroCount],
    /// The channel count of each auxiliary side-chain output.
    pub aux_output_ports: &'static [NonZeroCount],
    /// Names for the layout and its ports.
    pub names: PortNames,
}

/// A channel count, with zero for an absent port.
pub open spec fn channels_of(c: Option<NonZeroCount>) -> nat {
    match c {
        Some(v) => v.spec_get() as nat,
        None => 0,
    }
}

/// The generated name of a layout with `i` main inputs, `o` main outputs, `ai`
/// auxiliary inputs and `ao` auxiliary outputs.
pub open spec fn generated_layout_name(i: nat, o: nat, ai: nat, ao: nat) -> Seq<char> {
    if i == 0 && o == 0 && ai == 0 && ao == 0 {
        "Empty"@
    } else if (o == 1 && ai == 0) || (i == 1 && o == 0) {
        "Mono"@
    } else if (o == 2 && ai == 0) || (i == 2 && o == 0) {
        " Stereo"@
    } else if o == 1 {
        "Mono with Side-chain"@
    } else if o == 2 {
        "Stereo with Side-chain"@
    } else if ai == 0 && ao == 0 {
        decimal(i) + " inputs, "@ + decimal(o) + " outputs"@
    } else if ao == 0 {
        decimal(i) + " inputs, "@ + decimal(o) + " outputs with Side-chain"@
    } else if ai == 0 {
        decimal(i) + " inputs, "@ + decimal(o) + "*"@ + decimal(ao + 1) + " outputs"@
    } else {
        decimal(i) + "*"@ + decimal(ai + 1) + " inputs, "@ + decimal(o) + "*"@ + decimal(ao + 1)
            + " outputs"@
    }
}

/// The name of an auxiliary port at `idx`: the provided name, else `base`
/// alone when it is the only port, else `base` and its position counted from one.
pub open spec fn aux_port_name(
    ports: nat,
    names: Seq<&'static str>,
    idx: nat,
    base: Seq<char>,
) -> Option<Seq<char>> {
    if idx >= ports {
        None
    } else if idx < names.len() {
        Some(names[idx as int]@)
    } else if ports == 1 {
        Some(base)
    } else {
        Some(base + " "@ + decimal(idx + 1))
    }
}

/// The view of an optional string.
pub open spec fn opt_view(s: Option<String>) -> Option<Seq<char>> {
    match s {
        Some(t) => Some(t@),
        None => None,
    }
}

impl AudioIOLayout {
    /// A layout with no ports and no names.
    pub fn const_default() -> (r: Self)
        ensures
            r.main_input_channels is None,
            r.main_output_channels is None,
            r.aux_input_ports@.len() == 0,
            r.aux_output_ports@.len() == 0,
            r.names.layout is None,
            r.names.main_input is None,
            r.names.main_output is None,
            r.names.aux_inputs@.len() == 0,
            r.names.aux_outputs@.len() == 0,
    {
        AudioIOLayout {
            main_input_channels: None,
            main_output_channels: None,
            aux_input_ports: &[],
            aux_output_ports: &[],
            names: PortNames::const_default(),
        }
    }

    /// The name of the layout as the contracts state it.
    pub open spec fn spec_name(&self) -> Seq<char> {
        match self.names.layout {
            Some(n) => n@,
            None => generated_layout_name(
                channels_of(self.main_input_channels),
                channels_of(self.main_output_channels),
                self.aux_input_ports@.len(),
                self.aux_output_ports@.len(),
            ),
        }
    }

    /// The name of the layout: the provided one, else one generated from the
    /// channel counts and the numbers of auxiliary ports.
    pub fn name(&self) -> (r: String)
        ensures
            r@ == self.spec_name(),
    {
        if let Some(name) = self.names.layout {
            return name.to_owned();
        }
        let i = match self.main_input_channels {
            Some(v) => v.get(),
            None => 0,
        };
        let o = match self.main_output_channels {
            Some(v) => v.get(),
            None => 0,
        };
        let ai = self.aux_input_ports.len();
        let ao = self.aux_output_ports.len();
        if i == 0 && o == 0 && ai == 0 && ao == 0 {
            "Empty".to_owned()
        } else if (o == 1 && ai == 0) || (i == 1 && o == 0) {
            "Mono".to_owned()
        } else if (o == 2 && ai == 0) || (i == 2 && o == 0) {
            " Stereo".to_owned()
        } else if o == 1 {
            "Mono with Side-chain".to_owned()
        } else if o == 2 {
            "Stereo with Side-chain".to_owned()
        } else {
            let mut s = String::new();
            push_decimal(&mut s, i as u128);
            if ai != 0 && ao != 0 {
                s.append("*");
                push_decimal(&mut s, ai as u128 + 1);
            }
            s.append(" inputs, ");
            push_decimal(&mut s, o as u128);
            if ao != 0 {
                s.append("*");
                push_decimal(&mut s, ao as u128 + 1);
                s.append(" outputs");
            } else if ai != 0 {
                s.append(" outputs with Side-chain");
            } else {
                s.append(" outputs");
            }
            proof {
                let g = generated_layout_name(i as nat, o as nat, ai as nat, ao as nat);
                assert(s@ =~= g);
            }
            s
        }
    }

    /// The name of the main input port: the provided one, else `Input`.
    pub fn main_input_name(&self) -> (r: String)
        ensures
            r@ == match self.names.main_input {
                Some(n) => n@,
                None => "Input"@,
            },
    {
        match self.names.main_input {
            Some(n) => n.to_owned(),
            None => "Input".to_owned(),
        }
    }

    /// The name of the main output port: the provided one, else `Output`.
    pub fn main_output_name(&self) -> (r: String)
        ensures
            r@ == match self.names.main_output {
                Some(n) => n@,
                None => "Output"@,
            },
    {
        match self.names.main_output {
            Some(n) => n.to_owned(),
            None => "Output".to_owned(),
        }
    }

    /// The name of the auxiliary input port at `idx`, or `None` past the last port.
    pub fn aux_input_name(&self, idx: usize) -> (r: Option<String>)
        ensures
            opt_view(r) == aux_port_name(
                self.aux_input_ports@.len(),
                self.names.aux_inputs@,
                idx as nat,
                "Side-chain input"@,
            ),
    {
        port_name(self.aux_input_ports.len(), self.names.aux_inputs, idx, "Side-chain input")
    }

    /// The name of the auxiliary output port at `idx`, or `None` past the last port.
    pub fn aux_output_name(&self, idx: usize) -> (r: Option<String>)
        ensures
            opt_view(r) == aux_port_name(
                self.aux_output_ports@.len(),
                self.names.aux_outputs@,
                idx as nat,
                "Auxiliary output"@,
            ),
    {
        port_name(self.aux_output_ports.len(), self.names.aux_outputs, idx, "Auxiliary output")
    }
}

fn port_name(ports: usize, names: &'static [&'static str], idx: usize, base: &str) -> (r: Option<
    String,
>)
    ensures
        opt_view(r) == aux_port_name(ports as nat, names@, idx as nat, base@),
{
    if idx >= ports {
        None
    } else if idx < names.len() {
        Some(names[idx].to_owned())
    } else if ports == 1 {
        Some(base.to_owned())
    } else {
        let mut s = base.to_owned();
        s.append(" ");
        push_decimal(&mut s, idx as u128 + 1);
        Some(s)
    }
}

} // verus!
