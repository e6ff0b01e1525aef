//! Persisted jig configuration, as the engine sees it: the last-used serial
//! port name and the polarity of the power control line.
//!
//! Reading and writing the configuration file is the front end's job; the
//! engine side only carries these plain values.

use vstd::prelude::*;

verus! {

/// The persisted key-value state of the test jig.
pub struct Config {
    /// Name of the last successfully opened serial port; empty when none was
    /// remembered yet.
    pub serial_port: String,
    /// Whether the power control line of this jig revision is inverted.
    pub invert_rts: bool,
}

impl Default for Config {
    /// A fresh configuration: no remembered port, regular line polarity.
    fn default() -> (c: Config)
        ensures
            c.serial_port@ == Seq::<char>::empty(),
            c.invert_rts == false,
    {
        Config { serial_port: String::new(), invert_rts: false }
    }
}

} // verus!
