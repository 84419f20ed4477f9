//! The serial line, as the stream of bytes handed to it.
//!
//! The real line is two fixed ports: a status port polled until the
//! transmitter is ready, and a data port the byte is written to.  Those two
//! port operations are the unverified front end's; here the line is the
//! sequence of bytes sent so far, and writing appends to it.

use vstd::prelude::*;

use vstd::string::StringSliceAdditionalSpecFns;

verus! {

/// The serial line: every byte handed to it, in order.
pub struct SerialPort {
    pub written: Vec<u8>,
}

impl SerialPort {
    /// A line that has sent nothing yet.
    pub fn new() -> (r: Self)
        ensures
            r.written@.len() == 0,
    {
        Self { written: Vec::new() }
    }
}

/// Sends one byte: it follows everything sent before.
pub fn serial_write_byte(port: &mut SerialPort, byte: u8)
    ensures
        final(port).written@ == old(port).written@.push(byte),
{
    port.written.push(byte);
}

/// Sends a string: its bytes follow everything sent before, in order.
#[verifier::loop_isolation(false)]
pub fn serial_write_str(port: &mut SerialPort, s: &str)
    ensures
        final(port).written@ == old(port).written@ + s.spec_bytes(),
{
    let bytes: &[u8] = s.as_bytes();
    let n: usize = bytes.len();
    let mut i: usize = 0;
    while i < n
        invariant
            0 <= i <= n,
            port.written@ == old(port).written@ + s.spec_bytes().take(i as int),
        decreases n - i,
    {
        let b = *vstd::slice::slice_index_get(bytes, i);
        serial_write_byte(port, b);
        proof {
            assert(port.written@ =~= old(port).written@ + s.spec_bytes().take(i + 1));
        }
        i += 1;
    }
    proof {
        assert(old(port).written@ + s.spec_bytes().take(n as int) =~= old(port).written@
            + s.spec_bytes());
    }
}

} // verus!
