//! Exception reporting for each supported architecture: the cause codes a
//! trap reports, what each cause is called, the saved context, and the
//! bytes a console line sends to the UART.
pub mod arm;
pub mod loongarch;
pub mod powerpc;
pub mod sparc;
pub mod x86;

use vstd::prelude::*;
use vstd::string::StringSliceAdditionalSpecFns;

verus! {

/// The bytes a console line sends: the text's UTF-8 bytes, then a newline.
pub fn println(s: &str) -> (r: Vec<u8>)
    ensures
        r@ == s.spec_bytes().push(0x0Au8),
{
    let bytes = s.as_bytes();
    let mut r: Vec<u8> = Vec::new();
    let mut i: usize = 0;
    while i < bytes.len()
        invariant
            i <= bytes@.len(),
            bytes@ == s.spec_bytes(),
            r@ == bytes@.subrange(0, i as int),
        decreases bytes@.len() - i,
    {
        r.push(bytes[i]);
        i = i + 1;
    }
    r.push(0x0A);
    assert(bytes@.subrange(0, bytes@.len() as int) =~= bytes@);
    r
}

} // verus!
