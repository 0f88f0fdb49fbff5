//! Small USB controllers driven by polled registers: what their bring-up
//! writes, and what each status they report asks for. The register reads
//! and writes themselves are made by the caller.
pub mod loongarch;
pub mod powerpc;
pub mod sparc;
