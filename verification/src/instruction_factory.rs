//! Table construction for a named CPU model. Only the `LR35902` model
//! exists; asking for any other model is a fatal configuration error, which
//! callers must rule out before asking.

use vstd::prelude::*;

pub use crate::instruction_impl::InstructionImpl;
use crate::lr35902_instructions_impl::{
    is_lr35902_cb_table, is_lr35902_main_table, load_lr35902_instructions,
};

verus! {

/// Builds the instruction tables for the CPU model named by `cpu_type`.
#[allow(unused_variables)]
pub fn load_instructions(cpu_type: String) -> (r: (
    Vec<Option<InstructionImpl>>,
    Vec<Option<InstructionImpl>>,
))
    requires
        cpu_type@ == "LR35902"@,
    ensures
        is_lr35902_main_table(r.0@),
        is_lr35902_cb_table(r.1@),
{
    load_lr35902_instructions()
}

} // verus!
