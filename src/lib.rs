//! RISC-V register values and a recursively mapped two-level (Sv32) page table.
pub mod addr;
pub mod frame_alloc;
pub mod lemmas;
pub mod memory;
pub mod mip;
pub mod mtvec;
pub mod page_table;
pub mod recursive;
