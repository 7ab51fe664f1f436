//! Register state saved in a macOS signal context, in the layout the kernel writes it.
use vstd::prelude::*;

verus! {

/// The exception state of an x86-64 thread.
#[allow(non_camel_case_types)]
#[derive(Clone, Copy, Debug)]
pub struct x86_exception_state64 {
    pub trapno: u16,
    pub cpu: u16,
    pub err: u32,
    pub faultvaddr: u64,
}

/// The general-purpose registers of an x86-64 thread.
#[allow(non_camel_case_types)]
#[derive(Clone, Copy, Debug)]
pub struct x86_thread_state64 {
    pub rax: u64,
    pub rbx: u64,
    pub rcx: u64,
    pub rdx: u64,
    pub rdi: u64,
    pub rsi: u64,
    pub rbp: u64,
    pub rsp: u64,
    pub r8: u64,
    pub r9: u64,
    pub r10: u64,
    pub r11: u64,
    pub r12: u64,
    pub r13: u64,
    pub r14: u64,
    pub r15: u64,
    pub rip: u64,
    pub rflags: u64,
    pub cs: u64,
    pub fs: u64,
    pub gs: u64,
}

/// An x87 or MMX register, with its reserved padding.
#[allow(non_camel_case_types)]
#[derive(Clone, Copy, Debug)]
pub struct mmst_reg {
    pub mmst_reg: [u8; 10],
    pub rsrv: [u8; 6],
}

/// An SSE register.
#[allow(non_camel_case_types)]
#[derive(Clone, Copy, Debug)]
pub struct xmm_reg([u8; 16]);

} // verus!
