//! Plain-value mirrors of the kernel records that a module object carries.
//! Addresses are held as `u64`, zero standing for a null pointer.
#![allow(non_camel_case_types)]
use vstd::prelude::*;

verus! {

/// A node of a doubly linked list.
#[derive(Debug, Clone, Copy, PartialEq, Eq, Structural)]
pub struct list_head {
    pub next: u64,
    pub prev: u64,
}

impl Default for list_head {
    fn default() -> (r: Self)
        ensures
            r.next == 0 && r.prev == 0,
    {
        list_head { next: 0, prev: 0 }
    }
}

#[derive(Debug, Clone, Copy, PartialEq, Eq, Structural)]
pub struct atomic_t {
    pub counter: i32,
}

#[derive(Debug, Clone, Copy, PartialEq, Eq, Structural)]
pub struct atomic64_t {
    pub counter: i64,
}

#[derive(Debug, Clone, Copy, PartialEq, Eq, Structural)]
pub struct refcount_struct {
    pub refs: atomic_t,
}

#[derive(Debug, Clone, Copy, PartialEq, Eq, Structural)]
pub struct kref {
    pub refcount: refcount_struct,
}

#[derive(Debug, Clone, Copy, PartialEq, Eq, Structural)]
pub struct optimistic_spin_queue {
    pub tail: atomic_t,
}

#[derive(Debug, Clone, Copy, PartialEq, Eq, Structural)]
pub struct qspinlock__bindgen_ty_1__bindgen_ty_1 {
    pub locked: u8,
    pub pending: u8,
}

#[derive(Debug, Clone, Copy, PartialEq, Eq, Structural)]
pub struct qspinlock__bindgen_ty_1__bindgen_ty_2 {
    pub locked_pending: u16,
    pub tail: u16,
}

/// A queued spinlock, by its 32-bit value.
#[derive(Debug, Clone, Copy, PartialEq, Eq, Structural)]
pub struct qspinlock {
    pub val: atomic_t,
}

#[derive(Debug, Clone, Copy, PartialEq, Eq, Structural)]
pub struct raw_spinlock {
    pub raw_lock: qspinlock,
}

#[derive(Debug, Clone, Copy, PartialEq, Eq, Structural)]
pub struct mutex {
    pub owner: atomic64_t,
    pub wait_lock: raw_spinlock,
    pub osq: optimistic_spin_queue,
    pub wait_list: list_head,
}

impl Default for mutex {
    fn default() -> (r: Self)
        ensures
            r.owner.counter == 0,
            r.wait_lock.raw_lock.val.counter == 0,
            r.osq.tail.counter == 0,
            r.wait_list.next == 0 && r.wait_list.prev == 0,
    {
        mutex {
            owner: atomic64_t { counter: 0 },
            wait_lock: raw_spinlock { raw_lock: qspinlock { val: atomic_t { counter: 0 } } },
            osq: optimistic_spin_queue { tail: atomic_t { counter: 0 } },
            wait_list: list_head::default(),
        }
    }
}

#[derive(Debug, Clone, Copy, PartialEq, Eq, Structural)]
pub struct module_param_attrs {
    pub _address: u8,
}

#[derive(Debug, Clone, Copy, PartialEq, Eq, Structural)]
pub struct kernel_symbol {
    pub _address: u8,
}

#[derive(Debug, Clone, Copy, PartialEq, Eq, Structural)]
pub struct module_sect_attrs {
    pub _address: u8,
}

#[derive(Debug, Clone, Copy, PartialEq, Eq, Structural)]
pub struct module_notes_attrs {
    pub _address: u8,
}

#[derive(Debug, Clone, Copy, PartialEq, Eq, Structural)]
pub struct trace_event_call {
    pub _address: u8,
}

#[derive(Debug, Clone, Copy, PartialEq, Eq, Structural)]
pub struct trace_eval_map {
    pub _address: u8,
}

#[derive(Debug, Clone, Copy, PartialEq, Eq, Structural)]
pub struct lockdep_map {}

#[derive(Debug, Clone, Copy, PartialEq, Eq, Structural)]
pub struct exception_table_entry {
    pub insn: i32,
    pub fixup: i32,
    pub data: i32,
}

#[derive(Debug, Clone, Copy, PartialEq, Eq, Structural)]
pub struct bug_entry {
    pub bug_addr_disp: i32,
    pub file_disp: i32,
    pub line: u16,
    pub flags: u16,
}

#[derive(Debug, Clone, Copy, PartialEq, Eq, Structural)]
pub struct jump_entry {
    pub code: i32,
    pub target: i32,
    pub key: i64,
}

#[derive(Debug, Clone, Copy, PartialEq, Eq, Structural)]
pub struct static_call_site {
    pub addr: i32,
    pub key: i32,
}

#[derive(Debug, Clone, Copy, PartialEq, Eq, Structural)]
pub struct rb_node {
    pub __rb_parent_color: u64,
    pub rb_right: u64,
    pub rb_left: u64,
}

/// The PLT bookkeeping of one AArch64 module region.
#[derive(Debug, Clone, Copy, PartialEq, Eq, Structural)]
pub struct mod_plt_sec {
    pub plt_shndx: i32,
    pub plt_num_entries: i32,
    pub plt_max_entries: i32,
}

/// The AArch64 part of a module record.
#[derive(Debug, Clone, Copy, PartialEq, Eq, Structural)]
pub struct mod_arch_specific {
    pub core: mod_plt_sec,
    pub init: mod_plt_sec,
    pub ftrace_trampolines: u64,
    pub init_ftrace_trampolines: u64,
}

/// The operations of a parameter type, as entry-point addresses.
#[derive(Debug, Clone, Copy, PartialEq, Eq, Structural)]
pub struct kernel_param_ops {
    pub flags: u32,
    pub set: u64,
    pub get: u64,
    pub free: u64,
}

#[derive(Debug, Clone, Copy, PartialEq, Eq, Structural)]
pub struct kparam_string {
    pub maxlen: u32,
    pub string: u64,
}

impl Default for kparam_string {
    fn default() -> (r: Self)
        ensures
            r.maxlen == 0 && r.string == 0,
    {
        kparam_string { maxlen: 0, string: 0 }
    }
}

#[derive(Debug, Clone, Copy, PartialEq, Eq, Structural)]
pub struct kparam_array {
    pub max: u32,
    pub elemsize: u32,
    pub num: u64,
    pub ops: u64,
    pub elem: u64,
}

/// A declared parameter as the module record lists it.
#[derive(Debug, Clone, Copy, PartialEq, Eq, Structural)]
pub struct kernel_param {
    pub name: u64,
    pub mod_: u64,
    pub ops: u64,
    pub perm: u16,
    pub level: i8,
    pub flags: u8,
    pub arg: u64,
}

} // verus!
