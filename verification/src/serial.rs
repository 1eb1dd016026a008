//! The serial structure that the driver hands out and takes back.

use crate::flags::{is_low_latency, update_flags, updated_flags, UpdateAction};
use vstd::prelude::*;

verus! {

/// The fields of the kernel's `serial_struct`, each as a plain integer. The
/// toggle reads and rewrites `flags`; it carries every other field from the
/// read to the write as it came.
#[derive(Clone, Copy, Debug, PartialEq, Eq)]
pub struct SerialStruct {
    pub type_: i32,
    pub line: i32,
    pub port: u32,
    pub irq: i32,
    pub flags: i32,
    pub xmit_fifo_size: i32,
    pub custom_divisor: i32,
    pub baud_base: i32,
    pub close_delay: u16,
    pub io_type: u8,
    pub reserved_char: u8,
    pub hub6: i32,
    pub closing_wait: u16,
    pub closing_wait2: u16,
    /// Address held in the structure's `iomem_base` pointer.
    pub iomem_base: u64,
    pub iomem_reg_shift: u16,
    pub port_high: u32,
    pub iomap_base: u64,
}

impl SerialStruct {
    /// Whether the structure asks for low latency.
    pub open spec fn low_latency(self) -> bool {
        is_low_latency(self.flags)
    }

    /// The structure after `action`: the same fields, with the low-latency bit
    /// of `flags` set or cleared.
    pub open spec fn updated(self, action: UpdateAction) -> SerialStruct {
        SerialStruct { flags: updated_flags(self.flags, action), ..self }
    }

    /// A structure with every field zero.
    pub fn zeroed() -> (zeroed: SerialStruct)
        ensures
            zeroed == (SerialStruct {
                type_: 0,
                line: 0,
                port: 0,
                irq: 0,
                flags: 0,
                xmit_fifo_size: 0,
                custom_divisor: 0,
                baud_base: 0,
                close_delay: 0,
                io_type: 0,
                reserved_char: 0,
                hub6: 0,
                closing_wait: 0,
                closing_wait2: 0,
                iomem_base: 0,
                iomem_reg_shift: 0,
                port_high: 0,
                iomap_base: 0,
            }),
    {
        SerialStruct {
            type_: 0,
            line: 0,
            port: 0,
            irq: 0,
            flags: 0,
            xmit_fifo_size: 0,
            custom_divisor: 0,
            baud_base: 0,
            close_delay: 0,
            io_type: 0,
            reserved_char: 0,
            hub6: 0,
            closing_wait: 0,
            closing_wait2: 0,
            iomem_base: 0,
            iomem_reg_shift: 0,
            port_high: 0,
            iomap_base: 0,
        }
    }

    /// Sets or clears the low-latency bit and changes nothing else.
    pub fn update(self, action: UpdateAction) -> (updated: SerialStruct)
        ensures
            updated == self.updated(action),
            updated.low_latency() == (action is Enable),
    {
        SerialStruct { flags: update_flags(self.flags, action), ..self }
    }
}

} // verus!
