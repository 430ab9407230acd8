//! Per-core integrated interrupt controller: a memory-mapped register block
//! at a fixed stride from a common base, used during the capture barrier to
//! unmask remote cores and to acknowledge and retire interrupts afterwards.
//!
//! The controller itself is hardware; this module computes register
//! addresses and values and models the priority register's content. The
//! caller performs the actual memory-mapped accesses.

use vstd::prelude::*;

verus! {

/// Base of core 0's register block; core `i`'s block lives `i * 0x1000`
/// above it.
pub const IIC_BASE: u64 = 0x8000_0200_0005_0000;

/// Byte stride between per-core register blocks.
pub const IIC_STRIDE: u64 = 0x1000;

/// Offset of the current-task-priority register inside a block.
pub const REG_CURRENT_TASK_PRIORITY: u64 = 0x08;

/// Offset of the inter-processor-interrupt dispatch register inside a block.
pub const REG_IPI_DISPATCH: u64 = 0x10;

/// Offset of the acknowledge register inside a block.
pub const REG_ACK: u64 = 0x50;

/// Offset of the end-of-interrupt register inside a block.
pub const REG_EOI: u64 = 0x60;

/// Offset of the spurious-vector register inside a block.
pub const REG_SPURIOUS_VECTOR: u64 = 0x70;

/// Known interrupt sources, by the hardware's numbering. `NonePending` is
/// the controller's "no interrupt" source.
#[derive(Clone, Copy, Debug, PartialEq, Eq, Structural)]
pub enum Interrupt {
    Ipi4,
    Ipi3,
    Smm,
    Sfcx,
    SataHdd,
    SataCdrom,
    Ohci0,
    Ehci0,
    Ohci1,
    Ehci1,
    Xma,
    Audio,
    Enet,
    Xps,
    Graphics,
    Profiler,
    Biu,
    Ioc,
    Fsb,
    Ipi2,
    Clock,
    Ipi1,
    NonePending,
}

impl Interrupt {
    /// The hardware source number of an interrupt.
    pub open spec fn code_spec(self) -> u8 {
        match self {
            Interrupt::Ipi4 => 2,
            Interrupt::Ipi3 => 4,
            Interrupt::Smm => 5,
            Interrupt::Sfcx => 6,
            Interrupt::SataHdd => 8,
            Interrupt::SataCdrom => 9,
            Interrupt::Ohci0 => 11,
            Interrupt::Ehci0 => 12,
            Interrupt::Ohci1 => 13,
            Interrupt::Ehci1 => 14,
            Interrupt::Xma => 16,
            Interrupt::Audio => 17,
            Interrupt::Enet => 19,
            Interrupt::Xps => 21,
            Interrupt::Graphics => 22,
            Interrupt::Profiler => 24,
            Interrupt::Biu => 25,
            Interrupt::Ioc => 26,
            Interrupt::Fsb => 27,
            Interrupt::Ipi2 => 28,
            Interrupt::Clock => 29,
            Interrupt::Ipi1 => 30,
            Interrupt::NonePending => 31,
        }
    }

    /// The hardware source number of an interrupt.
    pub fn code(&self) -> (r: u8)
        ensures
            r == self.code_spec(),
    {
        match self {
            Interrupt::Ipi4 => 2,
            Interrupt::Ipi3 => 4,
            Interrupt::Smm => 5,
            Interrupt::Sfcx => 6,
            Interrupt::SataHdd => 8,
            Interrupt::SataCdrom => 9,
            Interrupt::Ohci0 => 11,
            Interrupt::Ehci0 => 12,
            Interrupt::Ohci1 => 13,
            Interrupt::Ehci1 => 14,
            Interrupt::Xma => 16,
            Interrupt::Audio => 17,
            Interrupt::Enet => 19,
            Interrupt::Xps => 21,
            Interrupt::Graphics => 22,
            Interrupt::Profiler => 24,
            Interrupt::Biu => 25,
            Interrupt::Ioc => 26,
            Interrupt::Fsb => 27,
            Interrupt::Ipi2 => 28,
            Interrupt::Clock => 29,
            Interrupt::Ipi1 => 30,
            Interrupt::NonePending => 31,
        }
    }

    /// The interrupt a hardware source number names, if it names one.
    pub open spec fn from_code_spec(code: u8) -> Option<Interrupt> {
        match code {
            2u8 => Some(Interrupt::Ipi4),
            4u8 => Some(Interrupt::Ipi3),
            5u8 => Some(Interrupt::Smm),
            6u8 => Some(Interrupt::Sfcx),
            8u8 => Some(Interrupt::SataHdd),
            9u8 => Some(Interrupt::SataCdrom),
            11u8 => Some(Interrupt::Ohci0),
            12u8 => Some(Interrupt::Ehci0),
            13u8 => Some(Interrupt::Ohci1),
            14u8 => Some(Interrupt::Ehci1),
            16u8 => Some(Interrupt::Xma),
            17u8 => Some(Interrupt::Audio),
            19u8 => Some(Interrupt::Enet),
            21u8 => Some(Interrupt::Xps),
            22u8 => Some(Interrupt::Graphics),
            24u8 => Some(Interrupt::Profiler),
            25u8 => Some(Interrupt::Biu),
            26u8 => Some(Interrupt::Ioc),
            27u8 => Some(Interrupt::Fsb),
            28u8 => Some(Interrupt::Ipi2),
            29u8 => Some(Interrupt::Clock),
            30u8 => Some(Interrupt::Ipi1),
            31u8 => Some(Interrupt::NonePending),
            _ => None,
        }
    }

    /// Decode a hardware source number, tolerating numbers outside the known
    /// set.
    pub fn from_code(code: u8) -> (r: Option<Interrupt>)
        ensures
            r == Interrupt::from_code_spec(code),
            r matches Some(i) ==> i.code_spec() == code,
    {
        match code {
            2u8 => Some(Interrupt::Ipi4),
            4u8 => Some(Interrupt::Ipi3),
            5u8 => Some(Interrupt::Smm),
            6u8 => Some(Interrupt::Sfcx),
            8u8 => Some(Interrupt::SataHdd),
            9u8 => Some(Interrupt::SataCdrom),
            11u8 => Some(Interrupt::Ohci0),
            12u8 => Some(Interrupt::Ehci0),
            13u8 => Some(Interrupt::Ohci1),
            14u8 => Some(Interrupt::Ehci1),
            16u8 => Some(Interrupt::Xma),
            17u8 => Some(Interrupt::Audio),
            19u8 => Some(Interrupt::Enet),
            21u8 => Some(Interrupt::Xps),
            22u8 => Some(Interrupt::Graphics),
            24u8 => Some(Interrupt::Profiler),
            25u8 => Some(Interrupt::Biu),
            26u8 => Some(Interrupt::Ioc),
            27u8 => Some(Interrupt::Fsb),
            28u8 => Some(Interrupt::Ipi2),
            29u8 => Some(Interrupt::Clock),
            30u8 => Some(Interrupt::Ipi1),
            31u8 => Some(Interrupt::NonePending),
            _ => None,
        }
    }
}

/// One core's interrupt controller: its hardware thread id and a model of
/// the registers the firmware writes. The register values the model tracks
/// are exactly what the caller must store to the corresponding addresses.
pub struct Iic {
    pub core_id: u64,
    pub priority: u64,
    pub last_eoi: Option<u64>,
}

impl Iic {
    /// A controller belongs to one of the six hardware threads.
    pub open spec fn wf(self) -> bool {
        self.core_id < 6
    }

    /// The controller of the core whose hardware thread id the caller read.
    pub fn local(core_id: u64) -> (r: Iic)
        requires
            core_id < 6,
        ensures
            r.wf(),
            r.core_id == core_id,
            r.priority == 0,
            r.last_eoi is None,
    {
        Iic { core_id, priority: 0, last_eoi: None }
    }

    /// Base address of this core's register block.
    pub fn base_address(&self) -> (r: u64)
        requires
            self.wf(),
        ensures
            r == IIC_BASE + self.core_id * IIC_STRIDE,
    {
        IIC_BASE + self.core_id * IIC_STRIDE
    }

    /// Set the current task priority: the register takes the source number
    /// shifted into its field. Lowering the priority to `NonePending`-1 or
    /// below unmasks the corresponding interrupts.
    pub fn set_priority(&mut self, prio: Interrupt)
        requires
            old(self).wf(),
        ensures
            final(self).wf(),
            final(self).core_id == old(self).core_id,
            final(self).priority == (prio.code_spec() as u64) << 2,
            final(self).last_eoi == old(self).last_eoi,
    {
        let code = prio.code();
        self.priority = (code as u64) << 2;
    }

    /// Signal the end of an interrupt: the end-of-interrupt register takes
    /// the source number shifted into its field.
    pub fn eoi(&mut self, source: Interrupt)
        requires
            old(self).wf(),
        ensures
            final(self).wf(),
            final(self).core_id == old(self).core_id,
            final(self).priority == old(self).priority,
            final(self).last_eoi == Some((source.code_spec() as u64) << 2),
    {
        let code = source.code();
        self.last_eoi = Some((code as u64) << 2);
    }

    /// Decode an acknowledge-register read: `raw_ack` and `spurious` are the
    /// values the caller read from the acknowledge and spurious-vector
    /// registers. Equal vectors mean no interrupt is pending; otherwise the
    /// low bits of the acknowledged vector name the source, tolerating
    /// numbers outside the known set.
    pub fn acknowledge(&self, raw_ack: u64, spurious: u64) -> (r: Option<Interrupt>)
        ensures
            r == (if raw_ack >> 2 == spurious >> 2 {
                Option::<Interrupt>::None
            } else {
                Interrupt::from_code_spec(((raw_ack >> 2) & 0x1F) as u8)
            }),
    {
        let raw_int = raw_ack >> 2;
        let spv = spurious >> 2;
        if raw_int == spv {
            None
        } else {
            Interrupt::from_code((raw_int & 0x1F) as u8)
        }
    }
}

} // verus!
