//! Direct Memory Access: the register writes that configure a channel, in
//! the order in which the reference manual asks for them.

use vstd::prelude::*;

verus! {

/// L4 RM, 11.4.3, "DMA arbitration":
/// The priorities are managed in two stages:
/// • software: priority of each channel is configured in the DMA_CCRx register, to one of
/// the four different levels:
/// – very high
/// – high
/// – medium
/// – low
/// • hardware: if two requests have the same software priority level, the channel with the
/// lowest index gets priority. For example, channel 2 gets priority over channel 4.
/// Only write to this when the channel is disabled.
#[derive(Clone, Copy, Debug, PartialEq, Eq, Structural)]
pub enum Priority {
    Low,
    Medium,
    High,
    VeryHigh,
}

#[derive(Clone, Copy, Debug, PartialEq, Eq, Structural)]
pub enum DmaChannel {
    C1,
    C2,
    C3,
    C4,
    C5,
    C6,
    C7,
}

/// Set in CCR.
/// Can only be set when channel is disabled.
#[derive(Clone, Copy, Debug, PartialEq, Eq, Structural)]
pub enum Direction {
    ReadFromPeriph,
    ReadFromMem,
}

/// Set in CCR.
/// Can only be set when channel is disabled.
#[derive(Clone, Copy, Debug, PartialEq, Eq, Structural)]
pub enum Circular {
    Disabled,
    Enabled,
}

/// Peripheral and memory increment mode. (CCR PINC and MINC bits)
/// Can only be set when channel is disabled.
#[derive(Clone, Copy, Debug, PartialEq, Eq, Structural)]
pub enum IncrMode {
    Disabled,
    Enabled,
}

/// Peripheral and memory data size. (CCR PSIZE and MSIZE bits)
/// Can only be set when channel is disabled.
#[derive(Clone, Copy, Debug, PartialEq, Eq, Structural)]
pub enum DataSize {
    /// 8 bits
    S8,
    S16,
    S32,
}

/// Interrupt type. Set in CCR using TEIE, HTIE, and TCIE bits.
/// Can only be set when channel is disabled.
#[derive(Clone, Copy, Debug, PartialEq, Eq, Structural)]
pub enum DmaInterrupt {
    TransferError,
    HalfTransfer,
    TransferComplete,
}

impl Priority {
    /// The value of the PL field.
    pub open spec fn spec_bits(self) -> u8 {
        match self {
            Priority::Low => 0,
            Priority::Medium => 1,
            Priority::High => 2,
            Priority::VeryHigh => 3,
        }
    }

    /// The value of the PL field.
    #[verifier::when_used_as_spec(spec_bits)]
    pub fn bits(self) -> (bits: u8)
        ensures
            bits == self.spec_bits(),
    {
        match self {
            Priority::Low => 0,
            Priority::Medium => 1,
            Priority::High => 2,
            Priority::VeryHigh => 3,
        }
    }
}

impl DmaChannel {
    /// The channel's number, from 1 to 7.
    pub open spec fn spec_number(self) -> u8 {
        match self {
            DmaChannel::C1 => 1,
            DmaChannel::C2 => 2,
            DmaChannel::C3 => 3,
            DmaChannel::C4 => 4,
            DmaChannel::C5 => 5,
            DmaChannel::C6 => 6,
            DmaChannel::C7 => 7,
        }
    }

    /// The channel's number, from 1 to 7.
    #[verifier::when_used_as_spec(spec_number)]
    pub fn number(self) -> (number: u8)
        ensures
            number == self.spec_number(),
    {
        match self {
            DmaChannel::C1 => 1,
            DmaChannel::C2 => 2,
            DmaChannel::C3 => 3,
            DmaChannel::C4 => 4,
            DmaChannel::C5 => 5,
            DmaChannel::C6 => 6,
            DmaChannel::C7 => 7,
        }
    }
}

impl Direction {
    /// The DIR bit: set to read from memory.
    pub open spec fn spec_bit(self) -> bool {
        self == Direction::ReadFromMem
    }

    /// The DIR bit: set to read from memory.
    #[verifier::when_used_as_spec(spec_bit)]
    pub fn bit(self) -> (bit: bool)
        ensures
            bit == self.spec_bit(),
    {
        match self {
            Direction::ReadFromPeriph => false,
            Direction::ReadFromMem => true,
        }
    }
}

impl Circular {
    /// The CIRC bit.
    pub open spec fn spec_bit(self) -> bool {
        self == Circular::Enabled
    }

    /// The CIRC bit.
    #[verifier::when_used_as_spec(spec_bit)]
    pub fn bit(self) -> (bit: bool)
        ensures
            bit == self.spec_bit(),
    {
        match self {
            Circular::Disabled => false,
            Circular::Enabled => true,
        }
    }
}

impl IncrMode {
    /// The PINC or MINC bit.
    pub open spec fn spec_bit(self) -> bool {
        self == IncrMode::Enabled
    }

    /// The PINC or MINC bit.
    #[verifier::when_used_as_spec(spec_bit)]
    pub fn bit(self) -> (bit: bool)
        ensures
            bit == self.spec_bit(),
    {
        match self {
            IncrMode::Disabled => false,
            IncrMode::Enabled => true,
        }
    }
}

impl DataSize {
    /// The value of the PSIZE or MSIZE field.
    pub open spec fn spec_bits(self) -> u8 {
        match self {
            DataSize::S8 => 0,
            DataSize::S16 => 1,
            DataSize::S32 => 2,
        }
    }

    /// The value of the PSIZE or MSIZE field.
    #[verifier::when_used_as_spec(spec_bits)]
    pub fn bits(self) -> (bits: u8)
        ensures
            bits == self.spec_bits(),
    {
        match self {
            DataSize::S8 => 0,
            DataSize::S16 => 1,
            DataSize::S32 => 2,
        }
    }
}

/// One write to a register of a channel.
#[derive(Clone, Copy, Debug, PartialEq, Eq)]
pub enum DmaWrite {
    /// Write the peripheral register address (CPAR).
    PeripheralAddress { channel: DmaChannel, address: u32 },
    /// Write the memory address (CMAR).
    MemoryAddress { channel: DmaChannel, address: u32 },
    /// Write the number of data to transfer (CNDTR).
    TransferCount { channel: DmaChannel, count: u16 },
    /// Clear the EN bit of the configuration register (CCR).
    Disable { channel: DmaChannel },
    /// Clear the MEM2MEM bit of the configuration register.
    ClearMemToMem { channel: DmaChannel },
    /// Write the fields of the configuration register and set its EN bit,
    /// in one access.
    Configure {
        channel: DmaChannel,
        priority: u8,
        from_memory: bool,
        circular: bool,
        periph_incr: bool,
        mem_incr: bool,
        periph_size: u8,
        mem_size: u8,
    },
}

/// The writes that configure `channel` and then enable it.
pub open spec fn channel_setup(
    channel: DmaChannel,
    periph_reg: u32,
    mem_addr: u32,
    num_data: u16,
    priority: Priority,
    direction: Direction,
    circular: Circular,
    periph_incr: IncrMode,
    mem_incr: IncrMode,
    periph_size: DataSize,
    mem_size: DataSize,
) -> Seq<DmaWrite> {
    seq![
        DmaWrite::PeripheralAddress { channel, address: periph_reg },
        DmaWrite::MemoryAddress { channel, address: mem_addr },
        DmaWrite::TransferCount { channel, count: num_data },
        DmaWrite::Disable { channel },
    ] + if circular == Circular::Enabled {
        seq![DmaWrite::ClearMemToMem { channel }]
    } else {
        Seq::empty()
    } + seq![
        DmaWrite::Configure {
            channel,
            priority: priority.spec_bits(),
            from_memory: direction.spec_bit(),
            circular: circular.spec_bit(),
            periph_incr: periph_incr.spec_bit(),
            mem_incr: mem_incr.spec_bit(),
            periph_size: periph_size.spec_bits(),
            mem_size: mem_size.spec_bits(),
        },
    ]
}

/// The DMA controller's handle. It plans register writes and holds no
/// state of its own.
pub struct Dma {}

impl Dma {
    pub fn new() -> (dma: Dma) {
        Dma {  }
    }

    /// Configure a DMA channel. See L4 RM 0394, section 11.4.4
    ///
    /// The addresses and the count are written first. The channel is
    /// disabled before its configuration is written, since the fields are
    /// read-only while it is enabled; in circular mode the MEM2MEM bit is
    /// cleared first. The last write configures and enables the channel.
    pub fn cfg_channel(
        &mut self,
        channel: DmaChannel,
        periph_reg: u32,
        mem_addr: u32,
        num_data: u16,
        priority: Priority,
        direction: Direction,
        circular: Circular,
        periph_incr: IncrMode,
        mem_incr: IncrMode,
        periph_size: DataSize,
        mem_size: DataSize,
    ) -> (plan: Vec<DmaWrite>)
        ensures
            plan@ == channel_setup(
                channel,
                periph_reg,
                mem_addr,
                num_data,
                priority,
                direction,
                circular,
                periph_incr,
                mem_incr,
                periph_size,
                mem_size,
            ),
    {
        let mut plan: Vec<DmaWrite> = Vec::new();
        plan.push(DmaWrite::PeripheralAddress { channel, address: periph_reg });
        plan.push(DmaWrite::MemoryAddress { channel, address: mem_addr });
        plan.push(DmaWrite::TransferCount { channel, count: num_data });
        plan.push(DmaWrite::Disable { channel });
        if circular.bit() {
            plan.push(DmaWrite::ClearMemToMem { channel });
        }
        plan.push(
            DmaWrite::Configure {
                channel,
                priority: priority.bits(),
                from_memory: direction.bit(),
                circular: circular.bit(),
                periph_incr: periph_incr.bit(),
                mem_incr: mem_incr.bit(),
                periph_size: periph_size.bits(),
                mem_size: mem_size.bits(),
            },
        );
        assert(plan@ =~= channel_setup(
            channel,
            periph_reg,
            mem_addr,
            num_data,
            priority,
            direction,
            circular,
            periph_incr,
            mem_incr,
            periph_size,
            mem_size,
        ));
        plan
    }

    /// Stop a channel: clear its EN bit.
    pub fn stop(&mut self, channel: DmaChannel) -> (write: DmaWrite)
        ensures
            write == (DmaWrite::Disable { channel }),
    {
        DmaWrite::Disable { channel }
    }

    /// Enable a specific type of interrupt. The interrupt enables are left
    /// as they are: the plan holds no write.
    pub fn enable_interrupt(&mut self, channel: DmaChannel, interrupt_type: DmaInterrupt) -> (plan: Vec<
        DmaWrite,
    >)
        ensures
            plan@ == Seq::<DmaWrite>::empty(),
    {
        Vec::new()
    }

    /// Clear an interrupt flag. The flags are left as they are: the plan
    /// holds no write.
    pub fn clear_interrupt(&mut self, interrupt_type: DmaInterrupt) -> (plan: Vec<DmaWrite>)
        ensures
            plan@ == Seq::<DmaWrite>::empty(),
    {
        Vec::new()
    }
}

} // verus!
