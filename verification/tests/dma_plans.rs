use stm32_hal::dma::{
    Circular, DataSize, Direction, Dma, DmaChannel, DmaInterrupt, DmaWrite, IncrMode, Priority,
};

#[test]
fn field_values() {
    assert_eq!(Priority::Low.bits(), 0b00);
    assert_eq!(Priority::Medium.bits(), 0b01);
    assert_eq!(Priority::High.bits(), 0b10);
    assert_eq!(Priority::VeryHigh.bits(), 0b11);
    assert_eq!(DataSize::S8.bits(), 0b00);
    assert_eq!(DataSize::S16.bits(), 0b01);
    assert_eq!(DataSize::S32.bits(), 0b10);
    assert!(!Direction::ReadFromPeriph.bit());
    assert!(Direction::ReadFromMem.bit());
    assert!(!Circular::Disabled.bit());
    assert!(Circular::Enabled.bit());
    assert!(!IncrMode::Disabled.bit());
    assert!(IncrMode::Enabled.bit());
}

#[test]
fn channel_numbers() {
    let channels = [
        DmaChannel::C1,
        DmaChannel::C2,
        DmaChannel::C3,
        DmaChannel::C4,
        DmaChannel::C5,
        DmaChannel::C6,
        DmaChannel::C7,
    ];
    for (index, channel) in channels.iter().enumerate() {
        assert_eq!(channel.number() as usize, index + 1);
    }
}

#[test]
fn cfg_channel_without_circular_mode() {
    let mut dma = Dma::new();
    let plan = dma.cfg_channel(
        DmaChannel::C3,
        0x4001_3000,
        0x2000_0100,
        64,
        Priority::High,
        Direction::ReadFromMem,
        Circular::Disabled,
        IncrMode::Disabled,
        IncrMode::Enabled,
        DataSize::S8,
        DataSize::S32,
    );
    let channel = DmaChannel::C3;
    assert_eq!(
        plan,
        vec![
            DmaWrite::PeripheralAddress { channel, address: 0x4001_3000 },
            DmaWrite::MemoryAddress { channel, address: 0x2000_0100 },
            DmaWrite::TransferCount { channel, count: 64 },
            DmaWrite::Disable { channel },
            DmaWrite::Configure {
                channel,
                priority: 2,
                from_memory: true,
                circular: false,
                periph_incr: false,
                mem_incr: true,
                periph_size: 0,
                mem_size: 2,
            },
        ]
    );
}

#[test]
fn cfg_channel_in_circular_mode_clears_mem2mem_first() {
    let mut dma = Dma::new();
    let plan = dma.cfg_channel(
        DmaChannel::C7,
        1,
        2,
        u16::MAX,
        Priority::VeryHigh,
        Direction::ReadFromPeriph,
        Circular::Enabled,
        IncrMode::Enabled,
        IncrMode::Disabled,
        DataSize::S16,
        DataSize::S16,
    );
    let channel = DmaChannel::C7;
    assert_eq!(
        plan,
        vec![
            DmaWrite::PeripheralAddress { channel, address: 1 },
            DmaWrite::MemoryAddress { channel, address: 2 },
            DmaWrite::TransferCount { channel, count: 65535 },
            DmaWrite::Disable { channel },
            DmaWrite::ClearMemToMem { channel },
            DmaWrite::Configure {
                channel,
                priority: 3,
                from_memory: false,
                circular: true,
                periph_incr: true,
                mem_incr: false,
                periph_size: 1,
                mem_size: 1,
            },
        ]
    );
}

#[test]
fn cfg_channel_addresses_the_channel_it_is_given() {
    let mut dma = Dma::new();
    for channel in [DmaChannel::C1, DmaChannel::C2, DmaChannel::C4, DmaChannel::C5, DmaChannel::C6] {
        let plan = dma.cfg_channel(
            channel,
            0,
            0,
            0,
            Priority::Low,
            Direction::ReadFromPeriph,
            Circular::Disabled,
            IncrMode::Disabled,
            IncrMode::Disabled,
            DataSize::S8,
            DataSize::S8,
        );
        assert_eq!(plan.len(), 5);
        assert_eq!(plan[3], DmaWrite::Disable { channel });
        assert_eq!(plan[0], DmaWrite::PeripheralAddress { channel, address: 0 });
    }
}

#[test]
fn stop_disables_the_channel() {
    let mut dma = Dma::new();
    assert_eq!(dma.stop(DmaChannel::C1), DmaWrite::Disable { channel: DmaChannel::C1 });
    assert_eq!(dma.stop(DmaChannel::C6), DmaWrite::Disable { channel: DmaChannel::C6 });
}

#[test]
fn interrupts_plan_no_write() {
    let mut dma = Dma::new();
    assert!(dma.enable_interrupt(DmaChannel::C2, DmaInterrupt::TransferError).is_empty());
    assert!(dma.enable_interrupt(DmaChannel::C5, DmaInterrupt::HalfTransfer).is_empty());
    assert!(dma.clear_interrupt(DmaInterrupt::TransferComplete).is_empty());
}
