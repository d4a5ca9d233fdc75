use hal_mik32::epic::{enable_registers, Interrupt, InterruptMask, MaskRegister, Trigger};

#[test]
fn lines_are_numbered_like_the_hardware() {
    assert_eq!(Interrupt::Timer32_0.index(), 0);
    assert_eq!(Interrupt::Gpio.index(), 5);
    assert_eq!(Interrupt::Dma.index(), 20);
    assert_eq!(Interrupt::Dac1.index(), 31);
    for i in 0..32u32 {
        assert_eq!(Interrupt::from_index(i).index(), i);
    }
    assert_eq!(Interrupt::Usart1.mask().bits(), 1 << 2);
    assert_eq!(InterruptMask::from(Interrupt::Tsens).bits(), 1 << 28);
}

#[test]
fn mask_set_operations() {
    let a = InterruptMask::from(Interrupt::Spi0).union(Interrupt::I2c1.mask());
    assert!(a.contains(Interrupt::Spi0));
    assert!(a.contains(Interrupt::I2c1));
    assert!(!a.contains(Interrupt::Spi1));
    assert_eq!(a.intersection(Interrupt::Spi0.mask()), Interrupt::Spi0.mask());
    assert!(!a.complement().contains(Interrupt::Spi0));
    assert!(a.complement().contains(Interrupt::Spi1));
    assert!(InterruptMask::none().is_empty());
    assert_eq!(InterruptMask::all().bits(), u32::MAX);
    assert_eq!(InterruptMask::from_bits(0x30).bits(), 0x30);
}

#[test]
fn pending_lines_come_out_lowest_first() {
    let mut pending = InterruptMask::from_bits((1 << 7) | (1 << 2) | (1 << 30));
    assert_eq!(pending.next(), Some(Interrupt::Usart1));
    assert_eq!(pending.bits(), (1 << 7) | (1 << 30));
    assert_eq!(pending.next(), Some(Interrupt::I2c1));
    assert_eq!(pending.next(), Some(Interrupt::Dac0));
    assert_eq!(pending.next(), None);
    assert!(pending.is_empty());
}

#[test]
fn enabling_clears_the_other_trigger_first() {
    assert_eq!(enable_registers(Trigger::Edge), (MaskRegister::LevelClear, MaskRegister::EdgeSet));
    assert_eq!(enable_registers(Trigger::Level), (MaskRegister::EdgeClear, MaskRegister::LevelSet));
}

#[test]
fn mask_operators_act_on_line_sets() {
    let mut mask = Interrupt::Spi0.mask() | Interrupt::Spi1.mask();
    assert_eq!(mask.bits(), (1 << 3) | (1 << 4));
    assert_eq!((mask & Interrupt::Spi1.mask()).bits(), 1 << 4);
    assert_eq!((!mask).bits(), !((1 << 3) | (1 << 4)));
    mask |= Interrupt::Dma.mask();
    assert!(mask.contains(Interrupt::Dma));
    mask &= Interrupt::Dma.mask();
    assert_eq!(mask, Interrupt::Dma.mask());
}

#[test]
fn walking_a_full_set_gives_every_line_once() {
    let mut mask = InterruptMask::all();
    let mut seen = Vec::new();
    while let Some(interrupt) = mask.next() {
        seen.push(interrupt.index());
    }
    assert_eq!(seen, (0..32).collect::<Vec<u32>>());
    assert!(mask.is_empty());
    assert_eq!(mask.next(), None);
}

#[test]
fn masks_are_equal_when_their_bits_are() {
    let a = InterruptMask::from_bits(0b1010);
    let b = InterruptMask::from_bits(0b0110);
    assert_eq!(a.union(b), b.union(a));
    assert_eq!(a.union(InterruptMask::none()), a);
    assert_eq!(a.union(InterruptMask::all()), InterruptMask::all());
    assert_eq!(InterruptMask::from_bits(a.bits()), a);
    let mut walk = InterruptMask::from_bits(0b1011_0001);
    let mut calls = 0;
    while walk.next().is_some() {
        calls += 1;
    }
    assert_eq!(calls, 0b1011_0001u32.count_ones());
}
