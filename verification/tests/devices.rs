use gameboy::address::Address;
use gameboy::fault::Fault;
use gameboy::framebuffer::{FrameBuffer, RgbColor};
use gameboy::joypad::Joypad;
use gameboy::joypad_events::{JoypadButton, JoypadEvent};
use gameboy::memory::Memory;
use gameboy::platform::{write_pixel_to_buffer, PlatformEvent, Size};
use gameboy::serial::Serial;
use gameboy::timer::{ClockSelect, Timer};

fn timer_with(control: u8, counter: u8, modulo: u8) -> Timer {
    let mut timer = Timer::new();
    timer.write(Address::new(0xFF07), control);
    timer.write(Address::new(0xFF05), counter);
    timer.write(Address::new(0xFF06), modulo);
    timer
}

#[test]
fn timer_at_sixteen_ticks_overflows_from_fe_at_the_thirty_second_tick() {
    let mut timer = timer_with(0x05, 0xFE, 0x42);
    for cycle in 1..=7 {
        assert!(!timer.maybe_tick_cycles(1), "cycle {}", cycle);
        let expected = if cycle < 4 { 0xFE } else { 0xFF };
        assert_eq!(timer.read(Address::new(0xFF05)), expected);
    }
    assert!(timer.maybe_tick_cycles(1));
    assert_eq!(timer.read(Address::new(0xFF05)), 0x42);
    assert_eq!(timer.read(Address::new(0xFF06)), 0x42);

    let mut at_once = timer_with(0x05, 0xFE, 0x42);
    assert!(at_once.maybe_tick_cycles(8));
    assert_eq!(at_once.read(Address::new(0xFF05)), 0x42);
    let mut too_short = timer_with(0x05, 0xFE, 0x42);
    assert!(!too_short.maybe_tick_cycles(7));
    assert_eq!(too_short.read(Address::new(0xFF05)), 0xFF);
}

#[test]
fn timer_rates() {
    for (control, period) in [(0x04u8, 1024u32), (0x05, 16), (0x06, 64), (0x07, 256)] {
        let mut timer = timer_with(control, 0, 0);
        let cycles = period / 4;
        for _ in 0..cycles - 1 {
            timer.maybe_tick_cycles(1);
        }
        assert_eq!(timer.read(Address::new(0xFF05)), 0, "control {:#04X}", control);
        timer.maybe_tick_cycles(1);
        assert_eq!(timer.read(Address::new(0xFF05)), 1, "control {:#04X}", control);
    }
    assert_eq!(ClockSelect::Div1024.period(), 1024);
    assert_eq!(ClockSelect::Div16.period(), 16);
    assert_eq!(ClockSelect::Div64.period(), 64);
    assert_eq!(ClockSelect::Div256.period(), 256);
}

#[test]
fn disabled_timer_does_not_count_but_the_divider_does() {
    let mut timer = timer_with(0x01, 0x10, 0);
    assert!(!timer.maybe_tick_cycles(255));
    assert_eq!(timer.read(Address::new(0xFF05)), 0x10);
    // 255 cycles are 1020 ticks: the divider's upper byte stands at 3.
    assert_eq!(timer.read(Address::new(0xFF04)), 3);
    timer.maybe_tick_cycles(1);
    assert_eq!(timer.read(Address::new(0xFF04)), 4);
    timer.write(Address::new(0xFF04), 0xAB);
    assert_eq!(timer.read(Address::new(0xFF04)), 0);
    assert_eq!(timer.divider, 0);
    assert_eq!(timer.read(Address::new(0xFF07)), 0x01);
}

#[test]
fn timer_zero_cycles_change_nothing() {
    let mut timer = timer_with(0x05, 0xFF, 0x10);
    let before = timer;
    assert!(!timer.maybe_tick_cycles(0));
    assert_eq!(timer, before);
}

#[test]
fn joypad_register_shows_the_selected_group() {
    let mut joypad = Joypad::new();
    // Nothing selected: all ones in the low six bits.
    assert_eq!(joypad.read(), 0x3F);
    joypad.consume_platform_event(JoypadEvent::new_down(JoypadButton::Right));
    joypad.consume_platform_event(JoypadEvent::new_down(JoypadButton::Up));
    joypad.consume_platform_event(JoypadEvent::new_down(JoypadButton::A));
    joypad.consume_platform_event(JoypadEvent::new_down(JoypadButton::Start));
    assert_eq!(joypad.read(), 0x3F);
    // Directions: bit 4 low.
    joypad.write(0x20);
    assert_eq!(joypad.read(), 0x20 | 0b1010);
    // Action buttons: bit 5 low.
    joypad.write(0x10);
    assert_eq!(joypad.read(), 0x10 | 0b0110);
    // Both: the action buttons show.
    joypad.write(0x00);
    assert_eq!(joypad.read(), 0b0110);
    joypad.consume_platform_event(JoypadEvent::new_up(JoypadButton::A));
    joypad.consume_platform_event(JoypadEvent::new_down(JoypadButton::B));
    joypad.consume_platform_event(JoypadEvent::new_down(JoypadButton::Select));
    assert_eq!(joypad.read(), 0b0001);
    joypad.write(0x20);
    joypad.consume_platform_event(JoypadEvent::new_up(JoypadButton::Right));
    joypad.consume_platform_event(JoypadEvent::new_down(JoypadButton::Left));
    joypad.consume_platform_event(JoypadEvent::new_down(JoypadButton::Down));
    assert_eq!(joypad.read(), 0x20 | 0b0001);
    joypad.write(0x30);
    assert_eq!(joypad.read(), 0x3F);
}

#[test]
fn joypad_events_carry_button_and_direction() {
    let down = JoypadEvent::new_down(JoypadButton::Select);
    let up = JoypadEvent::new_up(JoypadButton::Select);
    assert!(down.is_down);
    assert!(!up.is_down);
    assert_eq!(down.button, JoypadButton::Select);
    assert_eq!(PlatformEvent::Joypad(down), PlatformEvent::Joypad(down));
    assert_ne!(PlatformEvent::Joypad(down), PlatformEvent::Joypad(up));
    assert_ne!(PlatformEvent::Quit, PlatformEvent::Joypad(up));
}

#[test]
fn serial_sends_when_asked_and_started() {
    let mut serial = Serial::new(true);
    serial.write(Address::new(0xFF01), b'H');
    assert_eq!(serial.read(Address::new(0xFF01)), Ok(b'H'));
    serial.write(Address::new(0xFF02), 0x01);
    assert!(serial.take_sent().is_empty());
    serial.write(Address::new(0xFF02), 0x81);
    serial.write(Address::new(0xFF01), b'i');
    serial.write(Address::new(0xFF02), 0x80);
    assert_eq!(serial.take_sent(), vec![b'H', b'i']);
    assert!(serial.take_sent().is_empty());
    assert_eq!(serial.read(Address::new(0xFF02)), Err(Fault::UnmappedRead(0xFF02)));

    let mut silent = Serial::new(false);
    silent.write(Address::new(0xFF01), b'x');
    silent.write(Address::new(0xFF02), 0x81);
    assert!(silent.take_sent().is_empty());
    assert_eq!(silent.read(Address::new(0xFF01)), Ok(b'x'));
}

#[test]
fn frame_buffer_starts_white_and_keeps_pixels() {
    let mut frame = FrameBuffer::new(160, 144);
    assert_eq!(frame.width, 160);
    assert_eq!(frame.height, 144);
    assert_eq!(frame.get_pixel(0, 0), RgbColor::white());
    assert_eq!(frame.get_pixel(159, 143), RgbColor { r: 255, g: 255, b: 255 });
    frame.set_pixel(3, 2, RgbColor::new_gray(90));
    frame.set_pixel(159, 143, RgbColor::new(1, 2, 3));
    assert_eq!(frame.get_pixel(3, 2), RgbColor { r: 90, g: 90, b: 90 });
    assert_eq!(frame.get_pixel(2, 3), RgbColor::white());
    assert_eq!(frame.get_pixel(159, 143), RgbColor { r: 1, g: 2, b: 3 });
    assert_eq!(frame.get_pixel(4, 2), RgbColor::white());
}

#[test]
fn memory_words_are_little_endian() {
    let mut memory = Memory::new();
    assert_eq!(memory.get(0x1234), 0);
    memory.set(0x1234, 0xAB);
    assert_eq!(memory.get(0x1234), 0xAB);
    memory.set_u16(0xC000, 0xBEEF);
    assert_eq!(memory.get(0xC000), 0xEF);
    assert_eq!(memory.get(0xC001), 0xBE);
    assert_eq!(memory.get_u16(0xC000), 0xBEEF);
    memory.set_from_u8(0x44, 0x90);
    assert_eq!(memory.get(0xFF44), 0x90);
    assert_eq!(memory.get_from_u8(0x44), 0x90);
    memory.set(0xFFFF, 0x1F);
    assert_eq!(memory.get_from_u8(0xFF), 0x1F);
    assert_eq!(memory.get_u16(0xFFFE), 0x1F00);
}

#[test]
fn pixels_go_into_the_host_picture_row_by_row() {
    let mut buffer = vec![0u8; 4 * 10];
    write_pixel_to_buffer(&mut buffer, 10, 0, 0, RgbColor::new(1, 2, 3));
    write_pixel_to_buffer(&mut buffer, 10, 2, 1, RgbColor::new(4, 5, 6));
    write_pixel_to_buffer(&mut buffer, 10, 1, 3, RgbColor::new(7, 8, 9));
    assert_eq!(&buffer[0..3], &[1, 2, 3]);
    assert_eq!(&buffer[16..19], &[4, 5, 6]);
    assert_eq!(&buffer[33..36], &[7, 8, 9]);
    assert_eq!(buffer.iter().filter(|b| **b != 0).count(), 9);
    let size = Size::new(600, 540);
    assert_eq!(size.width, 600);
    assert_eq!(size.height, 540);
}
