use kfs::gdt::{get_selectors, Gdt, GdtEntry, GDT_ENTRIES};
use kfs::interrupts::{pic_init_sequence, send_eoi, PortWrite, KEYBOARD_INTERRUPT_ID};
use kfs::keyboard::{get_char, handle_keyboard_interrupt, Keyboard, LogicalKey, BUFFER_SIZE};
use kfs::kfs_lib::{
    error_printf, info_printf, itoa, kprintf, success_printf, warn_printf, PrintfArg,
};
use kfs::power::PowerManager;
use kfs::screens::{get_active_screen, ScreenManager};
use kfs::stack_trace::{
    get_stack_stats, is_valid_address, stack_span, walk_stack, StackFrame, Vec as FrameVec,
};
use kfs::vga::Color;

fn text(v: Vec<char>) -> String {
    v.into_iter().collect()
}

#[test]
fn gdt_entry_packs_fields() {
    let e = GdtEntry::new(0x12345678, 0xABCDE, 0x9A, 0xCF);
    assert_eq!(e.limit_low, 0xBCDE);
    assert_eq!(e.base_low, 0x5678);
    assert_eq!(e.base_middle, 0x34);
    assert_eq!(e.base_high, 0x12);
    assert_eq!(e.granularity, 0xCA);
    assert_eq!(e.access, 0x9A);
    assert_eq!(e.base(), 0x12345678);
    assert_eq!(e.limit(), 0xABCDE);
    let n = GdtEntry::null();
    assert_eq!((n.base(), n.limit(), n.access, n.granularity), (0, 0, 0, 0));
}

#[test]
fn kernel_gdt_layout() {
    let gdt = Gdt::new();
    assert_eq!(*gdt.get_entry(0).unwrap(), GdtEntry::null());
    let code = gdt.get_entry(1).unwrap();
    assert_eq!((code.access, code.granularity, code.limit_low), (0x9A, 0xCF, 0xFFFF));
    assert_eq!(gdt.get_entry(4).unwrap().access, 0xFA);
    assert_eq!(gdt.get_entry(5).unwrap().access, 0xF2);
    assert!(gdt.get_entry(GDT_ENTRIES).is_none());
    let p = Gdt::pointer(0x800);
    assert_eq!((p.limit, p.base), (47, 0x800));
}

#[test]
fn selectors_name_table_entries() {
    let s = get_selectors();
    assert_eq!(s.kernel_code_selector, 0x08);
    assert_eq!(s.kernel_data_selector, 0x10);
    assert_eq!(s.user_data_selector, 0x1B);
    assert_eq!(s.user_code_selector, 0x23);
    assert_eq!(s.tss_selector, 0x28);
}

#[test]
fn pic_sequences() {
    let init = pic_init_sequence();
    assert_eq!(init.len(), 10);
    assert_eq!(init[0], PortWrite { port: 0x20, value: 0x11 });
    assert_eq!(init[8], PortWrite { port: 0x21, value: 0xFD });
    assert_eq!(send_eoi(KEYBOARD_INTERRUPT_ID), vec![PortWrite { port: 0x20, value: 0x20 }]);
    assert_eq!(
        send_eoi(0x2C),
        vec![PortWrite { port: 0xA0, value: 0x20 }, PortWrite { port: 0x20, value: 0x20 }]
    );
}

#[test]
fn power_commands() {
    assert!(PowerManager::controller_ready(0x1D));
    assert!(!PowerManager::controller_ready(0x02));
    assert_eq!(PowerManager::reset_command(), (0x64, 0xFE));
    let s = PowerManager::shutdown_sequence();
    assert_eq!(s.len(), 4);
    assert_eq!((s[0].port, s[0].value, s[0].wide), (0x604, 0x2000, true));
    assert_eq!((s[3].port, s[3].value, s[3].wide), (0x600, 0x34, false));
}

#[test]
fn keyboard_queue_is_fifo() {
    let mut kb = Keyboard::new();
    assert_eq!(kb.get_from_buffer(), None);
    assert!(handle_keyboard_interrupt(&mut kb, 0x2A).is_none());
    let ev = kb.handle_interrupt(0x1E).unwrap();
    assert_eq!(ev.key, LogicalKey::Character('A'));
    assert_eq!(kb.get_from_buffer(), Some(0x2A));
    assert_eq!(get_char(&mut kb), Some('A'));
    assert_eq!(get_char(&mut kb), None);
    assert_eq!(kb.scancode_to_char(0x02), Some('!'));
    assert_eq!(kb.take_led_request(), None);
    handle_keyboard_interrupt(&mut kb, 0x3A);
    assert_eq!(kb.take_led_request(), Some(4));
    kb.handle_interrupt(0xBA);
    assert_eq!(kb.take_led_request(), None);
}

#[test]
fn keyboard_queue_drops_when_full() {
    let mut kb = Keyboard::new();
    for i in 0..(BUFFER_SIZE + 5) {
        kb.handle_interrupt((i % 0x40) as u8 | 0x80);
    }
    let mut n = 0;
    while kb.get_from_buffer().is_some() {
        n += 1;
    }
    assert_eq!(n, BUFFER_SIZE - 1);
}

#[test]
fn screen_manager_reports_first_activation() {
    let mut s = ScreenManager::new();
    assert_eq!(get_active_screen(&s), 0);
    assert!(!s.switch_to_screen(0));
    assert!(s.switch_to_screen(3));
    assert!(!s.switch_to_screen(3));
    assert_eq!(s.active(), 3);
    assert!(!s.switch_to_screen(4));
    assert_eq!(s.active(), 3);
}

#[test]
fn kprintf_conversions() {
    let args = [
        PrintfArg::Str("number"),
        PrintfArg::Int(42),
        PrintfArg::Int(-255),
        PrintfArg::Int(255),
        PrintfArg::Char('z'),
        PrintfArg::Ptr(0xb8000),
    ];
    assert_eq!(
        text(kprintf("%s %d %i %X %c %p 100%%", &args)),
        "number 42 -255 FF z 0xb8000 100%"
    );
    assert_eq!(text(kprintf("%x", &[PrintfArg::Int(-1)])), "ffffffff");
    assert_eq!(text(kprintf("%d", &[PrintfArg::Int(i32::MIN)])), "-2147483648");
    assert_eq!(text(kprintf("%d and %d", &[PrintfArg::Int(1)])), "1 and %d");
    assert_eq!(text(kprintf("%q%d", &[PrintfArg::Int(1), PrintfArg::Int(2)])), "%1");
    assert_eq!(text(kprintf("%q", &[PrintfArg::Int(1)])), "%");
    assert_eq!(text(kprintf("%d", &[PrintfArg::Str("x")])), "");
    assert_eq!(text(kprintf("end%", &[])), "end%");
}

#[test]
fn diagnostic_lines() {
    let e = error_printf("code %d", &[PrintfArg::Int(7)]);
    assert_eq!(e.color, Color::Red);
    assert_eq!(text(e.text), "[DEBUG] code 7\n");
    assert_eq!(info_printf("i", &[]).color, Color::LightBlue);
    assert_eq!(warn_printf("w", &[]).color, Color::Yellow);
    assert_eq!(text(success_printf("ok", &[]).text), "[DEBUG] ok\n");
}

#[test]
fn itoa_writes_digits() {
    let mut buf = [0xAAu8; 16];
    let n = itoa(-1234, &mut buf, 10);
    assert_eq!(&buf[..n], b"-1234");
    assert_eq!(buf[n], 0);
    assert_eq!(buf[n + 1], 0xAA);
    let n = itoa(255, &mut buf, 16);
    assert_eq!(&buf[..n], b"ff");
    let n = itoa(0, &mut buf, 2);
    assert_eq!(&buf[..n], b"0");
    let n = itoa(5, &mut buf, 2);
    assert_eq!(&buf[..n], b"101");
}

#[test]
fn itoa_short_buffer_keeps_low_digits() {
    let mut buf = [0u8; 4];
    let n = itoa(123456, &mut buf, 10);
    assert_eq!(&buf[..n], b"456");
    let n = itoa(-12, &mut buf, 10);
    assert_eq!(&buf[..n], b"-12");
    let n = itoa(-123, &mut buf, 10);
    assert_eq!(&buf[..n], b"123");
    let mut empty: [u8; 0] = [];
    assert_eq!(itoa(5, &mut empty, 10), 0);
}

#[test]
fn stack_helpers() {
    assert!(is_valid_address(0x2000));
    assert!(!is_valid_address(0x1000));
    assert!(!is_valid_address(0x2002));
    assert!(!is_valid_address(0x8000_0000));
    let s = get_stack_stats(0xF0000, 0xF0100, 3);
    assert_eq!(s.estimated_used, 0x10000);
    assert_eq!(get_stack_stats(0x200000, 0, 0).estimated_used, 0);
    assert_eq!(stack_span(0x100, 0x180), Some(0x80));
    assert_eq!(stack_span(0x180, 0x100), None);
}

#[test]
fn bounded_vec_ignores_overflow() {
    let mut v = FrameVec::new();
    for i in 0..20u32 {
        v.push(StackFrame::new(i, i + 1));
    }
    assert_eq!(v.len(), 16);
    let mut it = v.iter();
    assert_eq!(it.next(), Some(&StackFrame { ebp: 0, eip: 1 }));
    let mut count = 1;
    while it.next().is_some() {
        count += 1;
    }
    assert_eq!(count, 16);
    assert_eq!(v.get(15), Some(&StackFrame { ebp: 15, eip: 16 }));
    assert_eq!(v.get(16), None);
}

#[test]
fn frame_walk_follows_chain() {
    let memory = [(0x7000u32, 0x9000u32, 0x111u32), (0x9000, 0x0, 0x222)];
    let mut walker = walk_stack(0x7000, 10);
    let mut steps = 0;
    while let Some(addr) = walker.next_read() {
        let (_, saved_ebp, eip) = memory.iter().find(|m| m.0 == addr).copied().unwrap();
        walker.feed(saved_ebp, eip);
        steps += 1;
    }
    assert_eq!(steps, 2);
    let frames = walker.frames();
    assert_eq!(frames.len(), 2);
    assert_eq!(frames.get(0), Some(&StackFrame { ebp: 0x7000, eip: 0x111 }));
    assert_eq!(frames.get(1), Some(&StackFrame { ebp: 0x9000, eip: 0x222 }));
}

#[test]
fn frame_walk_stops_on_bad_pointer() {
    assert!(walk_stack(0, 5).next_read().is_none());
    assert!(walk_stack(0x9000, 0).next_read().is_none());
    let mut w = walk_stack(0x9000, 5);
    w.feed(0xA000, 1);
    assert_eq!(w.next_read(), Some(0xA000));
    w.feed(0x8000, 2);
    assert_eq!(w.next_read(), None);
    assert_eq!(w.frames().len(), 2);
}
