use kernel::uart::{Arch, RegisterWidth, RegisterWrite, TxAction, UART};

#[test]
fn pl011_init_sequence() {
    let uart = UART::new(0x900_0000);
    let writes = uart.init(Arch::Aarch64);
    assert_eq!(
        writes,
        vec![
            RegisterWrite { address: 0x900_0030, value: 0 },
            RegisterWrite { address: 0x900_0024, value: 1 },
            RegisterWrite { address: 0x900_0028, value: 40 },
            RegisterWrite { address: 0x900_002C, value: 0x70 },
            RegisterWrite { address: 0x900_0030, value: 0x301 },
        ]
    );
}

/// Sends `s` with a status register that reads `busy` `delay` times before each `ready`.
fn send(uart: &UART, arch: Arch, s: &str, busy: u32, ready: u32, delay: usize) -> (Vec<TxAction>, Vec<u8>) {
    let mut tx = uart.write_string(arch, s);
    let mut actions = Vec::new();
    let mut out = Vec::new();
    let mut polls = 0;
    loop {
        let a = tx.action();
        actions.push(a);
        match a {
            TxAction::ReadStatus { .. } => {
                if polls < delay {
                    polls += 1;
                    tx.on_status(busy);
                } else {
                    polls = 0;
                    tx.on_status(ready);
                }
            }
            TxAction::WriteData { byte, .. } => {
                out.push(byte);
                tx.on_written();
            }
            TxAction::Done => break,
        }
    }
    (actions, out)
}

#[test]
fn aarch64_transmit_polls_flag_register() {
    let uart = UART::default_for(Arch::Aarch64);
    let (actions, out) = send(&uart, Arch::Aarch64, "Hi", 0x20, 0x00, 1);
    assert_eq!(out, b"Hi".to_vec());
    assert_eq!(actions[0], TxAction::ReadStatus { address: 0x900_0018, width: RegisterWidth::Word });
    assert_eq!(actions[1], TxAction::ReadStatus { address: 0x900_0018, width: RegisterWidth::Word });
    assert_eq!(actions[2], TxAction::WriteData { address: 0x900_0000, byte: b'H' });
    assert_eq!(actions[5], TxAction::WriteData { address: 0x900_0000, byte: b'i' });
    assert_eq!(actions[6], TxAction::Done);
    assert_eq!(actions.len(), 7);
}

#[test]
fn x86_transmit_polls_line_status() {
    let uart = UART::default_for(Arch::X86_64);
    let (actions, out) = send(&uart, Arch::X86_64, "ok\n", 0x00, 0x20, 2);
    assert_eq!(out, b"ok\n".to_vec());
    assert_eq!(actions[0], TxAction::ReadStatus { address: 0x3FD, width: RegisterWidth::Byte });
    assert_eq!(actions[3], TxAction::WriteData { address: 0x3F8, byte: b'o' });
}

#[test]
fn utf8_string_is_sent_byte_by_byte() {
    let uart = UART::new(0x1000);
    let (_, out) = send(&uart, Arch::Aarch64, "é!", 0x20, 0, 0);
    assert_eq!(out, vec![0xC3, 0xA9, b'!']);
}

#[test]
fn riscv_sends_nothing() {
    let uart = UART::default_for(Arch::Riscv64);
    let (actions, out) = send(&uart, Arch::Riscv64, "abc", 0, 0x20, 0);
    assert!(out.is_empty());
    assert_eq!(actions, vec![TxAction::Done]);
}

#[test]
fn empty_string_is_done_at_once() {
    let uart = UART::new(0x900_0000);
    let (actions, _) = send(&uart, Arch::Aarch64, "", 0x20, 0, 0);
    assert_eq!(actions, vec![TxAction::Done]);
}

#[test]
fn init_line_settings() {
    let writes = UART::new(0x1000_0000).init(Arch::Riscv64);
    let lcr = writes[3].value;
    assert_eq!((lcr >> 5) & 3, 3);
    assert_eq!(lcr & 0x2, 0);
    assert_eq!(lcr & 0x8, 0);
    assert_ne!(lcr & 0x10, 0);
    assert_eq!(writes[4].value & 0x301, 0x301);
    assert_eq!(writes[0], RegisterWrite { address: 0x1000_0030, value: 0 });
}

#[test]
fn default_bases() {
    assert_eq!(UART::default_for(Arch::X86_64).base_address(), 0x3F8);
    assert_eq!(UART::default_for(Arch::Aarch64).base_address(), 0x900_0000);
    assert_eq!(UART::default_for(Arch::Riscv64).base_address(), 0x1000_0000);
    assert_eq!(UART::new(0x1234).base_address(), 0x1234);
}

#[test]
fn init_at_the_top_of_the_address_space() {
    let base = usize::MAX - 0x30;
    let writes = UART::new(base).init(Arch::Aarch64);
    assert_eq!(writes[4], RegisterWrite { address: usize::MAX, value: 0x301 });
}

#[test]
fn riscv_accepts_any_base() {
    let uart = UART::new(usize::MAX);
    let (actions, out) = send(&uart, Arch::Riscv64, "abc", 0, 0x20, 0);
    assert!(out.is_empty());
    assert_eq!(actions, vec![TxAction::Done]);
}

#[test]
fn concatenation_sends_halves_in_turn() {
    let uart = UART::new(0x900_0000);
    let (whole, _) = send(&uart, Arch::Aarch64, "abcd", 0x20, 0, 1);
    let (first, _) = send(&uart, Arch::Aarch64, "ab", 0x20, 0, 1);
    let (second, _) = send(&uart, Arch::Aarch64, "cd", 0x20, 0, 1);
    let mut joined = first[..first.len() - 1].to_vec();
    joined.extend_from_slice(&second);
    assert_eq!(whole, joined);
}
