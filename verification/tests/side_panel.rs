use ves_host::side_panel::{hex_digit, hex_text, CellUpdate, SidePanel};

#[test]
fn hex_digits_are_upper_case() {
    let digits: String = (0u8..16).map(hex_digit).collect();
    assert_eq!(digits, "0123456789ABCDEF");
}

#[test]
fn hex_text_has_two_digits() {
    assert_eq!(hex_text(0x00), ['0', '0']);
    assert_eq!(hex_text(0x05), ['0', '5']);
    assert_eq!(hex_text(0xAB), ['A', 'B']);
    assert_eq!(hex_text(0xF0), ['F', '0']);
    assert_eq!(hex_text(0xFF), ['F', 'F']);
    for value in 0u8..=255 {
        let text: String = hex_text(value).iter().collect();
        assert_eq!(text, format!("{:02X}", value));
    }
}

#[test]
fn zero_registers_write_nothing_on_a_new_panel() {
    let mut panel = SidePanel::new();
    assert!(panel.print_memory(&[0u8; 64]).is_empty());
}

#[test]
fn changed_registers_are_written_in_order_of_address() {
    let mut panel = SidePanel::new();
    let mut regs = [0u8; 64];
    regs[0] = 0xAB;
    regs[9] = 0x01;
    regs[63] = 0xFF;
    let updates = panel.print_memory(&regs);
    assert_eq!(
        updates,
        vec![
            CellUpdate { row: 1, column: 2, value: 0xAB },
            CellUpdate { row: 2, column: 3, value: 0x01 },
            CellUpdate { row: 8, column: 9, value: 0xFF },
        ]
    );
}

#[test]
fn second_print_of_the_same_registers_writes_nothing() {
    let mut panel = SidePanel::new();
    let mut regs = [0u8; 64];
    for (i, reg) in regs.iter_mut().enumerate() {
        *reg = (i * 5) as u8;
    }
    assert_eq!(panel.print_memory(&regs).len(), 63);
    assert!(panel.print_memory(&regs).is_empty());
    regs[17] = 0;
    assert_eq!(panel.print_memory(&regs), vec![CellUpdate { row: 3, column: 3, value: 0 }]);
    assert!(panel.print_memory(&regs).is_empty());
}
