//! The side panel: the processor's scratchpad registers as a table of 8 rows
//! of 8, of which only the entries that changed are written again.

use vstd::prelude::*;

verus! {

/// Scratchpad registers shown.
pub const REGISTERS: usize = 0x40;

/// Registers in one row of the table.
pub const ROW_LENGTH: usize = 8;

/// One table entry to write.
#[derive(Clone, Copy, Debug, PartialEq, Eq, Structural)]
pub struct CellUpdate {
    /// Row of the table body; row 0 is the heading.
    pub row: u32,
    /// Column of the row; columns 0 and 1 are labels.
    pub column: u32,
    /// The register's new value.
    pub value: u8,
}

/// The entry that shows register `address`.
pub open spec fn update_at(address: int, value: u8) -> CellUpdate {
    CellUpdate {
        row: (1 + address / (ROW_LENGTH as int)) as u32,
        column: (address % (ROW_LENGTH as int) + 2) as u32,
        value,
    }
}

/// The entries written for the first `k` registers: one for each register
/// whose value differs from the shown one.
pub open spec fn updates_upto(shown: Seq<u8>, regs: Seq<u8>, k: nat) -> Seq<CellUpdate>
    decreases k,
{
    if k == 0 {
        Seq::empty()
    } else {
        let earlier = updates_upto(shown, regs, (k - 1) as nat);
        if shown[k - 1] != regs[k - 1] {
            earlier.push(update_at(k - 1, regs[k - 1]))
        } else {
            earlier
        }
    }
}

/// The upper-case hexadecimal digit for `nibble`.
pub open spec fn hex_char(nibble: u8) -> char {
    "0123456789ABCDEF"@[nibble as int]
}

/// The two upper-case hexadecimal digits of `value`, high digit first.
pub fn hex_text(value: u8) -> (digits: [char; 2])
    ensures
        digits@ == seq![hex_char(value / 16), hex_char(value % 16)],
{
    [hex_digit(value / 16), hex_digit(value % 16)]
}

/// The upper-case hexadecimal digit for `nibble`.
pub fn hex_digit(nibble: u8) -> (digit: char)
    requires
        nibble < 16,
    ensures
        digit == hex_char(nibble),
{
    proof {
        reveal_strlit("0123456789ABCDEF");
    }
    match nibble {
        0 => '0',
        1 => '1',
        2 => '2',
        3 => '3',
        4 => '4',
        5 => '5',
        6 => '6',
        7 => '7',
        8 => '8',
        9 => '9',
        10 => 'A',
        11 => 'B',
        12 => 'C',
        13 => 'D',
        14 => 'E',
        _ => 'F',
    }
}

/// The side panel: the register values last shown.
pub struct SidePanel {
    memory: Vec<u8>,
}

impl View for SidePanel {
    type V = Seq<u8>;

    closed spec fn view(&self) -> Seq<u8> {
        self.memory@
    }
}

impl SidePanel {
    #[verifier::type_invariant]
    spec fn holds_every_register(self) -> bool {
        self.memory.len() == REGISTERS
    }

    /// A panel that shows zero in every register.
    pub fn new() -> (panel: Self)
        ensures
            panel@ == Seq::new(REGISTERS as nat, |i: int| 0u8),
    {
        let memory: Vec<u8> = vec![0u8; 0x40];
        SidePanel { memory }
    }

    /// Holds the registers against what is shown. Returns the entries to
    /// write, in order of address; the panel then shows the registers.
    pub fn print_memory(&mut self, regs: &[u8; 64]) -> (updates: Vec<CellUpdate>)
        ensures
            updates@ == updates_upto(old(self)@, regs@, REGISTERS as nat),
            final(self)@ == regs@,
    {
        proof {
            use_type_invariant(&*self);
        }
        let mut updates: Vec<CellUpdate> = Vec::new();
        let mut high: usize = 0;
        while high <= 0x7
            invariant
                high <= 8,
                self.memory.len() == REGISTERS,
                old(self).memory.len() == REGISTERS,
                updates@ == updates_upto(old(self)@, regs@, (high * 8) as nat),
                forall|i: int|
                    0 <= i < 64 ==> self.memory@[i] == if i < high * 8 {
                        regs@[i]
                    } else {
                        old(self).memory@[i]
                    },
            decreases 8 - high,
        {
            let mut low: usize = 0;
            while low <= 0x07
                invariant
                    high <= 7,
                    low <= 8,
                    self.memory.len() == REGISTERS,
                    old(self).memory.len() == REGISTERS,
                    updates@ == updates_upto(old(self)@, regs@, (high * 8 + low) as nat),
                    forall|i: int|
                        0 <= i < 64 ==> self.memory@[i] == if i < high * 8 + low {
                            regs@[i]
                        } else {
                            old(self).memory@[i]
                        },
                decreases 8 - low,
            {
                let address: usize = low + high * 0o10;
                if self.memory[address] != regs[address] {
                    self.memory[address] = regs[address];
                    let row_index: u32 = 1 + high as u32;
                    let col_index: u32 = low as u32 + 2;
                    updates.push(
                        CellUpdate { row: row_index, column: col_index, value: regs[address] },
                    );
                }
                low += 1;
            }
            high += 1;
        }
        updates
    }
}

/// Printing the same registers a second time writes no entry.
pub proof fn lemma_second_print_writes_nothing(regs: Seq<u8>, k: nat)
    ensures
        updates_upto(regs, regs, k) == Seq::<CellUpdate>::empty(),
    decreases k,
{
    if k > 0 {
        lemma_second_print_writes_nothing(regs, (k - 1) as nat);
    }
}

} // verus!
