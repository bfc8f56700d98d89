use std::collections::BTreeMap;
use vstd::prelude::*;

use super::controller_common::{spec_byte_enable, LSUDataType};
use super::uart::{spec_rx_read, spec_tx_write, spec_uart_clock, spec_uart_new, Uart, UartState};

verus! {

broadcast use {
    vstd::std_specs::btree::group_btree_axioms,
    vstd::laws_cmp::group_laws_cmp,
};

/// Data memory with a UART mapped into it: reading `uart_address` reads the UART's receive
/// buffer, writing it writes the UART's transmit buffer, and reading `uart_address + 4` reads
/// the UART's line status register. Every other address is plain memory that reads zero until
/// it is written.
#[derive(Debug)]
pub struct MemoryMappedIO {
    ram: BTreeMap<u32, u8>,
    uart_address: u32,
    uart: Uart,
}

/// The memory module as used by the emulator.
pub type MemoryModule = MemoryMappedIO;

/// The state of the memory module as plain values.
pub struct MemState {
    pub ram: Map<u32, u8>,
    pub uart_address: u32,
    pub uart: UartState,
}

impl View for MemoryMappedIO {
    type V = MemState;

    closed spec fn view(&self) -> MemState {
        MemState { ram: self.ram@, uart_address: self.uart_address, uart: self.uart@ }
    }
}

/// The plain memory at an address: its byte, or zero if it was never written.
pub open spec fn ram_byte(m: MemState, address: u32) -> u8 {
    if m.ram.contains_key(address) {
        m.ram[address]
    } else {
        0
    }
}

/// Whether reading `address` can be decided: the UART status address `uart_address + 4` must
/// not overflow unless `address` is the UART data address itself.
pub open spec fn read_defined(m: MemState, address: u32) -> bool {
    address == m.uart_address || m.uart_address <= u32::MAX - 4
}

/// Whether `address` is the UART status register.
pub open spec fn is_status_address(m: MemState, address: u32) -> bool {
    address != m.uart_address && address == m.uart_address + 4
}

/// Reading a byte: the memory afterwards (reading the UART data address clears its
/// receive-complete flag) and the byte read.
pub open spec fn spec_mem_get(m: MemState, address: u32) -> (MemState, u8) {
    if address == m.uart_address {
        (MemState { uart: spec_rx_read(m.uart), ..m }, m.uart.rx_buffer)
    } else if is_status_address(m, address) {
        (m, m.uart.lsr)
    } else {
        (m, ram_byte(m, address))
    }
}

/// The byte at an address, seen without side effects.
pub open spec fn spec_mem_preview(m: MemState, address: u32) -> u8 {
    spec_mem_get(m, address).1
}

/// Writing a byte: it is stored at the address, and writing the UART data address also puts
/// it in the UART's transmit buffer.
pub open spec fn spec_mem_set(m: MemState, address: u32, value: u8) -> MemState {
    let uart = if address == m.uart_address {
        spec_tx_write(m.uart, value)
    } else {
        m.uart
    };
    MemState { ram: m.ram.insert(address, value), uart, ..m }
}

/// Byte `i` (from the least significant) of a word.
pub open spec fn word_byte(value: u32, i: int) -> u8 {
    ((value >> ((8 * i) as u32)) & 0xff) as u8
}

/// The word made of four bytes, the first the least significant.
pub open spec fn le_word(b0: u8, b1: u8, b2: u8, b3: u8) -> u32 {
    (b0 as u32) | ((b1 as u32) << 8u32) | ((b2 as u32) << 16u32) | ((b3 as u32) << 24u32)
}

/// The accesses of a word access: the lanes whose byte is enabled must have addresses that do
/// not overflow.
pub open spec fn lanes_fit(address: u32, byte_enable: Seq<bool>, n: int) -> bool {
    forall|i: int| 0 <= i < n && byte_enable[i] ==> address + i <= u32::MAX
}

/// The memory after writing the enabled bytes among the first `n` lanes of a word.
pub open spec fn spec_write_lanes(
    m: MemState,
    address: u32,
    value: u32,
    byte_enable: Seq<bool>,
    n: nat,
) -> MemState
    decreases n,
{
    if n == 0 {
        m
    } else {
        let before = spec_write_lanes(m, address, value, byte_enable, (n - 1) as nat);
        if byte_enable[n - 1] {
            spec_mem_set(before, (address + n - 1) as u32, word_byte(value, n - 1))
        } else {
            before
        }
    }
}

/// The memory after reading the enabled bytes among the first `n` lanes of a word, and the
/// bytes read (zero for a disabled lane).
pub open spec fn spec_read_lanes(m: MemState, address: u32, byte_enable: Seq<bool>, n: nat) -> (
    MemState,
    Seq<u8>,
)
    decreases n,
{
    if n == 0 {
        (m, Seq::empty())
    } else {
        let (before, bytes) = spec_read_lanes(m, address, byte_enable, (n - 1) as nat);
        if byte_enable[n - 1] {
            let (after, b) = spec_mem_get(before, (address + n - 1) as u32);
            (after, bytes.push(b))
        } else {
            (before, bytes.push(0u8))
        }
    }
}

/// Whether a word read can be decided: every enabled lane's address fits and can be read.
pub open spec fn read_word_defined(m: MemState, address: u32, byte_enable: Seq<bool>) -> bool {
    &&& byte_enable.len() == 4
    &&& lanes_fit(address, byte_enable, 4)
    &&& forall|i: int|
        0 <= i < 4 && byte_enable[i] ==> read_defined(m, (address + i) as u32)
}

/// Writing a word: the enabled bytes, least significant first, go to consecutive addresses.
pub open spec fn spec_mem_write_word(m: MemState, address: u32, value: u32, byte_enable: Seq<bool>) -> MemState {
    spec_write_lanes(m, address, value, byte_enable, 4)
}

/// Reading a word: the memory afterwards and the word assembled from the enabled bytes.
pub open spec fn spec_mem_read_word(m: MemState, address: u32, byte_enable: Seq<bool>) -> (MemState, u32) {
    let (after, b) = spec_read_lanes(m, address, byte_enable, 4);
    (after, le_word(b[0], b[1], b[2], b[3]))
}

/// A fresh memory module: the given plain memory, and a fresh UART (20 cycles per byte) at
/// `uart_address`.
pub open spec fn spec_mem_new(initial: Map<u32, u8>, uart_address: u32) -> MemState {
    MemState { ram: initial, uart_address, uart: spec_uart_new(20) }
}

/// Whether an address is plain memory: neither of the UART's registers.
pub open spec fn is_plain_address(m: MemState, address: u32) -> bool {
    address != m.uart_address && !is_status_address(m, address)
}

/// Writing a byte to plain memory: reading the address back gives the byte, and every other
/// address reads as before.
pub proof fn lemma_set_then_preview(m: MemState, address: u32, value: u8, other: u32)
    requires
        is_plain_address(m, address),
    ensures
        spec_mem_preview(spec_mem_set(m, address, value), address) == value,
        other != address ==> spec_mem_preview(spec_mem_set(m, address, value), other)
            == spec_mem_preview(m, other),
{
}

/// The memory after a sequence of byte stores, each an address and a byte, in order.
pub open spec fn apply_stores(m: MemState, stores: Seq<(u32, u8)>) -> MemState
    decreases stores.len(),
{
    if stores.len() == 0 {
        m
    } else {
        spec_mem_set(apply_stores(m, stores.drop_last()), stores.last().0, stores.last().1)
    }
}

/// The byte that the last store to `address` in a sequence of stores wrote, if any.
pub open spec fn last_store(stores: Seq<(u32, u8)>, address: u32) -> Option<u8>
    decreases stores.len(),
{
    if stores.len() == 0 {
        None
    } else if stores.last().0 == address {
        Some(stores.last().1)
    } else {
        last_store(stores.drop_last(), address)
    }
}

/// The byte stores that writing the enabled lanes among the first `n` of a word makes, lowest
/// address first.
pub open spec fn word_stores(address: u32, value: u32, byte_enable: Seq<bool>, n: nat) -> Seq<(u32, u8)>
    decreases n,
{
    if n == 0 {
        Seq::empty()
    } else {
        let before = word_stores(address, value, byte_enable, (n - 1) as nat);
        if byte_enable[n - 1] {
            before.push(((address + n - 1) as u32, word_byte(value, n - 1)))
        } else {
            before
        }
    }
}

/// Reading plain memory back after any sequence of byte stores gives the byte that the last
/// store to that address wrote, or what the address held before if no store wrote it (for a
/// fresh memory module: its initial byte, or zero). Stores never move the UART.
pub proof fn lemma_stores_then_preview(m: MemState, stores: Seq<(u32, u8)>, address: u32)
    requires
        is_plain_address(m, address),
    ensures
        apply_stores(m, stores).uart_address == m.uart_address,
        spec_mem_preview(apply_stores(m, stores), address) == match last_store(stores, address) {
            Some(b) => b,
            None => spec_mem_preview(m, address),
        },
    decreases stores.len(),
{
    if stores.len() > 0 {
        lemma_stores_then_preview(m, stores.drop_last(), address);
    }
}

/// A fresh memory module reads its initial byte at a plain address, or zero where it has none.
pub proof fn lemma_new_preview(initial: Map<u32, u8>, uart_address: u32, address: u32)
    requires
        is_plain_address(spec_mem_new(initial, uart_address), address),
    ensures
        spec_mem_preview(spec_mem_new(initial, uart_address), address) == if initial.contains_key(address) {
            initial[address]
        } else {
            0
        },
{
}

/// The whole history of a memory module read back: after `new` with `initial` and any
/// sequence of byte stores (`set`, and `write_word` as its lanes' stores), a plain address
/// reads the byte last stored there, else its initial byte, else zero; the UART's two
/// addresses read what `get` would return there.
pub proof fn lemma_history_preview(initial: Map<u32, u8>, uart_address: u32, stores: Seq<(u32, u8)>, address: u32)
    requires
        uart_address <= u32::MAX - 4,
    ensures
        ({
            let m = apply_stores(spec_mem_new(initial, uart_address), stores);
            &&& address != uart_address && address != uart_address + 4 ==> spec_mem_preview(m, address)
                == match last_store(stores, address) {
                Some(b) => b,
                None => if initial.contains_key(address) {
                    initial[address]
                } else {
                    0
                },
            }
            &&& spec_mem_preview(m, address) == spec_mem_get(m, address).1
        }),
{
    let m0 = spec_mem_new(initial, uart_address);
    if address != uart_address && address != uart_address + 4 {
        lemma_stores_then_preview(m0, stores, address);
        lemma_new_preview(initial, uart_address, address);
    }
}

/// Writing a word is the sequence of byte stores of its enabled lanes, lowest address first.
pub proof fn lemma_write_word_is_stores(m: MemState, address: u32, value: u32, byte_enable: Seq<bool>, n: nat)
    ensures
        spec_write_lanes(m, address, value, byte_enable, n) == apply_stores(
            m,
            word_stores(address, value, byte_enable, n),
        ),
    decreases n,
{
    if n > 0 {
        lemma_write_word_is_stores(m, address, value, byte_enable, (n - 1) as nat);
        let before = word_stores(address, value, byte_enable, (n - 1) as nat);
        if byte_enable[n - 1] {
            let st = before.push(((address + n - 1) as u32, word_byte(value, n - 1)));
            assert(st.drop_last() =~= before);
        }
    }
}

/// Words are stored little-endian: after writing all four bytes of a word to plain memory,
/// the byte at the word's address is its least significant byte and each following address
/// holds the next more significant one, so that the four bytes weighted by 1, 2^8, 2^16 and
/// 2^24 add up to the word, and reading the word back gives it.
pub proof fn lemma_write_word_little_endian(m: MemState, address: u32, value: u32)
    requires
        address <= u32::MAX - 3,
        is_plain_address(m, address),
        is_plain_address(m, (address + 1) as u32),
        is_plain_address(m, (address + 2) as u32),
        is_plain_address(m, (address + 3) as u32),
    ensures
        ({
            let m2 = spec_mem_write_word(m, address, value, seq![true, true, true, true]);
            &&& spec_mem_preview(m2, address) + 0x100 * spec_mem_preview(m2, (address + 1) as u32) + 0x1_0000
                * spec_mem_preview(m2, (address + 2) as u32) + 0x100_0000 * spec_mem_preview(
                m2,
                (address + 3) as u32,
            ) == value
            &&& spec_mem_read_word(m2, address, seq![true, true, true, true]).1 == value
        }),
{
    let be = seq![true, true, true, true];
    reveal_with_fuel(spec_write_lanes, 5);
    reveal_with_fuel(spec_read_lanes, 5);
    assert(be[0] && be[1] && be[2] && be[3]);
    let a0 = address;
    let a1 = (address + 1) as u32;
    let a2 = (address + 2) as u32;
    let a3 = (address + 3) as u32;
    let b0 = word_byte(value, 0);
    let b1 = word_byte(value, 1);
    let b2 = word_byte(value, 2);
    let b3 = word_byte(value, 3);
    let m1 = spec_mem_set(m, a0, b0);
    let mm2 = spec_mem_set(m1, a1, b1);
    let mm3 = spec_mem_set(mm2, a2, b2);
    let mm4 = spec_mem_set(mm3, a3, b3);
    assert(spec_write_lanes(m, address, value, be, 1) == m1);
    assert(spec_write_lanes(m, address, value, be, 2) == mm2);
    assert(spec_write_lanes(m, address, value, be, 3) == mm3);
    assert(spec_write_lanes(m, address, value, be, 4) == mm4);
    assert(spec_mem_preview(mm4, a0) == b0);
    assert(spec_mem_preview(mm4, a1) == b1);
    assert(spec_mem_preview(mm4, a2) == b2);
    assert(spec_mem_preview(mm4, a3) == b3);
    assert(b0 + 0x100 * b1 + 0x1_0000 * b2 + 0x100_0000 * b3 == value && le_word(b0, b1, b2, b3)
        == value) by (bit_vector)
        requires
            b0 == ((value >> 0u32) & 0xff) as u8,
            b1 == ((value >> 8u32) & 0xff) as u8,
            b2 == ((value >> 16u32) & 0xff) as u8,
            b3 == ((value >> 24u32) & 0xff) as u8,
    ;
    let r1 = spec_read_lanes(mm4, address, be, 1);
    let r2 = spec_read_lanes(mm4, address, be, 2);
    let r3 = spec_read_lanes(mm4, address, be, 3);
    let r4 = spec_read_lanes(mm4, address, be, 4);
    assert(r1.0 == mm4 && r1.1 =~= seq![b0]);
    assert(r2.0 == mm4 && r2.1 =~= seq![b0, b1]);
    assert(r3.0 == mm4 && r3.1 =~= seq![b0, b1, b2]);
    assert(r4.1 =~= seq![b0, b1, b2, b3]);
}

/// The bits of a word that an access of the given width carries.
pub open spec fn width_mask(t: LSUDataType) -> u32 {
    match t {
        LSUDataType::Word => 0xffff_ffff,
        LSUDataType::HalfWord => 0xffff,
        LSUDataType::Byte => 0xff,
    }
}

/// Storing a value to plain memory and loading it back with the same width gives the value's
/// bits of that width, and the load leaves the memory as the store left it.
pub proof fn lemma_store_then_load(m: MemState, address: u32, value: u32, t: LSUDataType)
    requires
        m.uart_address <= u32::MAX - 4,
        forall|i: int|
            0 <= i < 4 && #[trigger] spec_byte_enable(t)[i] ==> address + i <= u32::MAX
                && is_plain_address(m, (address + i) as u32),
    ensures
        ({
            let be = spec_byte_enable(t)@;
            let stored = spec_mem_write_word(m, address, value, be);
            &&& read_word_defined(stored, address, be)
            &&& spec_mem_read_word(stored, address, be) == (stored, value & width_mask(t))
        }),
{
    reveal_with_fuel(spec_write_lanes, 5);
    reveal_with_fuel(spec_read_lanes, 5);
    let be = spec_byte_enable(t)@;
    assert(be.len() == 4);
    let stored = spec_mem_write_word(m, address, value, be);
    let b0 = word_byte(value, 0);
    let b1 = word_byte(value, 1);
    let b2 = word_byte(value, 2);
    let b3 = word_byte(value, 3);
    assert(((8 * 0int) as u32) == 0u32 && ((8 * 1int) as u32) == 8u32 && ((8 * 2int) as u32)
        == 16u32 && ((8 * 3int) as u32) == 24u32);
    assert(value >> 0u32 == value) by (bit_vector);
    match t {
        LSUDataType::Word => {
            assert(be[0] && be[1] && be[2] && be[3]);
            assert(spec_byte_enable(t)[0] && spec_byte_enable(t)[3]);
            assert(stored.ram[address] == b0);
            assert(stored.ram[(address + 1) as u32] == b1);
            assert(stored.ram[(address + 2) as u32] == b2);
            assert(stored.ram[(address + 3) as u32] == b3);
            assert(le_word(b0, b1, b2, b3) == value & 0xffff_ffff) by (bit_vector)
                requires
                    b0 == (value & 0xff) as u8,
                    b1 == ((value >> 8u32) & 0xff) as u8,
                    b2 == ((value >> 16u32) & 0xff) as u8,
                    b3 == ((value >> 24u32) & 0xff) as u8,
            ;
        },
        LSUDataType::HalfWord => {
            assert(spec_byte_enable(t)[0] && spec_byte_enable(t)[1]);
            assert(stored.ram[address] == b0);
            assert(stored.ram[(address + 1) as u32] == b1);
            assert(le_word(b0, b1, 0, 0) == value & 0xffff) by (bit_vector)
                requires
                    b0 == (value & 0xff) as u8,
                    b1 == ((value >> 8u32) & 0xff) as u8,
            ;
        },
        LSUDataType::Byte => {
            assert(spec_byte_enable(t)[0]);
            assert(stored.ram[address] == b0);
            assert(le_word(b0, 0, 0, 0) == value & 0xff) by (bit_vector)
                requires
                    b0 == (value & 0xff) as u8,
            ;
        },
    }
}

/// Word writes and reads leave the UART's output, input and receive cursor, and the UART's
/// address, as they were.
pub proof fn lemma_word_access_keeps_uart_streams(m: MemState, address: u32, value: u32, byte_enable: Seq<bool>, n: nat)
    ensures
        spec_write_lanes(m, address, value, byte_enable, n).uart.output_buffer == m.uart.output_buffer,
        spec_write_lanes(m, address, value, byte_enable, n).uart.input_buffer == m.uart.input_buffer,
        spec_write_lanes(m, address, value, byte_enable, n).uart.rx_cursor == m.uart.rx_cursor,
        spec_write_lanes(m, address, value, byte_enable, n).uart_address == m.uart_address,
        spec_read_lanes(m, address, byte_enable, n).0.uart.output_buffer == m.uart.output_buffer,
        spec_read_lanes(m, address, byte_enable, n).0.uart.input_buffer == m.uart.input_buffer,
        spec_read_lanes(m, address, byte_enable, n).0.uart.rx_cursor == m.uart.rx_cursor,
        spec_read_lanes(m, address, byte_enable, n).0.uart_address == m.uart_address,
    decreases n,
{
    if n > 0 {
        lemma_word_access_keeps_uart_streams(m, address, value, byte_enable, (n - 1) as nat);
    }
}

/// One clock cycle of the memory module: its UART moves on by a cycle.
pub open spec fn spec_mem_clock(m: MemState) -> MemState {
    MemState { uart: spec_uart_clock(m.uart), ..m }
}

impl MemoryMappedIO {
    /// A memory module holding `initial`, with a UART at `uart_address`.
    pub fn new(initial: &BTreeMap<u32, u8>, uart_address: u32) -> (r: Self)
        ensures
            r@ == spec_mem_new(initial@, uart_address),
    {
        let ram = initial.clone();
        let uart = Uart::new(20);
        MemoryMappedIO { ram, uart_address, uart }
    }

    /// Reads a byte; reading the UART data address consumes the received byte.
    pub fn get(&mut self, address: u32) -> (r: u8)
        requires
            read_defined(old(self)@, address),
        ensures
            (final(self)@, r) == spec_mem_get(old(self)@, address),
    {
        if address == self.uart_address {
            self.uart.rx_read()
        } else if address == self.uart_address + 4 {
            self.uart.lsr()
        } else {
            match self.ram.get(&address) {
                Some(b) => *b,
                None => 0,
            }
        }
    }

    /// Writes a byte.
    pub fn set(&mut self, address: u32, value: u8)
        ensures
            final(self)@ == spec_mem_set(old(self)@, address, value),
    {
        if address == self.uart_address {
            self.uart.tx_write(value);
        }
        self.ram.insert(address, value);
    }

    /// The byte at an address, without side effects (used by the user interface).
    pub fn preview(&self, address: u32) -> (r: u8)
        requires
            read_defined(self@, address),
        ensures
            r == spec_mem_preview(self@, address),
    {
        if address == self.uart_address {
            self.uart.rx_peek()
        } else if address == self.uart_address + 4 {
            self.uart.lsr()
        } else {
            match self.ram.get(&address) {
                Some(b) => *b,
                None => 0,
            }
        }
    }

    /// The number of plain memory bytes that hold a value.
    pub fn len(&self) -> (r: usize)
        ensures
            r == self@.ram.len(),
    {
        self.ram.len()
    }

    /// Whether the enabled lanes of a word access at `address` fit below the top of memory.
    pub fn word_fits(address: u32, byte_enable: [bool; 4]) -> (r: bool)
        ensures
            r == lanes_fit(address, byte_enable@, 4),
    {
        let mut i: u32 = 0;
        while i < 4
            invariant
                i <= 4,
                lanes_fit(address, byte_enable@, i as int),
            decreases 4 - i,
        {
            if byte_enable[i as usize] && address > u32::MAX - i {
                assert(!lanes_fit(address, byte_enable@, 4)) by {
                    assert(byte_enable@[i as int]);
                }
                return false;
            }
            i += 1;
        }
        true
    }

    /// Whether a word can be read at `address` with the given lanes (see `read_word_defined`).
    pub fn can_read_word(&self, address: u32, byte_enable: [bool; 4]) -> (r: bool)
        ensures
            r == read_word_defined(self@, address, byte_enable@),
    {
        if !MemoryMappedIO::word_fits(address, byte_enable) {
            return false;
        }
        let mut i: u32 = 0;
        while i < 4
            invariant
                i <= 4,
                lanes_fit(address, byte_enable@, 4),
                byte_enable@.len() == 4,
                forall|k: int|
                    0 <= k < i && byte_enable@[k] ==> read_defined(self@, (address + k) as u32),
            decreases 4 - i,
        {
            if byte_enable[i as usize] {
                let a: u32 = address + i;
                if a != self.uart_address && self.uart_address > u32::MAX - 4 {
                    assert(!read_word_defined(self@, address, byte_enable@)) by {
                        assert(byte_enable@[i as int]);
                    }
                    return false;
                }
            }
            i += 1;
        }
        true
    }


    /// Writes the enabled bytes of a word, least significant first, to consecutive addresses.
    pub fn write_word(&mut self, address: u32, value: u32, byte_enable: [bool; 4])
        requires
            lanes_fit(address, byte_enable@, 4),
        ensures
            final(self)@ == spec_mem_write_word(old(self)@, address, value, byte_enable@),
    {
        let ghost start = self@;
        let mut i: usize = 0;
        while i < 4
            invariant
                i <= 4,
                lanes_fit(address, byte_enable@, 4),
                self@ == spec_write_lanes(start, address, value, byte_enable@, i as nat),
            decreases 4 - i,
        {
            if byte_enable[i] {
                let shift: u32 = 8 * (i as u32);
                let byte: u8 = ((value >> shift) & 0xff) as u8;
                self.set(address + i as u32, byte);
            }
            i = i + 1;
        }
    }

    /// Reads the enabled bytes of a word from consecutive addresses (a disabled byte reads as
    /// zero) and assembles them, the first the least significant.
    pub fn read_word(&mut self, address: u32, byte_enable: [bool; 4]) -> (r: u32)
        requires
            read_word_defined(old(self)@, address, byte_enable@),
        ensures
            (final(self)@, r) == spec_mem_read_word(old(self)@, address, byte_enable@),
    {
        let ghost start = self@;
        let mut bytes: Vec<u8> = Vec::new();
        let mut i: usize = 0;
        while i < 4
            invariant
                i <= 4,
                bytes.len() == i,
                read_word_defined(start, address, byte_enable@),
                (self@, bytes@) == spec_read_lanes(start, address, byte_enable@, i as nat),
                self@.uart_address == start.uart_address,
            decreases 4 - i,
        {
            if byte_enable[i] {
                let b = self.get(address + i as u32);
                bytes.push(b);
            } else {
                bytes.push(0);
            }
            i = i + 1;
        }
        (bytes[0] as u32) | ((bytes[1] as u32) << 8u32) | ((bytes[2] as u32) << 16u32) | ((
        bytes[3] as u32) << 24u32)
    }

    /// Replaces the UART's input bytes.
    pub fn set_serial_input(&mut self, data: &[u8])
        ensures
            final(self)@ == (MemState {
                uart: UartState { input_buffer: data@, ..old(self)@.uart },
                ..old(self)@
            }),
    {
        self.uart.set_input(data);
    }

    /// The address of the UART's data register.
    pub fn uart_address(&self) -> (r: u32)
        ensures
            r == self@.uart_address,
    {
        self.uart_address
    }


    /// The UART's input bytes.
    pub fn get_serial_input(&self) -> (r: &[u8])
        ensures
            r@ == self@.uart.input_buffer,
    {
        self.uart.get_input()
    }

    /// How many input bytes the UART has received.
    pub fn get_serial_cursor(&self) -> (r: usize)
        ensures
            r == self@.uart.rx_cursor,
    {
        self.uart.get_cursor()
    }

    /// The bytes the UART has transmitted.
    pub fn get_serial_output(&self) -> (r: &[u8])
        ensures
            r@ == self@.uart.output_buffer,
    {
        self.uart.get_output()
    }

    /// Clocks the UART by one cycle.
    pub fn clock(&mut self)
        ensures
            final(self)@ == spec_mem_clock(old(self)@),
    {
        self.uart = self.uart.clock();
    }
}

impl Clone for MemoryMappedIO {
    fn clone(&self) -> (r: Self)
        ensures
            r@ == self@,
    {
        MemoryMappedIO { ram: self.ram.clone(), uart_address: self.uart_address, uart: self.uart.clone() }
    }
}

} // verus!
