use vstd::prelude::*;
use vstd::slice::slice_to_vec;

verus! {

/// The bits of the line status register.
pub enum LSRBitmask {
    /// Set when the receive buffer holds a byte that has not been read.
    ReceiveComplete,
    /// Set when the transmit buffer can take a byte.
    DataRegisterEmpty,
    /// Set when the transmission is complete.
    TransmitComplete,
    /// Error bit (not used by this UART).
    Error,
}

pub open spec fn spec_lsr_mask(b: LSRBitmask) -> u8 {
    match b {
        LSRBitmask::ReceiveComplete => 0x01,
        LSRBitmask::DataRegisterEmpty => 0x04,
        LSRBitmask::TransmitComplete => 0x08,
        LSRBitmask::Error => 0x80,
    }
}

impl LSRBitmask {
    /// The bit of this flag in the line status register.
    pub fn mask(&self) -> (m: u8)
        ensures
            m == spec_lsr_mask(*self),
    {
        match self {
            LSRBitmask::ReceiveComplete => 0x01,
            LSRBitmask::DataRegisterEmpty => 0x04,
            LSRBitmask::TransmitComplete => 0x08,
            LSRBitmask::Error => 0x80,
        }
    }
}

/// Line status bit: unread data in the receive buffer.
pub const LSR_RX_COMPLETE: u8 = 0x01;

/// Line status bit: the transmit buffer is empty.
pub const LSR_DATA_EMPTY: u8 = 0x04;

/// Line status bit: transmission complete.
pub const LSR_TX_COMPLETE: u8 = 0x08;

/// A serial port: bytes written to the transmit buffer are moved to the output one at a time,
/// and bytes of the input are moved into the receive buffer one at a time, each move taking
/// `uart_cycle_count` clock cycles.
#[derive(Debug)]
pub struct Uart {
    pub uart_cycle_count: u32,
    tx_buffer: u8,
    rx_buffer: u8,
    lsr: u8,
    tx_delay: u32,
    rx_delay: u32,
    rx_cursor: usize,
    output_buffer: Vec<u8>,
    input_buffer: Vec<u8>,
}

/// The state of a UART as plain values.
pub struct UartState {
    pub uart_cycle_count: u32,
    pub tx_buffer: u8,
    pub rx_buffer: u8,
    pub lsr: u8,
    pub tx_delay: u32,
    pub rx_delay: u32,
    pub rx_cursor: usize,
    pub output_buffer: Seq<u8>,
    pub input_buffer: Seq<u8>,
}

impl View for Uart {
    type V = UartState;

    closed spec fn view(&self) -> UartState {
        UartState {
            uart_cycle_count: self.uart_cycle_count,
            tx_buffer: self.tx_buffer,
            rx_buffer: self.rx_buffer,
            lsr: self.lsr,
            tx_delay: self.tx_delay,
            rx_delay: self.rx_delay,
            rx_cursor: self.rx_cursor,
            output_buffer: self.output_buffer@,
            input_buffer: self.input_buffer@,
        }
    }
}

/// A fresh UART: both buffers empty, the transmit complete and data register empty flags set,
/// the receive complete flag clear (nothing has been received), no input and no output.
pub open spec fn spec_uart_new(uart_cycle_count: u32) -> UartState {
    UartState {
        uart_cycle_count,
        tx_buffer: 0,
        rx_buffer: 0,
        lsr: 0x0c,
        tx_delay: 0,
        rx_delay: 0,
        rx_cursor: 0,
        output_buffer: Seq::empty(),
        input_buffer: Seq::empty(),
    }
}

/// Writing a byte to the transmit buffer clears the data-register-empty flag.
pub open spec fn spec_tx_write(u: UartState, data: u8) -> UartState {
    UartState { lsr: u.lsr & !LSR_DATA_EMPTY, tx_buffer: data, ..u }
}

/// Reading the receive buffer clears the receive-complete flag.
pub open spec fn spec_rx_read(u: UartState) -> UartState {
    UartState { lsr: u.lsr & !LSR_RX_COMPLETE, ..u }
}

/// The transmit side of one clock cycle.
pub open spec fn spec_uart_tx_step(u: UartState, next: UartState) -> UartState {
    if u.tx_delay == 0 {
        if u.lsr & LSR_DATA_EMPTY == 0 {
            UartState {
                output_buffer: next.output_buffer.push(next.tx_buffer),
                tx_buffer: 0,
                lsr: (next.lsr | LSR_DATA_EMPTY) & !LSR_TX_COMPLETE,
                tx_delay: next.uart_cycle_count,
                ..next
            }
        } else {
            UartState { lsr: next.lsr | LSR_TX_COMPLETE, ..next }
        }
    } else {
        next
    }
}

/// The receive side of one clock cycle.
pub open spec fn spec_uart_rx_step(u: UartState, next: UartState) -> UartState {
    if u.rx_delay == 0 && u.lsr & LSR_RX_COMPLETE == 0 && u.rx_cursor < next.input_buffer.len() {
        UartState {
            rx_buffer: next.input_buffer[u.rx_cursor as int],
            rx_cursor: (u.rx_cursor + 1) as usize,
            lsr: next.lsr | LSR_RX_COMPLETE,
            rx_delay: next.uart_cycle_count,
            ..next
        }
    } else {
        next
    }
}

/// One clock cycle of the UART: both delays count down; when the transmit delay has run out
/// and a byte waits in the transmit buffer it moves to the output; when the receive delay has
/// run out, the receive buffer has been read and input remains, the next input byte moves into
/// the receive buffer.
pub open spec fn spec_uart_clock(u: UartState) -> UartState {
    let counted = UartState {
        tx_delay: if u.tx_delay > 0 { (u.tx_delay - 1) as u32 } else { 0 },
        rx_delay: if u.rx_delay > 0 { (u.rx_delay - 1) as u32 } else { 0 },
        ..u
    };
    spec_uart_rx_step(u, spec_uart_tx_step(u, counted))
}

/// The receive complete flag is set only once a byte has entered the receive buffer: it is
/// clear on a fresh UART, and a clock cycle, a transmit write or a read of the receive buffer
/// keeps it clear until a byte of the input has been received.
pub proof fn lemma_rx_flag_means_received(u: UartState, data: u8)
    requires
        u.lsr & LSR_RX_COMPLETE != 0 ==> u.rx_cursor > 0,
        u.rx_cursor < usize::MAX,
    ensures
        spec_uart_new(u.uart_cycle_count).lsr & LSR_RX_COMPLETE == 0,
        spec_uart_clock(u).lsr & LSR_RX_COMPLETE != 0 ==> spec_uart_clock(u).rx_cursor > 0,
        spec_tx_write(u, data).lsr & LSR_RX_COMPLETE != 0 ==> spec_tx_write(u, data).rx_cursor > 0,
        spec_rx_read(u).lsr & LSR_RX_COMPLETE == 0,
{
    let l = u.lsr;
    assert(0x0cu8 & 0x01u8 == 0) by (bit_vector);
    assert(l & !0x01u8 & 0x01u8 == 0) by (bit_vector);
    assert((l & !0x04u8) & 0x01u8 == l & 0x01u8) by (bit_vector);
    assert(((l | 0x04u8) & !0x08u8) & 0x01u8 == l & 0x01u8) by (bit_vector);
    assert((l | 0x08u8) & 0x01u8 == l & 0x01u8) by (bit_vector);
}

/// A clock cycle never overwrites a received byte that has not been read, and receives the
/// input one byte at a time, in order and without gaps: while the receive-complete flag is set
/// the receive buffer and cursor stay as they are; otherwise either they stay, or the byte at
/// the cursor enters the receive buffer, the cursor moves on by exactly one and the flag is set.
pub proof fn lemma_uart_receives_in_order(u: UartState)
    requires
        u.rx_cursor < usize::MAX,
    ensures
        ({
            let n = spec_uart_clock(u);
            &&& n.input_buffer == u.input_buffer
            &&& u.lsr & LSR_RX_COMPLETE != 0 ==> n.rx_buffer == u.rx_buffer && n.rx_cursor == u.rx_cursor
            &&& (n.rx_buffer == u.rx_buffer && n.rx_cursor == u.rx_cursor) || ({
                &&& u.lsr & LSR_RX_COMPLETE == 0
                &&& u.rx_cursor < u.input_buffer.len()
                &&& n.rx_cursor == u.rx_cursor + 1
                &&& n.rx_buffer == u.input_buffer[u.rx_cursor as int]
                &&& n.lsr & LSR_RX_COMPLETE != 0
            })
        }),
{
    let t = spec_uart_tx_step(
        u,
        UartState {
            tx_delay: if u.tx_delay > 0 { (u.tx_delay - 1) as u32 } else { 0 },
            rx_delay: if u.rx_delay > 0 { (u.rx_delay - 1) as u32 } else { 0 },
            ..u
        },
    );
    let l = t.lsr;
    assert((l | 0x01u8) & 0x01u8 != 0) by (bit_vector);
}

/// A UART that is ready moves bytes on in the next clock cycle: a byte written to the transmit
/// buffer when no transmission is under way is appended to the output, the data register is
/// empty again and the next transmission waits `uart_cycle_count` cycles; and when the receive
/// buffer has been read and no reception is under way, the next input byte is received.
pub proof fn lemma_uart_moves_bytes_when_ready(u: UartState, data: u8)
    requires
        u.rx_cursor < usize::MAX,
    ensures
        u.tx_delay == 0 ==> ({
            let n = spec_uart_clock(spec_tx_write(u, data));
            &&& n.output_buffer == u.output_buffer.push(data)
            &&& n.lsr & LSR_DATA_EMPTY != 0
            &&& n.tx_delay == u.uart_cycle_count
        }),
        u.rx_delay == 0 && u.lsr & LSR_RX_COMPLETE == 0 && u.rx_cursor < u.input_buffer.len() ==> ({
            let n = spec_uart_clock(u);
            &&& n.rx_cursor == u.rx_cursor + 1
            &&& n.rx_buffer == u.input_buffer[u.rx_cursor as int]
            &&& n.lsr & LSR_RX_COMPLETE != 0
        }),
{
    let l = u.lsr;
    let t: u8 = ((l & !0x04u8) | 0x04u8) & !0x08u8;
    assert((l & !0x04u8) & 0x04u8 == 0 && t & 0x04u8 != 0 && (t | 0x01u8) & 0x04u8 != 0 && (l
        | 0x01u8) & 0x01u8 != 0) by (bit_vector)
        requires
            t == ((l & !0x04u8) | 0x04u8) & !0x08u8,
    ;
    lemma_uart_receives_in_order(u);
    let w = spec_tx_write(u, data);
    let v = w.lsr;
    assert(v & 0x04u8 == 0);
    assert(((v | 0x04u8) & !0x08u8) == t) by (bit_vector)
        requires
            v == l & !0x04u8,
            t == ((l & !0x04u8) | 0x04u8) & !0x08u8,
    ;
}

/// The output of a UART only grows: a clock cycle either keeps it or appends the byte waiting
/// in the transmit buffer. The receive cursor never passes the end of the input.
pub proof fn lemma_uart_clock_output(u: UartState)
    requires
        u.rx_cursor <= u.input_buffer.len() <= usize::MAX,
    ensures
        spec_uart_clock(u).output_buffer == u.output_buffer || spec_uart_clock(u).output_buffer
            == u.output_buffer.push(u.tx_buffer),
        spec_uart_clock(u).input_buffer == u.input_buffer,
        spec_uart_clock(u).rx_cursor <= spec_uart_clock(u).input_buffer.len(),
        spec_uart_clock(u).rx_cursor == u.rx_cursor || spec_uart_clock(u).rx_cursor == u.rx_cursor
            + 1,
{
}

impl Uart {
    /// A fresh UART that takes `uart_cycle_count` cycles to move each byte.
    pub fn new(uart_cycle_count: u32) -> (r: Self)
        ensures
            r@ == spec_uart_new(uart_cycle_count),
    {
        let r = Self {
            uart_cycle_count,
            tx_buffer: 0u8,
            rx_buffer: 0u8,
            lsr: LSRBitmask::TransmitComplete.mask() | LSRBitmask::DataRegisterEmpty.mask(),
            tx_delay: 0,
            rx_delay: 0,
            rx_cursor: 0,
            output_buffer: Vec::new(),
            input_buffer: Vec::new(),
        };
        assert(0x08u8 | 0x04u8 == 0x0cu8) by (bit_vector);
        r
    }

    /// The line status register.
    pub fn lsr(&self) -> (r: u8)
        ensures
            r == self@.lsr,
    {
        self.lsr
    }

    /// Writes a byte to the transmit buffer.
    pub fn tx_write(&mut self, data: u8)
        ensures
            final(self)@ == spec_tx_write(old(self)@, data),
    {
        self.lsr = self.lsr & !LSRBitmask::DataRegisterEmpty.mask();
        self.tx_buffer = data;
    }

    /// Reads the receive buffer.
    pub fn rx_read(&mut self) -> (r: u8)
        ensures
            r == old(self)@.rx_buffer,
            final(self)@ == spec_rx_read(old(self)@),
    {
        self.lsr = self.lsr & !LSRBitmask::ReceiveComplete.mask();
        self.rx_buffer
    }

    /// The receive buffer, without side effects.
    pub fn rx_peek(&self) -> (r: u8)
        ensures
            r == self@.rx_buffer,
    {
        self.rx_buffer
    }

    /// The bytes transmitted so far.
    pub fn get_output(&self) -> (r: &[u8])
        ensures
            r@ == self@.output_buffer,
    {
        self.output_buffer.as_slice()
    }

    /// The input bytes the UART receives from.
    pub fn get_input(&self) -> (r: &[u8])
        ensures
            r@ == self@.input_buffer,
    {
        self.input_buffer.as_slice()
    }

    /// Replaces the input bytes; nothing else changes.
    pub fn set_input(&mut self, data: &[u8])
        ensures
            final(self)@ == (UartState { input_buffer: data@, ..old(self)@ }),
    {
        self.input_buffer.clear();
        self.input_buffer = slice_to_vec(data);
    }

    /// How many input bytes have been moved into the receive buffer.
    pub fn get_cursor(&self) -> (r: usize)
        ensures
            r == self@.rx_cursor,
    {
        self.rx_cursor
    }

    /// The UART after one clock cycle.
    pub fn clock(&self) -> (next: Self)
        ensures
            next@ == spec_uart_clock(self@),
    {
        let mut next_uart = self.clone();
        next_uart.tx_delay = if self.tx_delay > 0 { self.tx_delay - 1 } else { 0 };
        next_uart.rx_delay = if self.rx_delay > 0 { self.rx_delay - 1 } else { 0 };
        if self.tx_delay == 0 {
            if self.lsr & LSRBitmask::DataRegisterEmpty.mask() == 0 {
                // a byte was written: move it into the transmit shift register
                let byte = next_uart.tx_buffer;
                next_uart.output_buffer.push(byte);
                next_uart.tx_buffer = 0;
                next_uart.lsr = next_uart.lsr | LSRBitmask::DataRegisterEmpty.mask();
                next_uart.lsr = next_uart.lsr & !LSRBitmask::TransmitComplete.mask();
                next_uart.tx_delay = next_uart.uart_cycle_count;
            } else {
                next_uart.lsr = next_uart.lsr | LSRBitmask::TransmitComplete.mask();
            }
        }
        if self.rx_delay == 0 {
            if self.lsr & LSRBitmask::ReceiveComplete.mask() == 0 {
                // the receive buffer was read: move the next input byte into it
                if self.rx_cursor < next_uart.input_buffer.len() {
                    let data = next_uart.input_buffer[self.rx_cursor];
                    next_uart.rx_buffer = data;
                    next_uart.rx_cursor = self.rx_cursor + 1;
                    next_uart.lsr = next_uart.lsr | LSRBitmask::ReceiveComplete.mask();
                    next_uart.rx_delay = next_uart.uart_cycle_count;
                }
            }
        }
        next_uart
    }
}

impl Clone for Uart {
    fn clone(&self) -> (r: Self)
        ensures
            r@ == self@,
    {
        Self {
            uart_cycle_count: self.uart_cycle_count,
            tx_buffer: self.tx_buffer,
            rx_buffer: self.rx_buffer,
            lsr: self.lsr,
            tx_delay: self.tx_delay,
            rx_delay: self.rx_delay,
            rx_cursor: self.rx_cursor,
            output_buffer: self.output_buffer.clone(),
            input_buffer: self.input_buffer.clone(),
        }
    }

}

impl Default for Uart {
    fn default() -> (r: Self)
        ensures
            r@ == spec_uart_new(20),
    {
        Uart::new(20)
    }
}

} // verus!
