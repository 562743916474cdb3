//! A 16550-style serial port: one byte in, one byte out, a status register and
//! an interrupt line.

use vstd::prelude::*;
use crate::alu::add_spec;
use crate::bus::{UART_BASE, UART_SIZE};
use crate::exceptions::Exception;

verus! {

/// The interrupt request number of the serial port.
pub const UART_IRQ: u64 = 10;

/// Receive holding register: the byte that came in. Read only.
pub const UART_RHR: u64 = 0;

/// Transmit holding register: the byte to send. Write only, at the address of
/// the receive holding register.
pub const UART_THR: u64 = 0;

/// Line control register.
pub const UART_LCR: u64 = 3;

/// Line status register.
pub const UART_LSR: u64 = 5;

/// Bit 0 of the line status register: a received byte waits to be read.
pub const MASK_UART_LSR_RX: u8 = 0x01;

/// Bit 5 of the line status register: the port accepts a byte to send.
pub const MASK_UART_LSR_TX: u8 = 0x20;

/// The serial port.
pub struct Uart {
    /// The registers that are read back, by offset.
    pub uart: [u8; 256],
    /// The transmit holding register.
    pub thr: u8,
    /// A byte in the transmit holding register waits to leave.
    pub new_tx: bool,
    /// A byte has come in since the interrupt line was last sampled.
    pub interrupt: bool,
}

/// The state of the serial port.
#[verifier::ext_equal]
pub struct UartView {
    pub regs: Seq<u8>,
    pub thr: u8,
    pub new_tx: bool,
    pub interrupt: bool,
}

impl View for Uart {
    type V = UartView;

    open spec fn view(&self) -> UartView {
        UartView {
            regs: self.uart@,
            thr: self.thr,
            new_tx: self.new_tx,
            interrupt: self.interrupt,
        }
    }
}

/// The byte that a character is received as: its low eight bits.
pub open spec fn byte_of_char(c: char) -> u8 {
    c as u8
}

/// The byte that a stored value carries: its low eight bits.
pub open spec fn byte_of_value(val: u64) -> u8 {
    val as u8
}

impl UartView {
    /// The state after reset: every register zero but the line status, which
    /// says that the port accepts a byte.
    pub open spec fn initial() -> UartView {
        UartView {
            regs: Seq::new(256, |i: int| if i == UART_LSR { MASK_UART_LSR_TX } else { 0u8 }),
            thr: 0,
            new_tx: false,
            interrupt: false,
        }
    }

    /// There are 256 registers, and the line status says that the port accepts
    /// a byte.
    pub open spec fn wf(self) -> bool {
        self.regs.len() == 256 && self.regs[UART_LSR as int] & MASK_UART_LSR_TX
            == MASK_UART_LSR_TX
    }

    /// A received byte waits to be read.
    pub open spec fn rx_ready(self) -> bool {
        self.regs[UART_LSR as int] & MASK_UART_LSR_RX != 0
    }

    /// The port after a load of `size` bits at offset `addr`, and what the load
    /// returns.
    ///
    /// Only 8-bit loads within the port's 256 offsets are answered; any other is
    /// an access fault at the bus address. A load of the receive holding register
    /// returns the received byte and clears the receive flag of the line status.
    pub open spec fn load_spec(self, addr: u64, size: u64) -> (UartView, Result<u64, Exception>) {
        if size != 8 || addr >= UART_SIZE {
            (self, Err(Exception::LoadAccessFault(add_spec(addr, UART_BASE))))
        } else if addr == UART_RHR {
            (
                UartView {
                    regs: self.regs.update(
                        UART_LSR as int,
                        self.regs[UART_LSR as int] & !MASK_UART_LSR_RX,
                    ),
                    ..self
                },
                Ok(self.regs[UART_RHR as int] as u64),
            )
        } else {
            (self, Ok(self.regs[addr as int] as u64))
        }
    }

    /// The port after a store of the low 8 bits of `val` at offset `addr`, and
    /// what the store returns.
    ///
    /// Only 8-bit stores within the port's 256 offsets are taken; any other is an
    /// access fault at the bus address that changes nothing. A store to the
    /// transmit holding register queues the byte for the host. A store to the line
    /// status keeps the transmit flag set.
    pub open spec fn store_spec(self, addr: u64, val: u64, size: u64) -> (
        UartView,
        Result<(), Exception>,
    ) {
        if size != 8 || addr >= UART_SIZE {
            (self, Err(Exception::StoreAMOAccessFault(add_spec(addr, UART_BASE))))
        } else if addr == UART_THR {
            (UartView { thr: byte_of_value(val), new_tx: true, ..self }, Ok(()))
        } else if addr == UART_LSR {
            (
                UartView {
                    regs: self.regs.update(addr as int, byte_of_value(val) | MASK_UART_LSR_TX),
                    ..self
                },
                Ok(()),
            )
        } else {
            (UartView { regs: self.regs.update(addr as int, byte_of_value(val)), ..self }, Ok(()))
        }
    }

    /// The port after the host offers `rx`: the byte is taken if one is offered
    /// and none waits to be read.
    pub open spec fn receive(self, rx: Option<char>) -> UartView {
        if !self.rx_ready() && rx is Some {
            UartView {
                regs: self.regs.update(UART_RHR as int, byte_of_char(rx->Some_0)).update(
                    UART_LSR as int,
                    self.regs[UART_LSR as int] | MASK_UART_LSR_RX,
                ),
                interrupt: true,
                ..self
            }
        } else {
            self
        }
    }

    /// The port after one tick in which the host offers `rx`, and the byte that
    /// leaves for the host: the queued byte, if one waits.
    pub open spec fn tick_spec(self, rx: Option<char>) -> (UartView, Option<char>) {
        let received = self.receive(rx);
        if received.new_tx {
            (UartView { new_tx: false, ..received }, Some(received.thr as char))
        } else {
            (received, None)
        }
    }

    /// The port after the interrupt line is sampled: the line is lowered.
    pub open spec fn sampled(self) -> UartView {
        UartView { interrupt: false, ..self }
    }
}

/// Setting or clearing the receive flag, or writing a byte with the transmit
/// flag set, leaves the transmit flag set.
proof fn lemma_tx_flag_kept(x: u8, v: u8)
    by (bit_vector)
    ensures
        (v | 0x20) & 0x20 == 0x20,
        x & 0x20 == 0x20 ==> ((x & !0x01u8) & 0x20 == 0x20 && (x | 0x01) & 0x20 == 0x20),
        0x20u8 & 0x20u8 == 0x20u8,
{
}

impl Uart {
    pub fn new() -> (r: Self)
        ensures
            r@ == UartView::initial(),
            r@.wf(),
    {
        let mut uart = [0u8;256];
        uart[UART_LSR as usize] = MASK_UART_LSR_TX;
        proof {
            lemma_tx_flag_kept(0, 0);
        }
        Self { uart, thr: 0, new_tx: false, interrupt: false }
    }

    pub fn reset(&mut self)
        ensures
            final(self)@ == UartView::initial(),
            final(self)@.wf(),
    {
        self.uart = [0u8;256];
        self.uart[UART_LSR as usize] = MASK_UART_LSR_TX;
        self.thr = 0;
        self.new_tx = false;
        self.interrupt = false;
        proof {
            lemma_tx_flag_kept(0, 0);
        }
    }

    /// Exchanges bytes with the host: takes `rx` if a byte is offered and none
    /// waits to be read, and hands out the byte that the guest queued, if any.
    pub fn tick(&mut self, rx: Option<char>) -> (tx: Option<char>)
        ensures
            (final(self)@, tx) == old(self)@.tick_spec(rx),
            old(self)@.wf() ==> final(self)@.wf(),
    {
        if self.uart[UART_LSR as usize] & MASK_UART_LSR_RX == 0 {
            if let Some(rx_char) = rx {
                proof {
                    lemma_tx_flag_kept(self.uart[UART_LSR as int], 0);
                }
                self.uart[UART_RHR as usize] = #[verifier::truncate]
                (rx_char as u8);
                self.interrupt = true;
                self.uart[UART_LSR as usize] = self.uart[UART_LSR as usize] | MASK_UART_LSR_RX;
            }
        }
        if self.new_tx {
            self.new_tx = false;
            return Some(self.thr as char);
        }
        None
    }

    /// Samples the interrupt line and lowers it.
    pub fn is_interrupting(&mut self) -> (r: bool)
        ensures
            r == old(self)@.interrupt,
            final(self)@ == old(self)@.sampled(),
    {
        let r = self.interrupt;
        self.interrupt = false;
        r
    }

    pub fn load(&mut self, addr: u64, size: u64) -> (r: Result<u64, Exception>)
        ensures
            (final(self)@, r) == old(self)@.load_spec(addr, size),
            old(self)@.wf() ==> final(self)@.wf(),
    {
        if size != 8 || addr >= UART_SIZE {
            return Err(Exception::LoadAccessFault(addr.wrapping_add(UART_BASE)));
        }
        match addr {
            UART_RHR => {
                proof {
                    lemma_tx_flag_kept(self.uart[UART_LSR as int], 0);
                }
                self.uart[UART_LSR as usize] = self.uart[UART_LSR as usize] & !MASK_UART_LSR_RX;
                Ok(self.uart[UART_RHR as usize] as u64)
            },
            _ => Ok(self.uart[addr as usize] as u64),
        }
    }

    pub fn store(&mut self, addr: u64, val: u64, size: u64) -> (r: Result<(), Exception>)
        ensures
            (final(self)@, r) == old(self)@.store_spec(addr, val, size),
            old(self)@.wf() ==> final(self)@.wf(),
    {
        if size != 8 || addr >= UART_SIZE {
            return Err(Exception::StoreAMOAccessFault(addr.wrapping_add(UART_BASE)));
        }
        let byte = #[verifier::truncate]
        (val as u8);
        match addr {
            UART_THR => {
                self.new_tx = true;
                self.thr = byte;
            },
            UART_LSR => {
                proof {
                    lemma_tx_flag_kept(0, byte);
                }
                self.uart[addr as usize] = byte | MASK_UART_LSR_TX;
            },
            _ => {
                self.uart[addr as usize] = byte;
            },
        }
        Ok(())
    }
}

} // verus!
