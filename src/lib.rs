//! Register definitions of the 16550 UART, with the bitfield views of each register
//! and the transfer routines built on them.
pub mod bits;
mod bus;
mod fcr;
mod ier;
mod iir;
mod lcr;
mod lsr;
mod mcr;
mod msr;
mod uart;
mod width;

pub use bus::{Access, Bus, Reg, SimulatedBlock};
pub use fcr::{
    is_fifo_control, lemma_trigger_level_round_trip, trigger_level_of, FifoControl, TriggerLevel,
};
pub use ier::InterruptTypes;
pub use iir::{
    cause_code, cause_of, is_documented_code, InterruptIdentification, PendingInterrupt,
};
pub use lcr::{
    char_len_of, is_line_control_flag, lemma_line_control_fields, parity_of, CharLen, LineControl,
    PARITY,
};
pub use lsr::LineStatus;
pub use mcr::ModemControl;
pub use msr::ModemStatus;
pub use uart::{
    divisor_accesses, is_receive_pass, is_status_load, is_transmit_pass, lemma_divisor_accesses,
    lemma_receive_takes_ready_count, lemma_transmit_sends_ready_count, ready_for_exactly,
    statuses_read, Uart16550, IER, IIR_FCR, LCR, LSR, MCR, MSR, RBR_THR,
};
pub use width::{lemma_width_transparent, Register};
