//! Pending-interrupt state and arbitration: NMI, IRQ, BRK and RST flags,
//! plus the WAI (waiting) and STP (halted) modes of the WDC variant.

use vstd::prelude::*;

use crate::util::ascii_view;

verus! {

#[derive(Debug, Copy, Clone, PartialEq, Eq, Structural)]
pub enum InterruptType {
    NMI,
    IRQ,
    BRK,
    RST,
}

pub struct InterruptController {
    pub nmi: bool,
    pub irq: bool,
    pub brk: bool,
    pub reset: bool,
    pub waiting: bool,
    pub halted: bool,
}

/// Which pending source wins arbitration: none while halted, else the
/// highest-priority set flag in the order NMI, RST, BRK, IRQ.
pub open spec fn poll_choice(s: InterruptController) -> Option<InterruptType> {
    if s.halted {
        None
    } else if s.nmi {
        Some(InterruptType::NMI)
    } else if s.reset {
        Some(InterruptType::RST)
    } else if s.brk {
        Some(InterruptType::BRK)
    } else if s.irq {
        Some(InterruptType::IRQ)
    } else {
        None
    }
}

/// The controller after arbitration: RST and BRK are edge-triggered and are
/// cleared when they win; NMI and IRQ are left for the CPU to clear.
pub open spec fn poll_state(s: InterruptController) -> InterruptController {
    if s.halted || s.nmi {
        s
    } else if s.reset {
        (InterruptController { reset: false, ..s })
    } else if s.brk {
        (InterruptController { brk: false, ..s })
    } else {
        s
    }
}

/// The vector belonging to an interrupt kind; BRK shares the IRQ vector.
pub open spec fn poll_vector(
    kind: InterruptType,
    nmi_vector: u16,
    reset_vector: u16,
    irq_vector: u16,
) -> u16 {
    match kind {
        InterruptType::NMI => nmi_vector,
        InterruptType::RST => reset_vector,
        InterruptType::BRK => irq_vector,
        InterruptType::IRQ => irq_vector,
    }
}

/// The characters of the status line: one letter per set flag, a dot per
/// clear one, in the order NMI, IRQ, BRK, RST, waiting, halted.
pub open spec fn status_bytes(s: InterruptController) -> Seq<u8> {
    seq![
        ('I' as u8),
        (':' as u8),
        (if s.nmi { ('N' as u8) } else { ('.' as u8) }),
        (if s.irq { ('I' as u8) } else { ('.' as u8) }),
        (if s.brk { ('B' as u8) } else { ('.' as u8) }),
        (if s.reset { ('R' as u8) } else { ('.' as u8) }),
        (if s.waiting { ('W' as u8) } else { ('.' as u8) }),
        (if s.halted { ('H' as u8) } else { ('.' as u8) }),
    ]
}

impl Default for InterruptController {
    fn default() -> (r: Self)
        ensures
            r == (InterruptController {
                nmi: false,
                irq: false,
                brk: false,
                reset: false,
                waiting: false,
                halted: false,
            }),
    {
        InterruptController {
            nmi: false,
            irq: false,
            brk: false,
            reset: false,
            waiting: false,
            halted: false,
        }
    }
}

impl InterruptController {
    pub fn request_nmi(&mut self)
        ensures
            *final(self) == (InterruptController { nmi: true, waiting: false, ..*old(self) }),
    {
        self.nmi = true;
        self.waiting = false;
    }

    pub fn request_irq(&mut self)
        ensures
            *final(self) == (InterruptController { irq: true, waiting: false, ..*old(self) }),
    {
        self.irq = true;
        self.waiting = false;
    }

    pub fn request_brk(&mut self)
        ensures
            *final(self) == (InterruptController { brk: true, ..*old(self) }),
    {
        self.brk = true;
    }

    pub fn enter_wait(&mut self)
        ensures
            *final(self) == (InterruptController { waiting: true, ..*old(self) }),
    {
        self.waiting = true;
    }

    pub fn leave_wait(&mut self)
        ensures
            *final(self) == (InterruptController { waiting: false, ..*old(self) }),
    {
        self.waiting = false;
    }

    pub fn enter_halt(&mut self)
        ensures
            *final(self) == (InterruptController { halted: true, ..*old(self) }),
    {
        self.halted = true;
    }

    pub fn leave_halt(&mut self)
        ensures
            *final(self) == (InterruptController { halted: false, ..*old(self) }),
    {
        self.halted = false;
    }

    pub fn clear_all(&mut self)
        ensures
            *final(self) == (InterruptController {
                nmi: false,
                irq: false,
                brk: false,
                reset: false,
                ..*old(self)
            }),
    {
        self.nmi = false;
        self.irq = false;
        self.brk = false;
        self.reset = false;
    }

    pub fn handle_interrupt_with_vectors(
        &mut self,
        nmi_vector: u16,
        reset_vector: u16,
        irq_vector: u16,
    ) -> (r: Option<(InterruptType, u16)>)
        ensures
            *final(self) == poll_state(*old(self)),
            r == match poll_choice(*old(self)) {
                None => None::<(InterruptType, u16)>,
                Some(kind) => Some(
                    (kind, poll_vector(kind, nmi_vector, reset_vector, irq_vector)),
                ),
            },
    {
        if self.halted {
            return None;
        }

        if self.nmi {
            Some((InterruptType::NMI, nmi_vector))
        } else if self.reset {
            self.reset = false;
            Some((InterruptType::RST, reset_vector))
        } else if self.brk {
            self.brk = false;
            Some((InterruptType::BRK, irq_vector))
        } else if self.irq {
            Some((InterruptType::IRQ, irq_vector))
        } else {
            None
        }
    }

    pub fn status_string(&self) -> (r: String)
        ensures
            r@ == ascii_view(status_bytes(*self)),
    {
        let mut bytes: Vec<u8> = Vec::new();
        bytes.push(('I' as u8));
        bytes.push((':' as u8));
        bytes.push(if self.nmi { ('N' as u8) } else { ('.' as u8) });
        bytes.push(if self.irq { ('I' as u8) } else { ('.' as u8) });
        bytes.push(if self.brk { ('B' as u8) } else { ('.' as u8) });
        bytes.push(if self.reset { ('R' as u8) } else { ('.' as u8) });
        bytes.push(if self.waiting { ('W' as u8) } else { ('.' as u8) });
        bytes.push(if self.halted { ('H' as u8) } else { ('.' as u8) });
        proof {
            assert(bytes@ =~= status_bytes(*self));
        }
        crate::util::ascii_string(bytes)
    }
}

} // verus!
