//! Interrupt routing.

use vstd::prelude::*;
use crate::bits::{has_bits, lemma_set_has_bits};

verus! {

/// Content of the interrupt map register: which events drive which interrupt pin.
#[derive(Copy, Clone, Debug, PartialEq, Eq, Structural)]
pub struct InterruptConfig(pub u8);

impl InterruptConfig {
    /// The event selected by the bits of `mask` is routed to its pin.
    pub open spec fn routes(self, mask: u8) -> bool {
        has_bits(self.0, mask)
    }

    /// No interrupts are enabled on pins INT1 and INT2.
    pub fn all_off() -> (c: Self)
        ensures
            c.0 == 0,
    {
        Self(0)
    }

    /// All the interrupts are enabled on pins INT1 and INT2.
    pub fn all_on() -> (c: Self)
        ensures
            c.0 == 0xFF,
    {
        Self(0xFF)
    }

    /// Enable activity interrupt on pin INT2
    pub fn with_activity_on_int2(&mut self) -> (c: Self)
        ensures
            final(self).0 == old(self).0 | 0x80,
            c == *final(self),
            c.routes(0x80),
    {
        proof {
            lemma_set_has_bits(self.0, 0x80);
        }
        self.0 |= 0x80;
        *self
    }

    /// Enable activity interrupt on pin INT1
    pub fn with_activity_on_int1(&mut self) -> (c: Self)
        ensures
            final(self).0 == old(self).0 | 0x08,
            c == *final(self),
            c.routes(0x08),
    {
        proof {
            lemma_set_has_bits(self.0, 0x08);
        }
        self.0 |= 0x08;
        *self
    }

    /// Enable fifo overrun interrupt on pin INT2
    pub fn with_fifo_overrun_on_int2(&mut self) -> (c: Self)
        ensures
            final(self).0 == old(self).0 | 0x40,
            c == *final(self),
            c.routes(0x40),
    {
        proof {
            lemma_set_has_bits(self.0, 0x40);
        }
        self.0 |= 0x40;
        *self
    }

    /// Enable fifo overrun interrupt on pin INT1
    pub fn with_fifo_overrun_on_int1(&mut self) -> (c: Self)
        ensures
            final(self).0 == old(self).0 | 0x04,
            c == *final(self),
            c.routes(0x04),
    {
        proof {
            lemma_set_has_bits(self.0, 0x04);
        }
        self.0 |= 0x04;
        *self
    }

    /// Enable fifo full interrupt on pin INT2
    pub fn with_fifo_full_on_int2(&mut self) -> (c: Self)
        ensures
            final(self).0 == old(self).0 | 0x20,
            c == *final(self),
            c.routes(0x20),
    {
        proof {
            lemma_set_has_bits(self.0, 0x20);
        }
        self.0 |= 0x20;
        *self
    }

    /// Enable fifo full interrupt on pin INT1
    pub fn with_fifo_full_on_int1(&mut self) -> (c: Self)
        ensures
            final(self).0 == old(self).0 | 0x02,
            c == *final(self),
            c.routes(0x02),
    {
        proof {
            lemma_set_has_bits(self.0, 0x02);
        }
        self.0 |= 0x02;
        *self
    }

    /// Enable data ready interrupt on pin INT2
    pub fn with_data_ready_on_int2(&mut self) -> (c: Self)
        ensures
            final(self).0 == old(self).0 | 0x10,
            c == *final(self),
            c.routes(0x10),
    {
        proof {
            lemma_set_has_bits(self.0, 0x10);
        }
        self.0 |= 0x10;
        *self
    }

    /// Enable data ready interrupt on pin INT1
    pub fn with_data_ready_on_int1(&mut self) -> (c: Self)
        ensures
            final(self).0 == old(self).0 | 0x01,
            c == *final(self),
            c.routes(0x01),
    {
        proof {
            lemma_set_has_bits(self.0, 0x01);
        }
        self.0 |= 0x01;
        *self
    }
}

impl Default for InterruptConfig {
    /// No interrupts are enabled on pins INT1 and INT2.
    fn default() -> (c: Self)
        ensures
            c.0 == 0,
    {
        Self(0)
    }
}

/// Polarity of the interrupt pins.
#[derive(Copy, Clone, Debug, PartialEq, Eq, Structural)]
pub enum InterruptPolarity {
    ActiveLow,
    ActiveHigh,
}

impl InterruptPolarity {
    /// Value of the polarity bit of the range register.
    pub open spec fn spec_val(self) -> u8 {
        match self {
            InterruptPolarity::ActiveLow => 0,
            InterruptPolarity::ActiveHigh => 1,
        }
    }

    /// Value of the polarity bit of the range register.
    #[verifier::when_used_as_spec(spec_val)]
    pub fn val(self) -> (v: u8)
        ensures
            v == self.spec_val(),
    {
        match self {
            InterruptPolarity::ActiveLow => 0,
            InterruptPolarity::ActiveHigh => 1,
        }
    }
}

} // verus!
