use vstd::prelude::*;

verus! {

/// The two external interrupt lines that the buttons raise.
#[derive(Debug, Clone, Copy, PartialEq, Eq, Structural)]
pub enum Line {
    /// EXTI3: button PE3, which toggles LED PA7.
    Exti3,
    /// EXTI4: button PE4, which toggles LED PA6.
    Exti4,
}

/// One button with the LED it toggles, as the interrupt handler sees them:
/// whether each has been handed over to the handler, and the LED's output level.
#[derive(Debug, Clone, Copy, PartialEq, Eq, Structural)]
pub struct Channel {
    pub button_installed: bool,
    pub led_installed: bool,
    pub led_high: bool,
}

/// What an interrupt handler does on the hardware.
#[derive(Debug, Clone, Copy, PartialEq, Eq, Structural)]
pub enum Response {
    /// The button or the LED is not installed yet: nothing is touched.
    Ignore,
    /// Clear the button's pending bit and toggle its LED.
    ClearAndToggle,
}

/// The blinky board: PE3 with PA7 on EXTI3, PE4 with PA6 on EXTI4.
#[derive(Debug, Clone, Copy, PartialEq, Eq, Structural)]
pub struct Board {
    pub exti3: Channel,
    pub exti4: Channel,
}

impl Channel {
    /// Whether the handler finds both its button and its LED.
    pub open spec fn ready(self) -> bool {
        self.button_installed && self.led_installed
    }
}

impl Board {
    /// The channel served by `line`.
    pub open spec fn channel(self, line: Line) -> Channel {
        match line {
            Line::Exti3 => self.exti3,
            Line::Exti4 => self.exti4,
        }
    }

    /// The board with the channel of `line` replaced by `c`.
    pub open spec fn with_channel(self, line: Line, c: Channel) -> Board {
        match line {
            Line::Exti3 => Board { exti3: c, ..self },
            Line::Exti4 => Board { exti4: c, ..self },
        }
    }

    /// The handler of `line`: when its button and LED are both installed it
    /// clears the pending bit and flips the LED; otherwise it does nothing.
    pub open spec fn step(self, line: Line) -> (Board, Response) {
        let c = self.channel(line);
        if c.ready() {
            (self.with_channel(line, Channel { led_high: !c.led_high, ..c }), Response::ClearAndToggle)
        } else {
            (self, Response::Ignore)
        }
    }

    /// The board at reset: nothing handed to the handlers yet.
    pub fn new() -> (b: Board)
        ensures
            !b.exti3.button_installed && !b.exti3.led_installed && !b.exti3.led_high,
            !b.exti4.button_installed && !b.exti4.led_installed && !b.exti4.led_high,
    {
        let c = Channel { button_installed: false, led_installed: false, led_high: false };
        Board { exti3: c, exti4: c }
    }

    /// Hands both LEDs (configured as push-pull outputs, driven low) to the handlers.
    pub fn install_leds(&mut self)
        ensures
            final(self).exti3 == (Channel { led_installed: true, led_high: false, ..old(self).exti3 }),
            final(self).exti4 == (Channel { led_installed: true, led_high: false, ..old(self).exti4 }),
    {
        self.exti3.led_installed = true;
        self.exti3.led_high = false;
        self.exti4.led_installed = true;
        self.exti4.led_high = false;
    }

    /// Hands both buttons (with their interrupts enabled) to the handlers.
    pub fn install_buttons(&mut self)
        ensures
            final(self).exti3 == (Channel { button_installed: true, ..old(self).exti3 }),
            final(self).exti4 == (Channel { button_installed: true, ..old(self).exti4 }),
    {
        self.exti3.button_installed = true;
        self.exti4.button_installed = true;
    }

    /// Runs the handler of `line` and says what it does on the hardware.
    pub fn on_interrupt(&mut self, line: Line) -> (response: Response)
        ensures
            (*final(self), response) == old(self).step(line),
    {
        let c = match line {
            Line::Exti3 => &mut self.exti3,
            Line::Exti4 => &mut self.exti4,
        };
        if c.button_installed && c.led_installed {
            c.led_high = !c.led_high;
            Response::ClearAndToggle
        } else {
            Response::Ignore
        }
    }
}

/// Line EXTI3 is served by the channel `exti3` (PE3 and PA7), and line EXTI4
/// by `exti4` (PE4 and PA6), in every board.
pub proof fn lemma_lines_serve_their_channels(b: Board)
    ensures
        b.step(Line::Exti3) == (if b.exti3.button_installed && b.exti3.led_installed {
            (Board { exti3: Channel { led_high: !b.exti3.led_high, ..b.exti3 }, ..b }, Response::ClearAndToggle)
        } else {
            (b, Response::Ignore)
        }),
        b.step(Line::Exti4) == (if b.exti4.button_installed && b.exti4.led_installed {
            (Board { exti4: Channel { led_high: !b.exti4.led_high, ..b.exti4 }, ..b }, Response::ClearAndToggle)
        } else {
            (b, Response::Ignore)
        }),
{
}

/// A handler never touches the other line's button or LED.
pub proof fn lemma_other_line_untouched(b: Board, line: Line, other: Line)
    requires
        line != other,
    ensures
        b.step(line).0.channel(other) == b.channel(other),
{
}

/// Only the LED level of the handled channel can change; its installation does not.
pub proof fn lemma_step_keeps_installation(b: Board, line: Line)
    ensures
        b.step(line).0.channel(line).button_installed == b.channel(line).button_installed,
        b.step(line).0.channel(line).led_installed == b.channel(line).led_installed,
        b.step(line).1 == Response::ClearAndToggle <==> b.channel(line).ready(),
        b.step(line).0.channel(line).led_high == (b.channel(line).led_high != b.channel(line).ready()),
{
}

/// Two presses of the same button leave the board as it was.
pub proof fn lemma_double_press_restores(b: Board, line: Line)
    ensures
        b.step(line).0.step(line).0 == b,
{
}

/// The two handlers commute: the order in which the lines fire does not
/// change the final board.
pub proof fn lemma_lines_commute(b: Board, l1: Line, l2: Line)
    ensures
        b.step(l1).0.step(l2).0 == b.step(l2).0.step(l1).0,
{
}

} // verus!
