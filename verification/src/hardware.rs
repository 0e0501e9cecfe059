//! Hardware-facing types: the light and sensor interfaces a board
//! implementation provides, and their error taxonomies.

use vstd::prelude::*;

verus! {

/// Number of squares on the board.
pub const NUM_SQUARES: usize = 64;

/// Number of LEDs per square.
pub const LEDS_PER_SQUARE: usize = 4;

/// Total number of LEDs.
pub const NUM_LEDS: usize = NUM_SQUARES * LEDS_PER_SQUARE;

/// One RGB color of a square light.
#[derive(Debug, Clone, Copy, PartialEq, Eq, Structural)]
pub struct Rgb {
    pub r: u8,
    pub g: u8,
    pub b: u8,
}

/// The LED indices of a square, in order.
pub fn square_leds(square: u8) -> (r: [usize; 4])
    requires
        square < 64,
    ensures
        r[0] == 4 * (square as int),
        r[1] == 4 * (square as int) + 1,
        r[2] == 4 * (square as int) + 2,
        r[3] == 4 * (square as int) + 3,
{
    let base = (square as usize) * 4;
    [base, base + 1, base + 2, base + 3]
}

/// A driver for the per-square lights.
pub trait LedController {
    /// Sets all LEDs at once.
    fn set_all(&mut self, colors: [Rgb; 256]) -> Result<(), ()>;

    /// Sets a single LED.
    fn set_led(&mut self, index: usize, color: Rgb) -> Result<(), ()>;

    /// Commits the changes to the hardware.
    fn show(&mut self) -> Result<(), ()>;

    /// Sets the four LEDs of one square.
    fn set_square(&mut self, square: u8, colors: [Rgb; 4]) -> Result<(), ()> {
        if square >= 64 {
            return Err(());
        }
        let indices = square_leds(square);
        let mut i: usize = 0;
        while i < 4
            invariant
                i <= 4,
            decreases 4 - i,
        {
            let res = self.set_led(indices[i], colors[i]);
            if res.is_err() {
                return Err(());
            }
            i = i + 1;
        }
        Ok(())
    }
}

/// A reader for the hall-effect sensor array.
pub trait HallSensorArray {
    /// Reads all 64 sensors as one bitboard.
    fn read_all(&mut self) -> Result<u64, ()>;
}

/// A complete board: its lights and its sensors.
pub trait ChessBoardHardware {
    type Led: LedController;

    type Sensors: HallSensorArray;
}

/// Error of the hall-effect sensor array.
#[derive(Debug, Clone, PartialEq, Eq)]
pub enum SensorError {
    /// GPIO or ADC initialization failed.
    GpioInit(String),
    /// ADC read failure during a sensor scan.
    AdcError,
}

/// Error of the LED display driver.
#[derive(Debug, Clone, PartialEq, Eq)]
pub enum LedDisplayError {
    /// LED driver initialization failed.
    DriverInit(String),
    /// The LED strip rejected an update.
    UpdateError,
}

} // verus!
