use chesscore::hardware::{LedController, Rgb, square_leds};

#[test]
fn square_leds_are_consecutive() {
    assert_eq!(square_leds(0), [0, 1, 2, 3]);
    assert_eq!(square_leds(1), [4, 5, 6, 7]);
    assert_eq!(square_leds(63), [252, 253, 254, 255]);
}

struct RecordingLeds {
    written: Vec<(usize, Rgb)>,
}

impl LedController for RecordingLeds {
    fn set_all(&mut self, colors: [Rgb; 256]) -> Result<(), ()> {
        for (i, c) in colors.iter().enumerate() {
            self.written.push((i, *c));
        }
        Ok(())
    }

    fn set_led(&mut self, index: usize, color: Rgb) -> Result<(), ()> {
        if index >= 256 {
            return Err(());
        }
        self.written.push((index, color));
        Ok(())
    }

    fn show(&mut self) -> Result<(), ()> {
        Ok(())
    }
}

#[test]
fn set_square_writes_the_four_leds_of_the_square() {
    let mut leds = RecordingLeds { written: Vec::new() };
    let red = Rgb { r: 255, g: 0, b: 0 };
    leds.set_square(2, [red; 4]).unwrap();
    let indices: Vec<usize> = leds.written.iter().map(|(i, _)| *i).collect();
    assert_eq!(indices, vec![8, 9, 10, 11]);
}

#[test]
fn set_square_rejects_out_of_range_squares() {
    let mut leds = RecordingLeds { written: Vec::new() };
    let off = Rgb { r: 0, g: 0, b: 0 };
    assert_eq!(leds.set_square(64, [off; 4]), Err(()));
    assert!(leds.written.is_empty());
}
