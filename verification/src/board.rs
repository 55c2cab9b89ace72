//! The board as a set of slots for its peripherals. Each slot holds a
//! peripheral or nothing; the type of the board tells which slots are filled,
//! so that a peripheral can be put in, and taken out, exactly once.

use crate::controller::Hardware;
use vstd::prelude::*;

verus! {

/// The board and its five slots.
pub struct Board<Backlight = (), ScreenSpi = (), Display = (), Wifi = (), RTCUtils = ()> {
    pub screen_backlight: Backlight,
    pub screen_spi: ScreenSpi,
    pub display: Display,
    pub wifi: Wifi,
    pub rtc: RTCUtils,
}

impl Board {
    /// A board with every slot empty.
    pub fn new() -> (board: Self)
        ensures
            board == (Board {
                screen_backlight: (),
                screen_spi: (),
                display: (),
                wifi: (),
                rtc: (),
            }),
    {
        Self { screen_backlight: (), screen_spi: (), display: (), wifi: (), rtc: () }
    }
}

impl Hardware for Board {

}

impl<Backlight, ScreenSpi, Display, Wifi, RTCUtils> Board<
    Backlight,
    ScreenSpi,
    Display,
    Wifi,
    RTCUtils,
> {
    /// Takes the backlight out of the board.
    pub fn backlight_peripheral(self) -> (r: (
        Backlight,
        Board<(), ScreenSpi, Display, Wifi, RTCUtils>,
    ))
        ensures
            r.0 == self.screen_backlight,
            r.1 == (Board {
                screen_backlight: (),
                screen_spi: self.screen_spi,
                display: self.display,
                wifi: self.wifi,
                rtc: self.rtc,
            }),
    {
        (
            self.screen_backlight,
            Board {
                screen_backlight: (),
                screen_spi: self.screen_spi,
                display: self.display,
                wifi: self.wifi,
                rtc: self.rtc,
            },
        )
    }

    /// Takes the screen's bus out of the board.
    pub fn screen_spi_peripheral(self) -> (r: (
        ScreenSpi,
        Board<Backlight, (), Display, Wifi, RTCUtils>,
    ))
        ensures
            r.0 == self.screen_spi,
            r.1 == (Board {
                screen_backlight: self.screen_backlight,
                screen_spi: (),
                display: self.display,
                wifi: self.wifi,
                rtc: self.rtc,
            }),
    {
        (
            self.screen_spi,
            Board {
                screen_backlight: self.screen_backlight,
                screen_spi: (),
                display: self.display,
                wifi: self.wifi,
                rtc: self.rtc,
            },
        )
    }

    /// Takes the display out of the board.
    pub fn display_peripheral(self) -> (r: (
        Display,
        Board<Backlight, ScreenSpi, (), Wifi, RTCUtils>,
    ))
        ensures
            r.0 == self.display,
            r.1 == (Board {
                screen_backlight: self.screen_backlight,
                screen_spi: self.screen_spi,
                display: (),
                wifi: self.wifi,
                rtc: self.rtc,
            }),
    {
        (
            self.display,
            Board {
                screen_backlight: self.screen_backlight,
                screen_spi: self.screen_spi,
                display: (),
                wifi: self.wifi,
                rtc: self.rtc,
            },
        )
    }

    /// Takes the network out of the board.
    pub fn wifi_peripheral(self) -> (r: (Wifi, Board<Backlight, ScreenSpi, Display, (), RTCUtils>))
        ensures
            r.0 == self.wifi,
            r.1 == (Board {
                screen_backlight: self.screen_backlight,
                screen_spi: self.screen_spi,
                display: self.display,
                wifi: (),
                rtc: self.rtc,
            }),
    {
        (
            self.wifi,
            Board {
                screen_backlight: self.screen_backlight,
                screen_spi: self.screen_spi,
                display: self.display,
                wifi: (),
                rtc: self.rtc,
            },
        )
    }

    /// Takes the clock out of the board.
    pub fn rtc_peripheral(self) -> (r: (RTCUtils, Board<Backlight, ScreenSpi, Display, Wifi, ()>))
        ensures
            r.0 == self.rtc,
            r.1 == (Board {
                screen_backlight: self.screen_backlight,
                screen_spi: self.screen_spi,
                display: self.display,
                wifi: self.wifi,
                rtc: (),
            }),
    {
        (
            self.rtc,
            Board {
                screen_backlight: self.screen_backlight,
                screen_spi: self.screen_spi,
                display: self.display,
                wifi: self.wifi,
                rtc: (),
            },
        )
    }

    /// Puts a backlight into the board.
    pub fn backlight<T>(self, p: T) -> (board: Board<T, ScreenSpi, Display, Wifi, RTCUtils>)
        ensures
            board == (Board {
                screen_backlight: p,
                screen_spi: self.screen_spi,
                display: self.display,
                wifi: self.wifi,
                rtc: self.rtc,
            }),
    {
        Board {
            screen_backlight: p,
            screen_spi: self.screen_spi,
            display: self.display,
            wifi: self.wifi,
            rtc: self.rtc,
        }
    }

    /// Puts a screen's bus into the board.
    pub fn screen_spi<T>(self, s: T) -> (board: Board<Backlight, T, Display, Wifi, RTCUtils>)
        ensures
            board == (Board {
                screen_backlight: self.screen_backlight,
                screen_spi: s,
                display: self.display,
                wifi: self.wifi,
                rtc: self.rtc,
            }),
    {
        Board {
            screen_backlight: self.screen_backlight,
            screen_spi: s,
            display: self.display,
            wifi: self.wifi,
            rtc: self.rtc,
        }
    }

    /// Puts a display into the board.
    pub fn display<T>(self, d: T) -> (board: Board<Backlight, ScreenSpi, T, Wifi, RTCUtils>)
        ensures
            board == (Board {
                screen_backlight: self.screen_backlight,
                screen_spi: self.screen_spi,
                display: d,
                wifi: self.wifi,
                rtc: self.rtc,
            }),
    {
        Board {
            screen_backlight: self.screen_backlight,
            screen_spi: self.screen_spi,
            display: d,
            wifi: self.wifi,
            rtc: self.rtc,
        }
    }

    /// Puts a network into the board.
    pub fn wifi<T>(self, w: T) -> (board: Board<Backlight, ScreenSpi, Display, T, RTCUtils>)
        ensures
            board == (Board {
                screen_backlight: self.screen_backlight,
                screen_spi: self.screen_spi,
                display: self.display,
                wifi: w,
                rtc: self.rtc,
            }),
    {
        Board {
            screen_backlight: self.screen_backlight,
            screen_spi: self.screen_spi,
            display: self.display,
            wifi: w,
            rtc: self.rtc,
        }
    }

    /// Puts a clock into the board.
    pub fn rtc<T>(self, r: T) -> (board: Board<Backlight, ScreenSpi, Display, Wifi, T>)
        ensures
            board == (Board {
                screen_backlight: self.screen_backlight,
                screen_spi: self.screen_spi,
                display: self.display,
                wifi: self.wifi,
                rtc: r,
            }),
    {
        Board {
            screen_backlight: self.screen_backlight,
            screen_spi: self.screen_spi,
            display: self.display,
            wifi: self.wifi,
            rtc: r,
        }
    }
}

} // verus!
