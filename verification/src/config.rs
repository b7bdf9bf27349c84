//! What a host needs to know to start the machine.

use vstd::prelude::*;

verus! {

/// Display color used for pixels that are off, unless the host says
/// otherwise: black, as 0xRRGGBB.
pub const DEFAULT_BACKGROUND_COLOR: u32 = 0x000000;

/// Display color used for pixels that are on, unless the host says
/// otherwise: white, as 0xRRGGBB.
pub const DEFAULT_SPRITE_COLOR: u32 = 0xFFFFFF;

/// The settings of one run.
pub struct Config {
    /// Path of the program to load.
    pub rom_path: String,
    /// Color of pixels that are off, as 0xRRGGBB.
    pub background_color: u32,
    /// Color of pixels that are on, as 0xRRGGBB.
    pub sprite_color: u32,
}

impl Config {
    /// Reads the settings from the words of a command line, the program's
    /// own name first: the word after it is the path of the program to
    /// load, and the colors take their defaults. Fails if that word is
    /// missing.
    pub fn new(args: &[String]) -> (result: Result<Config, &'static str>)
        ensures
            args@.len() < 2 ==> result == Err::<Config, &'static str>("not enough arguments"),
            args@.len() >= 2 ==> (result matches Ok(config) && config.rom_path@ == args@[1]@
                && config.background_color == DEFAULT_BACKGROUND_COLOR && config.sprite_color
                == DEFAULT_SPRITE_COLOR),
    {
        if args.len() < 2 {
            return Err("not enough arguments");
        }
        let rom_path = args[1].clone();
        Ok(
            Config {
                rom_path,
                background_color: DEFAULT_BACKGROUND_COLOR,
                sprite_color: DEFAULT_SPRITE_COLOR,
            },
        )
    }
}

} // verus!
