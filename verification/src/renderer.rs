//! The colour in which a living bot is shown.

use vstd::prelude::*;
use crate::bot::Bot;
use crate::color::Color;
use crate::config::Config;
use crate::energy::UNITS_PER_POINT;

verus! {

/// What the colour of a shown bot tells.
#[derive(Clone, Copy, Debug, PartialEq, Eq, Structural)]
pub enum RenderingMode {
    /// The bot's own colour.
    Normal,
    /// Its energy: yellow up to five times the reproduction threshold, the
    /// brighter the more it has; green beyond.
    Energy,
    /// Its age: the older the bot, the fuller the red.
    Lifetime,
}

impl RenderingMode {
    /// The colour that shows a bot's energy. Below five times the
    /// reproduction threshold it is yellow scaled by five times the energy
    /// over the threshold; from there on it is green scaled by the points
    /// of energy in excess, counted in 255ths.
    pub open spec fn energy_color(bot: &Bot, config: &Config) -> Color {
        if bot.energy < 5 * config.reproduction_required_energy {
            Color { red: 255, green: 255, blue: 0, alpha: 255 }.spec_scaled(
                5 * bot.energy,
                config.reproduction_required_energy as int,
            )
        } else {
            Color { red: 0, green: 255, blue: 0, alpha: 255 }.spec_scaled(
                bot.energy - 5 * config.reproduction_required_energy,
                255 * UNITS_PER_POINT,
            )
        }
    }

    /// The red that shows a bot's age: from 10 for a newborn to 255 for a
    /// bot at or past the maximum age.
    pub open spec fn lifetime_shade(bot: &Bot, config: &Config) -> int {
        if bot.age >= config.cell_max_age {
            255
        } else {
            10 + 245 * bot.age / (config.cell_max_age as int)
        }
    }

    /// The colour of `bot` in this mode.
    pub open spec fn spec_render(&self, bot: &Bot, config: &Config) -> Color {
        match self {
            RenderingMode::Normal => bot.color,
            RenderingMode::Energy => RenderingMode::energy_color(bot, config),
            RenderingMode::Lifetime => Color {
                red: RenderingMode::lifetime_shade(bot, config) as u8,
                green: 0,
                blue: 0,
                alpha: 255,
            },
        }
    }

    /// The colour of `bot` in this mode.
    pub fn render(&self, bot: &Bot, config: &Config) -> (c: Color)
        requires
            config.valid(),
        ensures
            c == self.spec_render(bot, config),
    {
        match self {
            RenderingMode::Normal => bot.color,
            RenderingMode::Energy => {
                let energy = bot.energy as i128;
                let threshold = config.reproduction_required_energy as i128;
                if energy < 5 * threshold {
                    if energy <= 0 {
                        proof {
                            lemma_scaled_ends(255, 5 * energy as int, threshold as int);
                            lemma_scaled_ends(0, 5 * energy as int, threshold as int);
                        }
                        Color::new(0, 0, 0)
                    } else if 5 * energy >= threshold {
                        proof {
                            lemma_scaled_ends(255, 5 * energy as int, threshold as int);
                            lemma_scaled_ends(0, 5 * energy as int, threshold as int);
                        }
                        Color::new(255, 255, 0)
                    } else {
                        Color::new(255, 255, 0).scaled((5 * energy) as i64, threshold as i64)
                    }
                } else {
                    Color::new(0, 255, 0).scaled(
                        (energy - 5 * threshold) as i64,
                        255 * UNITS_PER_POINT,
                    )
                }
            },
            RenderingMode::Lifetime => {
                let shade: u8 = if bot.age >= config.cell_max_age {
                    255
                } else {
                    let part: u64 = 245 * (bot.age as u64) / (config.cell_max_age as u64);
                    assert(part < 245) by (nonlinear_arith)
                        requires
                            part == 245 * (bot.age as int) / (config.cell_max_age as int),
                            0 <= bot.age < config.cell_max_age,
                    ;
                    10 + part as u8
                };
                Color::new(shade, 0, 0)
            },
        }
    }
}

/// A channel scaled by nothing or less is dark; a channel scaled by one or
/// more keeps its value.
proof fn lemma_scaled_ends(value: int, numerator: int, denominator: int)
    requires
        value == 0 || value == 255,
        denominator > 0,
        numerator <= 0 || numerator >= denominator,
    ensures
        numerator <= 0 ==> crate::color::channel_of(
            crate::color::quotient(value * numerator, denominator),
        ) == 0,
        numerator >= denominator ==> crate::color::channel_of(
            crate::color::quotient(value * numerator, denominator),
        ) == value,
{
    if value == 0 {
        assert(value * numerator == 0);
    } else if numerator <= 0 {
        assert(value * numerator <= 0) by (nonlinear_arith)
            requires
                value == 255,
                numerator <= 0,
        ;
        let a = -(value * numerator);
        assert(a / denominator >= 0) by (nonlinear_arith)
            requires
                a >= 0,
                denominator > 0,
        ;
    } else {
        assert((255 * numerator) / denominator >= 255) by (nonlinear_arith)
            requires
                numerator >= denominator,
                denominator > 0,
        ;
    }
}

} // verus!
