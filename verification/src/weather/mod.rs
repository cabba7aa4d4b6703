//! Weather vocabulary shared by the HUD and the scene: the conditions that
//! a provider reports and how the location is shown.

use vstd::prelude::*;

verus! {

/// Weather condition decoded from a provider's weather code.
#[derive(Debug, Clone, Copy, PartialEq, Eq, Structural)]
pub enum WeatherCondition {
    Clear,
    PartlyCloudy,
    Cloudy,
    Overcast,
    Fog,
    Drizzle,
    Rain,
    FreezingRain,
    Snow,
    SnowGrains,
    RainShowers,
    SnowShowers,
    Thunderstorm,
    ThunderstormHail,
}

/// How the HUD names the location.
#[derive(Debug, Clone, Copy, PartialEq, Eq, Structural)]
pub enum LocationDisplay {
    /// Latitude and longitude only.
    Coordinates,
    /// The city's name, coordinates when it is unknown.
    City,
    /// "City (coordinates)", coordinates alone when the city is unknown.
    Mixed,
}

} // verus!
