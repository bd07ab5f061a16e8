//! Dates as day numbers and times of day as seconds, the two calendar values
//! that records carry.

use vstd::prelude::*;

verus! {

/// Day number of 9999-12-31, the last date the store accepts.
pub const DIA_MAX: i32 = 3_652_424;

/// Seconds in a day.
pub const SEGUNDOS_DIA: u32 = 86_400;

/// Whether `anio` is a leap year of the proleptic Gregorian calendar.
pub open spec fn bisiesto(anio: int) -> bool {
    (anio % 4 == 0 && anio % 100 != 0) || anio % 400 == 0
}

pub open spec fn dias_del_anio(anio: int) -> int {
    if bisiesto(anio) {
        366
    } else {
        365
    }
}

/// Days from 0000-01-01 to the first day of `anio`: one leap day for each year
/// of `0..anio` divisible by four, but not by a hundred unless by four hundred.
pub open spec fn dias_antes(anio: int) -> int {
    365 * anio + (anio + 3) / 4 - (anio + 99) / 100 + (anio + 399) / 400
}

/// A date, as the number of days since 0000-01-01 (proleptic Gregorian).
#[derive(PartialEq, Eq, Structural, Clone, Copy, Debug)]
pub struct Fecha {
    pub dia: i32,
}

impl Fecha {
    /// Between 0000-01-01 and 9999-12-31.
    pub open spec fn valida(self) -> bool {
        0 <= self.dia <= DIA_MAX
    }

    /// The date of day `ordinal` (counted from 1) of year `anio`.
    pub fn desde_ordinal(anio: i32, ordinal: u16) -> (r: Fecha)
        requires
            0 <= anio <= 9998,
            1 <= ordinal <= dias_del_anio(anio as int),
        ensures
            r.valida(),
            r.dia == dias_antes(anio as int) + ordinal - 1,
    {
        let a: i64 = anio as i64;
        let d: i64 = 365 * a + (a + 3) / 4 - (a + 99) / 100 + (a + 399) / 400 + ordinal as i64 - 1;
        assert(d <= DIA_MAX);
        Fecha { dia: d as i32 }
    }

    /// The date `n` days later.
    pub fn mas_dias(self, n: u32) -> (r: Fecha)
        requires
            self.valida(),
            self.dia + n <= DIA_MAX,
        ensures
            r.valida(),
            r.dia == self.dia + n,
    {
        Fecha { dia: self.dia + n as i32 }
    }
}

/// A time of day, as the seconds since midnight.
#[derive(PartialEq, Eq, Structural, Clone, Copy, Debug)]
pub struct Hora {
    pub segundos: u32,
}

impl Hora {
    pub open spec fn valida(self) -> bool {
        self.segundos < SEGUNDOS_DIA
    }

    pub fn desde_hms(h: u8, m: u8, s: u8) -> (r: Hora)
        requires
            h < 24,
            m < 60,
            s < 60,
        ensures
            r.valida(),
            r.segundos == h * 3600 + m * 60 + s,
    {
        Hora { segundos: h as u32 * 3600 + m as u32 * 60 + s as u32 }
    }

    /// The time `horas` hours later on the same day.
    pub fn mas_horas(self, horas: u32) -> (r: Hora)
        requires
            self.valida(),
            self.segundos + horas * 3600 < SEGUNDOS_DIA,
        ensures
            r.valida(),
            r.segundos == self.segundos + horas * 3600,
    {
        Hora { segundos: self.segundos + horas * 3600 }
    }
}

} // verus!
