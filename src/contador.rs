//! Outcome tally of the insertions attempted during a run.

use vstd::prelude::*;

verus! {

/// Category of an attempted insertion, also used as the severity of a notice.
#[derive(PartialEq, Eq, Structural, Hash, Clone, Copy, Debug)]
pub enum Notificacion {
    INFO,
    WARN,
    ERROR,
}

/// Counts of attempted insertions, split by outcome.
pub struct ContadorGlobal {
    total: usize,
    exitos: usize,
    rechazos: usize,
    errores: usize,
}

/// Share of `parte` in `total`, in millionths (a percentage with four decimals).
pub open spec fn millonesimas(parte: nat, total: nat) -> nat
    recommends
        total > 0,
{
    (parte * 1_000_000) / total
}

/// Read-only summary of a tally.
#[derive(PartialEq, Eq, Structural, Clone, Copy, Debug)]
pub struct Resumen {
    pub total: usize,
    pub exitos: usize,
    pub rechazos: usize,
    pub errores: usize,
    /// Share of successes in millionths, `None` when nothing was attempted.
    pub exitos_ppm: Option<u64>,
    /// Share of rejections in millionths, `None` when nothing was attempted.
    pub rechazos_ppm: Option<u64>,
}

impl ContadorGlobal {
    pub closed spec fn total_spec(&self) -> nat {
        self.total as nat
    }

    /// How many attempts of category `n` were counted.
    pub closed spec fn subtotal(&self, n: Notificacion) -> nat {
        match n {
            Notificacion::INFO => self.exitos as nat,
            Notificacion::WARN => self.rechazos as nat,
            Notificacion::ERROR => self.errores as nat,
        }
    }

    /// The total is the sum of the three categories.
    pub closed spec fn bien_formado(&self) -> bool {
        self.total == self.exitos + self.rechazos + self.errores
    }

    /// The non-empty categories with their counts, in the order INFO, WARN, ERROR.
    pub open spec fn subtotales_spec(&self) -> Seq<(Notificacion, usize)> {
        let a = if self.subtotal(Notificacion::INFO) > 0 {
            seq![(Notificacion::INFO, self.subtotal(Notificacion::INFO) as usize)]
        } else {
            Seq::empty()
        };
        let b = if self.subtotal(Notificacion::WARN) > 0 {
            seq![(Notificacion::WARN, self.subtotal(Notificacion::WARN) as usize)]
        } else {
            Seq::empty()
        };
        let c = if self.subtotal(Notificacion::ERROR) > 0 {
            seq![(Notificacion::ERROR, self.subtotal(Notificacion::ERROR) as usize)]
        } else {
            Seq::empty()
        };
        a + b + c
    }

    pub fn new() -> (r: Self)
        ensures
            r.bien_formado(),
            r.total_spec() == 0,
            forall|n: Notificacion| r.subtotal(n) == 0,
    {
        ContadorGlobal { total: 0, exitos: 0, rechazos: 0, errores: 0 }
    }

    /// Counts one more attempt of category `notif`.
    pub fn increment(&mut self, notif: Notificacion)
        requires
            old(self).bien_formado(),
            old(self).total_spec() < usize::MAX,
        ensures
            final(self).bien_formado(),
            final(self).total_spec() == old(self).total_spec() + 1,
            final(self).subtotal(notif) == old(self).subtotal(notif) + 1,
            forall|n: Notificacion| n != notif ==> final(self).subtotal(n) == old(self).subtotal(n),
    {
        self.total = self.total + 1;
        match notif {
            Notificacion::INFO => self.exitos = self.exitos + 1,
            Notificacion::WARN => self.rechazos = self.rechazos + 1,
            Notificacion::ERROR => self.errores = self.errores + 1,
        }
    }

    pub fn get_total(&self) -> (r: usize)
        ensures
            r == self.total_spec(),
    {
        self.total
    }

    /// The categories that were counted at least once, with their counts.
    pub fn get_subtotals(&self) -> (r: Vec<(Notificacion, usize)>)
        ensures
            r@ == self.subtotales_spec(),
    {
        let mut r: Vec<(Notificacion, usize)> = Vec::new();
        if self.exitos > 0 {
            r.push((Notificacion::INFO, self.exitos));
        }
        if self.rechazos > 0 {
            r.push((Notificacion::WARN, self.rechazos));
        }
        if self.errores > 0 {
            r.push((Notificacion::ERROR, self.errores));
        }
        assert(r@ =~= self.subtotales_spec());
        r
    }

    /// Totals and shares of the run; the shares are `None` when nothing was attempted.
    pub fn resumen(&self) -> (r: Resumen)
        requires
            self.bien_formado(),
        ensures
            r.total == self.total_spec(),
            r.exitos == self.subtotal(Notificacion::INFO),
            r.rechazos == self.subtotal(Notificacion::WARN),
            r.errores == self.subtotal(Notificacion::ERROR),
            self.total_spec() == 0 ==> r.exitos_ppm is None && r.rechazos_ppm is None,
            self.total_spec() > 0 ==> r.exitos_ppm == Some(
                millonesimas(r.exitos as nat, r.total as nat) as u64,
            ) && r.rechazos_ppm == Some(millonesimas(r.rechazos as nat, r.total as nat) as u64),
    {
        let (exitos_ppm, rechazos_ppm) = if self.total == 0 {
            (None, None)
        } else {
            (
                Some(porcentaje_ppm(self.exitos, self.total)),
                Some(porcentaje_ppm(self.rechazos, self.total)),
            )
        };
        Resumen {
            total: self.total,
            exitos: self.exitos,
            rechazos: self.rechazos,
            errores: self.errores,
            exitos_ppm,
            rechazos_ppm,
        }
    }
}

/// `parte` as a share of `total`, in millionths, rounded down.
pub fn porcentaje_ppm(parte: usize, total: usize) -> (r: u64)
    requires
        parte <= total,
        total > 0,
    ensures
        r == millonesimas(parte as nat, total as nat),
        r <= 1_000_000,
{
    let p: u128 = parte as u128;
    let t: u128 = total as u128;
    assert(p * 1_000_000 <= t * 1_000_000) by (nonlinear_arith)
        requires
            p <= t,
    ;
    assert(p * 1_000_000 < 0x1_0000_0000_0000_0000_0000_0000_0000_0000) by (nonlinear_arith)
        requires
            p <= 0xffff_ffff_ffff_ffff,
    ;
    let n: u128 = p * 1_000_000;
    let q: u128 = n / t;
    proof {
        vstd::arithmetic::div_mod::lemma_div_is_ordered(n as int, (t * 1_000_000) as int, t as int);
        vstd::arithmetic::div_mod::lemma_div_multiples_vanish_fancy(1_000_000, 0, t as int);
        assert(t * 1_000_000 == t * 1_000_000 + 0);
    }
    q as u64
}

/// Every tally keeps its total equal to the sum of its categories, so with no
/// unexpected errors the successes and rejections add up to the attempts.
pub proof fn ley_conteo(c: ContadorGlobal)
    requires
        c.bien_formado(),
    ensures
        c.subtotal(Notificacion::INFO) + c.subtotal(Notificacion::WARN) + c.subtotal(
            Notificacion::ERROR,
        ) == c.total_spec(),
        c.subtotal(Notificacion::ERROR) == 0 ==> c.subtotal(Notificacion::INFO) + c.subtotal(
            Notificacion::WARN,
        ) == c.total_spec(),
{
}

} // verus!
