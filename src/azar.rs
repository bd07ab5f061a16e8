//! The random source threaded through every generator, and the few random
//! draws that the generators are built from.

use fake::faker::address::en::{BuildingNumber, CityName, CountryName};
use fake::faker::company::en::CompanyName;
use fake::faker::internet::en::SafeEmail;
use fake::faker::job::en::{Field, Position};
use fake::faker::lorem::en::{Word, Words};
use fake::faker::name::en::{FirstName, LastName, Name};
use fake::faker::phone_number::en::{CellNumber, PhoneNumber};
use fake::faker::time::en::Date;
use fake::Fake;
use rand::rngs::StdRng;
use rand::seq::SliceRandom;
use rand::{Rng, SeedableRng};
use vstd::prelude::*;

verus! {

#[verifier::external_type_specification]
#[verifier::external_body]
pub struct ExStdRng(StdRng);

/// A pseudo-random source. Each generator takes it by `&mut`, so a run decides
/// whether one source is shared or each task has its own.
pub struct Fuente {
    rng: StdRng,
}

/// `ws` joined with single spaces.
pub open spec fn unidas(ws: Seq<Seq<char>>) -> Seq<char>
    decreases ws.len(),
{
    if ws.len() == 0 {
        Seq::empty()
    } else if ws.len() == 1 {
        ws[0]
    } else {
        unidas(ws.drop_last()) + seq![' '] + ws.last()
    }
}

/// `s` is `min` to `max - 1` non-empty words `ws` joined with spaces.
pub open spec fn palabras_unidas(ws: Seq<Seq<char>>, min: usize, max: usize, s: Seq<char>) -> bool {
    &&& min <= ws.len() < max
    &&& forall|i: int| 0 <= i < ws.len() ==> (#[trigger] ws[i]).len() > 0
    &&& s == unidas(ws)
}

/// Joining at least one non-empty word gives a non-empty text.
pub proof fn lema_unidas_no_vacia(ws: Seq<Seq<char>>)
    requires
        ws.len() > 0,
        forall|i: int| 0 <= i < ws.len() ==> (#[trigger] ws[i]).len() > 0,
    ensures
        unidas(ws).len() > 0,
{
    if ws.len() == 1 {
        assert(ws[0].len() > 0);
    } else {
        assert(ws[ws.len() - 1].len() > 0);
    }
}

/// The views of a vector of strings.
pub open spec fn vistas(v: Seq<String>) -> Seq<Seq<char>> {
    v.map_values(|s: String| s@)
}

impl Fuente {
    /// Relies on `SeedableRng::seed_from_u64` of rand's `StdRng`: a source
    /// fixed by `semilla`.
    #[verifier::external_body]
    pub fn con_semilla(semilla: u64) -> (r: Fuente) {
        Fuente { rng: StdRng::seed_from_u64(semilla) }
    }

    /// Relies on `SeedableRng::from_entropy` of rand's `StdRng`: a source
    /// seeded by the operating system.
    #[verifier::external_body]
    pub fn desde_entropia() -> (r: Fuente) {
        Fuente { rng: StdRng::from_entropy() }
    }

    /// Relies on rand's `Rng::gen_range`: a value of `lo..hi` (it panics on an
    /// empty range, which `requires` leaves out).
    #[verifier::external_body]
    pub fn rango(&mut self, lo: usize, hi: usize) -> (r: usize)
        requires
            lo < hi,
        ensures
            lo <= r < hi,
    {
        self.rng.gen_range(lo..hi)
    }

    /// Relies on rand's `Rng::gen`: any `u32`.
    #[verifier::external_body]
    pub fn entero(&mut self) -> (r: u32) {
        self.rng.gen::<u32>()
    }

    /// Relies on fake's `FirstName` faker, a name of a list without empty
    /// entries.
    #[verifier::external_body]
    pub fn nombre_de_pila(&mut self) -> (r: String)
        ensures
            r@.len() > 0,
    {
        FirstName().fake_with_rng(&mut self.rng)
    }

    /// Relies on fake's `LastName` faker, a name of a list without empty
    /// entries.
    #[verifier::external_body]
    pub fn apellido(&mut self) -> (r: String)
        ensures
            r@.len() > 0,
    {
        LastName().fake_with_rng(&mut self.rng)
    }

    /// Relies on fake's `Name` faker.
    #[verifier::external_body]
    pub fn nombre_completo(&mut self) -> (r: String) {
        Name().fake_with_rng(&mut self.rng)
    }

    /// Relies on fake's `CountryName` faker.
    #[verifier::external_body]
    pub fn pais(&mut self) -> (r: String) {
        CountryName().fake_with_rng(&mut self.rng)
    }

    /// Relies on fake's `CityName` faker, whose templates always hold a name.
    #[verifier::external_body]
    pub fn ciudad(&mut self) -> (r: String)
        ensures
            r@.len() > 0,
    {
        CityName().fake_with_rng(&mut self.rng)
    }

    /// Relies on fake's `SafeEmail` faker.
    #[verifier::external_body]
    pub fn correo(&mut self) -> (r: String) {
        SafeEmail().fake_with_rng(&mut self.rng)
    }

    /// Relies on fake's `PhoneNumber` faker.
    #[verifier::external_body]
    pub fn telefono(&mut self) -> (r: String) {
        PhoneNumber().fake_with_rng(&mut self.rng)
    }

    /// Relies on fake's `CellNumber` faker.
    #[verifier::external_body]
    pub fn celular(&mut self) -> (r: String) {
        CellNumber().fake_with_rng(&mut self.rng)
    }

    /// Relies on fake's `CompanyName` faker, whose templates always hold a
    /// last name.
    #[verifier::external_body]
    pub fn empresa(&mut self) -> (r: String)
        ensures
            r@.len() > 0,
    {
        CompanyName().fake_with_rng(&mut self.rng)
    }

    /// Relies on fake's `Field` faker (a field of work).
    #[verifier::external_body]
    pub fn area(&mut self) -> (r: String) {
        Field().fake_with_rng(&mut self.rng)
    }

    /// Relies on fake's `Position` faker (a job title).
    #[verifier::external_body]
    pub fn puesto(&mut self) -> (r: String) {
        Position().fake_with_rng(&mut self.rng)
    }

    /// Relies on fake's `Word` faker, a word of a list without empty entries.
    #[verifier::external_body]
    pub fn palabra(&mut self) -> (r: String)
        ensures
            r@.len() > 0,
    {
        Word().fake_with_rng(&mut self.rng)
    }

    /// Relies on fake's `Words` faker: as many words as `gen_range(min..max)`
    /// gives (it panics on an empty range, which `requires` leaves out), each
    /// drawn from a list without empty entries.
    #[verifier::external_body]
    pub fn palabras(&mut self, min: usize, max: usize) -> (r: Vec<String>)
        requires
            min < max,
        ensures
            min <= r.len() < max,
            forall|i: int| 0 <= i < r.len() ==> (#[trigger] r@[i])@.len() > 0,
    {
        Words(min..max).fake_with_rng(&mut self.rng)
    }

    /// Relies on fake's `BuildingNumber` faker, whose English formats are three
    /// to five decimal digits, read as a number.
    #[verifier::external_body]
    pub fn numero_de_calle(&mut self) -> (r: u32)
        ensures
            r <= 99_999,
    {
        BuildingNumber().fake_with_rng::<String, _>(&mut self.rng).parse().unwrap()
    }

    /// Relies on fake's `Date` faker, which draws a year of `0..3000` and a day
    /// of the year short of the year's last: the year and the day of the year.
    #[verifier::external_body]
    pub fn fecha_ordinal(&mut self) -> (r: (i32, u16))
        ensures
            0 <= r.0 < 3000,
            1 <= r.1 <= 365,
    {
        let d: time::Date = Date().fake_with_rng(&mut self.rng);
        (d.year(), d.ordinal())
    }

    /// Relies on rand's `SliceRandom::shuffle`, which only swaps items: the
    /// same items in some order.
    #[verifier::external_body]
    pub fn barajar(&mut self, v: &mut Vec<String>)
        ensures
            final(v)@.to_multiset() == old(v)@.to_multiset(),
    {
        v.shuffle(&mut self.rng)
    }

    /// An index into a collection of `len` items.
    pub fn elegir_indice(&mut self, len: usize) -> (r: usize)
        requires
            len > 0,
        ensures
            r < len,
    {
        self.rango(0, len)
    }

    /// A coin toss.
    pub fn moneda(&mut self) -> (r: bool) {
        self.rango(0, 2) == 1
    }

    /// One of `opciones`, copied.
    pub fn elegir_texto(&mut self, opciones: &Vec<&str>) -> (r: String)
        requires
            opciones.len() > 0,
        ensures
            exists|i: int| 0 <= i < opciones.len() && r@ == opciones[i]@,
    {
        let i = self.elegir_indice(opciones.len());
        String::from_str(opciones[i])
    }

    /// Between `min` and `max - 1` words, joined with spaces.
    pub fn frase(&mut self, min: usize, max: usize) -> (r: String)
        requires
            min < max,
        ensures
            exists|ws: Seq<Seq<char>>| #[trigger] palabras_unidas(ws, min, max, r@),
            min > 0 ==> r@.len() > 0,
    {
        let ws = self.palabras(min, max);
        proof {
            reveal_strlit(" ");
            assert(" "@ =~= seq![' ']);
        }
        let r = unir(&ws, " ");
        proof {
            let vs = vistas(ws@);
            assert(palabras_unidas(vs, min, max, r@));
            if min > 0 {
                lema_unidas_no_vacia(vs);
            }
        }
        r
    }
}

/// `ws` joined with `sep`, a single space.
pub fn unir(ws: &Vec<String>, sep: &str) -> (r: String)
    requires
        sep@ == seq![' '],
    ensures
        r@ == unidas(vistas(ws@)),
{
    let mut r = String::new();
    let mut i: usize = 0;
    while i < ws.len()
        invariant
            sep@ == seq![' '],
            i <= ws.len(),
            r@ == unidas(vistas(ws@.subrange(0, i as int))),
        decreases ws.len() - i,
    {
        proof {
            let pre = vistas(ws@.subrange(0, i as int));
            let post = vistas(ws@.subrange(0, i as int + 1));
            assert(post.drop_last() =~= pre);
            assert(post.last() == ws@[i as int]@);
        }
        if i > 0 {
            r.append(sep);
        }
        r.append(ws[i].as_str());
        i = i + 1;
    }
    assert(ws@.subrange(0, ws.len() as int) =~= ws@);
    r
}

} // verus!
