//! Natural keys: the national identity number and the tax identifier derived
//! from it.

use crate::azar::Fuente;
use vstd::prelude::*;

verus! {

/// Eight decimal digits.
pub open spec fn es_dni(s: Seq<char>) -> bool {
    s.len() == 8 && forall|i: int| 0 <= i < 8 ==> '0' <= #[trigger] s[i] <= '9'
}

/// The tax identifier of a national identity number: `20`, the number, `8`.
pub open spec fn cuil_de(dni: Seq<char>) -> Seq<char> {
    seq!['2', '0'] + dni + seq!['8']
}

/// A national identity number.
#[derive(PartialEq, Eq, Hash, Clone, Debug)]
pub struct Dni(pub String);

/// A tax identifier.
#[derive(PartialEq, Eq, Hash, Clone, Debug)]
pub struct Cuil(pub String);

impl View for Dni {
    type V = Seq<char>;

    open spec fn view(&self) -> Seq<char> {
        self.0@
    }
}

impl View for Cuil {
    type V = Seq<char>;

    open spec fn view(&self) -> Seq<char> {
        self.0@
    }
}

impl Dni {
    /// Eight digits drawn one by one.
    pub fn generar(fuente: &mut Fuente) -> (r: Dni)
        ensures
            es_dni(r@),
    {
        let digitos = "0123456789";
        proof {
            reveal_strlit("0123456789");
            assert(digitos@ =~= seq!['0', '1', '2', '3', '4', '5', '6', '7', '8', '9']);
        }
        let mut s = String::new();
        let mut i: usize = 0;
        while i < 8
            invariant
                i <= 8,
                digitos@ == seq!['0', '1', '2', '3', '4', '5', '6', '7', '8', '9'],
                s@.len() == i,
                forall|j: int| 0 <= j < i ==> '0' <= #[trigger] s@[j] <= '9',
            decreases 8 - i,
        {
            let d = fuente.rango(0, 10);
            let c = digitos.substring_char(d, d + 1);
            s.append(c);
            assert(s@[i as int] == c@[0]);
            i = i + 1;
        }
        Dni(s)
    }

    pub fn copia(&self) -> (r: Dni)
        ensures
            r@ == self@,
    {
        Dni(self.0.clone())
    }

    pub fn texto(&self) -> (r: &str)
        ensures
            r@ == self@,
    {
        self.0.as_str()
    }
}

impl Cuil {
    /// The tax identifier derived from `dni`.
    pub fn new(dni: &Dni) -> (r: Cuil)
        ensures
            r@ == cuil_de(dni@),
    {
        let mut s = String::from_str("20");
        s.append(dni.texto());
        s.append("8");
        proof {
            reveal_strlit("20");
            reveal_strlit("8");
        }
        assert(s@ =~= cuil_de(dni@));
        Cuil(s)
    }

    pub fn copia(&self) -> (r: Cuil)
        ensures
            r@ == self@,
    {
        Cuil(self.0.clone())
    }

    pub fn texto(&self) -> (r: &str)
        ensures
            r@ == self@,
    {
        self.0.as_str()
    }
}

} // verus!
