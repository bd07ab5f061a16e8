//! The loader's statement text, the entity pools that collect what the store
//! accepted, and the uniform draw of a parent from a pool.

use crate::azar::Fuente;
use crate::calendario::{Fecha, Hora};
use crate::claves::Cuil;
use crate::entidades::Decimal;
use crate::contador::{ContadorGlobal, Notificacion};
use vstd::prelude::*;

verus! {

/// ASCII upper case of `c`; any other character is left as it is.
pub open spec fn mayuscula(c: char) -> char {
    if 'a' <= c <= 'z' {
        ((c as u32) - 32) as char
    } else {
        c
    }
}

/// What `str::to_lowercase` makes of `s`.
pub uninterp spec fn minusculas(s: Seq<char>) -> Seq<char>;

/// Relies on `char::to_ascii_uppercase`, which maps `a`..`z` to `A`..`Z` and
/// leaves every other character unchanged.
#[verifier::external_body]
fn a_mayuscula(c: char) -> (r: char)
    ensures
        r == mayuscula(c),
{
    c.to_ascii_uppercase()
}

/// Relies on `str::to_lowercase`: the lower case of `s`, which depends on its
/// characters alone.
#[verifier::external_body]
fn a_minusculas(s: &str) -> (r: String)
    ensures
        r@ == minusculas(s@),
{
    s.to_lowercase()
}

/// Relies on `String::push`: `c` is appended.
#[verifier::external_body]
fn empujar(s: &mut String, c: char)
    ensures
        final(s)@ == old(s)@.push(c),
{
    s.push(c)
}

/// `s` without its underscores, each character that follows an underscore in
/// upper case (`codigo_postal` is `codigoPostal`).
pub open spec fn sin_guiones(s: Seq<char>) -> Seq<char>
    decreases s.len(),
{
    if s.len() == 0 {
        Seq::empty()
    } else {
        let p = sin_guiones(s.drop_last());
        let c = s.last();
        if c == '_' {
            p
        } else if s.len() >= 2 && s[s.len() - 2] == '_' {
            p.push(mayuscula(c))
        } else {
            p.push(c)
        }
    }
}

/// `input` without its underscores, the character after each in upper case.
pub fn strip_underscore(input: &str) -> (r: String)
    ensures
        r@ == sin_guiones(input@),
{
    let n = input.unicode_len();
    let mut result = String::new();
    let mut prev_underscore = false;
    let mut i: usize = 0;
    while i < n
        invariant
            n == input@.len(),
            i <= n,
            result@ == sin_guiones(input@.subrange(0, i as int)),
            prev_underscore == (i > 0 && input@[i - 1] == '_'),
        decreases n - i,
    {
        let c = input.get_char(i);
        proof {
            let s = input@.subrange(0, i as int + 1);
            assert(s.drop_last() =~= input@.subrange(0, i as int));
        }
        if c == '_' {
            prev_underscore = true;
        } else if prev_underscore {
            empujar(&mut result, a_mayuscula(c));
            prev_underscore = false;
        } else {
            empujar(&mut result, c);
        }
        i = i + 1;
    }
    assert(input@.subrange(0, n as int) =~= input@);
    result
}

/// The column a field is stored in: the field's name without underscores, in
/// lower case.
pub open spec fn columna(campo: Seq<char>) -> Seq<char> {
    minusculas(sin_guiones(campo))
}

/// `ws` joined with commas.
pub open spec fn con_comas(ws: Seq<Seq<char>>) -> Seq<char>
    decreases ws.len(),
{
    if ws.len() == 0 {
        Seq::empty()
    } else if ws.len() == 1 {
        ws[0]
    } else {
        con_comas(ws.drop_last()) + seq![','] + ws.last()
    }
}

/// `n` question marks joined with commas.
pub open spec fn marcadores(n: nat) -> Seq<char>
    decreases n,
{
    if n == 0 {
        Seq::empty()
    } else if n == 1 {
        seq!['?']
    } else {
        marcadores((n - 1) as nat) + seq![',', '?']
    }
}

/// The positional insertion statement of table `tabla` over columns `columnas`.
pub open spec fn sentencia_columnas(tabla: Seq<char>, columnas: Seq<Seq<char>>) -> Seq<char> {
    "INSERT INTO "@ + tabla + " ("@ + con_comas(columnas) + ") VALUES ("@ + marcadores(
        columnas.len(),
    ) + ")"@
}

/// The positional insertion statement of table `tabla` over fields `campos`.
pub open spec fn sentencia(tabla: Seq<char>, campos: Seq<Seq<char>>) -> Seq<char> {
    sentencia_columnas(tabla, campos.map_values(|c: Seq<char>| columna(c)))
}

/// `INSERT INTO <tabla> (<columnas>) VALUES (?,...)`, one placeholder per column.
pub fn sentencia_de_columnas(tabla: &str, columnas: &Vec<String>) -> (r: String)
    ensures
        r@ == sentencia_columnas(tabla@, columnas@.map_values(|c: String| c@)),
{
    let ghost cols = columnas@.map_values(|c: String| c@);
    let mut lista = String::new();
    let mut marcas = String::new();
    let mut i: usize = 0;
    while i < columnas.len()
        invariant
            i <= columnas.len(),
            cols == columnas@.map_values(|c: String| c@),
            lista@ == con_comas(cols.subrange(0, i as int)),
            marcas@ == marcadores(i as nat),
        decreases columnas.len() - i,
    {
        proof {
            assert(cols.subrange(0, i as int + 1).drop_last() =~= cols.subrange(0, i as int));
        }
        if i > 0 {
            empujar(&mut lista, ',');
            empujar(&mut marcas, ',');
        }
        lista.append(columnas[i].as_str());
        empujar(&mut marcas, '?');
        proof {
            if i > 0 {
                assert(marcas@ =~= marcadores(i as nat) + seq![',', '?']);
            } else {
                assert(marcas@ =~= seq!['?']);
            }
        }
        i = i + 1;
    }
    assert(cols.subrange(0, columnas.len() as int) =~= cols);
    let mut r = String::from_str("INSERT INTO ");
    r.append(tabla);
    r.append(" (");
    r.append(lista.as_str());
    r.append(") VALUES (");
    r.append(marcas.as_str());
    r.append(")");
    assert(r@ =~= sentencia_columnas(tabla@, cols));
    r
}

/// What the loader needs of an entity type: its table and its fields, in the
/// order their values are bound.
pub struct Descriptor {
    pub tabla: String,
    pub campos: Vec<String>,
}

impl Descriptor {
    pub open spec fn vista_campos(&self) -> Seq<Seq<char>> {
        self.campos@.map_values(|c: String| c@)
    }

    /// The column of each field, in order.
    pub fn columnas(&self) -> (r: Vec<String>)
        ensures
            r@.map_values(|c: String| c@) == self.vista_campos().map_values(
                |c: Seq<char>| columna(c),
            ),
    {
        let mut r: Vec<String> = Vec::new();
        let mut i: usize = 0;
        while i < self.campos.len()
            invariant
                i <= self.campos.len(),
                r.len() == i,
                forall|j: int| 0 <= j < i ==> (#[trigger] r@[j])@ == columna(self.campos@[j]@),
            decreases self.campos.len() - i,
        {
            let sin = strip_underscore(self.campos[i].as_str());
            r.push(a_minusculas(sin.as_str()));
            i = i + 1;
        }
        assert(r@.map_values(|c: String| c@) =~= self.vista_campos().map_values(
            |c: Seq<char>| columna(c),
        ));
        r
    }

    /// `INSERT INTO <tabla> (<columns>) VALUES (?,...)`, one placeholder per field.
    pub fn sentencia_insert(&self) -> (r: String)
        ensures
            r@ == sentencia(self.tabla@, self.vista_campos()),
    {
        let columnas = self.columnas();
        sentencia_de_columnas(self.tabla.as_str(), &columnas)
    }
}

/// The records of `filas` whose answer in `aceptadas` is true, in order.
pub open spec fn aceptadas_de<T>(filas: Seq<T>, aceptadas: Seq<bool>) -> Seq<T>
    decreases filas.len(),
{
    if filas.len() == 0 || aceptadas.len() == 0 {
        Seq::empty()
    } else {
        let previas = aceptadas_de(filas.drop_last(), aceptadas.drop_last());
        if aceptadas.last() {
            previas.push(filas.last())
        } else {
            previas
        }
    }
}

/// The records of one entity type that the store accepted during this run:
/// the only ones that later records may reference.
pub struct Pozo<T> {
    filas: Vec<T>,
}

impl<T> View for Pozo<T> {
    type V = Seq<T>;

    closed spec fn view(&self) -> Seq<T> {
        self.filas@
    }
}

impl<T> Pozo<T> {
    pub fn new() -> (r: Pozo<T>)
        ensures
            r@ == Seq::<T>::empty(),
    {
        Pozo { filas: Vec::new() }
    }

    /// Records the store's answer for `fila`: kept and counted a success when
    /// accepted, dropped and counted a rejection otherwise.
    pub fn registrar(&mut self, fila: T, aceptada: bool, contador: &mut ContadorGlobal)
        requires
            old(contador).bien_formado(),
            old(contador).total_spec() < usize::MAX,
        ensures
            aceptada ==> final(self)@ == old(self)@.push(fila),
            !aceptada ==> final(self)@ == old(self)@,
            final(contador).bien_formado(),
            final(contador).total_spec() == old(contador).total_spec() + 1,
            final(contador).subtotal(Notificacion::INFO) == old(contador).subtotal(
                Notificacion::INFO,
            ) + if aceptada {
                1int
            } else {
                0int
            },
            final(contador).subtotal(Notificacion::WARN) == old(contador).subtotal(
                Notificacion::WARN,
            ) + if aceptada {
                0int
            } else {
                1int
            },
            final(contador).subtotal(Notificacion::ERROR) == old(contador).subtotal(
                Notificacion::ERROR,
            ),
    {
        if aceptada {
            self.filas.push(fila);
            contador.increment(Notificacion::INFO);
        } else {
            contador.increment(Notificacion::WARN);
        }
    }

    /// Records the store's answers for a whole stage: `aceptadas[i]` is the
    /// answer for `filas[i]`. Exactly the accepted records are kept, in order.
    pub fn registrar_todas(
        &mut self,
        filas: Vec<T>,
        aceptadas: &Vec<bool>,
        contador: &mut ContadorGlobal,
    )
        requires
            filas.len() == aceptadas.len(),
            old(contador).bien_formado(),
            old(contador).total_spec() + filas.len() <= usize::MAX,
        ensures
            final(self)@ == old(self)@ + aceptadas_de(filas@, aceptadas@),
            final(contador).bien_formado(),
            final(contador).total_spec() == old(contador).total_spec() + filas.len(),
            final(contador).subtotal(Notificacion::INFO) == old(contador).subtotal(
                Notificacion::INFO,
            ) + aceptadas_de(filas@, aceptadas@).len(),
            final(contador).subtotal(Notificacion::WARN) == old(contador).subtotal(
                Notificacion::WARN,
            ) + (filas.len() - aceptadas_de(filas@, aceptadas@).len()),
            final(contador).subtotal(Notificacion::ERROR) == old(contador).subtotal(
                Notificacion::ERROR,
            ),
    {
        let ghost orig = filas@;
        let ghost pozo0 = self@;
        let ghost c0 = *contador;
        let mut filas = filas;
        let n = filas.len();
        let mut i: usize = 0;
        while i < n
            invariant
                n == orig.len() == aceptadas.len(),
                i <= n,
                filas@ == orig.subrange(i as int, n as int),
                self@ == pozo0 + aceptadas_de(orig.subrange(0, i as int), aceptadas@.subrange(0, i as int)),
                aceptadas_de(orig.subrange(0, i as int), aceptadas@.subrange(0, i as int)).len() <= i,
                contador.bien_formado(),
                contador.total_spec() == c0.total_spec() + i,
                c0.total_spec() + n <= usize::MAX,
                contador.subtotal(Notificacion::INFO) == c0.subtotal(Notificacion::INFO)
                    + aceptadas_de(orig.subrange(0, i as int), aceptadas@.subrange(0, i as int)).len(),
                contador.subtotal(Notificacion::WARN) == c0.subtotal(Notificacion::WARN) + (i
                    - aceptadas_de(orig.subrange(0, i as int), aceptadas@.subrange(0, i as int)).len()),
                contador.subtotal(Notificacion::ERROR) == c0.subtotal(Notificacion::ERROR),
            decreases n - i,
        {
            let fila = filas.remove(0);
            proof {
                let fs = orig.subrange(0, i as int + 1);
                let os = aceptadas@.subrange(0, i as int + 1);
                assert(fs.drop_last() =~= orig.subrange(0, i as int));
                assert(os.drop_last() =~= aceptadas@.subrange(0, i as int));
                assert(fs.last() == fila);
                assert(os.last() == aceptadas@[i as int]);
            }
            self.registrar(fila, aceptadas[i], contador);
            proof {
                assert(filas@ =~= orig.subrange(i as int + 1, n as int));
            }
            i = i + 1;
        }
        assert(orig.subrange(0, n as int) =~= orig);
        assert(aceptadas@.subrange(0, n as int) =~= aceptadas@);
    }

    pub fn filas(&self) -> (r: &Vec<T>)
        ensures
            r@ == self@,
    {
        &self.filas
    }

    pub fn len(&self) -> (r: usize)
        ensures
            r == self@.len(),
    {
        self.filas.len()
    }
}

/// A parent drawn uniformly from `pozo`.
pub fn elegir<'a, T>(pozo: &'a Vec<T>, fuente: &mut Fuente) -> (r: &'a T)
    requires
        pozo.len() > 0,
    ensures
        exists|i: int| 0 <= i < pozo.len() && *r == pozo@[i],
{
    let i = fuente.elegir_indice(pozo.len());
    &pozo[i]
}

/// A value bound to one placeholder of an insertion statement.
pub enum Valor {
    Texto(Option<String>),
    Entero(Option<i64>),
    Logico(bool),
    Fecha(Option<Fecha>),
    Hora(Hora),
    Decimal(Decimal),
}

pub fn texto(s: &str) -> (r: Valor)
    ensures
        r matches Valor::Texto(Some(t)) && t@ == s@,
{
    Valor::Texto(Some(String::from_str(s)))
}

pub fn texto_opt(s: &Option<String>) -> (r: Valor)
    ensures
        r matches Valor::Texto(t) && t.is_some() == s.is_some(),
{
    match s {
        Some(t) => Valor::Texto(Some(t.clone())),
        None => Valor::Texto(None),
    }
}

pub fn cuit_opt(c: &Option<Cuil>) -> (r: Valor)
    ensures
        r matches Valor::Texto(t) && t.is_some() == c.is_some(),
{
    match c {
        Some(t) => Valor::Texto(Some(String::from_str(t.texto()))),
        None => Valor::Texto(None),
    }
}

pub fn entero(n: i64) -> (r: Valor)
    ensures
        r == Valor::Entero(Some(n)),
{
    Valor::Entero(Some(n))
}

pub fn entero_opt_u32(n: Option<u32>) -> (r: Valor)
    ensures
        r == Valor::Entero(
            match n {
                Some(x) => Some(x as i64),
                None => None,
            },
        ),
{
    match n {
        Some(x) => Valor::Entero(Some(x as i64)),
        None => Valor::Entero(None),
    }
}

pub fn entero_opt_u8(n: Option<u8>) -> (r: Valor)
    ensures
        r == Valor::Entero(
            match n {
                Some(x) => Some(x as i64),
                None => None,
            },
        ),
{
    match n {
        Some(x) => Valor::Entero(Some(x as i64)),
        None => Valor::Entero(None),
    }
}

pub fn fecha(f: Fecha) -> (r: Valor)
    ensures
        r == Valor::Fecha(Some(f)),
{
    Valor::Fecha(Some(f))
}

pub fn fecha_opt(f: Option<Fecha>) -> (r: Valor)
    ensures
        r == Valor::Fecha(f),
{
    Valor::Fecha(f)
}

pub fn hora(h: Hora) -> (r: Valor)
    ensures
        r == Valor::Hora(h),
{
    Valor::Hora(h)
}

pub fn decimal(d: Decimal) -> (r: Valor)
    ensures
        r == Valor::Decimal(d),
{
    Valor::Decimal(d)
}

} // verus!
