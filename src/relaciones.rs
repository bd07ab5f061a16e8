//! Association records, which link records already accepted by the store, and
//! the functions that produce one stage of them from the entity pools.

use crate::azar::Fuente;
use crate::calendario::{dias_antes, Fecha};
use crate::carga::{decimal, entero, entero_opt_u32, entero_opt_u8, fecha, fecha_opt, texto, Descriptor, Valor};
use crate::claves::Dni;
use crate::entidades::{
    fecha_al_azar, mas_anios, uno_de, vivienda, vivienda_valida, ActividadesExtensionUniversitaria,
    ActividadesInvestigacion, CursosConferencias, Decimal, Direcciones, Familiares, Idiomas,
    Instituciones, ObrasSociales, Percepciones, Profesores, Publicaciones, ReunionesCientificas,
    Seguros, Titulos,
};
use vstd::prelude::*;

verus! {

/// A stage that cannot be produced from the pools it was given.
#[derive(PartialEq, Eq, Structural, Clone, Copy, Debug)]
pub enum ErrorCarga {
    /// No degree of level `Terciario` to give every professor one.
    SinTerciarios,
    /// No degree of another level.
    SinOtrosTitulos,
    /// No language other than Spanish.
    SinIdiomas,
}

/// Whether some professor of `profesores` has identity number `dni`.
pub open spec fn profesor_en(profesores: Seq<Profesores>, dni: Seq<char>) -> bool {
    exists|i: int| 0 <= i < profesores.len() && #[trigger] profesores[i].dni@ == dni
}

/// Where a professor lives.
#[derive(Clone, Debug)]
pub struct ResideEn {
    pub dni_profesor: Dni,
    pub codigo_postal: u32,
    pub calle: String,
    pub numero: u32,
    pub piso: Option<u32>,
    pub departamento: Option<u8>,
}

/// Whether some address of `dirs` has these address fields.
pub open spec fn domicilio_en(dirs: Seq<Direcciones>, cp: u32, calle: Seq<char>, numero: u32) -> bool {
    exists|i: int| 0 <= i < dirs.len() && #[trigger] dirs[i].es_domicilio(cp, calle, numero)
}

/// One residence for each professor, at an address of the pool.
pub fn cargar_reside_en(
    profesores: &Vec<Profesores>,
    direcciones: &Vec<Direcciones>,
    fuente: &mut Fuente,
) -> (r: Vec<ResideEn>)
    requires
        profesores.len() > 0 ==> direcciones.len() > 0,
    ensures
        r.len() == profesores.len(),
        forall|k: int|
            #![trigger r[k]]
            0 <= k < r.len() ==> {
                &&& r[k].dni_profesor@ == profesores[k].dni@
                &&& domicilio_en(direcciones@, r[k].codigo_postal, r[k].calle@, r[k].numero)
                &&& vivienda_valida(r[k].piso, r[k].departamento)
            },
{
    let mut r: Vec<ResideEn> = Vec::new();
    let mut k: usize = 0;
    while k < profesores.len()
        invariant
            profesores.len() > 0 ==> direcciones.len() > 0,
            k <= profesores.len(),
            r.len() == k,
            forall|j: int|
                #![trigger r[j]]
                0 <= j < k ==> {
                    &&& r[j].dni_profesor@ == profesores[j].dni@
                    &&& domicilio_en(direcciones@, r[j].codigo_postal, r[j].calle@, r[j].numero)
                    &&& vivienda_valida(r[j].piso, r[j].departamento)
                },
        decreases profesores.len() - k,
    {
        let d = fuente.elegir_indice(direcciones.len());
        let dir = &direcciones[d];
        let (piso, departamento) = vivienda(fuente);
        let fila = ResideEn {
            dni_profesor: profesores[k].dni.copia(),
            codigo_postal: dir.codigo_postal,
            calle: dir.calle.clone(),
            numero: dir.numero,
            piso,
            departamento,
        };
        assert(direcciones[d as int].es_domicilio(fila.codigo_postal, fila.calle@, fila.numero));
        r.push(fila);
        k = k + 1;
    }
    r
}

/// A degree held by a professor, over five years.
#[derive(Clone, Debug)]
pub struct PoseeTitulo {
    pub dni: Dni,
    pub nivel: String,
    pub titulo: String,
    pub desde: Fecha,
    pub hasta: Fecha,
}

/// Whether `t` is a degree of `titulos`, by level and title.
pub open spec fn titulo_en(titulos: Seq<Titulos>, nivel: Seq<char>, titulo: Seq<char>) -> bool {
    exists|i: int|
        0 <= i < titulos.len() && #[trigger] titulos[i].nivel@ == nivel && titulos[i].titulo@
            == titulo
}

pub open spec fn es_terciario(t: Titulos) -> bool {
    t.nivel@ == "Terciario"@
}

/// The degrees of `titulos` whose level is, or is not, `Terciario`, in order.
pub fn separar_terciarios(titulos: &Vec<Titulos>) -> (r: (Vec<Titulos>, Vec<Titulos>))
    ensures
        forall|i: int|
            0 <= i < r.0.len() ==> #[trigger] r.0[i].nivel@ == "Terciario"@ && titulo_en(
                titulos@,
                r.0[i].nivel@,
                r.0[i].titulo@,
            ),
        forall|i: int|
            0 <= i < r.1.len() ==> #[trigger] r.1[i].nivel@ != "Terciario"@ && titulo_en(
                titulos@,
                r.1[i].nivel@,
                r.1[i].titulo@,
            ),
        (exists|i: int| 0 <= i < titulos.len() && es_terciario(#[trigger] titulos[i])) <==> r.0.len()
            > 0,
        (exists|i: int| 0 <= i < titulos.len() && !es_terciario(#[trigger] titulos[i])) <==> r.1.len()
            > 0,
{
    let terciario = String::from_str("Terciario");
    let mut ter: Vec<Titulos> = Vec::new();
    let mut otros: Vec<Titulos> = Vec::new();
    let mut i: usize = 0;
    while i < titulos.len()
        invariant
            terciario@ == "Terciario"@,
            i <= titulos.len(),
            forall|j: int|
                0 <= j < ter.len() ==> #[trigger] ter[j].nivel@ == "Terciario"@ && titulo_en(
                    titulos@,
                    ter[j].nivel@,
                    ter[j].titulo@,
                ),
            forall|j: int|
                0 <= j < otros.len() ==> #[trigger] otros[j].nivel@ != "Terciario"@ && titulo_en(
                    titulos@,
                    otros[j].nivel@,
                    otros[j].titulo@,
                ),
            (exists|j: int| 0 <= j < i && es_terciario(#[trigger] titulos[j])) <==> ter.len() > 0,
            (exists|j: int| 0 <= j < i && !es_terciario(#[trigger] titulos[j])) <==> otros.len() > 0,
        decreases titulos.len() - i,
    {
        let t = titulos[i].copia();
        assert(titulo_en(titulos@, t.nivel@, t.titulo@)) by {
            assert(titulos[i as int].nivel@ == t.nivel@);
        }
        if t.nivel == terciario {
            assert(es_terciario(titulos[i as int]));
            ter.push(t);
        } else {
            assert(!es_terciario(titulos[i as int]));
            otros.push(t);
        }
        i = i + 1;
    }
    (ter, otros)
}

/// A degree of `pozo`, held from a random date to five years later.
fn posesion(prof: &Profesores, pozo: &Vec<Titulos>, fuente: &mut Fuente) -> (r: PoseeTitulo)
    requires
        pozo.len() > 0,
    ensures
        r.dni@ == prof.dni@,
        exists|i: int|
            0 <= i < pozo.len() && #[trigger] pozo[i].nivel@ == r.nivel@ && pozo[i].titulo@
                == r.titulo@,
        r.desde.valida() && r.hasta.valida() && r.desde.dia <= r.hasta.dia,
        r.hasta.dia == r.desde.dia + 5 * 365,
{
    let i = fuente.elegir_indice(pozo.len());
    let t = &pozo[i];
    let desde = fecha_al_azar(fuente);
    let hasta = mas_anios(desde, 5);
    let r = PoseeTitulo {
        dni: prof.dni.copia(),
        nivel: t.nivel.clone(),
        titulo: t.titulo.clone(),
        desde,
        hasta,
    };
    assert(pozo[i as int].nivel@ == r.nivel@);
    r
}

/// One `Terciario` degree for each professor, then one to `muestras` degrees
/// of other levels, each for a professor of the pool.
pub fn cargar_posee_titulo(
    titulos: &Vec<Titulos>,
    profesores: &Vec<Profesores>,
    muestras: usize,
    fuente: &mut Fuente,
) -> (r: Result<Vec<PoseeTitulo>, ErrorCarga>)
    requires
        profesores.len() > 0,
        muestras > 0,
    ensures
        (exists|i: int| 0 <= i < titulos.len() && es_terciario(#[trigger] titulos[i])) ==> (
        exists|i: int| 0 <= i < titulos.len() && !es_terciario(#[trigger] titulos[i])) ==> r is Ok,
        !(exists|i: int| 0 <= i < titulos.len() && es_terciario(#[trigger] titulos[i])) ==> r
            == Err::<Vec<PoseeTitulo>, ErrorCarga>(ErrorCarga::SinTerciarios),
        (exists|i: int| 0 <= i < titulos.len() && es_terciario(#[trigger] titulos[i])) && !(
        exists|i: int| 0 <= i < titulos.len() && !es_terciario(#[trigger] titulos[i])) ==> r
            == Err::<Vec<PoseeTitulo>, ErrorCarga>(ErrorCarga::SinOtrosTitulos),
        r matches Ok(v) ==> {
            &&& profesores.len() < v.len() <= profesores.len() + muestras
            &&& forall|k: int|
                #![trigger v[k]]
                0 <= k < profesores.len() ==> v[k].dni@ == profesores[k].dni@ && v[k].nivel@
                    == "Terciario"@
            &&& forall|k: int|
                #![trigger v[k]]
                profesores.len() <= k < v.len() ==> profesor_en(profesores@, v[k].dni@)
                    && v[k].nivel@ != "Terciario"@
            &&& forall|k: int|
                #![trigger v[k]]
                0 <= k < v.len() ==> titulo_en(titulos@, v[k].nivel@, v[k].titulo@)
                    && v[k].desde.dia <= v[k].hasta.dia && v[k].hasta.dia == v[k].desde.dia + 5 * 365
        },
{
    let (ter, otros) = separar_terciarios(titulos);
    if ter.len() == 0 {
        return Err(ErrorCarga::SinTerciarios);
    }
    if otros.len() == 0 {
        return Err(ErrorCarga::SinOtrosTitulos);
    }
    let mut v: Vec<PoseeTitulo> = Vec::new();
    let mut k: usize = 0;
    while k < profesores.len()
        invariant
            ter.len() > 0,
            k <= profesores.len(),
            v.len() == k,
            forall|j: int|
                0 <= j < ter.len() ==> #[trigger] ter[j].nivel@ == "Terciario"@ && titulo_en(
                    titulos@,
                    ter[j].nivel@,
                    ter[j].titulo@,
                ),
            forall|j: int|
                #![trigger v[j]]
                0 <= j < k ==> v[j].dni@ == profesores[j].dni@ && v[j].nivel@
                    == "Terciario"@ && titulo_en(titulos@, v[j].nivel@, v[j].titulo@)
                    && v[j].desde.dia <= v[j].hasta.dia && v[j].hasta.dia == v[j].desde.dia + 5
                    * 365,
        decreases profesores.len() - k,
    {
        let p = posesion(&profesores[k], &ter, fuente);
        v.push(p);
        k = k + 1;
    }
    let m = fuente.rango(0, muestras);
    let mut n: usize = 0;
    assert forall|j: int| #![trigger v[j]] 0 <= j < v.len() implies titulo_en(
        titulos@,
        v[j].nivel@,
        v[j].titulo@,
    ) && v[j].desde.dia <= v[j].hasta.dia && v[j].hasta.dia == v[j].desde.dia + 5 * 365 by {}
    while n <= m
        invariant
            otros.len() > 0,
            profesores.len() > 0,
            m < muestras,
            n <= m + 1,
            v.len() == profesores.len() + n,
            forall|j: int|
                0 <= j < otros.len() ==> #[trigger] otros[j].nivel@ != "Terciario"@ && titulo_en(
                    titulos@,
                    otros[j].nivel@,
                    otros[j].titulo@,
                ),
            forall|j: int|
                #![trigger v[j]]
                0 <= j < profesores.len() ==> v[j].dni@ == profesores[j].dni@ && v[j].nivel@
                    == "Terciario"@,
            forall|j: int|
                #![trigger v[j]]
                profesores.len() <= j < v.len() ==> profesor_en(profesores@, v[j].dni@)
                    && v[j].nivel@ != "Terciario"@,
            forall|j: int|
                #![trigger v[j]]
                0 <= j < v.len() ==> titulo_en(titulos@, v[j].nivel@, v[j].titulo@)
                    && v[j].desde.dia <= v[j].hasta.dia && v[j].hasta.dia == v[j].desde.dia + 5
                    * 365,
        decreases m + 1 - n,
    {
        let q = fuente.elegir_indice(profesores.len());
        let p = posesion(&profesores[q], &otros, fuente);
        assert(profesores[q as int].dni@ == p.dni@);
        v.push(p);
        n = n + 1;
    }
    Ok(v)
}

/// A language a professor knows.
#[derive(Clone, Debug)]
pub struct ConoceIdioma {
    pub dni_profesor: Dni,
    pub nombre_idioma: String,
    pub certificacion: String,
    pub nivel: String,
}

pub open spec fn es_espanol(i: Idiomas) -> bool {
    i.nombre@ == "Español"@
}

/// Whether some language of `idiomas` is named `nombre`.
pub open spec fn idioma_en(idiomas: Seq<Idiomas>, nombre: Seq<char>) -> bool {
    exists|i: int| 0 <= i < idiomas.len() && #[trigger] idiomas[i].nombre@ == nombre
}

/// The languages of `idiomas` other than Spanish, in order.
pub fn sin_espanol(idiomas: &Vec<Idiomas>) -> (r: Vec<Idiomas>)
    ensures
        forall|k: int|
            #![trigger r[k]]
            0 <= k < r.len() ==> r[k].nombre@ != "Español"@ && idioma_en(idiomas@, r[k].nombre@),
        (exists|i: int| 0 <= i < idiomas.len() && !es_espanol(#[trigger] idiomas[i])) <==> r.len()
            > 0,
{
    let espanol = String::from_str("Español");
    let mut r: Vec<Idiomas> = Vec::new();
    let mut i: usize = 0;
    while i < idiomas.len()
        invariant
            espanol@ == "Español"@,
            i <= idiomas.len(),
            forall|k: int|
                #![trigger r[k]]
                0 <= k < r.len() ==> r[k].nombre@ != "Español"@ && idioma_en(
                    idiomas@,
                    r[k].nombre@,
                ),
            (exists|j: int| 0 <= j < i && !es_espanol(#[trigger] idiomas[j])) <==> r.len() > 0,
        decreases idiomas.len() - i,
    {
        if idiomas[i].nombre != espanol {
            let copia = Idiomas { nombre: idiomas[i].nombre.clone() };
            assert(idiomas[i as int].nombre@ == copia.nombre@);
            assert(!es_espanol(idiomas[i as int]));
            r.push(copia);
        }
        i = i + 1;
    }
    r
}

/// Spanish for every professor, then one or two other languages of the list
/// for each.
/// `c` cuts the rows of `v` after the first `profs.len()` into `k`
/// consecutive groups, one per professor in order, each of one or two rows
/// carrying that professor's identity number.
pub open spec fn agrupado_por_profesor(
    v: Seq<ConoceIdioma>,
    profs: Seq<Profesores>,
    c: Seq<int>,
    k: int,
) -> bool {
    &&& c.len() == k + 1
    &&& c[0] == profs.len()
    &&& forall|p: int| 0 <= p < k ==> 1 <= #[trigger] fin_grupo(c, p) - c[p] <= 2
    &&& forall|p: int, j: int|
        #![trigger fin_grupo(c, p), v[j]]
        0 <= p < k && c[p] <= j < fin_grupo(c, p) ==> v[j].dni_profesor@ == profs[p].dni@
}

/// Where group `p` of the cuts `c` ends.
pub open spec fn fin_grupo(c: Seq<int>, p: int) -> int {
    c[p + 1]
}

/// Spanish for every professor, then one or two other languages of the list
/// for each professor in turn.
pub fn cargar_conoce_idiomas(
    idiomas: &Vec<Idiomas>,
    profesores: &Vec<Profesores>,
    fuente: &mut Fuente,
) -> (r: Result<Vec<ConoceIdioma>, ErrorCarga>)
    ensures
        r is Err <==> profesores.len() > 0 && !(exists|i: int|
            0 <= i < idiomas.len() && !es_espanol(#[trigger] idiomas[i])),
        r matches Err(e) ==> e == ErrorCarga::SinIdiomas,
        r matches Ok(v) ==> {
            &&& 2 * profesores.len() <= v.len() <= 3 * profesores.len()
            &&& forall|k: int|
                #![trigger v[k]]
                0 <= k < profesores.len() ==> v[k].dni_profesor@ == profesores[k].dni@
                    && v[k].nombre_idioma@ == "Español"@
            &&& forall|k: int|
                #![trigger v[k]]
                profesores.len() <= k < v.len() ==> v[k].nombre_idioma@ != "Español"@
                    && idioma_en(idiomas@, v[k].nombre_idioma@)
            &&& exists|c: Seq<int>|
                #[trigger] agrupado_por_profesor(v@, profesores@, c, profesores.len() as int)
                    && c[profesores.len() as int] == v.len()
        },
{
    let aux = sin_espanol(idiomas);
    if profesores.len() > 0 && aux.len() == 0 {
        return Err(ErrorCarga::SinIdiomas);
    }
    let n = profesores.len();
    let mut v: Vec<ConoceIdioma> = Vec::new();
    let mut k: usize = 0;
    while k < n
        invariant
            n == profesores.len(),
            k <= n,
            v.len() == k,
            forall|j: int|
                #![trigger v[j]]
                0 <= j < k ==> v[j].dni_profesor@ == profesores[j].dni@ && v[j].nombre_idioma@
                    == "Español"@,
        decreases n - k,
    {
        let certificacion = fuente.palabra();
        let nivel = fuente.palabra();
        v.push(
            ConoceIdioma {
                dni_profesor: profesores[k].dni.copia(),
                nombre_idioma: String::from_str("Español"),
                certificacion,
                nivel,
            },
        );
        k = k + 1;
    }
    let ghost mut c: Seq<int> = seq![n as int];
    let mut k: usize = 0;
    while k < n
        invariant
            n == profesores.len(),
            n > 0 ==> aux.len() > 0,
            k <= n,
            n + k <= v.len() <= n + 2 * k,
            agrupado_por_profesor(v@, profesores@, c, k as int),
            c[k as int] == v.len(),
            forall|j: int|
                #![trigger aux[j]]
                0 <= j < aux.len() ==> aux[j].nombre@ != "Español"@ && idioma_en(
                    idiomas@,
                    aux[j].nombre@,
                ),
            forall|j: int|
                #![trigger v[j]]
                0 <= j < n ==> v[j].dni_profesor@ == profesores[j].dni@ && v[j].nombre_idioma@
                    == "Español"@,
            forall|j: int|
                #![trigger v[j]]
                n <= j < v.len() ==> v[j].nombre_idioma@ != "Español"@ && idioma_en(
                    idiomas@,
                    v[j].nombre_idioma@,
                ),
        decreases n - k,
    {
        let veces = fuente.rango(1, 3);
        let ghost base = v.len();
        let ghost pre = v@;
        let mut t: usize = 0;
        while t < veces
            invariant
                aux.len() > 0,
                k < n == profesores.len(),
                veces <= 2,
                t <= veces,
                v.len() == base + t,
                base == pre.len(),
                v@.subrange(0, base as int) == pre,
                forall|j: int|
                    #![trigger aux[j]]
                    0 <= j < aux.len() ==> aux[j].nombre@ != "Español"@ && idioma_en(
                        idiomas@,
                        aux[j].nombre@,
                    ),
                forall|j: int|
                    #![trigger v[j]]
                    base <= j < v.len() ==> v[j].dni_profesor@ == profesores[k as int].dni@
                        && v[j].nombre_idioma@ != "Español"@ && idioma_en(
                        idiomas@,
                        v[j].nombre_idioma@,
                    ),
            decreases veces - t,
        {
            let a = fuente.elegir_indice(aux.len());
            let certificacion = fuente.palabra();
            let nivel = fuente.palabra();
            let fila = ConoceIdioma {
                dni_profesor: profesores[k].dni.copia(),
                nombre_idioma: aux[a].nombre.clone(),
                certificacion,
                nivel,
            };
            assert(aux[a as int].nombre@ == fila.nombre_idioma@);
            v.push(fila);
            assert(v@.subrange(0, base as int) =~= pre);
            t = t + 1;
        }
        proof {
            lema_extender_grupo(pre, v@, profesores@, idiomas@, c, k as int);
            c = c.push(v.len() as int);
        }
        k = k + 1;
    }
    assert(agrupado_por_profesor(v@, profesores@, c, profesores.len() as int));
    Ok(v)
}

/// Adding, after `pre`, one or two rows of professor `k` extends the grouping
/// by one group, and keeps what holds of the earlier rows.
proof fn lema_extender_grupo(
    pre: Seq<ConoceIdioma>,
    v: Seq<ConoceIdioma>,
    profs: Seq<Profesores>,
    idiomas: Seq<Idiomas>,
    c: Seq<int>,
    k: int,
)
    requires
        0 <= k < profs.len(),
        profs.len() + k <= pre.len() <= profs.len() + 2 * k,
        pre.len() + 1 <= v.len() <= pre.len() + 2,
        v.subrange(0, pre.len() as int) == pre,
        agrupado_por_profesor(pre, profs, c, k),
        c[k] == pre.len(),
        forall|j: int|
            #![trigger pre[j]]
            0 <= j < profs.len() ==> pre[j].dni_profesor@ == profs[j].dni@ && pre[j].nombre_idioma@
                == "Español"@,
        forall|j: int|
            #![trigger pre[j]]
            profs.len() <= j < pre.len() ==> pre[j].nombre_idioma@ != "Español"@ && idioma_en(
                idiomas,
                pre[j].nombre_idioma@,
            ),
        forall|j: int|
            #![trigger v[j]]
            pre.len() <= j < v.len() ==> v[j].dni_profesor@ == profs[k].dni@
                && v[j].nombre_idioma@ != "Español"@ && idioma_en(idiomas, v[j].nombre_idioma@),
    ensures
        profs.len() + k + 1 <= v.len() <= profs.len() + 2 * (k + 1),
        agrupado_por_profesor(v, profs, c.push(v.len() as int), k + 1),
        forall|j: int|
            #![trigger v[j]]
            0 <= j < profs.len() ==> v[j].dni_profesor@ == profs[j].dni@ && v[j].nombre_idioma@
                == "Español"@,
        forall|j: int|
            #![trigger v[j]]
            profs.len() <= j < v.len() ==> v[j].nombre_idioma@ != "Español"@ && idioma_en(
                idiomas,
                v[j].nombre_idioma@,
            ),
{
    lema_prefijo(pre, v);
    lema_grupo(pre, v, profs, c, k);
    assert forall|j: int| #![trigger v[j]] 0 <= j < profs.len() implies v[j].dni_profesor@
        == profs[j].dni@ && v[j].nombre_idioma@ == "Español"@ by {
        assert(v[j] == pre[j]);
    }
    assert forall|j: int| #![trigger v[j]] profs.len() <= j < v.len() implies v[j].nombre_idioma@
        != "Español"@ && idioma_en(idiomas, v[j].nombre_idioma@) by {
        if j < pre.len() {
            assert(v[j] == pre[j]);
        }
    }
}

/// The rows of a sequence that extends `pre` agree with `pre` on its length.
proof fn lema_prefijo(pre: Seq<ConoceIdioma>, v: Seq<ConoceIdioma>)
    requires
        pre.len() <= v.len(),
        v.subrange(0, pre.len() as int) == pre,
    ensures
        forall|j: int| 0 <= j < pre.len() ==> v[j] == #[trigger] pre[j],
{
    assert forall|j: int| 0 <= j < pre.len() implies v[j] == #[trigger] pre[j] by {
        assert(v.subrange(0, pre.len() as int)[j] == v[j]);
    }
}

/// A group of one or two rows of professor `k` after the rows grouped by `c`.
proof fn lema_grupo(
    pre: Seq<ConoceIdioma>,
    v: Seq<ConoceIdioma>,
    profs: Seq<Profesores>,
    c: Seq<int>,
    k: int,
)
    requires
        0 <= k < profs.len(),
        pre.len() + 1 <= v.len() <= pre.len() + 2,
        forall|j: int| 0 <= j < pre.len() ==> v[j] == #[trigger] pre[j],
        agrupado_por_profesor(pre, profs, c, k),
        c[k] == pre.len(),
        forall|j: int|
            #![trigger v[j]]
            pre.len() <= j < v.len() ==> v[j].dni_profesor@ == profs[k].dni@,
    ensures
        agrupado_por_profesor(v, profs, c.push(v.len() as int), k + 1),
{
    let c2 = c.push(v.len() as int);
    assert forall|p: int| 0 <= p < k + 1 implies fin_grupo(c2, p) == if p < k {
        fin_grupo(c, p)
    } else {
        v.len() as int
    } && c2[p] == c[p] by {}
    assert forall|p: int, j: int|
        #![trigger fin_grupo(c2, p), v[j]]
        0 <= p < k + 1 && c2[p] <= j < fin_grupo(c2, p) implies v[j].dni_profesor@
            == profs[p].dni@ by {
        if p < k {
            assert(fin_grupo(c2, p) == c2[p + 1] && c2[p + 1] == c[p + 1]);
            assert(fin_grupo(c, p) == c[p + 1]);
            lema_cortes_crecientes(c, k, p + 1, k);
            lema_cortes_crecientes(c, k, 0, p);
            assert(0 <= j < pre.len());
            assert(pre[j] == v[j]);
        }
    }
}

/// Cuts that grow between consecutive entries grow between any two.
proof fn lema_cortes_crecientes(c: Seq<int>, k: int, a: int, b: int)
    requires
        c.len() == k + 1,
        forall|p: int| 0 <= p < k ==> 1 <= #[trigger] fin_grupo(c, p) - c[p],
        0 <= a <= b <= k,
    ensures
        c[a] <= c[b],
    decreases b - a,
{
    if a < b {
        lema_cortes_crecientes(c, k, a, b - 1);
        assert(fin_grupo(c, b - 1) == c[b]);
    }
}

/// How many records a stage of half to all of the sample count produces.
pub fn cantidad_mitad_a_todo(muestras: usize, fuente: &mut Fuente) -> (r: usize)
    requires
        muestras > 0,
    ensures
        muestras / 2 <= r < muestras,
{
    fuente.rango(muestras / 2, muestras)
}

/// A professor's part in a research activity.
#[derive(Clone, Debug)]
pub struct RealizaInves {
    pub id_investigacion: u32,
    pub dni_profesor: Dni,
    pub desde: Fecha,
    pub hasta: Option<Fecha>,
    pub dedicacion: u32,
}

/// Whether some activity of `acts` has identifier `id`.
pub open spec fn investigacion_en(acts: Seq<ActividadesInvestigacion>, id: u32) -> bool {
    exists|i: int| 0 <= i < acts.len() && #[trigger] acts[i].id_investigacion == id
}

/// Half to all of `muestras` participations, each of a professor of the pool
/// in an activity of the pool; one that has ended lasted a year.
pub fn cargar_realiza_investigacion(
    actividades: &Vec<ActividadesInvestigacion>,
    profesores: &Vec<Profesores>,
    muestras: usize,
    fuente: &mut Fuente,
) -> (r: Vec<RealizaInves>)
    requires
        actividades.len() > 0,
        profesores.len() > 0,
        muestras > 0,
    ensures
        muestras / 2 <= r.len() < muestras,
        forall|k: int|
            #![trigger r[k]]
            0 <= k < r.len() ==> {
                &&& profesor_en(profesores@, r[k].dni_profesor@)
                &&& investigacion_en(actividades@, r[k].id_investigacion)
                &&& r[k].hasta matches Some(h) ==> r[k].desde.dia + 365 == h.dia
                &&& 1 <= r[k].dedicacion < 8
            },
{
    let m = cantidad_mitad_a_todo(muestras, fuente);
    let mut r: Vec<RealizaInves> = Vec::new();
    while r.len() < m
        invariant
            actividades.len() > 0,
            profesores.len() > 0,
            r.len() <= m,
            forall|k: int|
                #![trigger r[k]]
                0 <= k < r.len() ==> {
                    &&& profesor_en(profesores@, r[k].dni_profesor@)
                    &&& investigacion_en(actividades@, r[k].id_investigacion)
                    &&& r[k].hasta matches Some(h) ==> r[k].desde.dia + 365 == h.dia
                    &&& 1 <= r[k].dedicacion < 8
                },
        decreases m - r.len(),
    {
        let p = fuente.elegir_indice(profesores.len());
        let a = fuente.elegir_indice(actividades.len());
        let desde = fecha_al_azar(fuente);
        let hasta = if fuente.moneda() {
            Some(mas_anios(desde, 1))
        } else {
            None
        };
        let dedicacion = fuente.rango(1, 8) as u32;
        let fila = RealizaInves {
            id_investigacion: actividades[a].id_investigacion,
            dni_profesor: profesores[p].dni.copia(),
            desde,
            hasta,
            dedicacion,
        };
        assert(profesores[p as int].dni@ == fila.dni_profesor@);
        assert(actividades[a as int].id_investigacion == fila.id_investigacion);
        r.push(fila);
    }
    r
}

/// A professor's part in an outreach activity, over one year.
#[derive(Clone, Debug)]
pub struct RealizoAct {
    pub id_actividad: u32,
    pub dni_profesor: Dni,
    pub acciones: String,
    pub dedicacion: u32,
    pub hasta: Fecha,
    pub desde: Fecha,
}

/// Whether some activity of `acts` has identifier `id`.
pub open spec fn actividad_en(acts: Seq<ActividadesExtensionUniversitaria>, id: u32) -> bool {
    exists|i: int| 0 <= i < acts.len() && #[trigger] acts[i].id_actividad == id
}

/// Half to all of `muestras` participations, each of a professor of the pool
/// in an activity of the pool.
pub fn cargar_realizo_actividad(
    actividades: &Vec<ActividadesExtensionUniversitaria>,
    profesores: &Vec<Profesores>,
    muestras: usize,
    fuente: &mut Fuente,
) -> (r: Vec<RealizoAct>)
    requires
        actividades.len() > 0,
        profesores.len() > 0,
        muestras > 0,
    ensures
        muestras / 2 <= r.len() < muestras,
        forall|k: int|
            #![trigger r[k]]
            0 <= k < r.len() ==> {
                &&& profesor_en(profesores@, r[k].dni_profesor@)
                &&& actividad_en(actividades@, r[k].id_actividad)
                &&& r[k].desde.dia + 365 == r[k].hasta.dia
                &&& 1 <= r[k].dedicacion < 8
            },
{
    let m = cantidad_mitad_a_todo(muestras, fuente);
    let mut r: Vec<RealizoAct> = Vec::new();
    while r.len() < m
        invariant
            actividades.len() > 0,
            profesores.len() > 0,
            r.len() <= m,
            forall|k: int|
                #![trigger r[k]]
                0 <= k < r.len() ==> {
                    &&& profesor_en(profesores@, r[k].dni_profesor@)
                    &&& actividad_en(actividades@, r[k].id_actividad)
                    &&& r[k].desde.dia + 365 == r[k].hasta.dia
                    &&& 1 <= r[k].dedicacion < 8
                },
        decreases m - r.len(),
    {
        let a = fuente.elegir_indice(actividades.len());
        let p = fuente.elegir_indice(profesores.len());
        let acciones = fuente.palabra();
        let desde = fecha_al_azar(fuente);
        let hasta = mas_anios(desde, 1);
        let dedicacion = fuente.rango(1, 8) as u32;
        let fila = RealizoAct {
            id_actividad: actividades[a].id_actividad,
            dni_profesor: profesores[p].dni.copia(),
            acciones,
            dedicacion,
            hasta,
            desde,
        };
        assert(profesores[p as int].dni@ == fila.dni_profesor@);
        assert(actividades[a as int].id_actividad == fila.id_actividad);
        r.push(fila);
    }
    r
}

/// A course or conference a professor attended: a course lasts thirty days, a
/// conference one.
#[derive(Clone, Debug)]
pub struct AtendioA {
    pub nombre_curso: String,
    pub dni_profesor: Dni,
    pub desde: Fecha,
    pub hasta: Option<Fecha>,
}

/// Whether some course of `cursos` is named `nombre` and of kind `tipo`.
pub open spec fn curso_en(cursos: Seq<CursosConferencias>, nombre: Seq<char>, tipo: Seq<char>) -> bool {
    exists|i: int|
        0 <= i < cursos.len() && #[trigger] cursos[i].nombre_curso@ == nombre && cursos[i].tipo@
            == tipo
}

/// How long an attendance of a course of kind `tipo` lasts, in days.
pub open spec fn duracion_curso(tipo: Seq<char>) -> Option<int> {
    if tipo == "Curso"@ {
        Some(30)
    } else if tipo == "Conferencia"@ {
        Some(1)
    } else {
        None
    }
}

/// One attendance for each professor, of a course of the pool.
pub fn cargar_atendio_a(
    curso_conferencia: &Vec<CursosConferencias>,
    profesores: &Vec<Profesores>,
    fuente: &mut Fuente,
) -> (r: Vec<AtendioA>)
    requires
        profesores.len() > 0 ==> curso_conferencia.len() > 0,
    ensures
        r.len() == profesores.len(),
        forall|k: int|
            #![trigger r[k]]
            0 <= k < r.len() ==> {
                &&& r[k].dni_profesor@ == profesores[k].dni@
                &&& exists|t: Seq<char>|
                    curso_en(curso_conferencia@, r[k].nombre_curso@, t) && #[trigger] duracion_curso(t)
                        == match r[k].hasta {
                        Some(h) => Some(h.dia - r[k].desde.dia),
                        None => None::<int>,
                    }
            },
{
    let curso = String::from_str("Curso");
    let conferencia = String::from_str("Conferencia");
    let mut r: Vec<AtendioA> = Vec::new();
    let mut k: usize = 0;
    while k < profesores.len()
        invariant
            curso@ == "Curso"@,
            conferencia@ == "Conferencia"@,
            profesores.len() > 0 ==> curso_conferencia.len() > 0,
            k <= profesores.len(),
            r.len() == k,
            forall|j: int|
                #![trigger r[j]]
                0 <= j < k ==> {
                    &&& r[j].dni_profesor@ == profesores[j].dni@
                    &&& exists|t: Seq<char>|
                        curso_en(curso_conferencia@, r[j].nombre_curso@, t)
                            && #[trigger] duracion_curso(t) == match r[j].hasta {
                            Some(h) => Some(h.dia - r[j].desde.dia),
                            None => None::<int>,
                        }
                },
        decreases profesores.len() - k,
    {
        let c = fuente.elegir_indice(curso_conferencia.len());
        let cc = &curso_conferencia[c];
        let desde = fecha_al_azar(fuente);
        let hasta = if cc.tipo == curso {
            Some(desde.mas_dias(30))
        } else if cc.tipo == conferencia {
            Some(desde.mas_dias(1))
        } else {
            None
        };
        let fila = AtendioA {
            nombre_curso: cc.nombre_curso.clone(),
            dni_profesor: profesores[k].dni.copia(),
            desde,
            hasta,
        };
        assert(curso_en(curso_conferencia@, fila.nombre_curso@, cc.tipo@)) by {
            assert(curso_conferencia[c as int].nombre_curso@ == fila.nombre_curso@);
        }
        assert(duracion_curso(cc.tipo@) == match fila.hasta {
            Some(h) => Some(h.dia - fila.desde.dia),
            None => None::<int>,
        });
        r.push(fila);
        k = k + 1;
    }
    r
}

/// A benefit a professor receives, in payment or suspended.
#[derive(Clone, Debug)]
pub struct PercibeEn {
    pub dni: Dni,
    pub institucion_caja: String,
    pub tipo: String,
    pub estado_percepcion: String,
    pub desde: Fecha,
}

/// One recipient professor for each benefit scheme.
pub fn cargar_percibe_en(
    percepciones: &Vec<Percepciones>,
    profesores: &Vec<Profesores>,
    fuente: &mut Fuente,
) -> (r: Vec<PercibeEn>)
    requires
        percepciones.len() > 0 ==> profesores.len() > 0,
    ensures
        r.len() == percepciones.len(),
        forall|k: int|
            #![trigger r[k]]
            0 <= k < r.len() ==> {
                &&& profesor_en(profesores@, r[k].dni@)
                &&& r[k].institucion_caja@ == percepciones[k].institucion_caja@
                &&& r[k].tipo@ == percepciones[k].tipo@
                &&& r[k].estado_percepcion@ == "Suspendido"@ || r[k].estado_percepcion@
                    == "Percibiendo"@
            },
{
    let mut r: Vec<PercibeEn> = Vec::new();
    let mut k: usize = 0;
    while k < percepciones.len()
        invariant
            percepciones.len() > 0 ==> profesores.len() > 0,
            k <= percepciones.len(),
            r.len() == k,
            forall|j: int|
                #![trigger r[j]]
                0 <= j < k ==> {
                    &&& profesor_en(profesores@, r[j].dni@)
                    &&& r[j].institucion_caja@ == percepciones[j].institucion_caja@
                    &&& r[j].tipo@ == percepciones[j].tipo@
                    &&& r[j].estado_percepcion@ == "Suspendido"@ || r[j].estado_percepcion@
                        == "Percibiendo"@
                },
        decreases percepciones.len() - k,
    {
        let p = fuente.elegir_indice(profesores.len());
        let desde = fecha_al_azar(fuente);
        let estado = if fuente.moneda() {
            String::from_str("Suspendido")
        } else {
            String::from_str("Percibiendo")
        };
        let fila = PercibeEn {
            dni: profesores[p].dni.copia(),
            institucion_caja: percepciones[k].institucion_caja.clone(),
            tipo: percepciones[k].tipo.clone(),
            estado_percepcion: estado,
            desde,
        };
        assert(profesores[p as int].dni@ == fila.dni@);
        r.push(fila);
        k = k + 1;
    }
    r
}

/// Insurance of a professor's relative.
#[derive(Clone, Debug)]
pub struct AseguraA {
    pub dni_profesor: Dni,
    pub dni_familiar: Dni,
    pub codigo_compania: u32,
    pub capital_asegurado: Decimal,
    pub fecha_ingreso: Fecha,
}

/// Whether some relative of `fams` is relative `dni_familiar` of professor
/// `dni_profesor`.
pub open spec fn familiar_en(
    fams: Seq<Familiares>,
    dni_profesor: Seq<char>,
    dni_familiar: Seq<char>,
) -> bool {
    exists|i: int|
        0 <= i < fams.len() && #[trigger] fams[i].dni_profesor@ == dni_profesor
            && fams[i].dni_familiar@ == dni_familiar
}

/// One insured relative of the pool for each insurer; the capital is between
/// 100000 and 1000000, in hundredths.
pub fn cargar_asegura_a(
    seguros: &Vec<Seguros>,
    familiares: &Vec<Familiares>,
    fuente: &mut Fuente,
) -> (r: Vec<AseguraA>)
    requires
        seguros.len() > 0 ==> familiares.len() > 0,
    ensures
        r.len() == seguros.len(),
        forall|k: int|
            #![trigger r[k]]
            0 <= k < r.len() ==> {
                &&& familiar_en(familiares@, r[k].dni_profesor@, r[k].dni_familiar@)
                &&& r[k].codigo_compania == seguros[k].codigo_compania
                &&& r[k].capital_asegurado.escala == 2
                &&& 10_000_000 <= r[k].capital_asegurado.digitos < 100_000_000
            },
{
    let mut r: Vec<AseguraA> = Vec::new();
    let mut k: usize = 0;
    while k < seguros.len()
        invariant
            seguros.len() > 0 ==> familiares.len() > 0,
            k <= seguros.len(),
            r.len() == k,
            forall|j: int|
                #![trigger r[j]]
                0 <= j < k ==> {
                    &&& familiar_en(familiares@, r[j].dni_profesor@, r[j].dni_familiar@)
                    &&& r[j].codigo_compania == seguros[j].codigo_compania
                    &&& r[j].capital_asegurado.escala == 2
                    &&& 10_000_000 <= r[j].capital_asegurado.digitos < 100_000_000
                },
        decreases seguros.len() - k,
    {
        let f = fuente.elegir_indice(familiares.len());
        let capital = fuente.rango(10_000_000, 100_000_000) as i64;
        let fecha_ingreso = fecha_al_azar(fuente);
        let fila = AseguraA {
            dni_profesor: familiares[f].dni_profesor.copia(),
            dni_familiar: familiares[f].dni_familiar.copia(),
            codigo_compania: seguros[k].codigo_compania,
            capital_asegurado: Decimal { digitos: capital, escala: 2 },
            fecha_ingreso,
        };
        assert(familiares[f as int].dni_profesor@ == fila.dni_profesor@);
        r.push(fila);
        k = k + 1;
    }
    r
}

/// A relative covered by a health insurer.
#[derive(Clone, Debug)]
pub struct Beneficia {
    pub dni_familiar: Dni,
    pub dni_profesor: Dni,
    pub id_obra_social: u32,
}

/// Whether some insurer of `obras` has identifier `id`.
pub open spec fn obra_en(obras: Seq<ObrasSociales>, id: u32) -> bool {
    exists|i: int| 0 <= i < obras.len() && #[trigger] obras[i].id_obrasocial == id
}

/// Half to all of `muestras` coverages, each of a relative of the pool by an
/// insurer of the pool.
pub fn cargar_beneficia(
    obras: &Vec<ObrasSociales>,
    familiares: &Vec<Familiares>,
    muestras: usize,
    fuente: &mut Fuente,
) -> (r: Vec<Beneficia>)
    requires
        obras.len() > 0,
        familiares.len() > 0,
        muestras > 0,
    ensures
        muestras / 2 <= r.len() < muestras,
        forall|k: int|
            #![trigger r[k]]
            0 <= k < r.len() ==> familiar_en(familiares@, r[k].dni_profesor@, r[k].dni_familiar@)
                && obra_en(obras@, r[k].id_obra_social),
{
    let m = cantidad_mitad_a_todo(muestras, fuente);
    let mut r: Vec<Beneficia> = Vec::new();
    while r.len() < m
        invariant
            obras.len() > 0,
            familiares.len() > 0,
            r.len() <= m,
            forall|k: int|
                #![trigger r[k]]
                0 <= k < r.len() ==> familiar_en(
                    familiares@,
                    r[k].dni_profesor@,
                    r[k].dni_familiar@,
                ) && obra_en(obras@, r[k].id_obra_social),
        decreases m - r.len(),
    {
        let o = fuente.elegir_indice(obras.len());
        let f = fuente.elegir_indice(familiares.len());
        let fila = Beneficia {
            dni_familiar: familiares[f].dni_familiar.copia(),
            dni_profesor: familiares[f].dni_profesor.copia(),
            id_obra_social: obras[o].id_obrasocial,
        };
        assert(familiares[f as int].dni_profesor@ == fila.dni_profesor@);
        assert(obras[o as int].id_obrasocial == fila.id_obra_social);
        r.push(fila);
    }
    r
}

/// Whether some institution of `insts` is named `nombre`.
pub open spec fn institucion_en(insts: Seq<Instituciones>, nombre: Seq<char>) -> bool {
    exists|i: int| 0 <= i < insts.len() && #[trigger] insts[i].nombre@ == nombre
}

/// A degree an institution awards.
#[derive(Clone, Debug)]
pub struct SeDaTitulo {
    pub titulo: String,
    pub nombre_inst: String,
    pub nivel: String,
}

/// One to four degrees of the pool awarded by each institution, in order of
/// institution.
pub fn cargar_se_da_titulo(
    titulos: &Vec<Titulos>,
    instituciones: &Vec<Instituciones>,
    fuente: &mut Fuente,
) -> (r: Vec<SeDaTitulo>)
    requires
        titulos.len() > 0,
    ensures
        instituciones.len() <= r.len() <= 4 * instituciones.len(),
        forall|k: int|
            #![trigger r[k]]
            0 <= k < r.len() ==> titulo_en(titulos@, r[k].nivel@, r[k].titulo@)
                && institucion_en(instituciones@, r[k].nombre_inst@),
{
    let mut r: Vec<SeDaTitulo> = Vec::new();
    let mut k: usize = 0;
    while k < instituciones.len()
        invariant
            titulos.len() > 0,
            k <= instituciones.len(),
            k <= r.len() <= 4 * k,
            forall|j: int|
                #![trigger r[j]]
                0 <= j < r.len() ==> titulo_en(titulos@, r[j].nivel@, r[j].titulo@)
                    && institucion_en(instituciones@, r[j].nombre_inst@),
        decreases instituciones.len() - k,
    {
        let veces = fuente.rango(1, 5);
        let ghost base = r.len();
        let mut t: usize = 0;
        while t < veces
            invariant
                titulos.len() > 0,
                k < instituciones.len(),
                veces <= 4,
                t <= veces,
                k <= base <= 4 * k,
                r.len() == base + t,
                forall|j: int|
                    #![trigger r[j]]
                    0 <= j < r.len() ==> titulo_en(titulos@, r[j].nivel@, r[j].titulo@)
                        && institucion_en(instituciones@, r[j].nombre_inst@),
            decreases veces - t,
        {
            let i = fuente.elegir_indice(titulos.len());
            let fila = SeDaTitulo {
                titulo: titulos[i].titulo.clone(),
                nombre_inst: instituciones[k].nombre.clone(),
                nivel: titulos[i].nivel.clone(),
            };
            assert(titulos[i as int].nivel@ == fila.nivel@);
            assert(instituciones[k as int].nombre@ == fila.nombre_inst@);
            r.push(fila);
            t = t + 1;
        }
        k = k + 1;
    }
    r
}

/// A language an institution teaches.
#[derive(Clone, Debug)]
pub struct SeDaIdioma {
    pub nombre_idioma: String,
    pub nombre_inst: String,
}

/// One or two languages of the list taught by each institution, in order of
/// institution.
pub fn cargar_se_da_idiomas(
    idiomas: &Vec<Idiomas>,
    instituciones: &Vec<Instituciones>,
    fuente: &mut Fuente,
) -> (r: Vec<SeDaIdioma>)
    requires
        idiomas.len() > 0,
    ensures
        instituciones.len() <= r.len() <= 2 * instituciones.len(),
        forall|k: int|
            #![trigger r[k]]
            0 <= k < r.len() ==> idioma_en(idiomas@, r[k].nombre_idioma@)
                && institucion_en(instituciones@, r[k].nombre_inst@),
{
    let mut r: Vec<SeDaIdioma> = Vec::new();
    let mut k: usize = 0;
    while k < instituciones.len()
        invariant
            idiomas.len() > 0,
            k <= instituciones.len(),
            k <= r.len() <= 2 * k,
            forall|j: int|
                #![trigger r[j]]
                0 <= j < r.len() ==> idioma_en(idiomas@, r[j].nombre_idioma@)
                    && institucion_en(instituciones@, r[j].nombre_inst@),
        decreases instituciones.len() - k,
    {
        let veces = fuente.rango(1, 3);
        let ghost base = r.len();
        let mut t: usize = 0;
        while t < veces
            invariant
                idiomas.len() > 0,
                k < instituciones.len(),
                veces <= 2,
                t <= veces,
                k <= base <= 2 * k,
                r.len() == base + t,
                forall|j: int|
                    #![trigger r[j]]
                    0 <= j < r.len() ==> idioma_en(idiomas@, r[j].nombre_idioma@)
                        && institucion_en(instituciones@, r[j].nombre_inst@),
            decreases veces - t,
        {
            let i = fuente.elegir_indice(idiomas.len());
            let fila = SeDaIdioma {
                nombre_idioma: idiomas[i].nombre.clone(),
                nombre_inst: instituciones[k].nombre.clone(),
            };
            assert(idiomas[i as int].nombre@ == fila.nombre_idioma@);
            assert(instituciones[k as int].nombre@ == fila.nombre_inst@);
            r.push(fila);
            t = t + 1;
        }
        k = k + 1;
    }
    r
}

/// A citation of one publication by another.
#[derive(PartialEq, Eq, Structural, Clone, Copy, Debug)]
pub struct ReferenciaBibliografica {
    pub id_fuente: u32,
    pub id_citador: u32,
}

/// Whether some publication of `pubs` has identifier `id`.
pub open spec fn publicacion_en(pubs: Seq<Publicaciones>, id: u32) -> bool {
    exists|i: int| 0 <= i < pubs.len() && #[trigger] pubs[i].id_publicacion == id
}

/// Fewer citations than publications, each between two publications of the
/// pool.
pub fn cargar_referencias_bibliograficas(
    publicaciones: &Vec<Publicaciones>,
    fuente: &mut Fuente,
) -> (r: Vec<ReferenciaBibliografica>)
    requires
        publicaciones.len() >= 2,
    ensures
        r.len() + 2 <= publicaciones.len(),
        forall|k: int|
            #![trigger r[k]]
            0 <= k < r.len() ==> publicacion_en(publicaciones@, r[k].id_fuente) && publicacion_en(
                publicaciones@,
                r[k].id_citador,
            ),
{
    let m = fuente.rango(1, publicaciones.len());
    let mut r: Vec<ReferenciaBibliografica> = Vec::new();
    while r.len() + 1 < m
        invariant
            publicaciones.len() >= 2,
            m < publicaciones.len(),
            r.len() + 1 <= m,
            forall|k: int|
                #![trigger r[k]]
                0 <= k < r.len() ==> publicacion_en(publicaciones@, r[k].id_fuente)
                    && publicacion_en(publicaciones@, r[k].id_citador),
        decreases m - r.len(),
    {
        let a = fuente.elegir_indice(publicaciones.len());
        let b = fuente.elegir_indice(publicaciones.len());
        let fila = ReferenciaBibliografica {
            id_fuente: publicaciones[a].id_publicacion,
            id_citador: publicaciones[b].id_publicacion,
        };
        assert(publicaciones[a as int].id_publicacion == fila.id_fuente);
        assert(publicaciones[b as int].id_publicacion == fila.id_citador);
        r.push(fila);
    }
    r
}

/// Authorship of a publication by a professor.
#[derive(Clone, Debug)]
pub struct Publico {
    pub id_publicacion: u32,
    pub dni_profesor: Dni,
}

/// One author of the pool for each publication.
pub fn cargar_publico(
    publicaciones: &Vec<Publicaciones>,
    profesores: &Vec<Profesores>,
    fuente: &mut Fuente,
) -> (r: Vec<Publico>)
    requires
        publicaciones.len() > 0 ==> profesores.len() > 0,
    ensures
        r.len() == publicaciones.len(),
        forall|k: int|
            #![trigger r[k]]
            0 <= k < r.len() ==> r[k].id_publicacion == publicaciones[k].id_publicacion
                && profesor_en(profesores@, r[k].dni_profesor@),
{
    let mut r: Vec<Publico> = Vec::new();
    let mut k: usize = 0;
    while k < publicaciones.len()
        invariant
            publicaciones.len() > 0 ==> profesores.len() > 0,
            k <= publicaciones.len(),
            r.len() == k,
            forall|j: int|
                #![trigger r[j]]
                0 <= j < k ==> r[j].id_publicacion == publicaciones[j].id_publicacion
                    && profesor_en(profesores@, r[j].dni_profesor@),
        decreases publicaciones.len() - k,
    {
        let p = fuente.elegir_indice(profesores.len());
        let fila = Publico {
            id_publicacion: publicaciones[k].id_publicacion,
            dni_profesor: profesores[p].dni.copia(),
        };
        assert(profesores[p as int].dni@ == fila.dni_profesor@);
        r.push(fila);
        k = k + 1;
    }
    r
}

/// A professor's part in a scientific meeting.
#[derive(Clone, Debug)]
pub struct ParticipoEnReunion {
    pub dni_profesor: Dni,
    pub titulo: String,
    pub fecha: Fecha,
    pub participacion: String,
}

/// One participant of the pool for each meeting.
pub fn cargar_participo_en_reunion(
    reuniones: &Vec<ReunionesCientificas>,
    profesores: &Vec<Profesores>,
    fuente: &mut Fuente,
) -> (r: Vec<ParticipoEnReunion>)
    requires
        reuniones.len() > 0 ==> profesores.len() > 0,
    ensures
        r.len() == reuniones.len(),
        forall|k: int|
            #![trigger r[k]]
            0 <= k < r.len() ==> r[k].titulo@ == reuniones[k].titulo@ && r[k].fecha
                == reuniones[k].fecha && profesor_en(profesores@, r[k].dni_profesor@),
{
    let mut r: Vec<ParticipoEnReunion> = Vec::new();
    let mut k: usize = 0;
    while k < reuniones.len()
        invariant
            reuniones.len() > 0 ==> profesores.len() > 0,
            k <= reuniones.len(),
            r.len() == k,
            forall|j: int|
                #![trigger r[j]]
                0 <= j < k ==> r[j].titulo@ == reuniones[j].titulo@ && r[j].fecha
                    == reuniones[j].fecha && profesor_en(profesores@, r[j].dni_profesor@),
        decreases reuniones.len() - k,
    {
        let p = fuente.elegir_indice(profesores.len());
        let participacion = fuente.palabra();
        let fila = ParticipoEnReunion {
            dni_profesor: profesores[p].dni.copia(),
            titulo: reuniones[k].titulo.clone(),
            fecha: reuniones[k].fecha,
            participacion,
        };
        assert(profesores[p as int].dni@ == fila.dni_profesor@);
        r.push(fila);
        k = k + 1;
    }
    r
}

impl AseguraA {
    /// Table `AseguraA`, with one field per value of `valores`.
    pub fn descriptor() -> (r: Descriptor)
        ensures
            r.tabla@ == "AseguraA"@,
            r.campos.len() == 5,
    {
        Descriptor {
            tabla: String::from_str("AseguraA"),
            campos: vec![
                String::from_str("dni_profesor"),
                String::from_str("dni_familiar"),
                String::from_str("codigo_compania"),
                String::from_str("capital_asegurado"),
                String::from_str("fecha_ingreso"),
            ],
        }
    }

    /// The values bound to the placeholders, in the order of the fields.
    pub fn valores(&self) -> (r: Vec<Valor>)
        ensures
            r.len() == 5,
    {
        vec![
            texto(self.dni_profesor.texto()),
            texto(self.dni_familiar.texto()),
            entero(self.codigo_compania as i64),
            decimal(self.capital_asegurado),
            fecha(self.fecha_ingreso),
        ]
    }
}

impl ResideEn {
    /// Table `ResideEn`, with one field per value of `valores`.
    pub fn descriptor() -> (r: Descriptor)
        ensures
            r.tabla@ == "ResideEn"@,
            r.campos.len() == 6,
    {
        Descriptor {
            tabla: String::from_str("ResideEn"),
            campos: vec![
                String::from_str("dni_profesor"),
                String::from_str("codigo_postal"),
                String::from_str("calle"),
                String::from_str("numero"),
                String::from_str("piso"),
                String::from_str("departamento"),
            ],
        }
    }

    /// The values bound to the placeholders, in the order of the fields.
    pub fn valores(&self) -> (r: Vec<Valor>)
        ensures
            r.len() == 6,
    {
        vec![
            texto(self.dni_profesor.texto()),
            entero(self.codigo_postal as i64),
            texto(self.calle.as_str()),
            entero(self.numero as i64),
            entero_opt_u32(self.piso),
            entero_opt_u8(self.departamento),
        ]
    }
}

impl PercibeEn {
    /// Table `PercibeEn`, with one field per value of `valores`.
    pub fn descriptor() -> (r: Descriptor)
        ensures
            r.tabla@ == "PercibeEn"@,
            r.campos.len() == 5,
    {
        Descriptor {
            tabla: String::from_str("PercibeEn"),
            campos: vec![
                String::from_str("dni"),
                String::from_str("institucion_caja"),
                String::from_str("tipo"),
                String::from_str("estado_percepcion"),
                String::from_str("desde"),
            ],
        }
    }

    /// The values bound to the placeholders, in the order of the fields.
    pub fn valores(&self) -> (r: Vec<Valor>)
        ensures
            r.len() == 5,
    {
        vec![
            texto(self.dni.texto()),
            texto(self.institucion_caja.as_str()),
            texto(self.tipo.as_str()),
            texto(self.estado_percepcion.as_str()),
            fecha(self.desde),
        ]
    }
}

impl ParticipoEnReunion {
    /// Table `ParticipoEnReunion`, with one field per value of `valores`.
    pub fn descriptor() -> (r: Descriptor)
        ensures
            r.tabla@ == "ParticipoEnReunion"@,
            r.campos.len() == 4,
    {
        Descriptor {
            tabla: String::from_str("ParticipoEnReunion"),
            campos: vec![
                String::from_str("dni_profesor"),
                String::from_str("titulo"),
                String::from_str("fecha"),
                String::from_str("participacion"),
            ],
        }
    }

    /// The values bound to the placeholders, in the order of the fields.
    pub fn valores(&self) -> (r: Vec<Valor>)
        ensures
            r.len() == 4,
    {
        vec![
            texto(self.dni_profesor.texto()),
            texto(self.titulo.as_str()),
            fecha(self.fecha),
            texto(self.participacion.as_str()),
        ]
    }
}

impl Publico {
    /// Table `Publico`, with one field per value of `valores`.
    pub fn descriptor() -> (r: Descriptor)
        ensures
            r.tabla@ == "Publico"@,
            r.campos.len() == 2,
    {
        Descriptor {
            tabla: String::from_str("Publico"),
            campos: vec![
                String::from_str("id_publicacion"),
                String::from_str("dni_profesor"),
            ],
        }
    }

    /// The values bound to the placeholders, in the order of the fields.
    pub fn valores(&self) -> (r: Vec<Valor>)
        ensures
            r.len() == 2,
    {
        vec![
            entero(self.id_publicacion as i64),
            texto(self.dni_profesor.texto()),
        ]
    }
}

impl ReferenciaBibliografica {
    /// Table `ReferenciaBibliografica`, with one field per value of `valores`.
    pub fn descriptor() -> (r: Descriptor)
        ensures
            r.tabla@ == "ReferenciaBibliografica"@,
            r.campos.len() == 2,
    {
        Descriptor {
            tabla: String::from_str("ReferenciaBibliografica"),
            campos: vec![
                String::from_str("id_fuente"),
                String::from_str("id_citador"),
            ],
        }
    }

    /// The values bound to the placeholders, in the order of the fields.
    pub fn valores(&self) -> (r: Vec<Valor>)
        ensures
            r.len() == 2,
    {
        vec![
            entero(self.id_fuente as i64),
            entero(self.id_citador as i64),
        ]
    }
}

impl RealizoAct {
    /// Table `RealizoAct`, with one field per value of `valores`.
    pub fn descriptor() -> (r: Descriptor)
        ensures
            r.tabla@ == "RealizoAct"@,
            r.campos.len() == 6,
    {
        Descriptor {
            tabla: String::from_str("RealizoAct"),
            campos: vec![
                String::from_str("id_actividad"),
                String::from_str("dni_profesor"),
                String::from_str("acciones"),
                String::from_str("dedicacion"),
                String::from_str("hasta"),
                String::from_str("desde"),
            ],
        }
    }

    /// The values bound to the placeholders, in the order of the fields.
    pub fn valores(&self) -> (r: Vec<Valor>)
        ensures
            r.len() == 6,
    {
        vec![
            entero(self.id_actividad as i64),
            texto(self.dni_profesor.texto()),
            texto(self.acciones.as_str()),
            entero(self.dedicacion as i64),
            fecha(self.hasta),
            fecha(self.desde),
        ]
    }
}

impl RealizaInves {
    /// Table `RealizaInves`, with one field per value of `valores`.
    pub fn descriptor() -> (r: Descriptor)
        ensures
            r.tabla@ == "RealizaInves"@,
            r.campos.len() == 5,
    {
        Descriptor {
            tabla: String::from_str("RealizaInves"),
            campos: vec![
                String::from_str("id_investigacion"),
                String::from_str("dni_profesor"),
                String::from_str("desde"),
                String::from_str("hasta"),
                String::from_str("dedicacion"),
            ],
        }
    }

    /// The values bound to the placeholders, in the order of the fields.
    pub fn valores(&self) -> (r: Vec<Valor>)
        ensures
            r.len() == 5,
    {
        vec![
            entero(self.id_investigacion as i64),
            texto(self.dni_profesor.texto()),
            fecha(self.desde),
            fecha_opt(self.hasta),
            entero(self.dedicacion as i64),
        ]
    }
}

impl AtendioA {
    /// Table `AtendioA`, with one field per value of `valores`.
    pub fn descriptor() -> (r: Descriptor)
        ensures
            r.tabla@ == "AtendioA"@,
            r.campos.len() == 4,
    {
        Descriptor {
            tabla: String::from_str("AtendioA"),
            campos: vec![
                String::from_str("nombre_curso"),
                String::from_str("dni_profesor"),
                String::from_str("desde"),
                String::from_str("hasta"),
            ],
        }
    }

    /// The values bound to the placeholders, in the order of the fields.
    pub fn valores(&self) -> (r: Vec<Valor>)
        ensures
            r.len() == 4,
    {
        vec![
            texto(self.nombre_curso.as_str()),
            texto(self.dni_profesor.texto()),
            fecha(self.desde),
            fecha_opt(self.hasta),
        ]
    }
}

impl SeDaTitulo {
    /// Table `SeDaTitulo`, with one field per value of `valores`.
    pub fn descriptor() -> (r: Descriptor)
        ensures
            r.tabla@ == "SeDaTitulo"@,
            r.campos.len() == 3,
    {
        Descriptor {
            tabla: String::from_str("SeDaTitulo"),
            campos: vec![
                String::from_str("titulo"),
                String::from_str("nombre_inst"),
                String::from_str("nivel"),
            ],
        }
    }

    /// The values bound to the placeholders, in the order of the fields.
    pub fn valores(&self) -> (r: Vec<Valor>)
        ensures
            r.len() == 3,
    {
        vec![
            texto(self.titulo.as_str()),
            texto(self.nombre_inst.as_str()),
            texto(self.nivel.as_str()),
        ]
    }
}

impl PoseeTitulo {
    /// Table `PoseeTitulo`, with one field per value of `valores`.
    pub fn descriptor() -> (r: Descriptor)
        ensures
            r.tabla@ == "PoseeTitulo"@,
            r.campos.len() == 5,
    {
        Descriptor {
            tabla: String::from_str("PoseeTitulo"),
            campos: vec![
                String::from_str("dni"),
                String::from_str("nivel"),
                String::from_str("titulo"),
                String::from_str("desde"),
                String::from_str("hasta"),
            ],
        }
    }

    /// The values bound to the placeholders, in the order of the fields.
    pub fn valores(&self) -> (r: Vec<Valor>)
        ensures
            r.len() == 5,
    {
        vec![
            texto(self.dni.texto()),
            texto(self.nivel.as_str()),
            texto(self.titulo.as_str()),
            fecha(self.desde),
            fecha(self.hasta),
        ]
    }
}

impl Beneficia {
    /// Table `Beneficia`, with one field per value of `valores`.
    pub fn descriptor() -> (r: Descriptor)
        ensures
            r.tabla@ == "Beneficia"@,
            r.campos.len() == 3,
    {
        Descriptor {
            tabla: String::from_str("Beneficia"),
            campos: vec![
                String::from_str("dni_familiar"),
                String::from_str("dni_profesor"),
                String::from_str("id_obra_social"),
            ],
        }
    }

    /// The values bound to the placeholders, in the order of the fields.
    pub fn valores(&self) -> (r: Vec<Valor>)
        ensures
            r.len() == 3,
    {
        vec![
            texto(self.dni_familiar.texto()),
            texto(self.dni_profesor.texto()),
            entero(self.id_obra_social as i64),
        ]
    }
}

impl SeDaIdioma {
    /// Table `SeDaIdioma`, with one field per value of `valores`.
    pub fn descriptor() -> (r: Descriptor)
        ensures
            r.tabla@ == "SeDaIdioma"@,
            r.campos.len() == 2,
    {
        Descriptor {
            tabla: String::from_str("SeDaIdioma"),
            campos: vec![
                String::from_str("nombre_idioma"),
                String::from_str("nombre_inst"),
            ],
        }
    }

    /// The values bound to the placeholders, in the order of the fields.
    pub fn valores(&self) -> (r: Vec<Valor>)
        ensures
            r.len() == 2,
    {
        vec![
            texto(self.nombre_idioma.as_str()),
            texto(self.nombre_inst.as_str()),
        ]
    }
}

impl ConoceIdioma {
    /// Table `ConoceIdioma`, with one field per value of `valores`.
    pub fn descriptor() -> (r: Descriptor)
        ensures
            r.tabla@ == "ConoceIdioma"@,
            r.campos.len() == 4,
    {
        Descriptor {
            tabla: String::from_str("ConoceIdioma"),
            campos: vec![
                String::from_str("dni_profesor"),
                String::from_str("nombre_idioma"),
                String::from_str("certificacion"),
                String::from_str("nivel"),
            ],
        }
    }

    /// The values bound to the placeholders, in the order of the fields.
    pub fn valores(&self) -> (r: Vec<Valor>)
        ensures
            r.len() == 4,
    {
        vec![
            texto(self.dni_profesor.texto()),
            texto(self.nombre_idioma.as_str()),
            texto(self.certificacion.as_str()),
            texto(self.nivel.as_str()),
        ]
    }
}

} // verus!
