//! The dependency plan: the fixed order in which entity types are generated
//! and loaded, each after every type its records reference.

use vstd::prelude::*;

verus! {

/// An entity type of the schema.
#[derive(PartialEq, Eq, Structural, Clone, Copy, Debug, Hash)]
pub enum Entidad {
    Direcciones,
    Titulos,
    Publicaciones,
    ReunionesCientificas,
    Percepciones,
    Seguros,
    ObrasSociales,
    Idiomas,
    Empleadores,
    Instituciones,
    CursosConferencias,
    ActividadesExtensionUniversitaria,
    ActividadesInvestigacion,
    Profesores,
    Contactos,
    DependenciasEmpresas,
    Familiares,
    DocObraSocial,
    DeclaracionesJuradas,
    DeclaracionesDeCargo,
    AntecedentesProfesionales,
    AntecedentesDocentes,
    Horarios,
    AtendioA,
    ConoceIdioma,
    SeDaIdioma,
    Beneficia,
    PoseeTitulo,
    SeDaTitulo,
    RealizaInves,
    RealizoAct,
    ReferenciaBibliografica,
    Publico,
    ParticipoEnReunion,
    PercibeEn,
    ResideEn,
    AseguraA,
}

/// The entity types whose records a record of `e` references.
pub open spec fn dependencias_spec(e: Entidad) -> Seq<Entidad> {
    match e {
        Entidad::Direcciones => seq![],
        Entidad::Titulos => seq![],
        Entidad::Publicaciones => seq![],
        Entidad::ReunionesCientificas => seq![],
        Entidad::Percepciones => seq![],
        Entidad::Seguros => seq![],
        Entidad::ObrasSociales => seq![],
        Entidad::Idiomas => seq![],
        Entidad::Empleadores => seq![Entidad::Direcciones],
        Entidad::Instituciones => seq![Entidad::Direcciones],
        Entidad::CursosConferencias => seq![Entidad::Instituciones],
        Entidad::ActividadesExtensionUniversitaria => seq![Entidad::Instituciones],
        Entidad::ActividadesInvestigacion => seq![Entidad::Instituciones],
        Entidad::Profesores => seq![Entidad::Empleadores],
        Entidad::Contactos => seq![Entidad::Profesores],
        Entidad::DependenciasEmpresas => seq![Entidad::Profesores, Entidad::Direcciones, Entidad::ObrasSociales],
        Entidad::Familiares => seq![Entidad::Direcciones, Entidad::Profesores],
        Entidad::DocObraSocial => seq![Entidad::Profesores, Entidad::ObrasSociales],
        Entidad::DeclaracionesJuradas => seq![Entidad::Profesores],
        Entidad::DeclaracionesDeCargo => seq![Entidad::DependenciasEmpresas],
        Entidad::AntecedentesProfesionales => seq![Entidad::Profesores, Entidad::DeclaracionesDeCargo],
        Entidad::AntecedentesDocentes => seq![Entidad::Profesores, Entidad::Instituciones, Entidad::DeclaracionesDeCargo],
        Entidad::Horarios => seq![Entidad::DeclaracionesDeCargo],
        Entidad::AtendioA => seq![Entidad::CursosConferencias, Entidad::Profesores],
        Entidad::ConoceIdioma => seq![Entidad::Idiomas, Entidad::Profesores],
        Entidad::SeDaIdioma => seq![Entidad::Idiomas, Entidad::Instituciones],
        Entidad::Beneficia => seq![Entidad::ObrasSociales, Entidad::Familiares],
        Entidad::PoseeTitulo => seq![Entidad::Titulos, Entidad::Profesores],
        Entidad::SeDaTitulo => seq![Entidad::Titulos, Entidad::Instituciones],
        Entidad::RealizaInves => seq![Entidad::ActividadesInvestigacion, Entidad::Profesores],
        Entidad::RealizoAct => seq![Entidad::ActividadesExtensionUniversitaria, Entidad::Profesores],
        Entidad::ReferenciaBibliografica => seq![Entidad::Publicaciones],
        Entidad::Publico => seq![Entidad::Publicaciones, Entidad::Profesores],
        Entidad::ParticipoEnReunion => seq![Entidad::ReunionesCientificas, Entidad::Profesores],
        Entidad::PercibeEn => seq![Entidad::Percepciones, Entidad::Profesores],
        Entidad::ResideEn => seq![Entidad::Profesores, Entidad::Direcciones],
        Entidad::AseguraA => seq![Entidad::Seguros, Entidad::Familiares],
    }
}

/// The plan: entity types without references first, then each dependent type
/// after the types it references.
pub open spec fn plan_spec() -> Seq<Entidad> {
    seq![
        Entidad::Direcciones,
        Entidad::Titulos,
        Entidad::Publicaciones,
        Entidad::ReunionesCientificas,
        Entidad::Percepciones,
        Entidad::Seguros,
        Entidad::ObrasSociales,
        Entidad::Idiomas,
        Entidad::Empleadores,
        Entidad::Instituciones,
        Entidad::CursosConferencias,
        Entidad::ActividadesExtensionUniversitaria,
        Entidad::ActividadesInvestigacion,
        Entidad::Profesores,
        Entidad::Contactos,
        Entidad::DependenciasEmpresas,
        Entidad::Familiares,
        Entidad::DocObraSocial,
        Entidad::DeclaracionesJuradas,
        Entidad::DeclaracionesDeCargo,
        Entidad::AntecedentesProfesionales,
        Entidad::AntecedentesDocentes,
        Entidad::Horarios,
        Entidad::AtendioA,
        Entidad::ConoceIdioma,
        Entidad::SeDaIdioma,
        Entidad::Beneficia,
        Entidad::PoseeTitulo,
        Entidad::SeDaTitulo,
        Entidad::RealizaInves,
        Entidad::RealizoAct,
        Entidad::ReferenciaBibliografica,
        Entidad::Publico,
        Entidad::ParticipoEnReunion,
        Entidad::PercibeEn,
        Entidad::ResideEn,
        Entidad::AseguraA,
    ]
}

/// Whether `d` stands in `s` before position `i`.
pub open spec fn aparece_antes(s: Seq<Entidad>, d: Entidad, i: int) -> bool {
    exists|j: int| 0 <= j < i && s[j] == d
}

/// Every entity type that the type at position `i` references stands before it.
pub open spec fn valida_en(s: Seq<Entidad>, i: int) -> bool {
    forall|k: int|
        0 <= k < dependencias_spec(s[i]).len() ==> aparece_antes(
            s,
            #[trigger] dependencias_spec(s[i])[k],
            i,
        )
}

/// No entity type precedes one of its own dependencies.
pub open spec fn plan_valido(s: Seq<Entidad>) -> bool {
    forall|i: int| 0 <= i < s.len() ==> #[trigger] valida_en(s, i)
}

pub fn dependencias(e: Entidad) -> (r: Vec<Entidad>)
    ensures
        r@ == dependencias_spec(e),
{
    let r = match e {
        Entidad::Direcciones => vec![],
        Entidad::Titulos => vec![],
        Entidad::Publicaciones => vec![],
        Entidad::ReunionesCientificas => vec![],
        Entidad::Percepciones => vec![],
        Entidad::Seguros => vec![],
        Entidad::ObrasSociales => vec![],
        Entidad::Idiomas => vec![],
        Entidad::Empleadores => vec![Entidad::Direcciones],
        Entidad::Instituciones => vec![Entidad::Direcciones],
        Entidad::CursosConferencias => vec![Entidad::Instituciones],
        Entidad::ActividadesExtensionUniversitaria => vec![Entidad::Instituciones],
        Entidad::ActividadesInvestigacion => vec![Entidad::Instituciones],
        Entidad::Profesores => vec![Entidad::Empleadores],
        Entidad::Contactos => vec![Entidad::Profesores],
        Entidad::DependenciasEmpresas => vec![Entidad::Profesores, Entidad::Direcciones, Entidad::ObrasSociales],
        Entidad::Familiares => vec![Entidad::Direcciones, Entidad::Profesores],
        Entidad::DocObraSocial => vec![Entidad::Profesores, Entidad::ObrasSociales],
        Entidad::DeclaracionesJuradas => vec![Entidad::Profesores],
        Entidad::DeclaracionesDeCargo => vec![Entidad::DependenciasEmpresas],
        Entidad::AntecedentesProfesionales => vec![Entidad::Profesores, Entidad::DeclaracionesDeCargo],
        Entidad::AntecedentesDocentes => vec![Entidad::Profesores, Entidad::Instituciones, Entidad::DeclaracionesDeCargo],
        Entidad::Horarios => vec![Entidad::DeclaracionesDeCargo],
        Entidad::AtendioA => vec![Entidad::CursosConferencias, Entidad::Profesores],
        Entidad::ConoceIdioma => vec![Entidad::Idiomas, Entidad::Profesores],
        Entidad::SeDaIdioma => vec![Entidad::Idiomas, Entidad::Instituciones],
        Entidad::Beneficia => vec![Entidad::ObrasSociales, Entidad::Familiares],
        Entidad::PoseeTitulo => vec![Entidad::Titulos, Entidad::Profesores],
        Entidad::SeDaTitulo => vec![Entidad::Titulos, Entidad::Instituciones],
        Entidad::RealizaInves => vec![Entidad::ActividadesInvestigacion, Entidad::Profesores],
        Entidad::RealizoAct => vec![Entidad::ActividadesExtensionUniversitaria, Entidad::Profesores],
        Entidad::ReferenciaBibliografica => vec![Entidad::Publicaciones],
        Entidad::Publico => vec![Entidad::Publicaciones, Entidad::Profesores],
        Entidad::ParticipoEnReunion => vec![Entidad::ReunionesCientificas, Entidad::Profesores],
        Entidad::PercibeEn => vec![Entidad::Percepciones, Entidad::Profesores],
        Entidad::ResideEn => vec![Entidad::Profesores, Entidad::Direcciones],
        Entidad::AseguraA => vec![Entidad::Seguros, Entidad::Familiares],
    };
    assert(r@ =~= dependencias_spec(e));
    r
}

pub fn plan() -> (r: Vec<Entidad>)
    ensures
        r@ == plan_spec(),
{
    let r = vec![
        Entidad::Direcciones,
        Entidad::Titulos,
        Entidad::Publicaciones,
        Entidad::ReunionesCientificas,
        Entidad::Percepciones,
        Entidad::Seguros,
        Entidad::ObrasSociales,
        Entidad::Idiomas,
        Entidad::Empleadores,
        Entidad::Instituciones,
        Entidad::CursosConferencias,
        Entidad::ActividadesExtensionUniversitaria,
        Entidad::ActividadesInvestigacion,
        Entidad::Profesores,
        Entidad::Contactos,
        Entidad::DependenciasEmpresas,
        Entidad::Familiares,
        Entidad::DocObraSocial,
        Entidad::DeclaracionesJuradas,
        Entidad::DeclaracionesDeCargo,
        Entidad::AntecedentesProfesionales,
        Entidad::AntecedentesDocentes,
        Entidad::Horarios,
        Entidad::AtendioA,
        Entidad::ConoceIdioma,
        Entidad::SeDaIdioma,
        Entidad::Beneficia,
        Entidad::PoseeTitulo,
        Entidad::SeDaTitulo,
        Entidad::RealizaInves,
        Entidad::RealizoAct,
        Entidad::ReferenciaBibliografica,
        Entidad::Publico,
        Entidad::ParticipoEnReunion,
        Entidad::PercibeEn,
        Entidad::ResideEn,
        Entidad::AseguraA,
    ];
    assert(r@ =~= plan_spec());
    r
}

/// Whether `d` stands in `p` before position `i`.
fn aparece_antes_en(p: &Vec<Entidad>, d: Entidad, i: usize) -> (r: bool)
    requires
        i <= p.len(),
    ensures
        r == aparece_antes(p@, d, i as int),
{
    let mut j: usize = 0;
    while j < i
        invariant
            j <= i <= p.len(),
            forall|m: int| 0 <= m < j ==> p@[m] != d,
        decreases i - j,
    {
        if p[j] == d {
            return true;
        }
        j = j + 1;
    }
    false
}

/// The topological check of a plan: whether no entity type precedes one of
/// its own dependencies.
pub fn verificar_plan(p: &Vec<Entidad>) -> (r: bool)
    ensures
        r == plan_valido(p@),
{
    let mut i: usize = 0;
    while i < p.len()
        invariant
            i <= p.len(),
            forall|m: int| 0 <= m < i ==> #[trigger] valida_en(p@, m),
        decreases p.len() - i,
    {
        let ds = dependencias(p[i]);
        let mut k: usize = 0;
        while k < ds.len()
            invariant
                i < p.len(),
                ds@ == dependencias_spec(p@[i as int]),
                k <= ds.len(),
                forall|m: int| 0 <= m < k ==> aparece_antes(p@, #[trigger] ds@[m], i as int),
            decreases ds.len() - k,
        {
            if !aparece_antes_en(p, ds[k], i) {
                assert(!valida_en(p@, i as int));
                return false;
            }
            k = k + 1;
        }
        assert(valida_en(p@, i as int));
        i = i + 1;
    }
    true
}

/// Running the topological check over the plan never finds an entity type
/// preceding one of its own dependencies.
pub proof fn ley_plan_bien_formado()
    ensures
        plan_valido(plan_spec()),
{
    let s = plan_spec();
    assert(s.len() == 37);
    assert forall|i: int| 0 <= i < s.len() implies #[trigger] valida_en(s, i) by {
        if i == 0 {
            assert(s[0] == Entidad::Direcciones);
        } else if i == 1 {
            assert(s[1] == Entidad::Titulos);
        } else if i == 2 {
            assert(s[2] == Entidad::Publicaciones);
        } else if i == 3 {
            assert(s[3] == Entidad::ReunionesCientificas);
        } else if i == 4 {
            assert(s[4] == Entidad::Percepciones);
        } else if i == 5 {
            assert(s[5] == Entidad::Seguros);
        } else if i == 6 {
            assert(s[6] == Entidad::ObrasSociales);
        } else if i == 7 {
            assert(s[7] == Entidad::Idiomas);
        } else if i == 8 {
            assert(s[8] == Entidad::Empleadores);
            assert(s[0] == Entidad::Direcciones);
        } else if i == 9 {
            assert(s[9] == Entidad::Instituciones);
            assert(s[0] == Entidad::Direcciones);
        } else if i == 10 {
            assert(s[10] == Entidad::CursosConferencias);
            assert(s[9] == Entidad::Instituciones);
        } else if i == 11 {
            assert(s[11] == Entidad::ActividadesExtensionUniversitaria);
            assert(s[9] == Entidad::Instituciones);
        } else if i == 12 {
            assert(s[12] == Entidad::ActividadesInvestigacion);
            assert(s[9] == Entidad::Instituciones);
        } else if i == 13 {
            assert(s[13] == Entidad::Profesores);
            assert(s[8] == Entidad::Empleadores);
        } else if i == 14 {
            assert(s[14] == Entidad::Contactos);
            assert(s[13] == Entidad::Profesores);
        } else if i == 15 {
            assert(s[15] == Entidad::DependenciasEmpresas);
            assert(s[13] == Entidad::Profesores);
            assert(s[0] == Entidad::Direcciones);
            assert(s[6] == Entidad::ObrasSociales);
        } else if i == 16 {
            assert(s[16] == Entidad::Familiares);
            assert(s[0] == Entidad::Direcciones);
            assert(s[13] == Entidad::Profesores);
        } else if i == 17 {
            assert(s[17] == Entidad::DocObraSocial);
            assert(s[13] == Entidad::Profesores);
            assert(s[6] == Entidad::ObrasSociales);
        } else if i == 18 {
            assert(s[18] == Entidad::DeclaracionesJuradas);
            assert(s[13] == Entidad::Profesores);
        } else if i == 19 {
            assert(s[19] == Entidad::DeclaracionesDeCargo);
            assert(s[15] == Entidad::DependenciasEmpresas);
        } else if i == 20 {
            assert(s[20] == Entidad::AntecedentesProfesionales);
            assert(s[13] == Entidad::Profesores);
            assert(s[19] == Entidad::DeclaracionesDeCargo);
        } else if i == 21 {
            assert(s[21] == Entidad::AntecedentesDocentes);
            assert(s[13] == Entidad::Profesores);
            assert(s[9] == Entidad::Instituciones);
            assert(s[19] == Entidad::DeclaracionesDeCargo);
        } else if i == 22 {
            assert(s[22] == Entidad::Horarios);
            assert(s[19] == Entidad::DeclaracionesDeCargo);
        } else if i == 23 {
            assert(s[23] == Entidad::AtendioA);
            assert(s[10] == Entidad::CursosConferencias);
            assert(s[13] == Entidad::Profesores);
        } else if i == 24 {
            assert(s[24] == Entidad::ConoceIdioma);
            assert(s[7] == Entidad::Idiomas);
            assert(s[13] == Entidad::Profesores);
        } else if i == 25 {
            assert(s[25] == Entidad::SeDaIdioma);
            assert(s[7] == Entidad::Idiomas);
            assert(s[9] == Entidad::Instituciones);
        } else if i == 26 {
            assert(s[26] == Entidad::Beneficia);
            assert(s[6] == Entidad::ObrasSociales);
            assert(s[16] == Entidad::Familiares);
        } else if i == 27 {
            assert(s[27] == Entidad::PoseeTitulo);
            assert(s[1] == Entidad::Titulos);
            assert(s[13] == Entidad::Profesores);
        } else if i == 28 {
            assert(s[28] == Entidad::SeDaTitulo);
            assert(s[1] == Entidad::Titulos);
            assert(s[9] == Entidad::Instituciones);
        } else if i == 29 {
            assert(s[29] == Entidad::RealizaInves);
            assert(s[12] == Entidad::ActividadesInvestigacion);
            assert(s[13] == Entidad::Profesores);
        } else if i == 30 {
            assert(s[30] == Entidad::RealizoAct);
            assert(s[11] == Entidad::ActividadesExtensionUniversitaria);
            assert(s[13] == Entidad::Profesores);
        } else if i == 31 {
            assert(s[31] == Entidad::ReferenciaBibliografica);
            assert(s[2] == Entidad::Publicaciones);
        } else if i == 32 {
            assert(s[32] == Entidad::Publico);
            assert(s[2] == Entidad::Publicaciones);
            assert(s[13] == Entidad::Profesores);
        } else if i == 33 {
            assert(s[33] == Entidad::ParticipoEnReunion);
            assert(s[3] == Entidad::ReunionesCientificas);
            assert(s[13] == Entidad::Profesores);
        } else if i == 34 {
            assert(s[34] == Entidad::PercibeEn);
            assert(s[4] == Entidad::Percepciones);
            assert(s[13] == Entidad::Profesores);
        } else if i == 35 {
            assert(s[35] == Entidad::ResideEn);
            assert(s[13] == Entidad::Profesores);
            assert(s[0] == Entidad::Direcciones);
        } else if i == 36 {
            assert(s[36] == Entidad::AseguraA);
            assert(s[5] == Entidad::Seguros);
            assert(s[16] == Entidad::Familiares);
        }
    }
}

} // verus!
