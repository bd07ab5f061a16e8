//! One stage of each dependent entity type: as many records as the stage
//! asks for, each referencing records drawn uniformly from the pools of the
//! types it depends on.

use crate::azar::Fuente;
use crate::datasets::{direccion_al_azar, en_jerarquia, jerarquia_completa, vista_provincias, Provincia};
use crate::entidades::{
    ActividadesExtensionUniversitaria, ActividadesInvestigacion, AntecedentesDocentes,
    AntecedentesProfesionales, Contactos, CursosConferencias, DeclaracionesDeCargo,
    DeclaracionesJuradas, DependenciasEmpresas, Direcciones, DocObraSocial, Empleadores,
    Familiares, Horarios, Instituciones, ObrasSociales, Profesores, admite_antecedentes,
    contacto_correlacionado,
};
use crate::relaciones::{domicilio_en, institucion_en, obra_en, profesor_en};
use vstd::prelude::*;

verus! {

/// Whether some employer of `emps` has tax identifier `cuit`.
pub open spec fn empleador_en(emps: Seq<Empleadores>, cuit: Seq<char>) -> bool {
    exists|i: int| 0 <= i < emps.len() && #[trigger] emps[i].cuit@ == cuit
}

/// Whether some company of `deps` belongs to professor `dni` and is named `nombre`.
pub open spec fn dependencia_en(
    deps: Seq<DependenciasEmpresas>,
    dni: Seq<char>,
    nombre: Seq<char>,
) -> bool {
    exists|i: int|
        0 <= i < deps.len() && #[trigger] deps[i].dni_profesor@ == dni && deps[i].nombre@ == nombre
}

/// Whether some statement of `decs` has identifier `id`.
pub open spec fn declaracion_en(decs: Seq<DeclaracionesDeCargo>, id: u32) -> bool {
    exists|i: int| 0 <= i < decs.len() && #[trigger] decs[i].id_declaracion == id
}

/// Every professor of `ps` has a birth date that admits background entries.
pub open spec fn profesores_admitidos(ps: Seq<Profesores>) -> bool {
    forall|i: int| 0 <= i < ps.len() ==> admite_antecedentes(#[trigger] ps[i].fecha_nacimiento)
}

/// Whether every professor of `ps` has a birth date that admits background
/// entries.
pub fn todos_admiten_antecedentes(ps: &Vec<Profesores>) -> (r: bool)
    ensures
        r == profesores_admitidos(ps@),
{
    let mut i: usize = 0;
    while i < ps.len()
        invariant
            i <= ps.len(),
            forall|j: int| 0 <= j < i ==> admite_antecedentes(#[trigger] ps@[j].fecha_nacimiento),
        decreases ps.len() - i,
    {
        if !ps[i].admite_antecedentes() {
            return false;
        }
        i = i + 1;
    }
    true
}

/// `muestras` addresses at streets of the hierarchy.
pub fn cargar_direcciones(
    provincias: &Vec<Provincia>,
    muestras: usize,
    fuente: &mut Fuente,
) -> (r: Vec<Direcciones>)
    requires
        muestras > 0 ==> provincias.len() > 0,
        jerarquia_completa(vista_provincias(provincias@)),
    ensures
        r.len() == muestras,
        forall|k: int|
            #![trigger r[k]]
            0 <= k < r.len() ==> 1000 <= r[k].codigo_postal <= 9999 && en_jerarquia(
                vista_provincias(provincias@),
                r[k],
            ),
{
    let mut r: Vec<Direcciones> = Vec::new();
    while r.len() < muestras
        invariant
            muestras > 0 ==> provincias.len() > 0,
            jerarquia_completa(vista_provincias(provincias@)),
            r.len() <= muestras,
            forall|k: int|
                #![trigger r[k]]
                0 <= k < r.len() ==> 1000 <= r[k].codigo_postal <= 9999 && en_jerarquia(
                vista_provincias(provincias@),
                r[k],
            ),
        decreases muestras - r.len(),
    {
        let fila = direccion_al_azar(provincias, fuente);
        r.push(fila);
    }
    r
}

/// `muestras` employers, each at an address of the pool.
pub fn cargar_empleadores(
    direcciones: &Vec<Direcciones>,
    muestras: usize,
    fuente: &mut Fuente,
) -> (r: Vec<Empleadores>)
    requires
        muestras > 0 ==> direcciones.len() > 0,
    ensures
        r.len() == muestras,
        forall|k: int|
            #![trigger r[k]]
            0 <= k < r.len() ==> 
                domicilio_en(direcciones@, r[k].codigo_postal, r[k].calle@, r[k].numero),
{
    let mut r: Vec<Empleadores> = Vec::new();
    while r.len() < muestras
        invariant
            muestras > 0 ==> direcciones.len() > 0,
            r.len() <= muestras,
            forall|k: int|
                #![trigger r[k]]
                0 <= k < r.len() ==> 
                    domicilio_en(direcciones@, r[k].codigo_postal, r[k].calle@, r[k].numero),
        decreases muestras - r.len(),
    {
        let i_d = fuente.elegir_indice(direcciones.len());
        let d = &direcciones[i_d];
        let fila = Empleadores::new(d, fuente);
        assert(direcciones[i_d as int].es_domicilio(fila.codigo_postal, fila.calle@, fila.numero));
        r.push(fila);
    }
    r
}

/// `muestras` professors, each employed by an employer of the pool.
pub fn cargar_profesores(
    empleadores: &Vec<Empleadores>,
    muestras: usize,
    fuente: &mut Fuente,
) -> (r: Vec<Profesores>)
    requires
        muestras > 0 ==> empleadores.len() > 0,
    ensures
        r.len() == muestras,
        forall|k: int|
            #![trigger r[k]]
            0 <= k < r.len() ==> {
                &&& r[k].bien_formado()
                &&& empleador_en(empleadores@, r[k].cuit_empleador@)
            },
{
    let mut r: Vec<Profesores> = Vec::new();
    while r.len() < muestras
        invariant
            muestras > 0 ==> empleadores.len() > 0,
            r.len() <= muestras,
            forall|k: int|
                #![trigger r[k]]
                0 <= k < r.len() ==> {
                    &&& r[k].bien_formado()
                    &&& empleador_en(empleadores@, r[k].cuit_empleador@)
                },
        decreases muestras - r.len(),
    {
        let i_e = fuente.elegir_indice(empleadores.len());
        let e = &empleadores[i_e];
        let fila = Profesores::new(e, fuente);
        assert(empleadores[i_e as int].cuit@ == fila.cuit_empleador@);
        r.push(fila);
    }
    r
}

/// One contact for each professor of the pool.
pub fn cargar_contactos(profesores: &Vec<Profesores>, fuente: &mut Fuente) -> (r: Vec<Contactos>)
    requires
    ensures
        r.len() == profesores.len(),
        forall|k: int|
            #![trigger r[k]]
            0 <= k < r.len() ==> {
                &&& r[k].dni_profesor@ == profesores[k].dni@
                &&& contacto_correlacionado(r[k].medio@, r[k].direccion, r[k].numero)
            },
{
    let mut r: Vec<Contactos> = Vec::new();
    while r.len() < profesores.len()
        invariant
            r.len() <= profesores.len(),
            forall|k: int|
                #![trigger r[k]]
                0 <= k < r.len() ==> {
                    &&& r[k].dni_profesor@ == profesores[k].dni@
                    &&& contacto_correlacionado(r[k].medio@, r[k].direccion, r[k].numero)
                },
        decreases profesores.len() - r.len(),
    {
        let fila = Contactos::new(&profesores[r.len()], fuente);
        r.push(fila);
    }
    r
}

/// `muestras` courses or conferences, each at an institution of the pool.
pub fn cargar_cur_conf(
    instituciones: &Vec<Instituciones>,
    muestras: usize,
    fuente: &mut Fuente,
) -> (r: Vec<CursosConferencias>)
    requires
        muestras > 0 ==> instituciones.len() > 0,
    ensures
        r.len() == muestras,
        forall|k: int|
            #![trigger r[k]]
            0 <= k < r.len() ==> institucion_en(instituciones@, r[k].nombre_inst@),
{
    let mut r: Vec<CursosConferencias> = Vec::new();
    while r.len() < muestras
        invariant
            muestras > 0 ==> instituciones.len() > 0,
            r.len() <= muestras,
            forall|k: int|
                #![trigger r[k]]
                0 <= k < r.len() ==> institucion_en(instituciones@, r[k].nombre_inst@),
        decreases muestras - r.len(),
    {
        let i_i = fuente.elegir_indice(instituciones.len());
        let i = &instituciones[i_i];
        let fila = CursosConferencias::new(i, fuente);
        assert(instituciones[i_i as int].nombre@ == fila.nombre_inst@);
        r.push(fila);
    }
    r
}

/// `muestras` outreach activities, each at an institution of the pool.
pub fn cargar_actividad_universitaria(
    instituciones: &Vec<Instituciones>,
    muestras: usize,
    fuente: &mut Fuente,
) -> (r: Vec<ActividadesExtensionUniversitaria>)
    requires
        muestras > 0 ==> instituciones.len() > 0,
    ensures
        r.len() == muestras,
        forall|k: int|
            #![trigger r[k]]
            0 <= k < r.len() ==> institucion_en(instituciones@, r[k].nombre_inst@),
{
    let mut r: Vec<ActividadesExtensionUniversitaria> = Vec::new();
    while r.len() < muestras
        invariant
            muestras > 0 ==> instituciones.len() > 0,
            r.len() <= muestras,
            forall|k: int|
                #![trigger r[k]]
                0 <= k < r.len() ==> institucion_en(instituciones@, r[k].nombre_inst@),
        decreases muestras - r.len(),
    {
        let i_i = fuente.elegir_indice(instituciones.len());
        let i = &instituciones[i_i];
        let fila = ActividadesExtensionUniversitaria::new(i, fuente);
        assert(instituciones[i_i as int].nombre@ == fila.nombre_inst@);
        r.push(fila);
    }
    r
}

/// `muestras` research activities, each at an institution of the pool.
pub fn cargar_actividades_investigacion(
    instituciones: &Vec<Instituciones>,
    muestras: usize,
    fuente: &mut Fuente,
) -> (r: Vec<ActividadesInvestigacion>)
    requires
        muestras > 0 ==> instituciones.len() > 0,
    ensures
        r.len() == muestras,
        forall|k: int|
            #![trigger r[k]]
            0 <= k < r.len() ==> institucion_en(instituciones@, r[k].nombre_inst@),
{
    let mut r: Vec<ActividadesInvestigacion> = Vec::new();
    while r.len() < muestras
        invariant
            muestras > 0 ==> instituciones.len() > 0,
            r.len() <= muestras,
            forall|k: int|
                #![trigger r[k]]
                0 <= k < r.len() ==> institucion_en(instituciones@, r[k].nombre_inst@),
        decreases muestras - r.len(),
    {
        let i_i = fuente.elegir_indice(instituciones.len());
        let i = &instituciones[i_i];
        let fila = ActividadesInvestigacion::new(i, fuente);
        assert(instituciones[i_i as int].nombre@ == fila.nombre_inst@);
        r.push(fila);
    }
    r
}

/// `muestras` companies, each of a professor, at an address and with an insurer
/// of the pools.
pub fn cargar_dependencias_o_empresas(
    profesores: &Vec<Profesores>,
    direcciones: &Vec<Direcciones>,
    obras: &Vec<ObrasSociales>,
    muestras: usize,
    fuente: &mut Fuente,
) -> (r: Vec<DependenciasEmpresas>)
    requires
        muestras > 0 ==> profesores.len() > 0,
        muestras > 0 ==> direcciones.len() > 0,
        muestras > 0 ==> obras.len() > 0,
    ensures
        r.len() == muestras,
        forall|k: int|
            #![trigger r[k]]
            0 <= k < r.len() ==> {
                &&& profesor_en(profesores@, r[k].dni_profesor@)
                &&& domicilio_en(direcciones@, r[k].codigo_postal, r[k].calle@, r[k].numero)
                &&& obra_en(obras@, r[k].id_obrasocial)
            },
{
    let mut r: Vec<DependenciasEmpresas> = Vec::new();
    while r.len() < muestras
        invariant
            muestras > 0 ==> profesores.len() > 0,
            muestras > 0 ==> direcciones.len() > 0,
            muestras > 0 ==> obras.len() > 0,
            r.len() <= muestras,
            forall|k: int|
                #![trigger r[k]]
                0 <= k < r.len() ==> {
                    &&& profesor_en(profesores@, r[k].dni_profesor@)
                    &&& domicilio_en(direcciones@, r[k].codigo_postal, r[k].calle@, r[k].numero)
                    &&& obra_en(obras@, r[k].id_obrasocial)
                },
        decreases muestras - r.len(),
    {
        let i_o = fuente.elegir_indice(obras.len());
        let o = &obras[i_o];
        let i_d = fuente.elegir_indice(direcciones.len());
        let d = &direcciones[i_d];
        let i_p = fuente.elegir_indice(profesores.len());
        let p = &profesores[i_p];
        let fila = DependenciasEmpresas::new(p, d, o, fuente);
        assert(profesores[i_p as int].dni@ == fila.dni_profesor@);
        assert(direcciones[i_d as int].es_domicilio(fila.codigo_postal, fila.calle@, fila.numero));
        assert(obras[i_o as int].id_obrasocial == fila.id_obrasocial);
        r.push(fila);
    }
    r
}

/// `muestras` relatives, each of a professor and at an address of the pools.
pub fn cargar_beneficiarios(
    direcciones: &Vec<Direcciones>,
    profesores: &Vec<Profesores>,
    muestras: usize,
    fuente: &mut Fuente,
) -> (r: Vec<Familiares>)
    requires
        muestras > 0 ==> profesores.len() > 0,
        muestras > 0 ==> direcciones.len() > 0,
    ensures
        r.len() == muestras,
        forall|k: int|
            #![trigger r[k]]
            0 <= k < r.len() ==> {
                &&& profesor_en(profesores@, r[k].dni_profesor@)
                &&& domicilio_en(direcciones@, r[k].codigo_postal, r[k].calle@, r[k].numero_dir)
            },
{
    let mut r: Vec<Familiares> = Vec::new();
    while r.len() < muestras
        invariant
            muestras > 0 ==> profesores.len() > 0,
            muestras > 0 ==> direcciones.len() > 0,
            r.len() <= muestras,
            forall|k: int|
                #![trigger r[k]]
                0 <= k < r.len() ==> {
                    &&& profesor_en(profesores@, r[k].dni_profesor@)
                    &&& domicilio_en(direcciones@, r[k].codigo_postal, r[k].calle@, r[k].numero_dir)
                },
        decreases muestras - r.len(),
    {
        let i_d = fuente.elegir_indice(direcciones.len());
        let d = &direcciones[i_d];
        let i_p = fuente.elegir_indice(profesores.len());
        let p = &profesores[i_p];
        let fila = Familiares::new(d, p, fuente);
        assert(profesores[i_p as int].dni@ == fila.dni_profesor@);
        assert(direcciones[i_d as int].es_domicilio(fila.codigo_postal, fila.calle@, fila.numero_dir));
        r.push(fila);
    }
    r
}

/// `muestras` enrolments, each of a professor with an insurer of the pools.
pub fn cargar_doc_obra_social(
    profesores: &Vec<Profesores>,
    obras: &Vec<ObrasSociales>,
    muestras: usize,
    fuente: &mut Fuente,
) -> (r: Vec<DocObraSocial>)
    requires
        muestras > 0 ==> profesores.len() > 0,
        muestras > 0 ==> obras.len() > 0,
    ensures
        r.len() == muestras,
        forall|k: int|
            #![trigger r[k]]
            0 <= k < r.len() ==> {
                &&& profesor_en(profesores@, r[k].dni_profesor@)
                &&& obra_en(obras@, r[k].id_obra_social)
            },
{
    let mut r: Vec<DocObraSocial> = Vec::new();
    while r.len() < muestras
        invariant
            muestras > 0 ==> profesores.len() > 0,
            muestras > 0 ==> obras.len() > 0,
            r.len() <= muestras,
            forall|k: int|
                #![trigger r[k]]
                0 <= k < r.len() ==> {
                    &&& profesor_en(profesores@, r[k].dni_profesor@)
                    &&& obra_en(obras@, r[k].id_obra_social)
                },
        decreases muestras - r.len(),
    {
        let i_o = fuente.elegir_indice(obras.len());
        let o = &obras[i_o];
        let i_p = fuente.elegir_indice(profesores.len());
        let p = &profesores[i_p];
        let fila = DocObraSocial::new(p, o, fuente);
        assert(profesores[i_p as int].dni@ == fila.dni_profesor@);
        assert(obras[i_o as int].id_obrasocial == fila.id_obra_social);
        r.push(fila);
    }
    r
}

/// `muestras` sworn statements, each of a professor of the pool.
pub fn cargar_declaraciones_juradas(
    profesores: &Vec<Profesores>,
    muestras: usize,
    fuente: &mut Fuente,
) -> (r: Vec<DeclaracionesJuradas>)
    requires
        muestras > 0 ==> profesores.len() > 0,
    ensures
        r.len() == muestras,
        forall|k: int|
            #![trigger r[k]]
            0 <= k < r.len() ==> profesor_en(profesores@, r[k].dni_profesor@),
{
    let mut r: Vec<DeclaracionesJuradas> = Vec::new();
    while r.len() < muestras
        invariant
            muestras > 0 ==> profesores.len() > 0,
            r.len() <= muestras,
            forall|k: int|
                #![trigger r[k]]
                0 <= k < r.len() ==> profesor_en(profesores@, r[k].dni_profesor@),
        decreases muestras - r.len(),
    {
        let i_p = fuente.elegir_indice(profesores.len());
        let p = &profesores[i_p];
        let fila = DeclaracionesJuradas::new(p, fuente);
        assert(profesores[i_p as int].dni@ == fila.dni_profesor@);
        r.push(fila);
    }
    r
}

/// `muestras` statements of post, each at a company of the pool.
pub fn cargar_declaraciones_cargo(
    dependencias: &Vec<DependenciasEmpresas>,
    muestras: usize,
    fuente: &mut Fuente,
) -> (r: Vec<DeclaracionesDeCargo>)
    requires
        muestras > 0 ==> dependencias.len() > 0,
    ensures
        r.len() == muestras,
        forall|k: int|
            #![trigger r[k]]
            0 <= k < r.len() ==> 
                dependencia_en(dependencias@, r[k].dni_profesor@, r[k].nombre_dep@),
{
    let mut r: Vec<DeclaracionesDeCargo> = Vec::new();
    while r.len() < muestras
        invariant
            muestras > 0 ==> dependencias.len() > 0,
            r.len() <= muestras,
            forall|k: int|
                #![trigger r[k]]
                0 <= k < r.len() ==> 
                    dependencia_en(dependencias@, r[k].dni_profesor@, r[k].nombre_dep@),
        decreases muestras - r.len(),
    {
        let i_d = fuente.elegir_indice(dependencias.len());
        let d = &dependencias[i_d];
        let fila = DeclaracionesDeCargo::new(d, fuente);
        assert(dependencias[i_d as int].dni_profesor@ == fila.dni_profesor@);
        r.push(fila);
    }
    r
}

/// `muestras` professional background entries, each of a professor and a
/// statement of the pools.
pub fn cargar_antecedentes_profesionales(
    profesores: &Vec<Profesores>,
    declaraciones: &Vec<DeclaracionesDeCargo>,
    muestras: usize,
    fuente: &mut Fuente,
) -> (r: Vec<AntecedentesProfesionales>)
    requires
        muestras > 0 ==> profesores.len() > 0,
        muestras > 0 ==> declaraciones.len() > 0,
        profesores_admitidos(profesores@),
    ensures
        r.len() == muestras,
        forall|k: int|
            #![trigger r[k]]
            0 <= k < r.len() ==> {
                &&& profesor_en(profesores@, r[k].dni_profesor@)
                &&& declaracion_en(declaraciones@, r[k].id_declaracion)
                &&& r[k].desde.dia <= r[k].hasta.dia
            },
{
    let mut r: Vec<AntecedentesProfesionales> = Vec::new();
    while r.len() < muestras
        invariant
            muestras > 0 ==> profesores.len() > 0,
            muestras > 0 ==> declaraciones.len() > 0,
            profesores_admitidos(profesores@),
            r.len() <= muestras,
            forall|k: int|
                #![trigger r[k]]
                0 <= k < r.len() ==> {
                    &&& profesor_en(profesores@, r[k].dni_profesor@)
                    &&& declaracion_en(declaraciones@, r[k].id_declaracion)
                    &&& r[k].desde.dia <= r[k].hasta.dia
                },
        decreases muestras - r.len(),
    {
        let i_p = fuente.elegir_indice(profesores.len());
        let p = &profesores[i_p];
        let i_d = fuente.elegir_indice(declaraciones.len());
        let d = &declaraciones[i_d];
        assert(admite_antecedentes(p.fecha_nacimiento));
        let fila = AntecedentesProfesionales::new(p, d, fuente);
        assert(profesores[i_p as int].dni@ == fila.dni_profesor@);
        assert(declaraciones[i_d as int].id_declaracion == fila.id_declaracion);
        r.push(fila);
    }
    r
}

/// `muestras` teaching background entries, each of a professor, an
/// institution and a statement of the pools.
pub fn cargar_antecedentes_docentes(
    instituciones: &Vec<Instituciones>,
    profesores: &Vec<Profesores>,
    declaraciones: &Vec<DeclaracionesDeCargo>,
    muestras: usize,
    fuente: &mut Fuente,
) -> (r: Vec<AntecedentesDocentes>)
    requires
        muestras > 0 ==> instituciones.len() > 0,
        muestras > 0 ==> profesores.len() > 0,
        muestras > 0 ==> declaraciones.len() > 0,
        profesores_admitidos(profesores@),
    ensures
        r.len() == muestras,
        forall|k: int|
            #![trigger r[k]]
            0 <= k < r.len() ==> {
                &&& profesor_en(profesores@, r[k].dni_profesor@)
                &&& institucion_en(instituciones@, r[k].nombre_inst@)
                &&& declaracion_en(declaraciones@, r[k].id_declaracion)
                &&& (r[k].hasta matches Some(h) ==> r[k].desde.dia <= h.dia)
            },
{
    let mut r: Vec<AntecedentesDocentes> = Vec::new();
    while r.len() < muestras
        invariant
            muestras > 0 ==> instituciones.len() > 0,
            muestras > 0 ==> profesores.len() > 0,
            muestras > 0 ==> declaraciones.len() > 0,
            profesores_admitidos(profesores@),
            r.len() <= muestras,
            forall|k: int|
                #![trigger r[k]]
                0 <= k < r.len() ==> {
                    &&& profesor_en(profesores@, r[k].dni_profesor@)
                    &&& institucion_en(instituciones@, r[k].nombre_inst@)
                    &&& declaracion_en(declaraciones@, r[k].id_declaracion)
                    &&& (r[k].hasta matches Some(h) ==> r[k].desde.dia <= h.dia)
                },
        decreases muestras - r.len(),
    {
        let i_i = fuente.elegir_indice(instituciones.len());
        let i = &instituciones[i_i];
        let i_p = fuente.elegir_indice(profesores.len());
        let p = &profesores[i_p];
        let i_d = fuente.elegir_indice(declaraciones.len());
        let d = &declaraciones[i_d];
        assert(admite_antecedentes(p.fecha_nacimiento));
        let fila = AntecedentesDocentes::new(p, i, d, fuente);
        assert(profesores[i_p as int].dni@ == fila.dni_profesor@);
        assert(instituciones[i_i as int].nombre@ == fila.nombre_inst@);
        assert(declaraciones[i_d as int].id_declaracion == fila.id_declaracion);
        r.push(fila);
    }
    r
}

/// `muestras` class slots, each of a statement of the pool.
pub fn cargar_horarios(
    declaraciones: &Vec<DeclaracionesDeCargo>,
    muestras: usize,
    fuente: &mut Fuente,
) -> (r: Vec<Horarios>)
    requires
        muestras > 0 ==> declaraciones.len() > 0,
    ensures
        r.len() == muestras,
        forall|k: int|
            #![trigger r[k]]
            0 <= k < r.len() ==> declaracion_en(declaraciones@, r[k].id_declaracion),
{
    let mut r: Vec<Horarios> = Vec::new();
    while r.len() < muestras
        invariant
            muestras > 0 ==> declaraciones.len() > 0,
            r.len() <= muestras,
            forall|k: int|
                #![trigger r[k]]
                0 <= k < r.len() ==> declaracion_en(declaraciones@, r[k].id_declaracion),
        decreases muestras - r.len(),
    {
        let i_d = fuente.elegir_indice(declaraciones.len());
        let d = &declaraciones[i_d];
        let fila = Horarios::new(d, fuente);
        assert(declaraciones[i_d as int].id_declaracion == fila.id_declaracion);
        r.push(fila);
    }
    r
}

/// Institutions named after up to `muestras` names drawn from `nombres`
/// without repetition of positions, each at an address of the pool.
pub fn cargar_instituciones(
    nombres: &Vec<String>,
    direcciones: &Vec<Direcciones>,
    muestras: usize,
    fuente: &mut Fuente,
) -> (r: Vec<Instituciones>)
    requires
        muestras > 0 && nombres.len() > 0 ==> direcciones.len() > 0,
    ensures
        r.len() == if muestras < nombres.len() {
            muestras
        } else {
            nombres.len()
        },
        forall|k: int|
            #![trigger r[k]]
            0 <= k < r.len() ==> domicilio_en(direcciones@, r[k].codigo_postal, r[k].calle@, r[k].numero)
                && nombres@.map_values(|n: String| n@).contains(r[k].nombre@),
{
    let mut ns: Vec<String> = Vec::new();
    let mut i: usize = 0;
    while i < nombres.len()
        invariant
            i <= nombres.len(),
            ns@ == nombres@.subrange(0, i as int),
        decreases nombres.len() - i,
    {
        ns.push(nombres[i].clone());
        i = i + 1;
    }
    assert(nombres@.subrange(0, nombres.len() as int) =~= nombres@);
    fuente.barajar(&mut ns);
    let n = if muestras < ns.len() {
        muestras
    } else {
        ns.len()
    };
    proof {
        ns@.to_multiset_ensures();
        nombres@.to_multiset_ensures();
    }
    let mut r: Vec<Instituciones> = Vec::new();
    while r.len() < n
        invariant
            n > 0 ==> direcciones.len() > 0,
            n <= ns.len(),
            ns@.to_multiset() == nombres@.to_multiset(),
            forall|a: String| ns@.contains(a) <==> #[trigger] ns@.to_multiset().count(a) > 0,
            forall|a: String| nombres@.contains(a) <==> #[trigger] nombres@.to_multiset().count(a) > 0,
            r.len() <= n,
            forall|k: int|
                #![trigger r[k]]
                0 <= k < r.len() ==> domicilio_en(
                    direcciones@,
                    r[k].codigo_postal,
                    r[k].calle@,
                    r[k].numero,
                ) && nombres@.map_values(|n: String| n@).contains(r[k].nombre@),
        decreases n - r.len(),
    {
        let i_d = fuente.elegir_indice(direcciones.len());
        let d = &direcciones[i_d];
        let nombre = &ns[r.len()];
        let fila = Instituciones::new(d, nombre.as_str());
        assert(direcciones[i_d as int].es_domicilio(fila.codigo_postal, fila.calle@, fila.numero));
        proof {
            assert(ns@.contains(*nombre));
            assert(nombres@.to_multiset().count(*nombre) > 0);
            let j = choose|j: int| 0 <= j < nombres.len() && nombres@[j] == *nombre;
            assert(nombres@.map_values(|n: String| n@)[j] == fila.nombre@);
        }
        r.push(fila);
    }
    r
}

} // verus!
