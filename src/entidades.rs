//! The entity records and their generators. A generator draws its own fields
//! from the random source and copies each foreign key from the parent record
//! it is given.

use crate::azar::{palabras_unidas, Fuente};
use crate::calendario::{dias_antes, Fecha, Hora};
use crate::carga::{
    cuit_opt, decimal, entero, entero_opt_u32, entero_opt_u8, fecha, fecha_opt, hora, texto,
    texto_opt, Descriptor, Valor,
};
use crate::claves::{cuil_de, es_dni, Cuil, Dni};
use vstd::prelude::*;

verus! {

pub open spec fn uno_de(s: Seq<char>, opciones: Seq<&str>) -> bool {
    exists|i: int| 0 <= i < opciones.len() && s == opciones[i]@
}

/// Floor and flat letter: both present or both absent, the floor in `1..1000`
/// and the letter an upper-case ASCII letter.
pub open spec fn vivienda_valida(piso: Option<u32>, depto: Option<u8>) -> bool {
    &&& piso.is_some() == depto.is_some()
    &&& piso matches Some(p) ==> 1 <= p < 1000
    &&& depto matches Some(d) ==> 65 <= d <= 90
}

/// A floor and a flat letter, or neither.
pub fn vivienda(fuente: &mut Fuente) -> (r: (Option<u32>, Option<u8>))
    ensures
        vivienda_valida(r.0, r.1),
{
    if fuente.moneda() {
        let piso = fuente.rango(1, 1000) as u32;
        let letra = fuente.rango(0, 26) as u8;
        (Some(piso), Some(65 + letra))
    } else {
        (None, None)
    }
}

/// A postal address.
#[derive(Clone, Debug)]
pub struct Direcciones {
    pub codigo_postal: u32,
    pub calle: String,
    pub numero: u32,
    pub localidad: String,
    pub provincia: String,
}

impl Direcciones {
    pub fn new(provincia: &str, localidad: &str, calle: &str, fuente: &mut Fuente) -> (r: Self)
        ensures
            1000 <= r.codigo_postal <= 9999,
            r.calle@ == calle@,
            r.localidad@ == localidad@,
            r.provincia@ == provincia@,
    {
        let numero = fuente.numero_de_calle();
        let codigo_postal = fuente.rango(1000, 10000) as u32;
        Direcciones {
            codigo_postal,
            calle: String::from_str(calle),
            numero,
            localidad: String::from_str(localidad),
            provincia: String::from_str(provincia),
        }
    }

    /// Whether `self` holds the address fields `(cp, calle, numero)`.
    pub open spec fn es_domicilio(&self, cp: u32, calle: Seq<char>, numero: u32) -> bool {
        self.codigo_postal == cp && self.calle@ == calle && self.numero == numero
    }
}

/// An institution, at an existing address.
#[derive(Clone, Debug)]
pub struct Instituciones {
    pub nombre: String,
    pub codigo_postal: u32,
    pub calle: String,
    pub numero: u32,
}

impl Instituciones {
    pub fn new(direccion: &Direcciones, nombre: &str) -> (r: Self)
        ensures
            r.nombre@ == nombre@,
            direccion.es_domicilio(r.codigo_postal, r.calle@, r.numero),
    {
        Instituciones {
            nombre: String::from_str(nombre),
            codigo_postal: direccion.codigo_postal,
            calle: direccion.calle.clone(),
            numero: direccion.numero,
        }
    }
}

/// An employer, at an existing address.
#[derive(Clone, Debug)]
pub struct Empleadores {
    pub cuit: Cuil,
    pub razon_social: String,
    pub piso: Option<u32>,
    pub departamento: Option<u8>,
    pub codigo_postal: u32,
    pub calle: String,
    pub numero: u32,
}

impl Empleadores {
    pub fn new(direccion: &Direcciones, fuente: &mut Fuente) -> (r: Self)
        ensures
            direccion.es_domicilio(r.codigo_postal, r.calle@, r.numero),
            vivienda_valida(r.piso, r.departamento),
            exists|d: Seq<char>| es_dni(d) && r.cuit@ == cuil_de(d),
    {
        let razon_social = fuente.nombre_completo();
        let (piso, departamento) = vivienda(fuente);
        let dni = Dni::generar(fuente);
        Empleadores {
            cuit: Cuil::new(&dni),
            razon_social,
            piso,
            departamento,
            codigo_postal: direccion.codigo_postal,
            calle: direccion.calle.clone(),
            numero: direccion.numero,
        }
    }
}

pub open spec fn estados_civiles() -> Seq<&'static str> {
    seq!["Soltero/a", "Casado/a", "Divorciado/a", "Viudo/a", "Conviviente"]
}

/// The date of day `ordinal` of year `anio`.
pub open spec fn dia_de(anio: int, ordinal: int) -> int {
    dias_antes(anio) + ordinal - 1
}

/// `f` is one of days 1 to 30 of a year from `desde` to `hasta`.
pub open spec fn nacido_en(f: Fecha, desde: int, hasta: int) -> bool {
    exists|a: int, o: int| desde <= a <= hasta && 1 <= o <= 30 && f.dia == #[trigger] dia_de(a, o)
}

/// A professor's birth date: days 1 to 30 of a year from 1960 to 1980, which
/// lies between 1960-01-01 and 1980-01-30.
pub open spec fn nacimiento_profesor(f: Fecha) -> bool {
    &&& nacido_en(f, 1960, 1980)
    &&& dias_antes(1960) <= f.dia <= dias_antes(1980) + 29
}

/// A birth date late enough for the background entries: up to 1980 years
/// before the dates they may reach.
pub open spec fn admite_antecedentes(f: Fecha) -> bool {
    f.valida() && f.dia <= dias_antes(2900)
}

/// `g` is `lo` to `hi` years of 365 days after `f`.
pub open spec fn anios_despues(f: Fecha, g: Fecha, lo: int, hi: int) -> bool {
    (g.dia - f.dia) % 365 == 0 && 365 * lo <= g.dia - f.dia <= 365 * hi
}

/// A professor, employed by an existing employer.
#[derive(Clone, Debug)]
pub struct Profesores {
    pub dni: Dni,
    pub nombre: String,
    pub apellido: String,
    pub fecha_nacimiento: Fecha,
    pub nacionalidad: String,
    pub estado_civil: String,
    pub sexo: String,
    pub cuit: Option<Cuil>,
    pub cuil: Cuil,
    pub cuit_empleador: Cuil,
}

impl Profesores {
    /// The constraints that every generated professor meets.
    pub open spec fn bien_formado(&self) -> bool {
        &&& es_dni(self.dni@)
        &&& self.cuil@ == cuil_de(self.dni@)
        &&& self.cuit matches Some(c) ==> c@ == cuil_de(self.dni@)
        &&& nacimiento_profesor(self.fecha_nacimiento)
        &&& uno_de(self.estado_civil@, estados_civiles())
        &&& uno_de(self.sexo@, seq!["M", "F"])
    }

    /// Whether the professor's birth date admits background entries.
    pub fn admite_antecedentes(&self) -> (r: bool)
        ensures
            r == admite_antecedentes(self.fecha_nacimiento),
    {
        0 <= self.fecha_nacimiento.dia && self.fecha_nacimiento.dia <= 1_059_204
    }

    pub fn new(empleador: &Empleadores, fuente: &mut Fuente) -> (r: Self)
        ensures
            r.bien_formado(),
            admite_antecedentes(r.fecha_nacimiento),
            r.cuit_empleador@ == empleador.cuit@,
    {
        let dni = Dni::generar(fuente);
        let nombre = fuente.nombre_de_pila();
        let apellido = fuente.apellido();
        let estados = vec!["Soltero/a", "Casado/a", "Divorciado/a", "Viudo/a", "Conviviente"];
        let estado_civil = fuente.elegir_texto(&estados);
        let sexos = vec!["M", "F"];
        let sexo = fuente.elegir_texto(&sexos);
        let anio = fuente.rango(1960, 1981) as i32;
        let ordinal = fuente.rango(1, 31) as u16;
        let fecha_nacimiento = Fecha::desde_ordinal(anio, ordinal);
        assert(dias_antes(1960) <= dias_antes(anio as int) <= dias_antes(1980));
        assert(fecha_nacimiento.dia == dia_de(anio as int, ordinal as int));
        let nacionalidad = fuente.pais();
        let cuil = Cuil::new(&dni);
        let cuit = if fuente.moneda() {
            Some(Cuil::new(&dni))
        } else {
            None
        };
        assert(estados@ == estados_civiles());
        assert(sexos@ == seq!["M", "F"]);
        Profesores {
            dni,
            nombre,
            apellido,
            fecha_nacimiento,
            nacionalidad,
            estado_civil,
            sexo,
            cuit,
            cuil,
            cuit_empleador: empleador.cuit.copia(),
        }
    }
}

/// A contact channel of a professor.
#[derive(Clone, Debug)]
pub struct Contactos {
    pub dni_profesor: Dni,
    pub tipo: String,
    pub medio: String,
    pub direccion: Option<String>,
    pub numero: Option<String>,
}

/// An e-mail contact has an address and no number; a phone contact has a
/// number and no address.
pub open spec fn contacto_correlacionado(
    medio: Seq<char>,
    direccion: Option<String>,
    numero: Option<String>,
) -> bool {
    &&& medio == "Email"@ ==> direccion.is_some() && numero.is_none()
    &&& (medio == "Telefono"@ || medio == "Celular"@) ==> numero.is_some() && direccion.is_none()
}

impl Contactos {
    pub fn new(profesor: &Profesores, fuente: &mut Fuente) -> (r: Self)
        ensures
            r.dni_profesor@ == profesor.dni@,
            uno_de(r.tipo@, seq!["Personal", "Empresarial", "Otro"]),
            uno_de(r.medio@, seq!["Celular", "Telefono", "Email"]),
            contacto_correlacionado(r.medio@, r.direccion, r.numero),
    {
        let tipos = vec!["Personal", "Empresarial", "Otro"];
        let tipo = fuente.elegir_texto(&tipos);
        assert(tipos@ == seq!["Personal", "Empresarial", "Otro"]);
        proof {
            reveal_strlit("Celular");
            reveal_strlit("Telefono");
            reveal_strlit("Email");
            assert("Email"@.len() == 5 && "Celular"@.len() == 7 && "Telefono"@.len() == 8);
        }
        let k = fuente.rango(0, 3);
        let (medio, direccion, numero) = if k == 0 {
            (String::from_str("Celular"), None, Some(fuente.celular()))
        } else if k == 1 {
            (String::from_str("Telefono"), None, Some(fuente.telefono()))
        } else {
            (String::from_str("Email"), Some(fuente.correo()), None)
        };
        assert(medio@ == "Celular"@ || medio@ == "Telefono"@ || medio@ == "Email"@);
        assert(uno_de(medio@, seq!["Celular", "Telefono", "Email"])) by {
            let opts = seq!["Celular", "Telefono", "Email"];
            if medio@ == "Celular"@ {
                assert(medio@ == opts[0]@);
            } else if medio@ == "Telefono"@ {
                assert(medio@ == opts[1]@);
            } else {
                assert(medio@ == opts[2]@);
            }
        }
        Contactos { dni_profesor: profesor.dni.copia(), tipo, medio, direccion, numero }
    }
}

pub open spec fn niveles() -> Seq<&'static str> {
    seq!["Terciario", "Maestria", "Doctorado", "Tecnicatura"]
}

/// A degree, by level and title.
#[derive(Clone, Debug)]
pub struct Titulos {
    pub nivel: String,
    pub titulo: String,
}

impl Titulos {
    pub fn generar(fuente: &mut Fuente) -> (r: Self)
        ensures
            uno_de(r.nivel@, niveles()),
            exists|ws: Seq<Seq<char>>| #[trigger] palabras_unidas(ws, 4, 5, r.titulo@),
    {
        let opciones = vec!["Terciario", "Maestria", "Doctorado", "Tecnicatura"];
        let nivel = fuente.elegir_texto(&opciones);
        assert(opciones@ == niveles());
        let titulo = fuente.frase(4, 5);
        let r = Titulos { nivel, titulo };
        assert(r.titulo@ == titulo@);
        r
    }

    pub fn copia(&self) -> (r: Self)
        ensures
            r.nivel@ == self.nivel@,
            r.titulo@ == self.titulo@,
    {
        Titulos { nivel: self.nivel.clone(), titulo: self.titulo.clone() }
    }
}

/// A course or conference given at an institution.
#[derive(Clone, Debug)]
pub struct CursosConferencias {
    pub nombre_inst: String,
    pub nombre_curso: String,
    pub descripcion: Option<String>,
    pub tipo: String,
}

impl CursosConferencias {
    pub fn new(institucion: &Instituciones, fuente: &mut Fuente) -> (r: Self)
        ensures
            r.nombre_inst@ == institucion.nombre@,
            r.tipo@ == "Curso"@ || r.tipo@ == "Conferencia"@,
    {
        let nombre_curso = fuente.nombre_completo();
        let descripcion = if fuente.moneda() {
            Some(fuente.frase(1, 20))
        } else {
            None
        };
        let tipo = if fuente.moneda() {
            String::from_str("Curso")
        } else {
            String::from_str("Conferencia")
        };
        CursosConferencias {
            nombre_inst: institucion.nombre.clone(),
            nombre_curso,
            descripcion,
            tipo,
        }
    }
}

/// A research activity hosted by an institution.
#[derive(Clone, Debug)]
pub struct ActividadesInvestigacion {
    pub id_investigacion: u32,
    pub nombre_inst: String,
    pub categoria: String,
    pub area_ppal: String,
}

impl ActividadesInvestigacion {
    pub fn new(institucion: &Instituciones, fuente: &mut Fuente) -> (r: Self)
        ensures
            r.nombre_inst@ == institucion.nombre@,
    {
        let id_investigacion = fuente.entero();
        ActividadesInvestigacion {
            id_investigacion,
            nombre_inst: institucion.nombre.clone(),
            categoria: fuente.palabra(),
            area_ppal: fuente.area(),
        }
    }
}

/// An outreach activity hosted by an institution.
#[derive(Clone, Debug)]
pub struct ActividadesExtensionUniversitaria {
    pub id_actividad: u32,
    pub nombre_inst: String,
    pub cargo: String,
    pub categoria: String,
}

impl ActividadesExtensionUniversitaria {
    pub fn new(institucion: &Instituciones, fuente: &mut Fuente) -> (r: Self)
        ensures
            r.nombre_inst@ == institucion.nombre@,
    {
        let id_actividad = fuente.entero();
        ActividadesExtensionUniversitaria {
            id_actividad,
            nombre_inst: institucion.nombre.clone(),
            cargo: fuente.puesto(),
            categoria: fuente.palabra(),
        }
    }
}

/// A publication.
#[derive(Clone, Debug)]
pub struct Publicaciones {
    pub id_publicacion: u32,
    pub autores: String,
    pub anio: i32,
    pub titulo: String,
}

/// An author entry: last name, a comma and a space, first name.
pub open spec fn autor(ap_nom: (Seq<char>, Seq<char>)) -> Seq<char> {
    ap_nom.0 + ", "@ + ap_nom.1
}

/// The author entries of `ps`, joined with a semicolon and a space.
pub open spec fn autores_de(ps: Seq<(Seq<char>, Seq<char>)>) -> Seq<char>
    decreases ps.len(),
{
    if ps.len() == 0 {
        Seq::empty()
    } else if ps.len() == 1 {
        autor(ps[0])
    } else {
        autores_de(ps.drop_last()) + "; "@ + autor(ps.last())
    }
}

/// One to three `(last, first)` pairs of non-empty names whose entries make up
/// `s`.
pub open spec fn lista_de_autores(ps: Seq<(Seq<char>, Seq<char>)>, s: Seq<char>) -> bool {
    &&& 1 <= ps.len() <= 3
    &&& forall|i: int| 0 <= i < ps.len() ==> (#[trigger] ps[i]).0.len() > 0 && ps[i].1.len() > 0
    &&& s == autores_de(ps)
}

impl Publicaciones {
    /// One to three authors, each written `last, first`, separated by `; `.
    pub fn generar(fuente: &mut Fuente) -> (r: Self)
        ensures
            1901 <= r.anio < 2155,
            exists|ps: Seq<(Seq<char>, Seq<char>)>| #[trigger] lista_de_autores(ps, r.autores@),
            r.titulo@.len() > 0,
    {
        let id_publicacion = fuente.entero();
        let anio = fuente.rango(1901, 2155) as i32;
        let titulo = fuente.palabra();
        let n = fuente.rango(2, 5);
        let mut autores = String::new();
        let ghost mut ps: Seq<(Seq<char>, Seq<char>)> = Seq::empty();
        let mut i: usize = 1;
        while i < n
            invariant
                1 <= i <= n,
                n < 5,
                ps.len() == i - 1,
                forall|j: int| 0 <= j < ps.len() ==> (#[trigger] ps[j]).0.len() > 0 && ps[j].1.len() > 0,
                autores@ == autores_de(ps),
            decreases n - i,
        {
            if i > 1 {
                autores.append("; ");
            }
            let nombre = fuente.nombre_de_pila();
            let apellido = fuente.apellido();
            autores.append(apellido.as_str());
            autores.append(", ");
            autores.append(nombre.as_str());
            proof {
                let viejo = ps;
                ps = ps.push((apellido@, nombre@));
                assert(ps.drop_last() =~= viejo);
                if i == 1 {
                    assert(autores@ =~= autor(ps[0]));
                } else {
                    assert(autores@ =~= autores_de(viejo) + "; "@ + autor(ps.last()));
                }
            }
            i = i + 1;
        }
        assert(lista_de_autores(ps, autores@));
        let r = Publicaciones { id_publicacion, autores, anio, titulo };
        assert(lista_de_autores(ps, r.autores@));
        r
    }
}

/// A scientific meeting, by title and date.
#[derive(Clone, Debug)]
pub struct ReunionesCientificas {
    pub titulo: String,
    pub fecha: Fecha,
}

/// A random date, as fake's `Date` faker draws it.
pub fn fecha_al_azar(fuente: &mut Fuente) -> (r: Fecha)
    ensures
        r.valida(),
        r.dia <= dias_antes(3000),
{
    let (anio, ordinal) = fuente.fecha_ordinal();
    let r = Fecha::desde_ordinal(anio, ordinal);
    assert(dias_antes(anio as int) + 365 <= dias_antes(3000));
    r
}

impl ReunionesCientificas {
    pub fn generar(fuente: &mut Fuente) -> (r: Self)
        ensures
            r.fecha.valida(),
            exists|ws: Seq<Seq<char>>| #[trigger] palabras_unidas(ws, 1, 5, r.titulo@),
            r.titulo@.len() > 0,
    {
        let titulo = fuente.frase(1, 5);
        let fecha = fecha_al_azar(fuente);
        let r = ReunionesCientificas { titulo, fecha };
        assert(r.titulo@ == titulo@);
        r
    }
}

/// A pension or benefit scheme.
#[derive(Clone, Debug)]
pub struct Percepciones {
    pub institucion_caja: String,
    pub tipo: String,
    pub regimen: String,
    pub causa: String,
}

impl Percepciones {
    /// One to nine words for the fund, one or two for the kind, a word for the
    /// regime and one to four for the cause.
    pub fn generar(fuente: &mut Fuente) -> (r: Self)
        ensures
            exists|ws: Seq<Seq<char>>| #[trigger] palabras_unidas(ws, 1, 10, r.institucion_caja@),
            exists|ws: Seq<Seq<char>>| #[trigger] palabras_unidas(ws, 1, 3, r.tipo@),
            r.regimen@.len() > 0,
            exists|ws: Seq<Seq<char>>| #[trigger] palabras_unidas(ws, 1, 5, r.causa@),
            r.institucion_caja@.len() > 0 && r.tipo@.len() > 0 && r.causa@.len() > 0,
    {
        let institucion_caja = fuente.frase(1, 10);
        let tipo = fuente.frase(1, 3);
        let regimen = fuente.palabra();
        let causa = fuente.frase(1, 5);
        let r = Percepciones { institucion_caja, tipo, regimen, causa };
        assert(r.institucion_caja@ == institucion_caja@ && r.tipo@ == tipo@ && r.causa@ == causa@);
        r
    }
}

/// An insurance policy issuer.
#[derive(Clone, Debug)]
pub struct Seguros {
    pub codigo_compania: u32,
    pub compania_aseguradora: String,
    pub lugar_emision: String,
    pub fecha_emision: Fecha,
}

impl Seguros {
    pub fn generar(fuente: &mut Fuente) -> (r: Self)
        ensures
            r.fecha_emision.valida(),
            r.compania_aseguradora@.len() > 0,
            r.lugar_emision@.len() > 0,
    {
        let codigo_compania = fuente.entero();
        let compania_aseguradora = fuente.empresa();
        let lugar_emision = fuente.ciudad();
        let fecha_emision = fecha_al_azar(fuente);
        Seguros { codigo_compania, compania_aseguradora, lugar_emision, fecha_emision }
    }
}

/// A health insurer.
#[derive(Clone, Debug)]
pub struct ObrasSociales {
    pub nombre_obra: String,
    pub id_obrasocial: u32,
}

impl ObrasSociales {
    pub fn new(nombre: &str, id: u32) -> (r: Self)
        ensures
            r.nombre_obra@ == nombre@,
            r.id_obrasocial == id,
    {
        ObrasSociales { nombre_obra: String::from_str(nombre), id_obrasocial: id }
    }

    pub fn generar(fuente: &mut Fuente) -> (r: Self)
        ensures
            r.nombre_obra@.len() > 0,
    {
        let nombre_obra = fuente.empresa();
        ObrasSociales { nombre_obra, id_obrasocial: fuente.entero() }
    }
}

/// A language, one of a fixed list loaded before the run.
#[derive(Clone, Debug)]
pub struct Idiomas {
    pub nombre: String,
}

impl Idiomas {
    pub fn new(nombre: &str) -> (r: Self)
        ensures
            r.nombre@ == nombre@,
    {
        Idiomas { nombre: String::from_str(nombre) }
    }
}

/// A company or public office a professor works for, at an existing address,
/// with its health insurer.
#[derive(Clone, Debug)]
pub struct DependenciasEmpresas {
    pub dni_profesor: Dni,
    pub nombre: String,
    pub tipo_actividad: String,
    pub observacion: String,
    pub naturaleza_juridica: String,
    pub codigo_postal: u32,
    pub calle: String,
    pub numero: u32,
    pub id_obrasocial: u32,
}

impl DependenciasEmpresas {
    pub fn new(
        profesor: &Profesores,
        direccion: &Direcciones,
        obra: &ObrasSociales,
        fuente: &mut Fuente,
    ) -> (r: Self)
        ensures
            r.dni_profesor@ == profesor.dni@,
            direccion.es_domicilio(r.codigo_postal, r.calle@, r.numero),
            r.id_obrasocial == obra.id_obrasocial,
            r.tipo_actividad@ == "Autonomo"@ || r.tipo_actividad@ == "Dependencia"@,
            r.naturaleza_juridica@ == "Privado"@ || r.naturaleza_juridica@ == "Publico"@,
    {
        let nombre = fuente.empresa();
        let tipo_actividad = if fuente.moneda() {
            String::from_str("Autonomo")
        } else {
            String::from_str("Dependencia")
        };
        let observacion = fuente.frase(1, 20);
        let naturaleza_juridica = if fuente.moneda() {
            String::from_str("Privado")
        } else {
            String::from_str("Publico")
        };
        DependenciasEmpresas {
            dni_profesor: profesor.dni.copia(),
            nombre,
            tipo_actividad,
            observacion,
            naturaleza_juridica,
            codigo_postal: direccion.codigo_postal,
            calle: direccion.calle.clone(),
            numero: direccion.numero,
            id_obrasocial: obra.id_obrasocial,
        }
    }
}

pub open spec fn tipos_personal() -> Seq<&'static str> {
    seq!["No Docente", "Docente", "Contratado", "Becario"]
}

pub open spec fn caracteres() -> Seq<&'static str> {
    seq!["Titular", "Suplente", "Graduado", "Estudiante", "Interino"]
}

/// A professor's enrolment with a health insurer.
#[derive(Clone, Debug)]
pub struct DocObraSocial {
    pub id_doc: u32,
    pub id_obra_social: u32,
    pub dni_profesor: Dni,
    pub tipo_personal: String,
    pub tipo_caracter: String,
    pub presta_servicios: bool,
    pub dependencia: String,
}

impl DocObraSocial {
    pub fn new(profesor: &Profesores, obra: &ObrasSociales, fuente: &mut Fuente) -> (r: Self)
        ensures
            r.dni_profesor@ == profesor.dni@,
            r.id_obra_social == obra.id_obrasocial,
            uno_de(r.tipo_personal@, tipos_personal()),
            uno_de(r.tipo_caracter@, caracteres()),
    {
        let id_doc = fuente.entero();
        let personal = vec!["No Docente", "Docente", "Contratado", "Becario"];
        let tipo_personal = fuente.elegir_texto(&personal);
        let car = vec!["Titular", "Suplente", "Graduado", "Estudiante", "Interino"];
        let tipo_caracter = fuente.elegir_texto(&car);
        assert(personal@ == tipos_personal());
        assert(car@ == caracteres());
        let presta_servicios = fuente.moneda();
        DocObraSocial {
            id_doc,
            id_obra_social: obra.id_obrasocial,
            dni_profesor: profesor.dni.copia(),
            tipo_personal,
            tipo_caracter,
            presta_servicios,
            dependencia: fuente.palabra(),
        }
    }
}

/// A sworn statement made by a professor.
#[derive(Clone, Debug)]
pub struct DeclaracionesJuradas {
    pub id_declaracion: u32,
    pub dni_profesor: Dni,
    pub fecha: Fecha,
    pub lugar: String,
}

impl DeclaracionesJuradas {
    pub fn new(profesor: &Profesores, fuente: &mut Fuente) -> (r: Self)
        ensures
            r.dni_profesor@ == profesor.dni@,
            r.fecha.valida(),
    {
        let id_declaracion = fuente.entero();
        let lugar = fuente.ciudad();
        let fecha = fecha_al_azar(fuente);
        DeclaracionesJuradas { id_declaracion, dni_profesor: profesor.dni.copia(), fecha, lugar }
    }
}

/// A statement of the post a professor holds at a company or office.
#[derive(Clone, Debug)]
pub struct DeclaracionesDeCargo {
    pub dni_profesor: Dni,
    pub nombre_dep: String,
    pub id_declaracion: u32,
    pub cumple_horario: String,
    pub reparticion: String,
    pub dependencia: String,
}

impl DeclaracionesDeCargo {
    pub fn new(dep: &DependenciasEmpresas, fuente: &mut Fuente) -> (r: Self)
        ensures
            r.dni_profesor@ == dep.dni_profesor@,
            r.nombre_dep@ == dep.nombre@,
    {
        let id_declaracion = fuente.entero();
        let cumple_horario = fuente.palabra();
        let reparticion = fuente.palabra();
        let dependencia = fuente.palabra();
        DeclaracionesDeCargo {
            dni_profesor: dep.dni_profesor.copia(),
            nombre_dep: dep.nombre.clone(),
            id_declaracion,
            cumple_horario,
            reparticion,
            dependencia,
        }
    }
}

/// A professional background entry, from a start date to a later end date.
#[derive(Clone, Debug)]
pub struct AntecedentesProfesionales {
    pub dni_profesor: Dni,
    pub id_declaracion: u32,
    pub tipo_actividad: String,
    pub desde: Fecha,
    pub hasta: Fecha,
}

/// The date `anios` years of 365 days after `f`.
pub fn mas_anios(f: Fecha, anios: usize) -> (r: Fecha)
    requires
        f.valida(),
        f.dia <= dias_antes(3000),
        anios <= 100,
    ensures
        r.valida(),
        r.dia == f.dia + 365 * anios,
{
    f.mas_dias(365 * anios as u32)
}

impl AntecedentesProfesionales {
    /// Starts 30 to 49 years after the professor's birth and lasts one to four
    /// years.
    pub fn new(
        profesor: &Profesores,
        declaracion: &DeclaracionesDeCargo,
        fuente: &mut Fuente,
    ) -> (r: Self)
        requires
            admite_antecedentes(profesor.fecha_nacimiento),
        ensures
            r.dni_profesor@ == profesor.dni@,
            r.id_declaracion == declaracion.id_declaracion,
            r.desde.valida() && r.hasta.valida(),
            r.desde.dia <= r.hasta.dia,
            anios_despues(profesor.fecha_nacimiento, r.desde, 30, 49),
            anios_despues(r.desde, r.hasta, 1, 4),
    {
        let tipo_actividad = fuente.palabra();
        let desde = mas_anios(profesor.fecha_nacimiento, fuente.rango(30, 50));
        let hasta = mas_anios(desde, fuente.rango(1, 5));
        AntecedentesProfesionales {
            dni_profesor: profesor.dni.copia(),
            id_declaracion: declaracion.id_declaracion,
            tipo_actividad,
            desde,
            hasta,
        }
    }
}

/// A teaching background entry at an institution.
#[derive(Clone, Debug)]
pub struct AntecedentesDocentes {
    pub nombre_inst: String,
    pub unidad_academica: String,
    pub id_declaracion: u32,
    pub dni_profesor: Dni,
    pub desde: Fecha,
    pub hasta: Option<Fecha>,
    pub dedicacion: u32,
}

impl AntecedentesDocentes {
    /// Starts 30 to 49 years after the professor's birth; when it has ended,
    /// it lasted one to 29 years.
    pub fn new(
        profesor: &Profesores,
        institucion: &Instituciones,
        declaracion: &DeclaracionesDeCargo,
        fuente: &mut Fuente,
    ) -> (r: Self)
        requires
            admite_antecedentes(profesor.fecha_nacimiento),
        ensures
            r.nombre_inst@ == institucion.nombre@,
            r.id_declaracion == declaracion.id_declaracion,
            r.dni_profesor@ == profesor.dni@,
            r.desde.valida(),
            anios_despues(profesor.fecha_nacimiento, r.desde, 30, 49),
            r.hasta matches Some(h) ==> h.valida() && r.desde.dia <= h.dia && anios_despues(
                r.desde,
                h,
                1,
                29,
            ),
            1 <= r.dedicacion < 8,
    {
        let unidad_academica = fuente.palabra();
        let desde = mas_anios(profesor.fecha_nacimiento, fuente.rango(30, 50));
        let hasta = if fuente.moneda() {
            Some(mas_anios(desde, fuente.rango(1, 30)))
        } else {
            None
        };
        let dedicacion = fuente.rango(1, 8) as u32;
        AntecedentesDocentes {
            nombre_inst: institucion.nombre.clone(),
            unidad_academica,
            id_declaracion: declaracion.id_declaracion,
            dni_profesor: profesor.dni.copia(),
            desde,
            hasta,
            dedicacion,
        }
    }
}

pub open spec fn dias_semana() -> Seq<&'static str> {
    seq!["Lunes", "Martes", "Miercoles", "Jueves", "Viernes"]
}

/// A weekly class slot of a post; it ends one to eight hours after it starts,
/// on the same day.
#[derive(Clone, Debug)]
pub struct Horarios {
    pub id_declaracion: u32,
    pub dia: String,
    pub hora_inicio: Hora,
    pub hora_fin: Hora,
    pub nombre_catedra: String,
}

impl Horarios {
    pub fn new(declaracion: &DeclaracionesDeCargo, fuente: &mut Fuente) -> (r: Self)
        ensures
            r.id_declaracion == declaracion.id_declaracion,
            uno_de(r.dia@, dias_semana()),
            r.hora_inicio.valida() && r.hora_fin.valida(),
            r.hora_inicio.segundos <= r.hora_fin.segundos,
            (r.hora_fin.segundos - r.hora_inicio.segundos) % 3600 == 0,
            3600 <= r.hora_fin.segundos - r.hora_inicio.segundos <= 8 * 3600,
    {
        let dias = vec!["Lunes", "Martes", "Miercoles", "Jueves", "Viernes"];
        let dia = fuente.elegir_texto(&dias);
        assert(dias@ == dias_semana());
        let horas = fuente.rango(1, 9);
        let h = fuente.rango(0, 24 - horas) as u8;
        let m = fuente.rango(0, 60) as u8;
        let s = fuente.rango(0, 60) as u8;
        let hora_inicio = Hora::desde_hms(h, m, s);
        let hora_fin = hora_inicio.mas_horas(horas as u32);
        let nombre_catedra = fuente.frase(1, 5);
        Horarios {
            id_declaracion: declaracion.id_declaracion,
            dia,
            hora_inicio,
            hora_fin,
            nombre_catedra,
        }
    }
}

/// A decimal number, `digitos` times ten to the power of `-escala`.
#[derive(PartialEq, Eq, Structural, Clone, Copy, Debug)]
pub struct Decimal {
    pub digitos: i64,
    pub escala: i64,
}

pub open spec fn parentescos() -> Seq<&'static str> {
    seq!["Cónyuge", "Hijo", "Padre", "Pareja", "Hermano"]
}

/// A relative of a professor, living at an existing address.
#[derive(Clone, Debug)]
pub struct Familiares {
    pub dni_profesor: Dni,
    pub dni_familiar: Dni,
    pub nombre: String,
    pub apellido: String,
    pub parentesco: String,
    pub fecha_nacimiento: Fecha,
    pub tipo_documento: String,
    pub porcentaje: Decimal,
    pub piso: Option<u32>,
    pub departamento: Option<u8>,
    pub numero_dir: u32,
    pub codigo_postal: u32,
    pub calle: String,
}

impl Familiares {
    /// Born on day 1 to 30 of a year of 1990 to 2015; the benefit share is
    /// ten to the power of `-1` to `-26`.
    pub fn new(direccion: &Direcciones, profesor: &Profesores, fuente: &mut Fuente) -> (r: Self)
        ensures
            r.dni_profesor@ == profesor.dni@,
            es_dni(r.dni_familiar@),
            direccion.es_domicilio(r.codigo_postal, r.calle@, r.numero_dir),
            uno_de(r.parentesco@, parentescos()),
            nacido_en(r.fecha_nacimiento, 1990, 2015),
            r.porcentaje.digitos == 1 && 1 <= r.porcentaje.escala < 27,
            vivienda_valida(r.piso, r.departamento),
    {
        let dni_familiar = Dni::generar(fuente);
        let nombre = fuente.nombre_de_pila();
        let apellido = fuente.apellido();
        let opciones = vec!["Cónyuge", "Hijo", "Padre", "Pareja", "Hermano"];
        let parentesco = fuente.elegir_texto(&opciones);
        assert(opciones@ == parentescos());
        let anio = fuente.rango(1990, 2016) as i32;
        let ordinal = fuente.rango(1, 31) as u16;
        let fecha_nacimiento = Fecha::desde_ordinal(anio, ordinal);
        assert(fecha_nacimiento.dia == dia_de(anio as int, ordinal as int));
        let tipo_documento = fuente.palabra();
        let escala = fuente.rango(1, 27) as i64;
        let porcentaje = Decimal { digitos: 1, escala };
        let (piso, departamento) = vivienda(fuente);
        Familiares {
            dni_profesor: profesor.dni.copia(),
            dni_familiar,
            nombre,
            apellido,
            parentesco,
            fecha_nacimiento,
            tipo_documento,
            porcentaje,
            piso,
            departamento,
            numero_dir: direccion.numero,
            codigo_postal: direccion.codigo_postal,
            calle: direccion.calle.clone(),
        }
    }
}

impl Direcciones {
    /// Table `Direcciones`, with one field per value of `valores`.
    pub fn descriptor() -> (r: Descriptor)
        ensures
            r.tabla@ == "Direcciones"@,
            r.campos.len() == 5,
    {
        Descriptor {
            tabla: String::from_str("Direcciones"),
            campos: vec![
                String::from_str("codigo_postal"),
                String::from_str("calle"),
                String::from_str("numero"),
                String::from_str("localidad"),
                String::from_str("provincia"),
            ],
        }
    }

    /// The values bound to the placeholders, in the order of the fields.
    pub fn valores(&self) -> (r: Vec<Valor>)
        ensures
            r.len() == 5,
    {
        vec![
            entero(self.codigo_postal as i64),
            texto(self.calle.as_str()),
            entero(self.numero as i64),
            texto(self.localidad.as_str()),
            texto(self.provincia.as_str()),
        ]
    }
}

impl Instituciones {
    /// Table `Instituciones`, with one field per value of `valores`.
    pub fn descriptor() -> (r: Descriptor)
        ensures
            r.tabla@ == "Instituciones"@,
            r.campos.len() == 4,
    {
        Descriptor {
            tabla: String::from_str("Instituciones"),
            campos: vec![
                String::from_str("nombre"),
                String::from_str("codigo_postal"),
                String::from_str("calle"),
                String::from_str("numero"),
            ],
        }
    }

    /// The values bound to the placeholders, in the order of the fields.
    pub fn valores(&self) -> (r: Vec<Valor>)
        ensures
            r.len() == 4,
    {
        vec![
            texto(self.nombre.as_str()),
            entero(self.codigo_postal as i64),
            texto(self.calle.as_str()),
            entero(self.numero as i64),
        ]
    }
}

impl Profesores {
    /// Table `Profesores`, with one field per value of `valores`.
    pub fn descriptor() -> (r: Descriptor)
        ensures
            r.tabla@ == "Profesores"@,
            r.campos.len() == 10,
    {
        Descriptor {
            tabla: String::from_str("Profesores"),
            campos: vec![
                String::from_str("dni"),
                String::from_str("nombre"),
                String::from_str("apellido"),
                String::from_str("fecha_nacimiento"),
                String::from_str("nacionalidad"),
                String::from_str("estado_civil"),
                String::from_str("sexo"),
                String::from_str("cuit"),
                String::from_str("cuil"),
                String::from_str("cuit_empleador"),
            ],
        }
    }

    /// The values bound to the placeholders, in the order of the fields.
    pub fn valores(&self) -> (r: Vec<Valor>)
        ensures
            r.len() == 10,
    {
        vec![
            texto(self.dni.texto()),
            texto(self.nombre.as_str()),
            texto(self.apellido.as_str()),
            fecha(self.fecha_nacimiento),
            texto(self.nacionalidad.as_str()),
            texto(self.estado_civil.as_str()),
            texto(self.sexo.as_str()),
            cuit_opt(&self.cuit),
            texto(self.cuil.texto()),
            texto(self.cuit_empleador.texto()),
        ]
    }
}

impl Contactos {
    /// Table `Contactos`, with one field per value of `valores`.
    pub fn descriptor() -> (r: Descriptor)
        ensures
            r.tabla@ == "Contactos"@,
            r.campos.len() == 5,
    {
        Descriptor {
            tabla: String::from_str("Contactos"),
            campos: vec![
                String::from_str("dni_profesor"),
                String::from_str("tipo"),
                String::from_str("medio"),
                String::from_str("direccion"),
                String::from_str("numero"),
            ],
        }
    }

    /// The values bound to the placeholders, in the order of the fields.
    pub fn valores(&self) -> (r: Vec<Valor>)
        ensures
            r.len() == 5,
    {
        vec![
            texto(self.dni_profesor.texto()),
            texto(self.tipo.as_str()),
            texto(self.medio.as_str()),
            texto_opt(&self.direccion),
            texto_opt(&self.numero),
        ]
    }
}

impl Titulos {
    /// Table `Titulos`, with one field per value of `valores`.
    pub fn descriptor() -> (r: Descriptor)
        ensures
            r.tabla@ == "Titulos"@,
            r.campos.len() == 2,
    {
        Descriptor {
            tabla: String::from_str("Titulos"),
            campos: vec![
                String::from_str("nivel"),
                String::from_str("titulo"),
            ],
        }
    }

    /// The values bound to the placeholders, in the order of the fields.
    pub fn valores(&self) -> (r: Vec<Valor>)
        ensures
            r.len() == 2,
    {
        vec![
            texto(self.nivel.as_str()),
            texto(self.titulo.as_str()),
        ]
    }
}

impl CursosConferencias {
    /// Table `CursosConferencias`, with one field per value of `valores`.
    pub fn descriptor() -> (r: Descriptor)
        ensures
            r.tabla@ == "CursosConferencias"@,
            r.campos.len() == 4,
    {
        Descriptor {
            tabla: String::from_str("CursosConferencias"),
            campos: vec![
                String::from_str("nombre_inst"),
                String::from_str("nombre_curso"),
                String::from_str("descripcion"),
                String::from_str("tipo"),
            ],
        }
    }

    /// The values bound to the placeholders, in the order of the fields.
    pub fn valores(&self) -> (r: Vec<Valor>)
        ensures
            r.len() == 4,
    {
        vec![
            texto(self.nombre_inst.as_str()),
            texto(self.nombre_curso.as_str()),
            texto_opt(&self.descripcion),
            texto(self.tipo.as_str()),
        ]
    }
}

impl AntecedentesDocentes {
    /// Table `AntecedentesDocentes`, with one field per value of `valores`.
    pub fn descriptor() -> (r: Descriptor)
        ensures
            r.tabla@ == "AntecedentesDocentes"@,
            r.campos.len() == 7,
    {
        Descriptor {
            tabla: String::from_str("AntecedentesDocentes"),
            campos: vec![
                String::from_str("nombre_inst"),
                String::from_str("unidad_academica"),
                String::from_str("id_declaracion"),
                String::from_str("dni_profesor"),
                String::from_str("desde"),
                String::from_str("hasta"),
                String::from_str("dedicacion"),
            ],
        }
    }

    /// The values bound to the placeholders, in the order of the fields.
    pub fn valores(&self) -> (r: Vec<Valor>)
        ensures
            r.len() == 7,
    {
        vec![
            texto(self.nombre_inst.as_str()),
            texto(self.unidad_academica.as_str()),
            entero(self.id_declaracion as i64),
            texto(self.dni_profesor.texto()),
            fecha(self.desde),
            fecha_opt(self.hasta),
            entero(self.dedicacion as i64),
        ]
    }
}

impl ActividadesInvestigacion {
    /// Table `ActividadesInvestigacion`, with one field per value of `valores`.
    pub fn descriptor() -> (r: Descriptor)
        ensures
            r.tabla@ == "ActividadesInvestigacion"@,
            r.campos.len() == 4,
    {
        Descriptor {
            tabla: String::from_str("ActividadesInvestigacion"),
            campos: vec![
                String::from_str("id_investigacion"),
                String::from_str("nombre_inst"),
                String::from_str("categoria"),
                String::from_str("area_ppal"),
            ],
        }
    }

    /// The values bound to the placeholders, in the order of the fields.
    pub fn valores(&self) -> (r: Vec<Valor>)
        ensures
            r.len() == 4,
    {
        vec![
            entero(self.id_investigacion as i64),
            texto(self.nombre_inst.as_str()),
            texto(self.categoria.as_str()),
            texto(self.area_ppal.as_str()),
        ]
    }
}

impl ActividadesExtensionUniversitaria {
    /// Table `ActividadesExtensionUniversitaria`, with one field per value of `valores`.
    pub fn descriptor() -> (r: Descriptor)
        ensures
            r.tabla@ == "ActividadesExtensionUniversitaria"@,
            r.campos.len() == 4,
    {
        Descriptor {
            tabla: String::from_str("ActividadesExtensionUniversitaria"),
            campos: vec![
                String::from_str("id_actividad"),
                String::from_str("nombre_inst"),
                String::from_str("cargo"),
                String::from_str("categoria"),
            ],
        }
    }

    /// The values bound to the placeholders, in the order of the fields.
    pub fn valores(&self) -> (r: Vec<Valor>)
        ensures
            r.len() == 4,
    {
        vec![
            entero(self.id_actividad as i64),
            texto(self.nombre_inst.as_str()),
            texto(self.cargo.as_str()),
            texto(self.categoria.as_str()),
        ]
    }
}

impl AntecedentesProfesionales {
    /// Table `AntecedentesProfesionales`, with one field per value of `valores`.
    pub fn descriptor() -> (r: Descriptor)
        ensures
            r.tabla@ == "AntecedentesProfesionales"@,
            r.campos.len() == 5,
    {
        Descriptor {
            tabla: String::from_str("AntecedentesProfesionales"),
            campos: vec![
                String::from_str("dni_profesor"),
                String::from_str("id_declaracion"),
                String::from_str("tipo_actividad"),
                String::from_str("desde"),
                String::from_str("hasta"),
            ],
        }
    }

    /// The values bound to the placeholders, in the order of the fields.
    pub fn valores(&self) -> (r: Vec<Valor>)
        ensures
            r.len() == 5,
    {
        vec![
            texto(self.dni_profesor.texto()),
            entero(self.id_declaracion as i64),
            texto(self.tipo_actividad.as_str()),
            fecha(self.desde),
            fecha(self.hasta),
        ]
    }
}

impl Publicaciones {
    /// Table `Publicaciones`, with one field per value of `valores`.
    pub fn descriptor() -> (r: Descriptor)
        ensures
            r.tabla@ == "Publicaciones"@,
            r.campos.len() == 4,
    {
        Descriptor {
            tabla: String::from_str("Publicaciones"),
            campos: vec![
                String::from_str("id_publicacion"),
                String::from_str("autores"),
                String::from_str("anio"),
                String::from_str("titulo"),
            ],
        }
    }

    /// The values bound to the placeholders, in the order of the fields.
    pub fn valores(&self) -> (r: Vec<Valor>)
        ensures
            r.len() == 4,
    {
        vec![
            entero(self.id_publicacion as i64),
            texto(self.autores.as_str()),
            entero(self.anio as i64),
            texto(self.titulo.as_str()),
        ]
    }
}

impl ReunionesCientificas {
    /// Table `ReunionesCientificas`, with one field per value of `valores`.
    pub fn descriptor() -> (r: Descriptor)
        ensures
            r.tabla@ == "ReunionesCientificas"@,
            r.campos.len() == 2,
    {
        Descriptor {
            tabla: String::from_str("ReunionesCientificas"),
            campos: vec![
                String::from_str("titulo"),
                String::from_str("fecha"),
            ],
        }
    }

    /// The values bound to the placeholders, in the order of the fields.
    pub fn valores(&self) -> (r: Vec<Valor>)
        ensures
            r.len() == 2,
    {
        vec![
            texto(self.titulo.as_str()),
            fecha(self.fecha),
        ]
    }
}

impl DependenciasEmpresas {
    /// Table `DependenciasEmpresas`, with one field per value of `valores`.
    pub fn descriptor() -> (r: Descriptor)
        ensures
            r.tabla@ == "DependenciasEmpresas"@,
            r.campos.len() == 9,
    {
        Descriptor {
            tabla: String::from_str("DependenciasEmpresas"),
            campos: vec![
                String::from_str("dni_profesor"),
                String::from_str("nombre"),
                String::from_str("tipo_actividad"),
                String::from_str("observacion"),
                String::from_str("naturaleza_juridica"),
                String::from_str("codigo_postal"),
                String::from_str("calle"),
                String::from_str("numero"),
                String::from_str("id_obrasocial"),
            ],
        }
    }

    /// The values bound to the placeholders, in the order of the fields.
    pub fn valores(&self) -> (r: Vec<Valor>)
        ensures
            r.len() == 9,
    {
        vec![
            texto(self.dni_profesor.texto()),
            texto(self.nombre.as_str()),
            texto(self.tipo_actividad.as_str()),
            texto(self.observacion.as_str()),
            texto(self.naturaleza_juridica.as_str()),
            entero(self.codigo_postal as i64),
            texto(self.calle.as_str()),
            entero(self.numero as i64),
            entero(self.id_obrasocial as i64),
        ]
    }
}

impl ObrasSociales {
    /// Table `ObrasSociales`, with one field per value of `valores`.
    pub fn descriptor() -> (r: Descriptor)
        ensures
            r.tabla@ == "ObrasSociales"@,
            r.campos.len() == 2,
    {
        Descriptor {
            tabla: String::from_str("ObrasSociales"),
            campos: vec![
                String::from_str("nombre_obra"),
                String::from_str("id_obrasocial"),
            ],
        }
    }

    /// The values bound to the placeholders, in the order of the fields.
    pub fn valores(&self) -> (r: Vec<Valor>)
        ensures
            r.len() == 2,
    {
        vec![
            texto(self.nombre_obra.as_str()),
            entero(self.id_obrasocial as i64),
        ]
    }
}

impl DocObraSocial {
    /// Table `DocObraSocial`, with one field per value of `valores`.
    pub fn descriptor() -> (r: Descriptor)
        ensures
            r.tabla@ == "DocObraSocial"@,
            r.campos.len() == 7,
    {
        Descriptor {
            tabla: String::from_str("DocObraSocial"),
            campos: vec![
                String::from_str("id_doc"),
                String::from_str("id_obra_social"),
                String::from_str("dni_profesor"),
                String::from_str("tipo_personal"),
                String::from_str("tipo_caracter"),
                String::from_str("presta_servicios"),
                String::from_str("dependencia"),
            ],
        }
    }

    /// The values bound to the placeholders, in the order of the fields.
    pub fn valores(&self) -> (r: Vec<Valor>)
        ensures
            r.len() == 7,
    {
        vec![
            entero(self.id_doc as i64),
            entero(self.id_obra_social as i64),
            texto(self.dni_profesor.texto()),
            texto(self.tipo_personal.as_str()),
            texto(self.tipo_caracter.as_str()),
            Valor::Logico(self.presta_servicios),
            texto(self.dependencia.as_str()),
        ]
    }
}

impl Percepciones {
    /// Table `Percepciones`, with one field per value of `valores`.
    pub fn descriptor() -> (r: Descriptor)
        ensures
            r.tabla@ == "Percepciones"@,
            r.campos.len() == 4,
    {
        Descriptor {
            tabla: String::from_str("Percepciones"),
            campos: vec![
                String::from_str("institucion_caja"),
                String::from_str("tipo"),
                String::from_str("regimen"),
                String::from_str("causa"),
            ],
        }
    }

    /// The values bound to the placeholders, in the order of the fields.
    pub fn valores(&self) -> (r: Vec<Valor>)
        ensures
            r.len() == 4,
    {
        vec![
            texto(self.institucion_caja.as_str()),
            texto(self.tipo.as_str()),
            texto(self.regimen.as_str()),
            texto(self.causa.as_str()),
        ]
    }
}

impl DeclaracionesJuradas {
    /// Table `DeclaracionesJuradas`, with one field per value of `valores`.
    pub fn descriptor() -> (r: Descriptor)
        ensures
            r.tabla@ == "DeclaracionesJuradas"@,
            r.campos.len() == 4,
    {
        Descriptor {
            tabla: String::from_str("DeclaracionesJuradas"),
            campos: vec![
                String::from_str("id_declaracion"),
                String::from_str("dni_profesor"),
                String::from_str("fecha"),
                String::from_str("lugar"),
            ],
        }
    }

    /// The values bound to the placeholders, in the order of the fields.
    pub fn valores(&self) -> (r: Vec<Valor>)
        ensures
            r.len() == 4,
    {
        vec![
            entero(self.id_declaracion as i64),
            texto(self.dni_profesor.texto()),
            fecha(self.fecha),
            texto(self.lugar.as_str()),
        ]
    }
}

impl DeclaracionesDeCargo {
    /// Table `DeclaracionesDeCargo`, with one field per value of `valores`.
    pub fn descriptor() -> (r: Descriptor)
        ensures
            r.tabla@ == "DeclaracionesDeCargo"@,
            r.campos.len() == 6,
    {
        Descriptor {
            tabla: String::from_str("DeclaracionesDeCargo"),
            campos: vec![
                String::from_str("dni_profesor"),
                String::from_str("nombre_dep"),
                String::from_str("id_declaracion"),
                String::from_str("cumple_horario"),
                String::from_str("reparticion"),
                String::from_str("dependencia"),
            ],
        }
    }

    /// The values bound to the placeholders, in the order of the fields.
    pub fn valores(&self) -> (r: Vec<Valor>)
        ensures
            r.len() == 6,
    {
        vec![
            texto(self.dni_profesor.texto()),
            texto(self.nombre_dep.as_str()),
            entero(self.id_declaracion as i64),
            texto(self.cumple_horario.as_str()),
            texto(self.reparticion.as_str()),
            texto(self.dependencia.as_str()),
        ]
    }
}

impl Horarios {
    /// Table `Horarios`, with one field per value of `valores`.
    pub fn descriptor() -> (r: Descriptor)
        ensures
            r.tabla@ == "Horarios"@,
            r.campos.len() == 5,
    {
        Descriptor {
            tabla: String::from_str("Horarios"),
            campos: vec![
                String::from_str("id_declaracion"),
                String::from_str("dia"),
                String::from_str("hora_inicio"),
                String::from_str("hora_fin"),
                String::from_str("nombre_catedra"),
            ],
        }
    }

    /// The values bound to the placeholders, in the order of the fields.
    pub fn valores(&self) -> (r: Vec<Valor>)
        ensures
            r.len() == 5,
    {
        vec![
            entero(self.id_declaracion as i64),
            texto(self.dia.as_str()),
            hora(self.hora_inicio),
            hora(self.hora_fin),
            texto(self.nombre_catedra.as_str()),
        ]
    }
}

impl Empleadores {
    /// Table `Empleadores`, with one field per value of `valores`.
    pub fn descriptor() -> (r: Descriptor)
        ensures
            r.tabla@ == "Empleadores"@,
            r.campos.len() == 7,
    {
        Descriptor {
            tabla: String::from_str("Empleadores"),
            campos: vec![
                String::from_str("cuit"),
                String::from_str("razon_social"),
                String::from_str("piso"),
                String::from_str("departamento"),
                String::from_str("codigo_postal"),
                String::from_str("calle"),
                String::from_str("numero"),
            ],
        }
    }

    /// The values bound to the placeholders, in the order of the fields.
    pub fn valores(&self) -> (r: Vec<Valor>)
        ensures
            r.len() == 7,
    {
        vec![
            texto(self.cuit.texto()),
            texto(self.razon_social.as_str()),
            entero_opt_u32(self.piso),
            entero_opt_u8(self.departamento),
            entero(self.codigo_postal as i64),
            texto(self.calle.as_str()),
            entero(self.numero as i64),
        ]
    }
}

impl Seguros {
    /// Table `Seguros`, with one field per value of `valores`.
    pub fn descriptor() -> (r: Descriptor)
        ensures
            r.tabla@ == "Seguros"@,
            r.campos.len() == 4,
    {
        Descriptor {
            tabla: String::from_str("Seguros"),
            campos: vec![
                String::from_str("codigo_compania"),
                String::from_str("compania_aseguradora"),
                String::from_str("lugar_emision"),
                String::from_str("fecha_emision"),
            ],
        }
    }

    /// The values bound to the placeholders, in the order of the fields.
    pub fn valores(&self) -> (r: Vec<Valor>)
        ensures
            r.len() == 4,
    {
        vec![
            entero(self.codigo_compania as i64),
            texto(self.compania_aseguradora.as_str()),
            texto(self.lugar_emision.as_str()),
            fecha(self.fecha_emision),
        ]
    }
}

impl Familiares {
    /// Table `Familiares`, with one field per value of `valores`.
    pub fn descriptor() -> (r: Descriptor)
        ensures
            r.tabla@ == "Familiares"@,
            r.campos.len() == 13,
    {
        Descriptor {
            tabla: String::from_str("Familiares"),
            campos: vec![
                String::from_str("dni_profesor"),
                String::from_str("dni_familiar"),
                String::from_str("nombre"),
                String::from_str("apellido"),
                String::from_str("parentesco"),
                String::from_str("fecha_nacimiento"),
                String::from_str("tipo_documento"),
                String::from_str("porcentaje"),
                String::from_str("piso"),
                String::from_str("departamento"),
                String::from_str("numero_dir"),
                String::from_str("codigo_postal"),
                String::from_str("calle"),
            ],
        }
    }

    /// The values bound to the placeholders, in the order of the fields.
    pub fn valores(&self) -> (r: Vec<Valor>)
        ensures
            r.len() == 13,
    {
        vec![
            texto(self.dni_profesor.texto()),
            texto(self.dni_familiar.texto()),
            texto(self.nombre.as_str()),
            texto(self.apellido.as_str()),
            texto(self.parentesco.as_str()),
            fecha(self.fecha_nacimiento),
            texto(self.tipo_documento.as_str()),
            decimal(self.porcentaje),
            entero_opt_u32(self.piso),
            entero_opt_u8(self.departamento),
            entero(self.numero_dir as i64),
            entero(self.codigo_postal as i64),
            texto(self.calle.as_str()),
        ]
    }
}

impl Idiomas {
    /// Table `Idiomas`, with one field per value of `valores`.
    pub fn descriptor() -> (r: Descriptor)
        ensures
            r.tabla@ == "Idiomas"@,
            r.campos.len() == 1,
    {
        Descriptor {
            tabla: String::from_str("Idiomas"),
            campos: vec![
                String::from_str("nombre"),
            ],
        }
    }

    /// The values bound to the placeholders, in the order of the fields.
    pub fn valores(&self) -> (r: Vec<Valor>)
        ensures
            r.len() == 1,
    {
        vec![
            texto(self.nombre.as_str()),
        ]
    }
}

} // verus!
