use carga_datos::azar::{unir, Fuente};
use carga_datos::calendario::Fecha;
use carga_datos::carga::{elegir, Pozo};
use carga_datos::contador::ContadorGlobal;
use carga_datos::datasets::{agrupar_provincias, direccion_al_azar};
use carga_datos::entidades::{
    AntecedentesDocentes, AntecedentesProfesionales, Contactos, DeclaracionesDeCargo,
    DependenciasEmpresas, Direcciones, Empleadores, Familiares, Horarios, Idiomas, Instituciones,
    ObrasSociales, Percepciones, Profesores, Publicaciones, ReunionesCientificas, Seguros,
    Titulos,
};
use carga_datos::relaciones::{
    cargar_conoce_idiomas, cargar_posee_titulo, cargar_referencias_bibliograficas,
    cargar_reside_en, ErrorCarga,
};

fn es_dni(s: &str) -> bool {
    s.len() == 8 && s.chars().all(|c| c.is_ascii_digit())
}

fn direcciones(n: usize, f: &mut Fuente) -> Vec<Direcciones> {
    (0..n)
        .map(|i| Direcciones::new("Chaco", "Resistencia", &format!("Calle {i}"), f))
        .collect()
}

fn profesor(f: &mut Fuente) -> Profesores {
    let d = Direcciones::new("Chaco", "Resistencia", "Mitre", f);
    let e = Empleadores::new(&d, f);
    Profesores::new(&e, f)
}

#[test]
fn generador_determinista_con_semilla() {
    let mut a = Fuente::con_semilla(7);
    let mut b = Fuente::con_semilla(7);
    let pa = profesor(&mut a);
    let pb = profesor(&mut b);
    assert_eq!(pa.dni, pb.dni);
    assert_eq!(pa.nombre, pb.nombre);
    assert_eq!(pa.fecha_nacimiento, pb.fecha_nacimiento);
    assert_eq!(pa.estado_civil, pb.estado_civil);
    assert_eq!(pa.cuit, pb.cuit);
    assert_eq!(pa.cuit_empleador, pb.cuit_empleador);
    let ca = Contactos::new(&pa, &mut a);
    let cb = Contactos::new(&pb, &mut b);
    assert_eq!((ca.medio, ca.direccion, ca.numero), (cb.medio, cb.direccion, cb.numero));
}

#[test]
fn contactos_correlacionados() {
    let mut f = Fuente::con_semilla(11);
    let p = profesor(&mut f);
    let mut vistos = std::collections::HashSet::new();
    for _ in 0..300 {
        let c = Contactos::new(&p, &mut f);
        assert_eq!(c.dni_profesor, p.dni);
        assert!(["Personal", "Empresarial", "Otro"].contains(&c.tipo.as_str()));
        match c.medio.as_str() {
            "Email" => assert!(c.direccion.is_some() && c.numero.is_none()),
            "Telefono" | "Celular" => assert!(c.numero.is_some() && c.direccion.is_none()),
            otro => panic!("medio inesperado {otro}"),
        }
        vistos.insert(c.medio.clone());
    }
    assert_eq!(vistos.len(), 3);
}

#[test]
fn profesores_bien_formados() {
    let mut f = Fuente::con_semilla(3);
    let d = Direcciones::new("Chaco", "Resistencia", "Mitre", &mut f);
    let e = Empleadores::new(&d, &mut f);
    for _ in 0..100 {
        let p = Profesores::new(&e, &mut f);
        assert!(es_dni(p.dni.texto()));
        assert_eq!(p.cuil.texto(), format!("20{}8", p.dni.texto()));
        if let Some(c) = &p.cuit {
            assert_eq!(c.texto(), p.cuil.texto());
        }
        assert_eq!(p.cuit_empleador, e.cuit);
        assert!(["M", "F"].contains(&p.sexo.as_str()));
        assert!((1960..=1980).any(|a| (1..=30)
            .any(|o| Fecha::desde_ordinal(a, o).dia == p.fecha_nacimiento.dia)));
        assert!(p.admite_antecedentes());
    }
}

#[test]
fn fechas_ordenadas() {
    let mut f = Fuente::con_semilla(5);
    let p = profesor(&mut f);
    let d = Direcciones::new("Chaco", "Resistencia", "Mitre", &mut f);
    let inst = Instituciones::new(&d, "UTN");
    let obra = ObrasSociales::new("D.A.S.U.Te.N", 9);
    let dep = DependenciasEmpresas::new(&p, &d, &obra, &mut f);
    let dec = DeclaracionesDeCargo::new(&dep, &mut f);
    for _ in 0..200 {
        let ap = AntecedentesProfesionales::new(&p, &dec, &mut f);
        assert!(ap.desde.dia <= ap.hasta.dia);
        let inicio = ap.desde.dia - p.fecha_nacimiento.dia;
        assert!(inicio % 365 == 0 && (30..=49).contains(&(inicio / 365)));
        let dur = ap.hasta.dia - ap.desde.dia;
        assert!(dur % 365 == 0 && (1..=4).contains(&(dur / 365)));
        let ad = AntecedentesDocentes::new(&p, &inst, &dec, &mut f);
        let inicio = ad.desde.dia - p.fecha_nacimiento.dia;
        assert!(inicio % 365 == 0 && (30..=49).contains(&(inicio / 365)));
        if let Some(h) = ad.hasta {
            let dur = h.dia - ad.desde.dia;
            assert!(dur % 365 == 0 && (1..=29).contains(&(dur / 365)));
        }
        assert!((1..8).contains(&ad.dedicacion));
    }
}

#[test]
fn horario_termina_horas_despues() {
    let mut f = Fuente::con_semilla(8);
    let p = profesor(&mut f);
    let d = Direcciones::new("Chaco", "Resistencia", "Mitre", &mut f);
    let obra = ObrasSociales::new("OSDE", 1);
    let dep = DependenciasEmpresas::new(&p, &d, &obra, &mut f);
    let dec = DeclaracionesDeCargo::new(&dep, &mut f);
    for _ in 0..100 {
        let h = Horarios::new(&dec, &mut f);
        assert!(h.hora_inicio.segundos <= h.hora_fin.segundos);
        assert!(h.hora_fin.segundos < 86_400);
        let dif = h.hora_fin.segundos - h.hora_inicio.segundos;
        assert!(dif % 3600 == 0 && (1..=8).contains(&(dif / 3600)));
    }
}

#[test]
fn familiares_con_vivienda_consistente() {
    let mut f = Fuente::con_semilla(9);
    let p = profesor(&mut f);
    let d = Direcciones::new("Chaco", "Resistencia", "Mitre", &mut f);
    for _ in 0..100 {
        let fam = Familiares::new(&d, &p, &mut f);
        assert_eq!(fam.dni_profesor, p.dni);
        assert!(es_dni(fam.dni_familiar.texto()));
        assert_eq!(fam.piso.is_some(), fam.departamento.is_some());
        if let Some(l) = fam.departamento {
            assert!(l.is_ascii_uppercase());
        }
        assert!((1990..=2015).any(|a| (1..=30)
            .any(|o| Fecha::desde_ordinal(a, o).dia == fam.fecha_nacimiento.dia)));
        assert_eq!(fam.porcentaje.digitos, 1);
        assert!((1..27).contains(&fam.porcentaje.escala));
        assert_eq!((fam.codigo_postal, fam.numero_dir), (d.codigo_postal, d.numero));
    }
}

#[test]
fn direccion_en_rango() {
    let mut f = Fuente::con_semilla(1);
    for d in direcciones(50, &mut f) {
        assert!((1000..=9999).contains(&d.codigo_postal));
        assert!(d.numero <= 99_999);
    }
}

#[test]
fn publicaciones_con_autores() {
    let mut f = Fuente::con_semilla(4);
    for _ in 0..50 {
        let p = Publicaciones::generar(&mut f);
        assert!((1901..2155).contains(&p.anio));
        let n = p.autores.split("; ").count();
        assert!((1..=3).contains(&n));
        assert!(p.autores.contains(", "));
    }
}

#[test]
fn frases_unidas_con_espacios() {
    let ws = vec!["uno".to_string(), "dos".to_string(), "tres".to_string()];
    assert_eq!(unir(&ws, " "), "uno dos tres");
    assert_eq!(unir(&vec![], " "), "");
    let mut f = Fuente::con_semilla(2);
    let fr = f.frase(4, 5);
    assert_eq!(fr.split(' ').count(), 4);
}

#[test]
fn escenario_direcciones_empleadores_profesores() {
    let mut f = Fuente::con_semilla(2024);
    let dirs = direcciones(5, &mut f);
    let emps: Vec<Empleadores> = (0..5)
        .map(|_| {
            let d = elegir(&dirs, &mut f);
            Empleadores::new(d, &mut f)
        })
        .collect();
    let profs: Vec<Profesores> = (0..5)
        .map(|_| {
            let e = elegir(&emps, &mut f);
            Profesores::new(e, &mut f)
        })
        .collect();
    for p in &profs {
        assert_eq!(emps.iter().filter(|e| e.cuit == p.cuit_empleador).count(), 1);
    }
    for e in &emps {
        let n = dirs
            .iter()
            .filter(|d| d.codigo_postal == e.codigo_postal && d.calle == e.calle && d.numero == e.numero)
            .count();
        assert_eq!(n, 1);
    }
}

#[test]
fn escenario_rechazo_cada_tercera() {
    let mut f = Fuente::con_semilla(77);
    let mut contador = ContadorGlobal::new();
    let mut intento = 0usize;
    let mut pozo_dirs: Pozo<Direcciones> = Pozo::new();
    for d in direcciones(9, &mut f) {
        intento += 1;
        pozo_dirs.registrar(d, intento % 3 != 0, &mut contador);
    }
    let mut pozo_emps: Pozo<Empleadores> = Pozo::new();
    for _ in 0..9 {
        let d = elegir(pozo_dirs.filas(), &mut f);
        let e = Empleadores::new(d, &mut f);
        intento += 1;
        pozo_emps.registrar(e, intento % 3 != 0, &mut contador);
    }
    let mut pozo_profs: Pozo<Profesores> = Pozo::new();
    for _ in 0..9 {
        let e = elegir(pozo_emps.filas(), &mut f);
        let p = Profesores::new(e, &mut f);
        intento += 1;
        pozo_profs.registrar(p, intento % 3 != 0, &mut contador);
    }
    let r = contador.resumen();
    assert_eq!(r.total, 27);
    assert_eq!(r.rechazos, 9);
    assert_eq!(r.exitos, 18);
    assert_eq!(r.exitos + r.rechazos, r.total);
    assert_eq!((pozo_dirs.len(), pozo_emps.len(), pozo_profs.len()), (6, 6, 6));
    for p in pozo_profs.filas() {
        assert!(pozo_emps.filas().iter().any(|e| e.cuit == p.cuit_empleador));
    }
}

fn titulo(nivel: &str) -> Titulos {
    Titulos { nivel: nivel.to_string(), titulo: format!("Titulo {nivel}") }
}

#[test]
fn posee_titulo_terciario_para_cada_profesor() {
    let mut f = Fuente::con_semilla(12);
    let profs: Vec<Profesores> = (0..4).map(|_| profesor(&mut f)).collect();
    let titulos = vec![titulo("Terciario"), titulo("Maestria"), titulo("Doctorado")];
    let filas = cargar_posee_titulo(&titulos, &profs, 3, &mut f).unwrap();
    assert!(filas.len() > 4 && filas.len() <= 7);
    for (k, p) in profs.iter().enumerate() {
        assert_eq!(filas[k].dni, p.dni);
        assert_eq!(filas[k].nivel, "Terciario");
    }
    for fila in &filas[4..] {
        assert_ne!(fila.nivel, "Terciario");
        assert!(profs.iter().any(|p| p.dni == fila.dni));
    }
    for fila in &filas {
        assert_eq!(fila.hasta.dia - fila.desde.dia, 5 * 365);
    }
}

#[test]
fn posee_titulo_sin_terciarios() {
    let mut f = Fuente::con_semilla(12);
    let profs = vec![profesor(&mut f)];
    let titulos = vec![titulo("Maestria")];
    assert_eq!(
        cargar_posee_titulo(&titulos, &profs, 3, &mut f).unwrap_err(),
        ErrorCarga::SinTerciarios
    );
}

#[test]
fn posee_titulo_sin_otros_niveles() {
    let mut f = Fuente::con_semilla(12);
    let profs = vec![profesor(&mut f)];
    let titulos = vec![titulo("Terciario")];
    assert_eq!(
        cargar_posee_titulo(&titulos, &profs, 3, &mut f).unwrap_err(),
        ErrorCarga::SinOtrosTitulos
    );
}

#[test]
fn conoce_idiomas_espanol_y_otros() {
    let mut f = Fuente::con_semilla(13);
    let profs: Vec<Profesores> = (0..3).map(|_| profesor(&mut f)).collect();
    let idiomas = vec![Idiomas::new("Español"), Idiomas::new("Inglés"), Idiomas::new("Guaraní")];
    let filas = cargar_conoce_idiomas(&idiomas, &profs, &mut f).unwrap();
    assert!(filas.len() >= 6 && filas.len() <= 9);
    for k in 0..3 {
        assert_eq!(filas[k].nombre_idioma, "Español");
        assert_eq!(filas[k].dni_profesor, profs[k].dni);
    }
    let mut k = 3;
    for p in &profs {
        let mut propias = 0;
        while k < filas.len() && filas[k].dni_profesor == p.dni {
            assert!(filas[k].nombre_idioma == "Inglés" || filas[k].nombre_idioma == "Guaraní");
            propias += 1;
            k += 1;
        }
        assert!(propias == 1 || propias == 2);
    }
    assert_eq!(k, filas.len());
}

#[test]
fn conoce_idiomas_solo_espanol() {
    let mut f = Fuente::con_semilla(13);
    let profs = vec![profesor(&mut f)];
    let idiomas = vec![Idiomas::new("Español")];
    assert_eq!(
        cargar_conoce_idiomas(&idiomas, &profs, &mut f).unwrap_err(),
        ErrorCarga::SinIdiomas
    );
    assert!(cargar_conoce_idiomas(&idiomas, &vec![], &mut f).unwrap().is_empty());
}

#[test]
fn reside_en_una_direccion_del_pozo() {
    let mut f = Fuente::con_semilla(14);
    let profs: Vec<Profesores> = (0..5).map(|_| profesor(&mut f)).collect();
    let dirs = direcciones(3, &mut f);
    assert!(cargar_reside_en(&vec![], &vec![], &mut f).is_empty());
    let filas = cargar_reside_en(&profs, &dirs, &mut f);
    assert_eq!(filas.len(), 5);
    for (k, fila) in filas.iter().enumerate() {
        assert_eq!(fila.dni_profesor, profs[k].dni);
        assert!(dirs.iter().any(|d| d.calle == fila.calle && d.codigo_postal == fila.codigo_postal));
        assert_eq!(fila.piso.is_some(), fila.departamento.is_some());
    }
}

#[test]
fn referencias_menos_que_publicaciones() {
    let mut f = Fuente::con_semilla(15);
    let pubs: Vec<Publicaciones> = (0..6).map(|_| Publicaciones::generar(&mut f)).collect();
    for _ in 0..20 {
        let refs = cargar_referencias_bibliograficas(&pubs, &mut f);
        assert!(refs.len() + 2 <= pubs.len());
        for r in &refs {
            assert!(pubs.iter().any(|p| p.id_publicacion == r.id_fuente));
            assert!(pubs.iter().any(|p| p.id_publicacion == r.id_citador));
        }
    }
}

fn fila(l: &str, c: &str, p: &str) -> (String, String, String) {
    (l.to_string(), c.to_string(), p.to_string())
}

#[test]
fn agrupa_provincias_localidades_y_calles() {
    let filas = vec![
        fila("Resistencia", "Mitre", "Chaco"),
        fila("Corrientes", "Junin", "Corrientes"),
        fila("Resistencia", "Belgrano", "Chaco"),
        fila("Barranqueras", "Sarmiento", "Chaco"),
        fila("Resistencia", "Mitre", "Chaco"),
    ];
    let ps = agrupar_provincias(&filas);
    assert_eq!(ps.len(), 2);
    assert_eq!(ps[0].nombre, "Chaco");
    assert_eq!(ps[1].nombre, "Corrientes");
    assert_eq!(ps[0].localidades.len(), 2);
    assert_eq!(ps[0].localidades[0].nombre, "Resistencia");
    assert_eq!(ps[0].localidades[0].calles, vec!["Mitre", "Belgrano", "Mitre"]);
    assert_eq!(ps[0].localidades[1].nombre, "Barranqueras");
    assert_eq!(ps[1].localidades[0].calles, vec!["Junin"]);
    assert!(agrupar_provincias(&vec![]).is_empty());
    let mut f = Fuente::con_semilla(16);
    let d = direccion_al_azar(&ps, &mut f);
    assert!(d.provincia == "Chaco" || d.provincia == "Corrientes");
}

#[test]
fn textos_generados_no_vacios() {
    let mut f = Fuente::con_semilla(31);
    for _ in 0..50 {
        let t = Titulos::generar(&mut f);
        assert_eq!(t.titulo.split(' ').filter(|w| !w.is_empty()).count(), 4);
        let p = Percepciones::generar(&mut f);
        assert!((1..=9).contains(&p.institucion_caja.split(' ').count()));
        assert!((1..=2).contains(&p.tipo.split(' ').count()));
        assert!((1..=4).contains(&p.causa.split(' ').count()));
        assert!(!p.regimen.is_empty());
        assert!(!ObrasSociales::generar(&mut f).nombre_obra.is_empty());
        let s = Seguros::generar(&mut f);
        assert!(!s.compania_aseguradora.is_empty() && !s.lugar_emision.is_empty());
        let r = ReunionesCientificas::generar(&mut f);
        assert!(!r.titulo.is_empty() && r.titulo.split(' ').count() <= 4);
        let pb = Publicaciones::generar(&mut f);
        assert!(!pb.titulo.is_empty());
        for a in pb.autores.split("; ") {
            let partes: Vec<&str> = a.split(", ").collect();
            assert_eq!(partes.len(), 2);
            assert!(!partes[0].is_empty() && !partes[1].is_empty());
        }
    }
}

#[test]
fn descriptores_y_valores_coinciden() {
    let mut f = Fuente::con_semilla(32);
    let p = profesor(&mut f);
    assert_eq!(Profesores::descriptor().campos.len(), p.valores().len());
    assert_eq!(
        Profesores::descriptor().sentencia_insert(),
        "INSERT INTO Profesores (dni,nombre,apellido,fechanacimiento,nacionalidad,estadocivil,sexo,cuit,cuil,cuitempleador) VALUES (?,?,?,?,?,?,?,?,?,?)"
    );
    let d = Direcciones::new("Chaco", "Resistencia", "Mitre", &mut f);
    assert_eq!(Direcciones::descriptor().campos.len(), d.valores().len());
    let fam = Familiares::new(&d, &p, &mut f);
    assert_eq!(Familiares::descriptor().campos.len(), fam.valores().len());
    assert_eq!(Familiares::descriptor().tabla, "Familiares");
}
