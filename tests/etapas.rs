use carga_datos::azar::Fuente;
use carga_datos::entidades::{
    CursosConferencias, Direcciones, Familiares, Instituciones, ObrasSociales, Profesores,
    Seguros, Titulos,
};
use carga_datos::etapas::{
    cargar_antecedentes_profesionales, cargar_contactos, cargar_declaraciones_cargo,
    cargar_dependencias_o_empresas, cargar_empleadores, cargar_horarios, cargar_instituciones,
    cargar_profesores, todos_admiten_antecedentes,
};
use carga_datos::relaciones::{
    cargar_asegura_a, cargar_atendio_a, cargar_beneficia, cargar_se_da_titulo,
};

fn dirs(f: &mut Fuente) -> Vec<Direcciones> {
    (0..4)
        .map(|i| Direcciones::new("Chaco", "Resistencia", &format!("Calle {i}"), f))
        .collect()
}

fn profesores(n: usize, f: &mut Fuente) -> Vec<Profesores> {
    let ds = dirs(f);
    let emps = cargar_empleadores(&ds, 3, f);
    cargar_profesores(&emps, n, f)
}

#[test]
fn instituciones_con_nombres_barajados() {
    let mut f = Fuente::con_semilla(21);
    let ds = dirs(&mut f);
    let nombres: Vec<String> = (0..10).map(|i| format!("Universidad {i}")).collect();
    let insts = cargar_instituciones(&nombres, &ds, 4, &mut f);
    assert_eq!(insts.len(), 4);
    let mut vistos: Vec<&String> = insts.iter().map(|i| &i.nombre).collect();
    vistos.sort();
    vistos.dedup();
    assert_eq!(vistos.len(), 4);
    for i in &insts {
        assert!(nombres.contains(&i.nombre));
        assert!(ds.iter().any(|d| d.calle == i.calle && d.numero == i.numero));
    }
    let todas = cargar_instituciones(&nombres, &ds, 50, &mut f);
    assert_eq!(todas.len(), 10);
    let orden: Vec<String> = todas.iter().map(|i| i.nombre.clone()).collect();
    assert_ne!(orden, nombres);
    let mut ordenados = orden.clone();
    ordenados.sort();
    let mut esperados = nombres.clone();
    esperados.sort();
    assert_eq!(ordenados, esperados);
}

#[test]
fn etapas_referencian_sus_pozos() {
    let mut f = Fuente::con_semilla(22);
    let ds = dirs(&mut f);
    let emps = cargar_empleadores(&ds, 6, &mut f);
    assert_eq!(emps.len(), 6);
    for e in &emps {
        assert!(ds.iter().any(|d| d.codigo_postal == e.codigo_postal && d.calle == e.calle));
    }
    let profs = cargar_profesores(&emps, 5, &mut f);
    assert_eq!(profs.len(), 5);
    for p in &profs {
        assert!(emps.iter().any(|e| e.cuit == p.cuit_empleador));
    }
    let contactos = cargar_contactos(&profs, &mut f);
    assert_eq!(contactos.len(), profs.len());
    let obras = vec![ObrasSociales::new("OSDE", 3), ObrasSociales::new("IOSFA", 4)];
    let deps = cargar_dependencias_o_empresas(&profs, &ds, &obras, 4, &mut f);
    for d in &deps {
        assert!(obras.iter().any(|o| o.id_obrasocial == d.id_obrasocial));
        assert!(profs.iter().any(|p| p.dni == d.dni_profesor));
    }
    let decs = cargar_declaraciones_cargo(&deps, 4, &mut f);
    for d in &decs {
        assert!(deps.iter().any(|e| e.dni_profesor == d.dni_profesor && e.nombre == d.nombre_dep));
    }
    assert!(todos_admiten_antecedentes(&profs));
    let ants = cargar_antecedentes_profesionales(&profs, &decs, 10, &mut f);
    assert_eq!(ants.len(), 10);
    for a in &ants {
        assert!(a.desde.dia <= a.hasta.dia);
        assert!(decs.iter().any(|d| d.id_declaracion == a.id_declaracion));
    }
    let hs = cargar_horarios(&decs, 3, &mut f);
    assert_eq!(hs.len(), 3);
}

#[test]
fn atendio_a_dura_segun_el_tipo() {
    let mut f = Fuente::con_semilla(23);
    let profs = profesores(6, &mut f);
    let d = Direcciones::new("Chaco", "Resistencia", "Mitre", &mut f);
    let inst = Instituciones::new(&d, "UNNE");
    let cursos: Vec<CursosConferencias> = (0..4).map(|_| CursosConferencias::new(&inst, &mut f)).collect();
    let filas = cargar_atendio_a(&cursos, &profs, &mut f);
    assert_eq!(filas.len(), 6);
    for (k, fila) in filas.iter().enumerate() {
        assert_eq!(fila.dni_profesor, profs[k].dni);
        let c = cursos.iter().find(|c| c.nombre_curso == fila.nombre_curso).unwrap();
        let dur = fila.hasta.unwrap().dia - fila.desde.dia;
        if c.tipo == "Curso" {
            assert_eq!(dur, 30);
        } else {
            assert_eq!(dur, 1);
        }
    }
}

#[test]
fn beneficia_entre_mitad_y_total() {
    let mut f = Fuente::con_semilla(24);
    let profs = profesores(2, &mut f);
    let d = Direcciones::new("Chaco", "Resistencia", "Mitre", &mut f);
    let fams: Vec<Familiares> = (0..3).map(|_| Familiares::new(&d, &profs[0], &mut f)).collect();
    let obras = vec![ObrasSociales::new("OSDE", 3)];
    for _ in 0..20 {
        let filas = cargar_beneficia(&obras, &fams, 10, &mut f);
        assert!(filas.len() >= 5 && filas.len() < 10);
        for b in &filas {
            assert_eq!(b.id_obra_social, 3);
            assert!(fams.iter().any(|x| x.dni_familiar == b.dni_familiar));
        }
    }
    assert!(cargar_beneficia(&obras, &fams, 1, &mut f).is_empty());
}

#[test]
fn asegura_a_con_capital_en_rango() {
    let mut f = Fuente::con_semilla(25);
    let profs = profesores(1, &mut f);
    let d = Direcciones::new("Chaco", "Resistencia", "Mitre", &mut f);
    let fams = vec![Familiares::new(&d, &profs[0], &mut f)];
    let seguros: Vec<Seguros> = (0..5).map(|_| Seguros::generar(&mut f)).collect();
    let filas = cargar_asegura_a(&seguros, &fams, &mut f);
    assert_eq!(filas.len(), 5);
    for (k, a) in filas.iter().enumerate() {
        assert_eq!(a.codigo_compania, seguros[k].codigo_compania);
        assert_eq!(a.capital_asegurado.escala, 2);
        assert!((10_000_000..100_000_000).contains(&a.capital_asegurado.digitos));
        assert_eq!(a.dni_familiar, fams[0].dni_familiar);
    }
    for s in &seguros {
        assert!(s.fecha_emision.dia >= 0 && s.fecha_emision.dia < 1_095_728);
    }
}

#[test]
fn se_da_titulo_por_institucion() {
    let mut f = Fuente::con_semilla(26);
    let d = Direcciones::new("Chaco", "Resistencia", "Mitre", &mut f);
    let insts = vec![Instituciones::new(&d, "UNNE"), Instituciones::new(&d, "UTN")];
    let titulos: Vec<Titulos> = (0..3).map(|_| Titulos::generar(&mut f)).collect();
    let filas = cargar_se_da_titulo(&titulos, &insts, &mut f);
    assert!(filas.len() >= 2 && filas.len() <= 8);
    for fila in &filas {
        assert!(titulos.iter().any(|t| t.titulo == fila.titulo && t.nivel == fila.nivel));
        assert!(fila.nombre_inst == "UNNE" || fila.nombre_inst == "UTN");
    }
    for t in &titulos {
        assert!(["Terciario", "Maestria", "Doctorado", "Tecnicatura"].contains(&t.nivel.as_str()));
        assert_eq!(t.titulo.split(' ').count(), 4);
    }
}

#[test]
fn pozos_vacios_sin_hijos() {
    let mut f = Fuente::con_semilla(27);
    assert!(cargar_atendio_a(&vec![], &vec![], &mut f).is_empty());
    assert!(cargar_asegura_a(&vec![], &vec![], &mut f).is_empty());
    assert!(cargar_empleadores(&vec![], 0, &mut f).is_empty());
}
