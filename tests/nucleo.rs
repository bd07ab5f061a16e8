use carga_datos::calendario::{Fecha, Hora};
use carga_datos::carga::{sentencia_de_columnas, strip_underscore, Descriptor, Pozo};
use carga_datos::claves::{Cuil, Dni};
use carga_datos::contador::{porcentaje_ppm, ContadorGlobal, Notificacion};
use carga_datos::plan::{dependencias, plan, verificar_plan, Entidad};

#[test]
fn contador_nuevo_vacio() {
    let c = ContadorGlobal::new();
    assert_eq!(c.get_total(), 0);
    assert!(c.get_subtotals().is_empty());
}

#[test]
fn contador_incrementa_por_categoria() {
    let mut c = ContadorGlobal::new();
    c.increment(Notificacion::INFO);
    c.increment(Notificacion::INFO);
    c.increment(Notificacion::WARN);
    assert_eq!(c.get_total(), 3);
    assert_eq!(
        c.get_subtotals(),
        vec![(Notificacion::INFO, 2), (Notificacion::WARN, 1)]
    );
    c.increment(Notificacion::ERROR);
    assert_eq!(
        c.get_subtotals(),
        vec![
            (Notificacion::INFO, 2),
            (Notificacion::WARN, 1),
            (Notificacion::ERROR, 1)
        ]
    );
}

#[test]
fn resumen_sin_intentos_no_divide() {
    let c = ContadorGlobal::new();
    let r = c.resumen();
    assert_eq!(r.total, 0);
    assert_eq!(r.exitos_ppm, None);
    assert_eq!(r.rechazos_ppm, None);
}

#[test]
fn resumen_con_intentos() {
    let mut c = ContadorGlobal::new();
    c.increment(Notificacion::INFO);
    c.increment(Notificacion::INFO);
    c.increment(Notificacion::WARN);
    let r = c.resumen();
    assert_eq!(r.total, 3);
    assert_eq!(r.exitos, 2);
    assert_eq!(r.rechazos, 1);
    assert_eq!(r.exitos + r.rechazos, r.total);
    assert_eq!(r.exitos_ppm, Some(666_666));
    assert_eq!(r.rechazos_ppm, Some(333_333));
}

#[test]
fn porcentaje_en_millonesimas() {
    assert_eq!(porcentaje_ppm(1, 4), 250_000);
    assert_eq!(porcentaje_ppm(4, 4), 1_000_000);
    assert_eq!(porcentaje_ppm(0, 7), 0);
    assert_eq!(porcentaje_ppm(usize::MAX, usize::MAX), 1_000_000);
}

#[test]
fn quita_guiones_bajos() {
    assert_eq!(strip_underscore("codigo_postal"), "codigoPostal");
    assert_eq!(strip_underscore("id_declaracion_cargo"), "idDeclaracionCargo");
    assert_eq!(strip_underscore("a__b"), "aB");
    assert_eq!(strip_underscore("_x"), "X");
    assert_eq!(strip_underscore("nombre"), "nombre");
    assert_eq!(strip_underscore("x_1"), "x1");
    assert_eq!(strip_underscore(""), "");
}

#[test]
fn sentencia_de_insercion() {
    let d = Descriptor {
        tabla: "Direcciones".to_string(),
        campos: vec![
            "codigo_postal".to_string(),
            "calle".to_string(),
            "numero".to_string(),
        ],
    };
    assert_eq!(
        d.sentencia_insert(),
        "INSERT INTO Direcciones (codigopostal,calle,numero) VALUES (?,?,?)"
    );
    let vacio = Descriptor { tabla: "T".to_string(), campos: vec![] };
    assert_eq!(vacio.sentencia_insert(), "INSERT INTO T () VALUES ()");
    let mayus = Descriptor {
        tabla: "Profesores".to_string(),
        campos: vec!["DNI".to_string(), "cuit_empleador".to_string()],
    };
    assert_eq!(
        mayus.sentencia_insert(),
        "INSERT INTO Profesores (dni,cuitempleador) VALUES (?,?)"
    );
}

#[test]
fn cuil_desde_dni() {
    let dni = Dni("12345678".to_string());
    assert_eq!(Cuil::new(&dni).texto(), "20123456788");
}

#[test]
fn fecha_desde_ordinal() {
    assert_eq!(Fecha::desde_ordinal(0, 1).dia, 0);
    assert_eq!(Fecha::desde_ordinal(1, 1).dia, 366);
    assert_eq!(Fecha::desde_ordinal(2000, 1).dia, 730_485);
    assert_eq!(Fecha::desde_ordinal(2000, 366).dia, 730_850);
    assert_eq!(Fecha::desde_ordinal(2001, 1).dia, 730_851);
    assert_eq!(Fecha::desde_ordinal(1900, 1).dia, 693_961);
    assert_eq!(Fecha::desde_ordinal(9998, 365).dia, 3_652_059);
    assert_eq!(Fecha::desde_ordinal(1970, 10).mas_dias(30).dia, Fecha::desde_ordinal(1970, 40).dia);
}

#[test]
fn hora_mas_horas_en_el_dia() {
    let h = Hora::desde_hms(21, 30, 15);
    assert_eq!(h.segundos, 77_415);
    assert_eq!(h.mas_horas(2).segundos, 84_615);
    assert_eq!(Hora::desde_hms(0, 0, 0).mas_horas(8).segundos, 28_800);
    assert_eq!(Hora::desde_hms(15, 59, 59).mas_horas(8).segundos, 86_399);
}

#[test]
fn plan_fijo_es_valido() {
    let p = plan();
    assert_eq!(p.len(), 37);
    assert_eq!(p[0], Entidad::Direcciones);
    assert!(verificar_plan(&p));
}

#[test]
fn plan_desordenado_es_rechazado() {
    let mut p = plan();
    p.swap(8, 13);
    assert!(!verificar_plan(&p));
    let solo = vec![Entidad::Profesores];
    assert!(!verificar_plan(&solo));
    assert!(verificar_plan(&vec![]));
    assert!(verificar_plan(&vec![Entidad::Titulos, Entidad::Idiomas]));
}

#[test]
fn dependencias_de_una_entidad() {
    assert_eq!(
        dependencias(Entidad::AntecedentesDocentes),
        vec![
            Entidad::Profesores,
            Entidad::Instituciones,
            Entidad::DeclaracionesDeCargo
        ]
    );
    assert!(dependencias(Entidad::Direcciones).is_empty());
}

#[test]
fn pozo_guarda_solo_aceptadas() {
    let mut c = ContadorGlobal::new();
    let mut p: Pozo<u32> = Pozo::new();
    p.registrar(1, true, &mut c);
    p.registrar(2, false, &mut c);
    p.registrar(3, true, &mut c);
    assert_eq!(p.filas(), &vec![1, 3]);
    assert_eq!(p.len(), 2);
    assert_eq!(c.get_total(), 3);
    let r = c.resumen();
    assert_eq!((r.exitos, r.rechazos, r.errores), (2, 1, 0));
}

#[test]
fn sentencia_desde_columnas() {
    let cols = vec!["a".to_string(), "b".to_string()];
    assert_eq!(sentencia_de_columnas("T", &cols), "INSERT INTO T (a,b) VALUES (?,?)");
    assert_eq!(sentencia_de_columnas("T", &vec![]), "INSERT INTO T () VALUES ()");
}

#[test]
fn columnas_en_minusculas_no_ascii() {
    let d = Descriptor {
        tabla: "Datos".to_string(),
        campos: vec!["Ñandú_x".to_string(), "ÁREA".to_string()],
    };
    assert_eq!(d.columnas(), vec!["ñandúx".to_string(), "área".to_string()]);
    assert_eq!(d.sentencia_insert(), "INSERT INTO Datos (ñandúx,área) VALUES (?,?)");
}

#[test]
fn pozo_registra_una_etapa_entera() {
    let mut c = ContadorGlobal::new();
    let mut p: Pozo<u32> = Pozo::new();
    p.registrar(7, true, &mut c);
    p.registrar_todas(vec![1, 2, 3, 4, 5, 6], &vec![true, true, false, true, true, false], &mut c);
    assert_eq!(p.filas(), &vec![7, 1, 2, 4, 5]);
    let r = c.resumen();
    assert_eq!((r.total, r.exitos, r.rechazos), (7, 5, 2));
    p.registrar_todas(vec![], &vec![], &mut c);
    assert_eq!(p.len(), 5);
}
