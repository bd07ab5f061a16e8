//! Static reference data: the province, locality and street hierarchy that
//! addresses are drawn from.

use crate::azar::Fuente;
use crate::entidades::Direcciones;
use vstd::prelude::*;

verus! {

/// A locality with the streets that belong to it.
#[derive(Clone, Debug)]
pub struct Localidad {
    pub nombre: String,
    pub calles: Vec<String>,
}

/// A province with its localities.
#[derive(Clone, Debug)]
pub struct Provincia {
    pub nombre: String,
    pub localidades: Vec<Localidad>,
}

pub type VistaLocalidad = (Seq<char>, Seq<Seq<char>>);

pub type VistaProvincia = (Seq<char>, Seq<VistaLocalidad>);

impl Localidad {
    pub open spec fn vista(&self) -> VistaLocalidad {
        (self.nombre@, self.calles@.map_values(|c: String| c@))
    }
}

impl Provincia {
    pub open spec fn vista(&self) -> VistaProvincia {
        (self.nombre@, self.localidades@.map_values(|l: Localidad| l.vista()))
    }
}

pub open spec fn vista_provincias(ps: Seq<Provincia>) -> Seq<VistaProvincia> {
    ps.map_values(|p: Provincia| p.vista())
}

/// Index of the first entry of `ps` named `n`, or -1.
pub open spec fn posicion<X>(ps: Seq<(Seq<char>, X)>, n: Seq<char>) -> int
    decreases ps.len(),
{
    if ps.len() == 0 {
        -1
    } else if posicion(ps.drop_last(), n) >= 0 {
        posicion(ps.drop_last(), n)
    } else if ps.last().0 == n {
        ps.len() - 1
    } else {
        -1
    }
}

/// `ps` with street `calle` of locality `loc` of province `prov` added: to the
/// locality's streets when the province already has the locality, as a new
/// locality of the province when only the province is known, as a new province
/// otherwise.
pub open spec fn agregar(
    ps: Seq<VistaProvincia>,
    loc: Seq<char>,
    calle: Seq<char>,
    prov: Seq<char>,
) -> Seq<VistaProvincia> {
    let i = posicion(ps, prov);
    if i >= 0 {
        let p = ps[i];
        let j = posicion(p.1, loc);
        if j >= 0 {
            ps.update(i, (p.0, p.1.update(j, (p.1[j].0, p.1[j].1.push(calle)))))
        } else {
            ps.update(i, (p.0, p.1.push((loc, seq![calle]))))
        }
    } else {
        ps.push((prov, seq![(loc, seq![calle])]))
    }
}

/// The hierarchy that rows `(locality, street, province)` describe, each
/// province and each locality of a province once, in order of first appearance.
pub open spec fn agrupar(filas: Seq<(Seq<char>, Seq<char>, Seq<char>)>) -> Seq<VistaProvincia>
    decreases filas.len(),
{
    if filas.len() == 0 {
        Seq::empty()
    } else {
        let f = filas.last();
        agregar(agrupar(filas.drop_last()), f.0, f.1, f.2)
    }
}

pub open spec fn vista_filas(
    filas: Seq<(String, String, String)>,
) -> Seq<(Seq<char>, Seq<char>, Seq<char>)> {
    filas.map_values(|f: (String, String, String)| (f.0@, f.1@, f.2@))
}

/// The first entry named `n` is at `i`, or there is none when `i` is the length.
pub proof fn lema_posicion<X>(ps: Seq<(Seq<char>, X)>, n: Seq<char>, i: int)
    requires
        0 <= i <= ps.len(),
        forall|j: int| 0 <= j < i ==> (#[trigger] ps[j]).0 != n,
        i < ps.len() ==> ps[i].0 == n,
    ensures
        posicion(ps, n) == if i < ps.len() {
            i
        } else {
            -1
        },
    decreases ps.len(),
{
    if ps.len() > 0 {
        let q = ps.drop_last();
        if i < ps.len() - 1 {
            lema_posicion(q, n, i);
        } else {
            lema_posicion(q, n, q.len() as int);
        }
    }
}

/// `posicion` is -1 or an index of an entry named `n`.
pub proof fn lema_posicion_rango<X>(ps: Seq<(Seq<char>, X)>, n: Seq<char>)
    ensures
        -1 <= posicion(ps, n) < ps.len(),
        posicion(ps, n) >= 0 ==> ps[posicion(ps, n)].0 == n,
    decreases ps.len(),
{
    if ps.len() > 0 {
        lema_posicion_rango(ps.drop_last(), n);
    }
}

/// Index of the first locality of `ls` named `n`.
fn buscar_localidad(ls: &Vec<Localidad>, n: &String) -> (r: Option<usize>)
    ensures
        match r {
            Some(i) => i < ls.len() && posicion(ls@.map_values(|l: Localidad| l.vista()), n@) == i,
            None => posicion(ls@.map_values(|l: Localidad| l.vista()), n@) == -1,
        },
{
    let ghost vs = ls@.map_values(|l: Localidad| l.vista());
    let mut i: usize = 0;
    while i < ls.len()
        invariant
            i <= ls.len(),
            vs == ls@.map_values(|l: Localidad| l.vista()),
            forall|j: int| 0 <= j < i ==> (#[trigger] vs[j]).0 != n@,
        decreases ls.len() - i,
    {
        if ls[i].nombre == *n {
            proof {
                lema_posicion(vs, n@, i as int);
            }
            return Some(i);
        }
        i = i + 1;
    }
    proof {
        lema_posicion(vs, n@, i as int);
    }
    None
}

/// Index of the first province of `ps` named `n`.
fn buscar_provincia(ps: &Vec<Provincia>, n: &String) -> (r: Option<usize>)
    ensures
        match r {
            Some(i) => i < ps.len() && posicion(vista_provincias(ps@), n@) == i,
            None => posicion(vista_provincias(ps@), n@) == -1,
        },
{
    let ghost vs = vista_provincias(ps@);
    let mut i: usize = 0;
    while i < ps.len()
        invariant
            i <= ps.len(),
            vs == vista_provincias(ps@),
            forall|j: int| 0 <= j < i ==> (#[trigger] vs[j]).0 != n@,
        decreases ps.len() - i,
    {
        if ps[i].nombre == *n {
            proof {
                lema_posicion(vs, n@, i as int);
            }
            return Some(i);
        }
        i = i + 1;
    }
    proof {
        lema_posicion(vs, n@, i as int);
    }
    None
}

/// The hierarchy described by rows `(locality, street, province)`.
pub fn agrupar_provincias(filas: &Vec<(String, String, String)>) -> (r: Vec<Provincia>)
    ensures
        vista_provincias(r@) == agrupar(vista_filas(filas@)),
        jerarquia_completa(vista_provincias(r@)),
{
    let ghost vf = vista_filas(filas@);
    let mut provincias: Vec<Provincia> = Vec::new();
    let mut i: usize = 0;
    while i < filas.len()
        invariant
            i <= filas.len(),
            vf == vista_filas(filas@),
            vista_provincias(provincias@) == agrupar(vf.subrange(0, i as int)),
        decreases filas.len() - i,
    {
        let ghost antes = vista_provincias(provincias@);
        let localidad = filas[i].0.clone();
        let calle = filas[i].1.clone();
        let provincia = filas[i].2.clone();
        proof {
            assert(vf.subrange(0, i as int + 1).drop_last() =~= vf.subrange(0, i as int));
            assert(vf.subrange(0, i as int + 1).last() == (localidad@, calle@, provincia@));
        }
        match buscar_provincia(&provincias, &provincia) {
            Some(p) => {
                match buscar_localidad(&provincias[p].localidades, &localidad) {
                    Some(l) => {
                        let ghost pv = antes[p as int];
                        assert(pv == provincias@[p as int].vista());
                        assert(l < pv.1.len());
                        let mut prov = provincias[p].clone_vista();
                        assert(prov.vista() == pv);
                        assert(prov.localidades@.len() == pv.1.len());
                        let mut loc = prov.localidades[l].clone_vista();
                        let ghost lv = pv.1[l as int];
                        assert(loc.vista() == lv);
                        loc.calles.push(calle);
                        assert(loc.vista().1 =~= lv.1.push(calle@));
                        prov.localidades.set(l, loc);
                        assert(prov.vista().1 =~= pv.1.update(l as int, (lv.0, lv.1.push(calle@))));
                        provincias.set(p, prov);
                        proof {
                            assert(vista_provincias(provincias@) =~= antes.update(
                                p as int,
                                (pv.0, pv.1.update(l as int, (lv.0, lv.1.push(calle@)))),
                            ));
                        }
                    },
                    None => {
                        let mut prov = provincias[p].clone_vista();
                        let ghost pv = antes[p as int];
                        assert(prov.vista() == pv);
                        let nueva = Localidad { nombre: localidad, calles: vec![calle] };
                        assert(nueva.vista().1 =~= seq![calle@]);
                        prov.localidades.push(nueva);
                        assert(prov.vista().1 =~= pv.1.push((localidad@, seq![calle@])));
                        provincias.set(p, prov);
                        proof {
                            assert(vista_provincias(provincias@) =~= antes.update(
                                p as int,
                                (pv.0, pv.1.push((localidad@, seq![calle@]))),
                            ));
                        }
                    },
                }
            },
            None => {
                let nueva = Localidad { nombre: localidad, calles: vec![calle] };
                assert(nueva.vista().1 =~= seq![calle@]);
                let prov = Provincia { nombre: provincia, localidades: vec![nueva] };
                assert(prov.vista().1 =~= seq![(localidad@, seq![calle@])]);
                provincias.push(prov);
                proof {
                    assert(vista_provincias(provincias@) =~= antes.push(
                        (provincia@, seq![(localidad@, seq![calle@])]),
                    ));
                }
            },
        }
        i = i + 1;
    }
    assert(vf.subrange(0, filas.len() as int) =~= vf);
    proof {
        lema_agrupar_completa(vf);
    }
    provincias
}

impl Localidad {
    /// A copy with the same view.
    pub fn clone_vista(&self) -> (r: Localidad)
        ensures
            r.vista() == self.vista(),
    {
        let mut calles: Vec<String> = Vec::new();
        let mut i: usize = 0;
        while i < self.calles.len()
            invariant
                i <= self.calles.len(),
                calles.len() == i,
                forall|j: int| 0 <= j < i ==> (#[trigger] calles@[j])@ == self.calles@[j]@,
            decreases self.calles.len() - i,
        {
            calles.push(self.calles[i].clone());
            i = i + 1;
        }
        let r = Localidad { nombre: self.nombre.clone(), calles };
        assert(r.vista().1 =~= self.vista().1);
        r
    }
}

impl Provincia {
    /// A copy with the same view.
    pub fn clone_vista(&self) -> (r: Provincia)
        ensures
            r.vista() == self.vista(),
    {
        let mut locs: Vec<Localidad> = Vec::new();
        let mut i: usize = 0;
        while i < self.localidades.len()
            invariant
                i <= self.localidades.len(),
                locs.len() == i,
                forall|j: int|
                    0 <= j < i ==> (#[trigger] locs@[j]).vista() == self.localidades@[j].vista(),
            decreases self.localidades.len() - i,
        {
            locs.push(self.localidades[i].clone_vista());
            i = i + 1;
        }
        let r = Provincia { nombre: self.nombre.clone(), localidades: locs };
        assert(r.vista().1 =~= self.vista().1);
        r
    }
}

/// Every province has a locality and every locality a street.
pub open spec fn jerarquia_completa(ps: Seq<VistaProvincia>) -> bool {
    forall|i: int|
        #![trigger ps[i]]
        0 <= i < ps.len() ==> ps[i].1.len() > 0 && forall|j: int|
            #![trigger ps[i].1[j]]
            0 <= j < ps[i].1.len() ==> ps[i].1[j].1.len() > 0
}

/// Grouping rows never leaves a province without a locality nor a locality
/// without a street.
pub proof fn lema_agrupar_completa(filas: Seq<(Seq<char>, Seq<char>, Seq<char>)>)
    ensures
        jerarquia_completa(agrupar(filas)),
    decreases filas.len(),
{
    if filas.len() > 0 {
        let q = filas.drop_last();
        lema_agrupar_completa(q);
        let ps = agrupar(q);
        let f = filas.last();
        lema_posicion_rango(ps, f.2);
        let i = posicion(ps, f.2);
        if i >= 0 {
            lema_posicion_rango(ps[i].1, f.0);
        }
        let r = agrupar(filas);
        assert forall|a: int| #![trigger r[a]] 0 <= a < r.len() implies r[a].1.len() > 0
            && forall|j: int| #![trigger r[a].1[j]] 0 <= j < r[a].1.len() ==> r[a].1[j].1.len()
            > 0 by {
            if a < ps.len() && a != i {
                assert(r[a] == ps[a]);
            }
        }
    }
}

/// `d` is at a street of a locality of a province of `ps`, with their names.
pub open spec fn en_jerarquia(ps: Seq<VistaProvincia>, d: Direcciones) -> bool {
    exists|i: int, j: int, k: int|
        0 <= i < ps.len() && 0 <= j < ps[i].1.len() && 0 <= k < ps[i].1[j].1.len()
            && #[trigger] ps[i].1[j].1[k] == d.calle@ && d.provincia@ == ps[i].0 && d.localidad@
            == ps[i].1[j].0
}

/// An address at a street drawn from the hierarchy: a province, then one of
/// its localities, then one of its streets.
pub fn direccion_al_azar(provincias: &Vec<Provincia>, fuente: &mut Fuente) -> (r: Direcciones)
    requires
        provincias.len() > 0,
        jerarquia_completa(vista_provincias(provincias@)),
    ensures
        1000 <= r.codigo_postal <= 9999,
        en_jerarquia(vista_provincias(provincias@), r),
{
    let ghost vs = vista_provincias(provincias@);
    let i = fuente.elegir_indice(provincias.len());
    let prov = &provincias[i];
    assert(vs[i as int] == prov.vista());
    assert(vs[i as int].1.len() > 0);
    let j = fuente.elegir_indice(prov.localidades.len());
    let loc = &prov.localidades[j];
    assert(vs[i as int].1[j as int] == loc.vista());
    assert(vs[i as int].1[j as int].1.len() > 0);
    let k = fuente.elegir_indice(loc.calles.len());
    let r = Direcciones::new(prov.nombre.as_str(), loc.nombre.as_str(), loc.calles[k].as_str(), fuente);
    assert(vs[i as int].1[j as int].1[k as int] == r.calle@);
    r
}

} // verus!
