//! A table of records keyed by their textual id: inserting a record under an
//! id that is already present replaces it, looking up an id finds the record
//! stored under it, and listing hands out every record ordered by creation
//! time. Its model is a `Map` from id to record.

use vstd::prelude::*;
use crate::models::{Instante, instante_le};

verus! {

/// A record that the table can hold: it has a textual id and a creation
/// time, and can be copied.
pub trait Registro: View + Sized {
    /// The id of a record.
    spec fn chave(v: Self::V) -> Seq<char>;

    /// The creation time of a record.
    spec fn momento(v: Self::V) -> Instante;

    fn id_registro(&self) -> (r: &String)
        ensures
            r@ == Self::chave(self@),
    ;

    fn momento_registro(&self) -> (r: Instante)
        ensures
            r == Self::momento(self@),
    ;

    fn copia(&self) -> (r: Self)
        ensures
            r@ == self@,
    ;
}

/// No two records of `s` share an id.
pub open spec fn chaves_distintas<T: Registro>(s: Seq<T>) -> bool {
    forall|i: int, j: int|
        0 <= i < s.len() && 0 <= j < s.len() && i != j ==> T::chave(#[trigger] s[i]@) != T::chave(
            #[trigger] s[j]@,
        )
}

/// The records of `s` come in order of creation time.
pub open spec fn ordenada<T: Registro>(s: Seq<T>) -> bool {
    forall|i: int, j: int|
        0 <= i < j < s.len() ==> instante_le(T::momento(#[trigger] s[i]@), T::momento(#[trigger] s[j]@))
}

/// `s` lists the records of `m` once each: as many as `m` holds, each stored
/// in `m` under its own id, no id twice.
pub open spec fn enumera<T: Registro>(s: Seq<T>, m: Map<Seq<char>, T::V>) -> bool {
    &&& s.len() == m.dom().len()
    &&& forall|i: int|
        0 <= i < s.len() ==> m.contains_key(T::chave(#[trigger] s[i]@)) && m[T::chave(s[i]@)]
            == s[i]@
    &&& chaves_distintas(s)
}

/// The ids of records with distinct ids, in order, hold no duplicate.
proof fn lemma_chaves_sem_repeticao<T: Registro>(s: Seq<T>)
    requires
        chaves_distintas(s),
    ensures
        s.map_values(|x: T| T::chave(x@)).no_duplicates(),
{
    let ks = s.map_values(|x: T| T::chave(x@));
    assert forall|i: int, j: int| 0 <= i < ks.len() && 0 <= j < ks.len() && i != j implies ks[i]
        != ks[j] by {
        assert(ks[i] == T::chave(s[i]@));
        assert(ks[j] == T::chave(s[j]@));
    }
}

/// A listing of a finite map holds every record of the map.
pub proof fn lema_enumera_completa<T: Registro>(s: Seq<T>, m: Map<Seq<char>, T::V>, k: Seq<char>)
    requires
        enumera(s, m),
        m.dom().finite(),
        m.contains_key(k),
    ensures
        exists|i: int| 0 <= i < s.len() && T::chave(#[trigger] s[i]@) == k && s[i]@ == m[k],
{
    let ks = s.map_values(|x: T| T::chave(x@));
    lemma_chaves_sem_repeticao(s);
    ks.unique_seq_to_set();
    assert(ks.to_set().subset_of(m.dom())) by {
        assert forall|x: Seq<char>| ks.to_set().contains(x) implies m.dom().contains(x) by {
            let i: int = choose|i: int| 0 <= i < ks.len() && ks[i] == x;
            assert(ks[i] == T::chave(s[i]@));
        }
    }
    vstd::set_lib::lemma_len_subset(ks.to_set(), m.dom());
    vstd::set_lib::lemma_subset_equality(ks.to_set(), m.dom());
    assert(ks.to_set().contains(k));
    let i: int = choose|i: int| 0 <= i < ks.len() && ks[i] == k;
    assert(T::chave(s[i]@) == k);
}

/// In a listing ordered by creation time, a record created earlier (in an
/// earlier second, or earlier within the same second) comes before one
/// created later.
pub proof fn lema_anterior_vem_antes<T: Registro>(l: Seq<T>, i: int, j: int)
    requires
        ordenada(l),
        0 <= i < l.len(),
        0 <= j < l.len(),
        T::momento(l[i]@).segundos < T::momento(l[j]@).segundos || (T::momento(l[i]@).segundos
            == T::momento(l[j]@).segundos && T::momento(l[i]@).nanos < T::momento(l[j]@).nanos),
    ensures
        i < j,
{
    if j < i {
        assert(instante_le(T::momento(l[j]@), T::momento(l[i]@)));
    }
}

/// No two records of `m` were created at the same instant.
pub open spec fn momentos_distintos<T: Registro>(m: Map<Seq<char>, T::V>) -> bool {
    forall|a: Seq<char>, b: Seq<char>|
        #[trigger] m.contains_key(a) && #[trigger] m.contains_key(b) && a != b ==> T::momento(m[a])
            != T::momento(m[b])
}

proof fn lemma_iguais_ate<T: Registro>(l1: Seq<T>, l2: Seq<T>, m: Map<Seq<char>, T::V>, i: int)
    requires
        enumera(l1, m),
        enumera(l2, m),
        ordenada(l1),
        ordenada(l2),
        m.dom().finite(),
        momentos_distintos::<T>(m),
        0 <= i <= l1.len(),
    ensures
        forall|j: int| 0 <= j < i ==> #[trigger] l1[j]@ == l2[j]@,
    decreases i,
{
    if i > 0 {
        lemma_iguais_ate(l1, l2, m, i - 1);
        let j: int = i - 1;
        let a = l1[j]@;
        let b = l2[j]@;
        let ka = T::chave(a);
        let kb = T::chave(b);
        lema_enumera_completa(l2, m, ka);
        let p: int = choose|p: int| 0 <= p < l2.len() && T::chave(#[trigger] l2[p]@) == ka && l2[p]@ == m[ka];
        lema_enumera_completa(l1, m, kb);
        let q: int = choose|q: int| 0 <= q < l1.len() && T::chave(#[trigger] l1[q]@) == kb && l1[q]@ == m[kb];
        if p != j {
            if p < j {
                assert(l1[p]@ == l2[p]@);
                assert(false);
            }
            if q < j {
                assert(l1[q]@ == l2[q]@);
                assert(false);
            }
            if q == j {
                assert(a == b);
            } else {
                assert(instante_le(T::momento(l2[j]@), T::momento(l2[p]@)));
                assert(instante_le(T::momento(l1[j]@), T::momento(l1[q]@)));
                assert(T::momento(a) == T::momento(b));
                assert(ka != kb) by {
                    if ka == kb {
                        assert(l2[p]@ == m[ka] && l2[j]@ == m[kb]);
                    }
                }
                assert(false);
            }
        }
        assert forall|k: int| 0 <= k < i implies #[trigger] l1[k]@ == l2[k]@ by {
            if k < j {
                assert(l1[k]@ == l2[k]@);
            }
        }
    }
}

/// When no two records of a map were created at the same instant, its
/// listing is fully determined: two listings of the map, each ordered by
/// creation time and holding every record once, hold the same records in the
/// same order.
pub proof fn lema_listagem_determinada<T: Registro>(
    l1: Seq<T>,
    l2: Seq<T>,
    m: Map<Seq<char>, T::V>,
)
    requires
        enumera(l1, m),
        enumera(l2, m),
        ordenada(l1),
        ordenada(l2),
        m.dom().finite(),
        momentos_distintos::<T>(m),
    ensures
        l1.len() == l2.len(),
        forall|i: int| 0 <= i < l1.len() ==> #[trigger] l1[i]@ == l2[i]@,
{
    lemma_iguais_ate(l1, l2, m, l1.len() as int);
}

/// When the records of a map were created at distinct instants, storing a
/// record with a new id created strictly after all of them appends it to the
/// listing: the new listing is the old one, unchanged, followed by it.
pub proof fn lema_mais_recente_no_fim<T: Registro>(
    l: Seq<T>,
    m: Map<Seq<char>, T::V>,
    v: T::V,
    l2: Seq<T>,
)
    requires
        enumera(l, m),
        ordenada(l),
        m.dom().finite(),
        momentos_distintos::<T>(m),
        !m.contains_key(T::chave(v)),
        forall|k: Seq<char>| #[trigger] m.contains_key(k) ==> !instante_le(T::momento(v), T::momento(m[k])),
        enumera(l2, m.insert(T::chave(v), v)),
        ordenada(l2),
    ensures
        l2.len() == l.len() + 1,
        forall|i: int| 0 <= i < l.len() ==> #[trigger] l2[i]@ == l[i]@,
        l2[l.len() as int]@ == v,
{
    let m2 = m.insert(T::chave(v), v);
    lema_enumera_completa(l2, m2, T::chave(v));
    let p: int = choose|p: int| 0 <= p < l2.len() && T::chave(#[trigger] l2[p]@) == T::chave(v) && l2[p]@ == m2[T::chave(v)];
    let t = l2[p];
    let l3 = l.push(t);
    assert(m2.dom() =~= m.dom().insert(T::chave(v)));
    assert forall|i: int| 0 <= i < l3.len() implies m2.contains_key(T::chave(#[trigger] l3[i]@))
        && m2[T::chave(l3[i]@)] == l3[i]@ by {
        if i < l.len() {
            assert(l3[i] == l[i]);
        }
    }
    assert forall|i: int, j: int|
        0 <= i < l3.len() && 0 <= j < l3.len() && i != j implies T::chave(#[trigger] l3[i]@) != T::chave(
        #[trigger] l3[j]@,
    ) by {
        if i < l.len() && j < l.len() {
            assert(l3[i] == l[i] && l3[j] == l[j]);
        } else if i < l.len() {
            assert(l3[i] == l[i]);
        } else {
            assert(l3[j] == l[j]);
        }
    }
    assert forall|i: int, j: int| 0 <= i < j < l3.len() implies instante_le(
        T::momento(#[trigger] l3[i]@),
        T::momento(#[trigger] l3[j]@),
    ) by {
        assert(l3[i] == l[i]);
        if j < l.len() {
            assert(l3[j] == l[j]);
        } else {
            assert(m.contains_key(T::chave(l[i]@)));
        }
    }
    assert forall|a: Seq<char>, b: Seq<char>|
        #[trigger] m2.contains_key(a) && #[trigger] m2.contains_key(b) && a != b implies T::momento(m2[a])
        != T::momento(m2[b]) by {
        if a != T::chave(v) && b != T::chave(v) {
            assert(m.contains_key(a) && m.contains_key(b));
        } else if a == T::chave(v) {
            assert(m.contains_key(b));
        } else {
            assert(m.contains_key(a));
        }
    }
    lema_listagem_determinada(l3, l2, m2);
    assert forall|i: int| 0 <= i < l.len() implies #[trigger] l2[i]@ == l[i]@ by {
        assert(l3[i] == l[i]);
    }
}

/// The id → record map that a sequence of records with distinct ids stands
/// for.
pub closed spec fn mapa_de<T: Registro>(s: Seq<T>) -> Map<Seq<char>, T::V> {
    Map::new(
        |k: Seq<char>| exists|i: int| 0 <= i < s.len() && T::chave(s[i]@) == k,
        |k: Seq<char>| s[choose|i: int| 0 <= i < s.len() && T::chave(s[i]@) == k]@,
    )
}

proof fn lemma_mapa_valor<T: Registro>(s: Seq<T>, i: int)
    requires
        chaves_distintas(s),
        0 <= i < s.len(),
    ensures
        mapa_de(s).contains_key(T::chave(s[i]@)),
        mapa_de(s)[T::chave(s[i]@)] == s[i]@,
{
    let k = T::chave(s[i]@);
    assert(exists|j: int| 0 <= j < s.len() && T::chave(s[j]@) == k);
    let j: int = choose|j: int| 0 <= j < s.len() && T::chave(s[j]@) == k;
    assert(j == i);
}

proof fn lemma_mapa_ausente<T: Registro>(s: Seq<T>, k: Seq<char>)
    requires
        forall|i: int| 0 <= i < s.len() ==> T::chave(#[trigger] s[i]@) != k,
    ensures
        !mapa_de(s).contains_key(k),
{
}

proof fn lemma_mapa_tamanho<T: Registro>(s: Seq<T>)
    requires
        chaves_distintas(s),
    ensures
        mapa_de(s).dom().finite(),
        mapa_de(s).dom().len() == s.len(),
{
    let ks = s.map_values(|x: T| T::chave(x@));
    lemma_chaves_sem_repeticao(s);
    assert(mapa_de(s).dom() =~= ks.to_set()) by {
        assert forall|k: Seq<char>| mapa_de(s).dom().contains(k) implies ks.to_set().contains(k) by {
            let i: int = choose|i: int| 0 <= i < s.len() && T::chave(s[i]@) == k;
            assert(ks[i] == k);
        }
        assert forall|k: Seq<char>| ks.to_set().contains(k) implies mapa_de(s).dom().contains(k) by {
            let i: int = choose|i: int| 0 <= i < ks.len() && ks[i] == k;
            assert(T::chave(s[i]@) == k);
        }
    }
    ks.unique_seq_to_set();
}

proof fn lemma_mapa_vazio<T: Registro>(s: Seq<T>)
    requires
        s.len() == 0,
    ensures
        mapa_de(s) == Map::<Seq<char>, T::V>::empty(),
{
    assert(mapa_de(s) =~= Map::<Seq<char>, T::V>::empty());
}

proof fn lemma_mapa_push<T: Registro>(s: Seq<T>, v: T)
    requires
        chaves_distintas(s),
        forall|i: int| 0 <= i < s.len() ==> T::chave(#[trigger] s[i]@) != T::chave(v@),
    ensures
        chaves_distintas(s.push(v)),
        mapa_de(s.push(v)) == mapa_de(s).insert(T::chave(v@), v@),
{
    let t = s.push(v);
    assert forall|i: int, j: int|
        0 <= i < t.len() && 0 <= j < t.len() && i != j implies T::chave(#[trigger] t[i]@) != T::chave(
        #[trigger] t[j]@,
    ) by {
        if i < s.len() && j < s.len() {
            assert(t[i] == s[i] && t[j] == s[j]);
        } else if i < s.len() {
            assert(t[i] == s[i]);
        } else {
            assert(t[j] == s[j]);
        }
    }
    let m = mapa_de(s).insert(T::chave(v@), v@);
    assert forall|k: Seq<char>| #[trigger] mapa_de(t).contains_key(k) implies m.contains_key(k) && mapa_de(t)[k] == m[k] by {
        let i: int = choose|i: int| 0 <= i < t.len() && T::chave(t[i]@) == k;
        lemma_mapa_valor(t, i);
        if i < s.len() {
            assert(t[i] == s[i]);
            lemma_mapa_valor(s, i);
        }
    }
    assert forall|k: Seq<char>| #[trigger] m.contains_key(k) implies mapa_de(t).contains_key(k) by {
        if k == T::chave(v@) {
            assert(t[s.len() as int] == v);
        } else {
            let i: int = choose|i: int| 0 <= i < s.len() && T::chave(s[i]@) == k;
            assert(t[i] == s[i]);
        }
    }
    assert(mapa_de(t) =~= m);
}

proof fn lemma_mapa_troca<T: Registro>(s: Seq<T>, j: int, v: T)
    requires
        chaves_distintas(s),
        0 <= j < s.len(),
        T::chave(s[j]@) == T::chave(v@),
    ensures
        chaves_distintas(s.update(j, v)),
        mapa_de(s.update(j, v)) == mapa_de(s).insert(T::chave(v@), v@),
{
    let t = s.update(j, v);
    assert forall|a: int, b: int|
        0 <= a < t.len() && 0 <= b < t.len() && a != b implies T::chave(#[trigger] t[a]@) != T::chave(
        #[trigger] t[b]@,
    ) by {
        assert(T::chave(t[a]@) == T::chave(s[a]@));
        assert(T::chave(t[b]@) == T::chave(s[b]@));
    }
    let m = mapa_de(s).insert(T::chave(v@), v@);
    assert forall|k: Seq<char>| #[trigger] mapa_de(t).contains_key(k) implies m.contains_key(k) && mapa_de(t)[k] == m[k] by {
        let i: int = choose|i: int| 0 <= i < t.len() && T::chave(t[i]@) == k;
        lemma_mapa_valor(t, i);
        if i != j {
            assert(t[i] == s[i]);
            lemma_mapa_valor(s, i);
        }
    }
    assert forall|k: Seq<char>| #[trigger] m.contains_key(k) implies mapa_de(t).contains_key(k) by {
        if k == T::chave(v@) {
            assert(t[j] == v);
        } else {
            let i: int = choose|i: int| 0 <= i < s.len() && T::chave(s[i]@) == k;
            assert(T::chave(t[i]@) == k);
        }
    }
    assert(mapa_de(t) =~= m);
}

/// A table of records with distinct ids.
pub struct Tabela<T: Registro> {
    itens: Vec<T>,
}

impl<T: Registro> View for Tabela<T> {
    type V = Map<Seq<char>, T::V>;

    closed spec fn view(&self) -> Map<Seq<char>, T::V> {
        mapa_de(self.itens@)
    }
}

impl<T: Registro> Tabela<T> {
    #[verifier::type_invariant]
    closed spec fn bem_formada(self) -> bool {
        chaves_distintas(self.itens@)
    }

    /// An empty table.
    pub fn new() -> (r: Self)
        ensures
            r@ == Map::<Seq<char>, T::V>::empty(),
    {
        let r = Tabela { itens: Vec::new() };
        proof {
            lemma_mapa_vazio(r.itens@);
        }
        r
    }

    /// Stores `v` under its id, replacing the record stored there before.
    pub fn inserir(&mut self, v: T)
        ensures
            final(self)@ == old(self)@.insert(T::chave(v@), v@),
    {
        proof {
            use_type_invariant(&*self);
        }
        let mut itens: Vec<T> = Vec::new();
        std::mem::swap(&mut itens, &mut self.itens);
        let chave = v.id_registro().clone();
        let mut i: usize = 0;
        let mut achado: Option<usize> = None;
        while i < itens.len()
            invariant_except_break
                achado.is_none(),
            invariant
                0 <= i <= itens.len(),
                chave@ == T::chave(v@),
                forall|k: int| 0 <= k < i ==> T::chave(#[trigger] itens@[k]@) != chave@,
            ensures
                match achado {
                    Some(j) => j < itens.len() && T::chave(itens@[j as int]@) == chave@,
                    None => forall|k: int|
                        0 <= k < itens.len() ==> T::chave(#[trigger] itens@[k]@) != chave@,
                },
            decreases itens.len() - i,
        {
            if itens[i].id_registro().eq(&chave) {
                achado = Some(i);
                break;
            }
            i = i + 1;
        }
        match achado {
            Some(j) => {
                proof {
                    lemma_mapa_troca(itens@, j as int, v);
                }
                itens.set(j, v);
            },
            None => {
                proof {
                    lemma_mapa_push(itens@, v);
                }
                itens.push(v);
            },
        }
        self.itens = itens;
    }

    /// The record stored under `id`, if any.
    pub fn buscar(&self, id: &str) -> (r: Option<&T>)
        ensures
            match r {
                Some(x) => self@.contains_key(id@) && x@ == self@[id@],
                None => !self@.contains_key(id@),
            },
    {
        proof {
            use_type_invariant(self);
        }
        let alvo = String::from_str(id);
        let mut i: usize = 0;
        while i < self.itens.len()
            invariant
                0 <= i <= self.itens.len(),
                alvo@ == id@,
                chaves_distintas(self.itens@),
                forall|k: int| 0 <= k < i ==> T::chave(#[trigger] self.itens@[k]@) != id@,
            decreases self.itens.len() - i,
        {
            if self.itens[i].id_registro().eq(&alvo) {
                proof {
                    lemma_mapa_valor(self.itens@, i as int);
                }
                return Some(&self.itens[i]);
            }
            i = i + 1;
        }
        proof {
            lemma_mapa_ausente(self.itens@, id@);
        }
        None
    }

    /// Every stored record, once each, ordered by creation time (records
    /// created at the same instant come in no stated order).
    pub fn listar(&self) -> (r: Vec<T>)
        ensures
            ordenada(r@),
            enumera(r@, self@),
            self@.dom().finite(),
    {
        proof {
            use_type_invariant(self);
        }
        let n: usize = self.itens.len();
        let mut out: Vec<T> = Vec::new();
        let ghost mut origem: Seq<int> = Seq::empty();
        let mut i: usize = 0;
        while i < n
            invariant
                n == self.itens.len(),
                0 <= i <= n,
                out.len() == i,
                origem.len() == i,
                forall|q: int|
                    0 <= q < i ==> 0 <= #[trigger] origem[q] < i && out@[q]@
                        == self.itens@[origem[q]]@,
                forall|p: int, q: int| 0 <= p < q < i ==> #[trigger] origem[p] != #[trigger] origem[q],
                ordenada(out@),
            decreases n - i,
        {
            let x = self.itens[i].copia();
            let mx = x.momento_registro();
            let mut p: usize = i;
            while p > 0
                invariant
                    0 <= p <= i,
                    out.len() == i,
                    forall|q: int| p <= q < i ==> !instante_le(T::momento(#[trigger] out@[q]@), mx),
                ensures
                    0 <= p <= i,
                    p == 0 || instante_le(T::momento(out@[p - 1]@), mx),
                    forall|q: int| p <= q < i ==> !instante_le(T::momento(#[trigger] out@[q]@), mx),
                decreases p,
            {
                if out[p - 1].momento_registro().nao_depois_de(&mx) {
                    break;
                }
                p = p - 1;
            }
            let ghost antes = out@;
            out.insert(p, x);
            proof {
                antes.insert_ensures(p as int, x);
                let velha = origem;
                origem = origem.insert(p as int, i as int);
                velha.insert_ensures(p as int, i as int);
                assert forall|a: int, b: int| 0 <= a < b < out@.len() implies instante_le(
                    T::momento(#[trigger] out@[a]@),
                    T::momento(#[trigger] out@[b]@),
                ) by {
                    if b < p {
                    } else if a > p {
                        assert(out@[a] == antes[a - 1]);
                        assert(out@[b] == antes[b - 1]);
                    } else if a == p {
                        assert(out@[b] == antes[b - 1]);
                    } else if b == p {
                        assert(instante_le(T::momento(antes[a]@), T::momento(antes[p - 1]@)));
                    } else {
                        assert(out@[b] == antes[b - 1]);
                    }
                }
                assert forall|q: int| 0 <= q < i + 1 implies 0 <= #[trigger] origem[q] < i + 1
                    && out@[q]@ == self.itens@[origem[q]]@ by {
                    if q < p {
                        assert(origem[q] == velha[q]);
                    } else if q > p {
                        assert(origem[q] == velha[q - 1]);
                    }
                }
                assert forall|a: int, b: int| 0 <= a < b < i + 1 implies #[trigger] origem[a]
                    != #[trigger] origem[b] by {
                    if a < p && b < p {
                        assert(origem[a] == velha[a] && origem[b] == velha[b]);
                    } else if a > p && b > p {
                        assert(origem[a] == velha[a - 1] && origem[b] == velha[b - 1]);
                    } else if a < p && b > p {
                        assert(origem[a] == velha[a] && origem[b] == velha[b - 1]);
                    } else if a == p {
                        assert(origem[b] == velha[b - 1]);
                    } else {
                        assert(origem[a] == velha[a]);
                    }
                }
            }
            i = i + 1;
        }
        proof {
            lemma_mapa_tamanho(self.itens@);
            assert forall|q: int| 0 <= q < out@.len() implies self@.contains_key(
                T::chave(#[trigger] out@[q]@),
            ) && self@[T::chave(out@[q]@)] == out@[q]@ by {
                lemma_mapa_valor(self.itens@, origem[q]);
            }
            assert forall|a: int, b: int|
                0 <= a < out@.len() && 0 <= b < out@.len() && a != b implies T::chave(
                #[trigger] out@[a]@,
            ) != T::chave(#[trigger] out@[b]@) by {
                if a < b {
                    assert(origem[a] != origem[b]);
                } else {
                    assert(origem[b] != origem[a]);
                }
            }
        }
        out
    }
}

} // verus!
